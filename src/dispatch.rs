use crate::entities;
use crate::error::Error;
use crate::friendica;
use crate::gotosocial;
use vstd::prelude::*;
use vstd::string::*;

verus! {

/// The server implementations this library speaks to.
#[derive(Clone, Copy, Debug, PartialEq, Eq, Structural)]
pub enum SNS {
    Mastodon,
    Pleroma,
    Friendica,
    Gotosocial,
}

/// The dialect that a server name selects, if any.
pub open spec fn sns_of(name: Seq<char>) -> Option<SNS> {
    if name == "mastodon"@ {
        Some(SNS::Mastodon)
    } else if name == "pleroma"@ {
        Some(SNS::Pleroma)
    } else if name == "friendica"@ {
        Some(SNS::Friendica)
    } else if name == "gotosocial"@ {
        Some(SNS::Gotosocial)
    } else {
        None
    }
}

fn same_text(a: &str, b: &str) -> (r: bool)
    ensures
        r == (a@ == b@),
{
    String::from_str(a) == String::from_str(b)
}

impl SNS {
    /// The dialect named `name`; an unknown name is an error that carries it.
    pub fn from_name(name: &str) -> (r: Result<SNS, Error>)
        ensures
            sns_of(name@) matches Some(k) ==> r == Ok::<SNS, Error>(k),
            sns_of(name@) is None ==> (r matches Err(Error::UnsupportedDialect { name: n })
                && n@ == name@),
    {
        if same_text(name, "mastodon") {
            Ok(SNS::Mastodon)
        } else if same_text(name, "pleroma") {
            Ok(SNS::Pleroma)
        } else if same_text(name, "friendica") {
            Ok(SNS::Friendica)
        } else if same_text(name, "gotosocial") {
            Ok(SNS::Gotosocial)
        } else {
            Err(Error::UnsupportedDialect { name: String::from_str(name) })
        }
    }
}

/// The settings a client is bound to. It does no I/O of its own: it fixes which
/// dialect's conversions turn the server's answers into canonical entities.
#[derive(Clone, Debug, PartialEq)]
pub struct Client {
    pub sns: SNS,
    pub base_url: String,
    pub access_token: Option<String>,
    pub user_agent: Option<String>,
}

/// Binds a client to a dialect, a server and optional credentials.
pub fn generator(
    sns: SNS,
    base_url: String,
    access_token: Option<String>,
    user_agent: Option<String>,
) -> (r: Client)
    ensures
        r == (Client { sns, base_url, access_token, user_agent }),
{
    Client { sns, base_url, access_token, user_agent }
}

/// An account in the shape one dialect writes it.
#[derive(Debug, PartialEq)]
pub enum DialectAccount {
    /// The shape of Mastodon and Pleroma, which is the canonical one.
    Default(entities::Account),
    Friendica(friendica::Account),
    Gotosocial(gotosocial::Account),
}

/// Whether a dialect writes its accounts in the given shape.
pub open spec fn shape_matches(sns: SNS, raw: DialectAccount) -> bool {
    match raw {
        DialectAccount::Default(_) => sns == SNS::Mastodon || sns == SNS::Pleroma,
        DialectAccount::Friendica(_) => sns == SNS::Friendica,
        DialectAccount::Gotosocial(_) => sns == SNS::Gotosocial,
    }
}

/// The canonical account that an account of any shape stands for.
pub open spec fn canonical_account(raw: DialectAccount) -> entities::Account {
    match raw {
        DialectAccount::Default(a) => a,
        DialectAccount::Friendica(a) => a.canonical(),
        DialectAccount::Gotosocial(a) => a.canonical(),
    }
}

impl Client {
    /// Turns an account that this client's server answered with into the
    /// canonical one. An account in another dialect's shape breaks the
    /// client's binding, and one whose `moved` chain names an account twice is
    /// a cycle: both are refused.
    pub fn account_into_canonical(&self, raw: DialectAccount) -> (r: Result<
        entities::Account,
        Error,
    >)
        ensures
            shape_matches(self.sns, raw) && entities::moved_chain_acyclic(canonical_account(raw))
                ==> r == Ok::<entities::Account, Error>(canonical_account(raw)),
            !shape_matches(self.sns, raw) ==> r matches Err(Error::ConversionInvariant { .. }),
            !entities::moved_chain_acyclic(canonical_account(raw)) ==> r matches Err(
                Error::ConversionInvariant { .. },
            ),
    {
        let ok = match &raw {
            DialectAccount::Default(_) => self.sns == SNS::Mastodon || self.sns == SNS::Pleroma,
            DialectAccount::Friendica(_) => self.sns == SNS::Friendica,
            DialectAccount::Gotosocial(_) => self.sns == SNS::Gotosocial,
        };
        if !ok {
            return Err(
                Error::ConversionInvariant {
                    reason: "account in another dialect's shape".to_string(),
                },
            );
        }
        let account = match raw {
            DialectAccount::Default(a) => a,
            DialectAccount::Friendica(a) => a.into_canonical(),
            DialectAccount::Gotosocial(a) => a.into_canonical(),
        };
        match entities::check_moved_chain(&account) {
            Ok(()) => Ok(account),
            Err(e) => Err(e),
        }
    }

    /// Writes a canonical account back in the shape of this client's dialect.
    pub fn account_from_canonical(&self, item: entities::Account) -> (r: DialectAccount)
        ensures
            shape_matches(self.sns, r),
            self.sns == SNS::Mastodon || self.sns == SNS::Pleroma ==> r == DialectAccount::Default(
                item,
            ),
            self.sns == SNS::Friendica ==> r == DialectAccount::Friendica(
                friendica::from_canonical_spec(item),
            ),
            self.sns == SNS::Gotosocial ==> r == DialectAccount::Gotosocial(
                gotosocial::from_canonical_spec(item),
            ),
    {
        match self.sns {
            SNS::Mastodon | SNS::Pleroma => DialectAccount::Default(item),
            SNS::Friendica => DialectAccount::Friendica(friendica::Account::from_canonical(item)),
            SNS::Gotosocial => DialectAccount::Gotosocial(
                gotosocial::Account::from_canonical(item),
            ),
        }
    }
}

/// For every dialect, a canonical account built from that dialect survives a
/// write-back to the same dialect and a fresh conversion unchanged.
pub proof fn lemma_same_dialect_round_trip(sns: SNS, raw: DialectAccount)
    requires
        shape_matches(sns, raw),
    ensures
        ({
            let c = canonical_account(raw);
            let back = match sns {
                SNS::Mastodon | SNS::Pleroma => DialectAccount::Default(c),
                SNS::Friendica => DialectAccount::Friendica(friendica::from_canonical_spec(c)),
                SNS::Gotosocial => DialectAccount::Gotosocial(gotosocial::from_canonical_spec(c)),
            };
            shape_matches(sns, back) && canonical_account(back) == c
        }),
{
    match raw {
        DialectAccount::Friendica(a) => friendica::lemma_round_trip(a),
        DialectAccount::Gotosocial(a) => gotosocial::lemma_round_trip(a),
        DialectAccount::Default(_) => {},
    }
}

} // verus!
