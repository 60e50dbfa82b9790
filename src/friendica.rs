use crate::entities;
use crate::entities::{Emoji, Field, Source};
use crate::time::UtcDateTime;
use vstd::prelude::*;

verus! {

/// An account as a Friendica server writes it. Friendica reports `group` as a
/// plain flag and may report the account this one moved to, but has no
/// `noindex`, `suspended`, `limited`, `role` or `mute_expires_at`.
#[derive(Debug, PartialEq)]
pub struct Account {
    pub id: String,
    pub username: String,
    pub acct: String,
    pub display_name: String,
    pub locked: bool,
    pub discoverable: Option<bool>,
    pub group: bool,
    pub created_at: UtcDateTime,
    pub followers_count: i32,
    pub following_count: u32,
    pub statuses_count: u32,
    pub note: String,
    pub url: String,
    pub avatar: String,
    pub avatar_static: String,
    pub header: String,
    pub header_static: String,
    pub emojis: Vec<Emoji>,
    pub moved: Option<Box<Account>>,
    pub fields: Vec<Field>,
    pub bot: bool,
    pub source: Option<Source>,
}

/// The Friendica account that a canonical account is written back as: an absent
/// `group` becomes `false`, and the fields Friendica cannot take are dropped.
pub open spec fn from_canonical_spec(c: entities::Account) -> Account
    decreases c,
{
    Account {
        id: c.id,
        username: c.username,
        acct: c.acct,
        display_name: c.display_name,
        locked: c.locked,
        discoverable: c.discoverable,
        group: match c.group {
            Some(g) => g,
            None => false,
        },
        created_at: c.created_at,
        followers_count: c.followers_count,
        following_count: c.following_count,
        statuses_count: c.statuses_count,
        note: c.note,
        url: c.url,
        avatar: c.avatar,
        avatar_static: c.avatar_static,
        header: c.header,
        header_static: c.header_static,
        emojis: c.emojis,
        moved: match c.moved {
            Some(m) => Some(Box::new(from_canonical_spec(*m))),
            None => None,
        },
        fields: c.fields,
        bot: c.bot,
        source: c.source,
    }
}

/// How many `moved` links follow from a Friendica account.
pub open spec fn moved_depth(a: Account) -> nat
    decreases a,
{
    match a.moved {
        Some(m) => 1 + moved_depth(*m),
        None => 0,
    }
}

impl Account {
    /// The canonical account that this Friendica account stands for.
    pub open spec fn canonical(self) -> entities::Account
        decreases self,
    {
        entities::Account {
            id: self.id,
            username: self.username,
            acct: self.acct,
            display_name: self.display_name,
            locked: self.locked,
            discoverable: self.discoverable,
            group: Some(self.group),
            noindex: None,
            suspended: None,
            limited: None,
            created_at: self.created_at,
            followers_count: self.followers_count,
            following_count: self.following_count,
            statuses_count: self.statuses_count,
            note: self.note,
            url: self.url,
            avatar: self.avatar,
            avatar_static: self.avatar_static,
            header: self.header,
            header_static: self.header_static,
            emojis: self.emojis,
            moved: match self.moved {
                Some(m) => Some(Box::new(m.canonical())),
                None => None,
            },
            fields: self.fields,
            bot: self.bot,
            source: self.source,
            role: None,
            mute_expires_at: None,
        }
    }

    /// Writes a canonical account in Friendica's shape, following the whole
    /// chain of `moved` accounts.
    pub fn from_canonical(item: entities::Account) -> (r: Account)
        ensures
            r == from_canonical_spec(item),
        decreases item,
    {
        let entities::Account {
            id, username, acct, display_name, locked, discoverable, group, noindex: _,
            suspended: _, limited: _, created_at, followers_count, following_count,
            statuses_count, note, url, avatar, avatar_static, header, header_static, emojis,
            moved, fields, bot, source, role: _, mute_expires_at: _,
        } = item;
        let moved_account: Option<Box<Account>> = match moved {
            Some(m) => Some(Box::new(Account::from_canonical(*m))),
            None => None,
        };
        let group_flag: bool = match group {
            Some(g) => g,
            None => false,
        };
        Account {
            id,
            username,
            acct,
            display_name,
            locked,
            discoverable,
            group: group_flag,
            created_at,
            followers_count,
            following_count,
            statuses_count,
            note,
            url,
            avatar,
            avatar_static,
            header,
            header_static,
            emojis,
            moved: moved_account,
            fields,
            bot,
            source,
        }
    }

    /// The canonical account for this Friendica account, following the whole
    /// chain of `moved` accounts. `group` is always reported.
    pub fn into_canonical(self) -> (r: entities::Account)
        ensures
            r == self.canonical(),
        decreases self,
    {
        let Account {
            id, username, acct, display_name, locked, discoverable, group, created_at,
            followers_count, following_count, statuses_count, note, url, avatar, avatar_static,
            header, header_static, emojis, moved, fields, bot, source,
        } = self;
        let moved_account: Option<Box<entities::Account>> = match moved {
            Some(m) => Some(Box::new((*m).into_canonical())),
            None => None,
        };
        entities::Account {
            id,
            username,
            acct,
            display_name,
            locked,
            discoverable,
            group: Some(group),
            noindex: None,
            suspended: None,
            limited: None,
            created_at,
            followers_count,
            following_count,
            statuses_count,
            note,
            url,
            avatar,
            avatar_static,
            header,
            header_static,
            emojis,
            moved: moved_account,
            fields,
            bot,
            source,
            role: None,
            mute_expires_at: None,
        }
    }
}

/// A Friendica account read back from the canonical model is the account it
/// came from, at every depth of its `moved` chain.
pub proof fn lemma_round_trip(f: Account)
    ensures
        from_canonical_spec(f.canonical()) == f,
        from_canonical_spec(f.canonical()).canonical() == f.canonical(),
    decreases f,
{
    if let Some(m) = f.moved {
        lemma_round_trip(*m);
    }
}

/// Writing a canonical account in Friendica's shape and reading it back keeps
/// every field Friendica has, gives `false` for an unknown `group`, and `None`
/// for each field Friendica does not report; doing it a second time changes
/// nothing more.
pub proof fn lemma_projection(c: entities::Account)
    ensures
        ({
            let p = from_canonical_spec(c).canonical();
            &&& p.id == c.id
            &&& p.username == c.username
            &&& p.acct == c.acct
            &&& p.display_name == c.display_name
            &&& p.locked == c.locked
            &&& p.discoverable == c.discoverable
            &&& p.group == Some(
                match c.group {
                    Some(g) => g,
                    None => false,
                },
            )
            &&& p.noindex is None
            &&& p.suspended is None
            &&& p.limited is None
            &&& p.created_at == c.created_at
            &&& p.followers_count == c.followers_count
            &&& p.following_count == c.following_count
            &&& p.statuses_count == c.statuses_count
            &&& p.note == c.note
            &&& p.url == c.url
            &&& p.avatar == c.avatar
            &&& p.avatar_static == c.avatar_static
            &&& p.header == c.header
            &&& p.header_static == c.header_static
            &&& p.emojis == c.emojis
            &&& p.fields == c.fields
            &&& p.bot == c.bot
            &&& p.source == c.source
            &&& p.role is None
            &&& p.mute_expires_at is None
            &&& p.moved is Some == c.moved is Some
            &&& from_canonical_spec(p).canonical() == p
        }),
{
    lemma_round_trip(from_canonical_spec(c));
}

/// Converting keeps the length of the `moved` chain, in both directions.
pub proof fn lemma_moved_depth(f: Account, c: entities::Account)
    ensures
        entities::moved_depth(f.canonical()) == moved_depth(f),
        moved_depth(from_canonical_spec(c)) == entities::moved_depth(c),
    decreases f, c,
{
    match (f.moved, c.moved) {
        (Some(fm), Some(cm)) => lemma_moved_depth(*fm, *cm),
        (Some(fm), None) => lemma_moved_depth(*fm, c),
        (None, Some(cm)) => lemma_moved_depth(f, *cm),
        (None, None) => {},
    }
}

/// A trip through Friendica's shape keeps the ids along the `moved` chain, so
/// a chain that names an account twice still does afterwards.
pub proof fn lemma_moved_ids_kept(c: entities::Account)
    ensures
        entities::moved_ids(from_canonical_spec(c).canonical()) == entities::moved_ids(c),
        entities::moved_chain_acyclic(from_canonical_spec(c).canonical())
            == entities::moved_chain_acyclic(c),
    decreases c,
{
    if let Some(m) = c.moved {
        lemma_moved_ids_kept(*m);
    }
}

/// The emojis and profile fields keep their order, in both directions.
pub proof fn lemma_order_kept(f: Account, c: entities::Account)
    ensures
        f.canonical().emojis@ == f.emojis@,
        f.canonical().fields@ == f.fields@,
        from_canonical_spec(c).emojis@ == c.emojis@,
        from_canonical_spec(c).fields@ == c.fields@,
{
}

} // verus!
