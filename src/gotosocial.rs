use crate::entities;
use crate::entities::{Emoji, Field, Role, Source};
use crate::time::UtcDateTime;
use vstd::prelude::*;

verus! {

/// An account as a GoToSocial server writes it. GoToSocial has no group
/// accounts and no account migration: it reports neither `group` nor `moved`,
/// nor `noindex` or `limited`. It adds `enable_rss`, which the canonical model
/// does not carry.
#[derive(Clone, Debug, PartialEq)]
pub struct Account {
    pub id: String,
    pub username: String,
    pub acct: String,
    pub display_name: String,
    pub locked: bool,
    pub discoverable: Option<bool>,
    pub created_at: UtcDateTime,
    pub followers_count: i32,
    pub following_count: u32,
    pub statuses_count: u32,
    pub note: String,
    pub url: String,
    pub avatar: String,
    pub avatar_static: String,
    pub header: String,
    pub header_static: String,
    pub emojis: Vec<Emoji>,
    pub fields: Vec<Field>,
    pub bot: bool,
    pub source: Option<Source>,
    pub enable_rss: Option<bool>,
    pub mute_expires_at: Option<UtcDateTime>,
    pub role: Option<Role>,
    pub suspended: Option<bool>,
}

/// The GoToSocial account that a canonical account is written back as: `group`,
/// `noindex`, `limited` and `moved` are dropped, and `enable_rss` is unknown.
pub open spec fn from_canonical_spec(c: entities::Account) -> Account {
    Account {
        id: c.id,
        username: c.username,
        acct: c.acct,
        display_name: c.display_name,
        locked: c.locked,
        discoverable: c.discoverable,
        created_at: c.created_at,
        followers_count: c.followers_count,
        following_count: c.following_count,
        statuses_count: c.statuses_count,
        note: c.note,
        url: c.url,
        avatar: c.avatar,
        avatar_static: c.avatar_static,
        header: c.header,
        header_static: c.header_static,
        emojis: c.emojis,
        fields: c.fields,
        bot: c.bot,
        source: c.source,
        enable_rss: None,
        mute_expires_at: c.mute_expires_at,
        role: c.role,
        suspended: c.suspended,
    }
}

impl Account {
    /// The canonical account that this GoToSocial account stands for.
    pub open spec fn canonical(self) -> entities::Account {
        entities::Account {
            id: self.id,
            username: self.username,
            acct: self.acct,
            display_name: self.display_name,
            locked: self.locked,
            discoverable: self.discoverable,
            group: None,
            noindex: None,
            suspended: self.suspended,
            limited: None,
            created_at: self.created_at,
            followers_count: self.followers_count,
            following_count: self.following_count,
            statuses_count: self.statuses_count,
            note: self.note,
            url: self.url,
            avatar: self.avatar,
            avatar_static: self.avatar_static,
            header: self.header,
            header_static: self.header_static,
            emojis: self.emojis,
            moved: None,
            fields: self.fields,
            bot: self.bot,
            source: self.source,
            role: self.role,
            mute_expires_at: self.mute_expires_at,
        }
    }

    /// Writes a canonical account in GoToSocial's shape.
    pub fn from_canonical(item: entities::Account) -> (r: Account)
        ensures
            r == from_canonical_spec(item),
    {
        let entities::Account {
            id, username, acct, display_name, locked, discoverable, group: _, noindex: _,
            suspended, limited: _, created_at, followers_count, following_count,
            statuses_count, note, url, avatar, avatar_static, header, header_static, emojis,
            moved: _, fields, bot, source, role, mute_expires_at,
        } = item;
        Account {
            id,
            username,
            acct,
            display_name,
            locked,
            discoverable,
            created_at,
            followers_count,
            following_count,
            statuses_count,
            note,
            url,
            avatar,
            avatar_static,
            header,
            header_static,
            emojis,
            fields,
            bot,
            source,
            enable_rss: None,
            mute_expires_at,
            role,
            suspended,
        }
    }

    /// The canonical account for this GoToSocial account.
    pub fn into_canonical(self) -> (r: entities::Account)
        ensures
            r == self.canonical(),
    {
        let Account {
            id, username, acct, display_name, locked, discoverable, created_at,
            followers_count, following_count, statuses_count, note, url, avatar, avatar_static,
            header, header_static, emojis, fields, bot, source, enable_rss: _,
            mute_expires_at, role, suspended,
        } = self;
        entities::Account {
            id,
            username,
            acct,
            display_name,
            locked,
            discoverable,
            group: None,
            noindex: None,
            suspended,
            limited: None,
            created_at,
            followers_count,
            following_count,
            statuses_count,
            note,
            url,
            avatar,
            avatar_static,
            header,
            header_static,
            emojis,
            moved: None,
            fields,
            bot,
            source,
            role,
            mute_expires_at,
        }
    }
}

/// A canonical account built from a GoToSocial account survives a write-back
/// to GoToSocial unchanged; the account itself does too, but for `enable_rss`,
/// which the canonical model does not carry.
pub proof fn lemma_round_trip(g: Account)
    ensures
        from_canonical_spec(g.canonical()).canonical() == g.canonical(),
        from_canonical_spec(g.canonical()) == (Account { enable_rss: None, ..g }),
{
}

/// Writing a canonical account in GoToSocial's shape and reading it back keeps
/// every field GoToSocial has and gives `None` for each one it does not have
/// (`group`, `noindex`, `limited`, `moved`); doing it a second time changes
/// nothing more.
pub proof fn lemma_projection(c: entities::Account)
    ensures
        ({
            let p = from_canonical_spec(c).canonical();
            &&& p.id == c.id
            &&& p.username == c.username
            &&& p.acct == c.acct
            &&& p.display_name == c.display_name
            &&& p.locked == c.locked
            &&& p.discoverable == c.discoverable
            &&& p.group is None
            &&& p.noindex is None
            &&& p.suspended == c.suspended
            &&& p.limited is None
            &&& p.created_at == c.created_at
            &&& p.followers_count == c.followers_count
            &&& p.following_count == c.following_count
            &&& p.statuses_count == c.statuses_count
            &&& p.note == c.note
            &&& p.url == c.url
            &&& p.avatar == c.avatar
            &&& p.avatar_static == c.avatar_static
            &&& p.header == c.header
            &&& p.header_static == c.header_static
            &&& p.emojis == c.emojis
            &&& p.moved is None
            &&& p.fields == c.fields
            &&& p.bot == c.bot
            &&& p.source == c.source
            &&& p.role == c.role
            &&& p.mute_expires_at == c.mute_expires_at
            &&& from_canonical_spec(p).canonical() == p
        }),
{
}

/// The emojis and profile fields keep their order, in both directions.
pub proof fn lemma_order_kept(g: Account, c: entities::Account)
    ensures
        g.canonical().emojis@ == g.emojis@,
        g.canonical().fields@ == g.fields@,
        from_canonical_spec(c).emojis@ == c.emojis@,
        from_canonical_spec(c).fields@ == c.fields@,
{
}

} // verus!
