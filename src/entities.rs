use crate::error::Error;
use crate::time::UtcDateTime;
use vstd::prelude::*;

verus! {

/// A custom emoji, as every dialect reports it.
#[derive(Clone, Debug, PartialEq)]
pub struct Emoji {
    pub shortcode: String,
    pub static_url: String,
    pub url: String,
    pub visible_in_picker: bool,
    pub category: Option<String>,
}

/// One key/value pair of an account's profile.
#[derive(Clone, Debug, PartialEq)]
pub struct Field {
    pub name: String,
    pub value: String,
    pub verified_at: Option<UtcDateTime>,
    pub verified: Option<bool>,
}

/// The defaults an account posts with.
#[derive(Clone, Debug, PartialEq)]
pub struct Source {
    pub privacy: Option<String>,
    pub sensitive: Option<bool>,
    pub language: Option<String>,
    pub note: String,
    pub fields: Option<Vec<Field>>,
}

/// A dialect's privilege descriptor for an account.
#[derive(Clone, Debug, PartialEq)]
pub struct Role {
    pub name: String,
}

/// The dialect-independent account: a superset of what every dialect reports.
/// A flag that a dialect does not report is `None`, not `false`.
#[derive(Debug, PartialEq)]
pub struct Account {
    pub id: String,
    pub username: String,
    pub acct: String,
    pub display_name: String,
    pub locked: bool,
    pub discoverable: Option<bool>,
    pub group: Option<bool>,
    pub noindex: Option<bool>,
    pub suspended: Option<bool>,
    pub limited: Option<bool>,
    pub created_at: UtcDateTime,
    /// Signed, so that a server can report a hidden count as a negative value.
    pub followers_count: i32,
    pub following_count: u32,
    pub statuses_count: u32,
    pub note: String,
    pub url: String,
    pub avatar: String,
    pub avatar_static: String,
    pub header: String,
    pub header_static: String,
    pub emojis: Vec<Emoji>,
    /// The account this one moved to; owned, so a chain of moves is finite.
    pub moved: Option<Box<Account>>,
    pub fields: Vec<Field>,
    pub bot: bool,
    pub source: Option<Source>,
    pub role: Option<Role>,
    pub mute_expires_at: Option<UtcDateTime>,
}

/// How many `moved` links follow from an account.
pub open spec fn moved_depth(a: Account) -> nat
    decreases a,
{
    match a.moved {
        Some(m) => 1 + moved_depth(*m),
        None => 0,
    }
}

/// The ids along the `moved` chain, starting with the account itself.
pub open spec fn moved_ids(a: Account) -> Seq<Seq<char>>
    decreases a,
{
    match a.moved {
        Some(m) => seq![a.id@] + moved_ids(*m),
        None => seq![a.id@],
    }
}

/// A `moved` chain is well formed when no account appears in it twice; a
/// server that reports one account as having moved, eventually, to itself
/// has answered with a cycle.
pub open spec fn moved_chain_acyclic(a: Account) -> bool {
    moved_ids(a).no_duplicates()
}

fn contains_id(seen: &Vec<String>, id: &String) -> (r: bool)
    ensures
        r == seen@.map_values(|s: String| s@).contains(id@),
{
    let mut i: usize = 0;
    while i < seen.len()
        invariant
            i <= seen.len(),
            forall|j: int| 0 <= j < i ==> seen@[j]@ != id@,
        decreases seen.len() - i,
    {
        if seen[i] == *id {
            assert(seen@.map_values(|s: String| s@)[i as int] == id@);
            return true;
        }
        i += 1;
    }
    proof {
        if seen@.map_values(|s: String| s@).contains(id@) {
            let v = seen@.map_values(|s: String| s@);
            let k = choose|k: int| 0 <= k < v.len() && #[trigger] v[k] == id@;
            assert(seen@[k]@ == id@);
        }
    }
    false
}

/// Refuses an account whose `moved` chain names one account twice.
pub fn check_moved_chain(a: &Account) -> (r: Result<(), Error>)
    ensures
        moved_chain_acyclic(*a) ==> r is Ok,
        !moved_chain_acyclic(*a) ==> r matches Err(Error::ConversionInvariant { .. }),
{
    let mut seen: Vec<String> = Vec::new();
    let mut cur: &Account = a;
    loop
        invariant
            seen@.map_values(|s: String| s@) + moved_ids(*cur) == moved_ids(*a),
            seen@.map_values(|s: String| s@).no_duplicates(),
        decreases moved_depth(*cur),
    {
        let ghost before = seen@.map_values(|s: String| s@);
        if contains_id(&seen, &cur.id) {
            proof {
                let ids = moved_ids(*a);
                let k = choose|k: int| 0 <= k < before.len() && #[trigger] before[k] == cur.id@;
                assert(ids[k] == cur.id@);
                assert(ids[before.len() as int] == cur.id@);
            }
            return Err(Error::ConversionInvariant { reason: "cyclic moved chain".to_string() });
        }
        seen.push(cur.id.clone());
        proof {
            let now = seen@.map_values(|s: String| s@);
            assert(now =~= before.push(cur.id@));
            assert forall|i: int, j: int| 0 <= i < now.len() && 0 <= j < now.len() && i != j implies now[i] != now[j] by {
                if i < before.len() && j < before.len() {
                } else if i == before.len() {
                    assert(!before.contains(cur.id@));
                    assert(before[j] == now[j]);
                } else {
                    assert(!before.contains(cur.id@));
                    assert(before[i] == now[i]);
                }
            }
        }
        match &cur.moved {
            Some(m) => {
                proof {
                    assert(moved_ids(*cur) =~= seq![cur.id@] + moved_ids(**m));
                    assert(seen@.map_values(|s: String| s@) + moved_ids(**m) =~= before + moved_ids(*cur));
                }
                cur = m;
            },
            None => {
                proof {
                    assert(seen@.map_values(|s: String| s@) =~= moved_ids(*a));
                }
                return Ok(());
            },
        }
    }
}

/// The read position in one timeline.
#[derive(Clone, Debug, PartialEq)]
pub struct InnerMarker {
    pub last_read_id: String,
    pub version: u32,
    pub updated_at: UtcDateTime,
    /// Some dialects do not count unread items.
    pub unread_count: Option<u32>,
}

/// The read positions in the home and notification timelines.
#[derive(Clone, Debug, PartialEq)]
pub struct Marker {
    pub home: Option<InnerMarker>,
    pub notifications: Option<InnerMarker>,
}

/// Where a filter applies.
#[derive(Clone, Copy, Debug, PartialEq, Eq, Structural)]
pub enum FilterContext {
    Home,
    Notifications,
    Public,
    Thread,
}

/// A keyword filter.
#[derive(Clone, Debug, PartialEq)]
pub struct Filter {
    pub id: String,
    pub phrase: String,
    pub context: Vec<FilterContext>,
    pub expires_at: Option<UtcDateTime>,
    pub irreversible: bool,
    pub whole_word: bool,
}

} // verus!
