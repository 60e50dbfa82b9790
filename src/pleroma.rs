use crate::entities;
use crate::error::Error;
use crate::json::{decimal, json_string, push_decimal, push_json_string, push_str};
use crate::time::{UtcDateTime, naive_parsed, parse_naive_as_utc, format_utc, utc_formatted};
use vstd::prelude::*;

verus! {

/// The layout in which Pleroma writes a marker's `updated_at`: no offset is
/// written, and the wall-clock time it gives is taken to be UTC.
pub const WIRE_DATE_FORMAT: &'static str = "%Y-%m-%dT%H:%M:%S";

/// Pleroma's count of unread items, nested one level deeper than elsewhere.
#[derive(Clone, Copy, Debug, PartialEq, Eq, Structural)]
pub struct PleromaMarker {
    pub unread_count: u32,
}

/// The read position in one timeline, as Pleroma writes it.
#[derive(Clone, Debug, PartialEq)]
pub struct InnerMarker {
    pub last_read_id: String,
    pub version: u32,
    pub updated_at: UtcDateTime,
    pub pleroma: PleromaMarker,
}

/// Pleroma's marker: it reports the notification timeline only.
#[derive(Clone, Debug, PartialEq)]
pub struct Marker {
    pub notifications: InnerMarker,
}

/// Writes a time in Pleroma's layout, without an offset; `None` where chrono
/// cannot represent the time.
pub fn serialize(date: &UtcDateTime) -> (r: Option<String>)
    ensures
        r.is_some() == utc_formatted(date.secs, date.nanos, WIRE_DATE_FORMAT@).is_some(),
        r.is_some() ==> r.unwrap()@ == utc_formatted(date.secs, date.nanos, WIRE_DATE_FORMAT@).unwrap(),
{
    format_utc(date.secs, date.nanos, WIRE_DATE_FORMAT)
}

/// The time that `s` gives in Pleroma's layout, read as UTC wall-clock time.
pub open spec fn wire_date(s: Seq<char>) -> Option<UtcDateTime> {
    match naive_parsed(s, WIRE_DATE_FORMAT@) {
        Some((secs, nanos)) => Some(UtcDateTime { secs, nanos }),
        None => None,
    }
}

/// Reads a time in Pleroma's layout as UTC wall-clock time; an unreadable text
/// is an error that names the field `updated_at`.
pub fn deserialize(s: &str) -> (r: Result<UtcDateTime, Error>)
    ensures
        wire_date(s@) matches Some(d) ==> r == Ok::<UtcDateTime, Error>(d),
        wire_date(s@) is None ==> (r matches Err(Error::Deserialization { field }) && field@ == "updated_at"@),
{
    match parse_naive_as_utc(s, WIRE_DATE_FORMAT) {
        Some((secs, nanos)) => Ok(UtcDateTime { secs, nanos }),
        None => Err(Error::Deserialization { field: "updated_at".to_string() }),
    }
}

impl InnerMarker {
    /// The canonical read position for this one.
    pub open spec fn canonical(self) -> entities::InnerMarker {
        entities::InnerMarker {
            last_read_id: self.last_read_id,
            version: self.version,
            updated_at: self.updated_at,
            unread_count: Some(self.pleroma.unread_count),
        }
    }

    pub fn into_canonical(self) -> (r: entities::InnerMarker)
        ensures
            r == self.canonical(),
    {
        entities::InnerMarker {
            last_read_id: self.last_read_id,
            version: self.version,
            updated_at: self.updated_at,
            unread_count: Some(self.pleroma.unread_count),
        }
    }
}

/// Pleroma's JSON text of a marker whose `updated_at` is written as `date`.
pub open spec fn marker_json(m: Marker, date: Seq<char>) -> Seq<char> {
    "{\"notifications\":{\"last_read_id\":"@ + json_string(m.notifications.last_read_id@)
        + ",\"version\":"@ + decimal(m.notifications.version as nat) + ",\"updated_at\":"@
        + json_string(date) + ",\"pleroma\":{\"unread_count\":"@ + decimal(
        m.notifications.pleroma.unread_count as nat,
    ) + "}}}"@
}

impl Marker {
    /// The marker that a Pleroma response gives: `updated_at` is read in
    /// Pleroma's layout as UTC wall-clock time; where it cannot be read, the
    /// error names `notifications.updated_at`.
    pub fn from_wire(last_read_id: String, version: u32, updated_at: &str, unread_count: u32) -> (r:
        Result<Marker, Error>)
        ensures
            wire_date(updated_at@) matches Some(d) ==> r == Ok::<Marker, Error>(
                Marker {
                    notifications: InnerMarker {
                        last_read_id,
                        version,
                        updated_at: d,
                        pleroma: PleromaMarker { unread_count },
                    },
                },
            ),
            wire_date(updated_at@) is None ==> (r matches Err(Error::Deserialization { field })
                && field@ == "notifications.updated_at"@),
    {
        match deserialize(updated_at) {
            Ok(d) => Ok(
                Marker {
                    notifications: InnerMarker {
                        last_read_id,
                        version,
                        updated_at: d,
                        pleroma: PleromaMarker { unread_count },
                    },
                },
            ),
            Err(_) => Err(Error::Deserialization { field: "notifications.updated_at".to_string() }),
        }
    }

    /// Pleroma's JSON text of this marker, in Pleroma's field order and without
    /// white space; `None` where `updated_at` cannot be written.
    pub fn to_json(&self) -> (r: Option<String>)
        ensures
            r.is_some() == utc_formatted(
                self.notifications.updated_at.secs,
                self.notifications.updated_at.nanos,
                WIRE_DATE_FORMAT@,
            ).is_some(),
            r.is_some() ==> r.unwrap()@ == marker_json(
                *self,
                utc_formatted(
                    self.notifications.updated_at.secs,
                    self.notifications.updated_at.nanos,
                    WIRE_DATE_FORMAT@,
                ).unwrap(),
            ),
    {
        let date = match serialize(&self.notifications.updated_at) {
            Some(d) => d,
            None => return None,
        };
        let mut out = String::new();
        push_str(&mut out, "{\"notifications\":{\"last_read_id\":");
        push_json_string(&mut out, self.notifications.last_read_id.as_str());
        push_str(&mut out, ",\"version\":");
        push_decimal(&mut out, self.notifications.version);
        push_str(&mut out, ",\"updated_at\":");
        push_json_string(&mut out, date.as_str());
        push_str(&mut out, ",\"pleroma\":{\"unread_count\":");
        push_decimal(&mut out, self.notifications.pleroma.unread_count);
        push_str(&mut out, "}}}");
        assert(out@ =~= marker_json(*self, date@));
        Some(out)
    }

    /// The canonical marker: no home position, and the notification position.
    pub open spec fn canonical(self) -> entities::Marker {
        entities::Marker { home: None, notifications: Some(self.notifications.canonical()) }
    }

    pub fn into_canonical(self) -> (r: entities::Marker)
        ensures
            r == self.canonical(),
    {
        entities::Marker { home: None, notifications: Some(self.notifications.into_canonical()) }
    }
}

} // verus!
