//! The boundary to the host: human-readable size scaling, local-time
//! resolution, and identity lookups.  Each boundary function is a thin
//! trusted wrapper around one outside call; the logic around the results
//! is verified.

use vstd::prelude::*;
use chrono::{Datelike, TimeZone, Timelike};

use crate::digits::dec_digits;
use crate::meta::{time_in_range, TimeParts};

verus! {

/// The human-scaled rendering of a byte count: the value scaled to the
/// largest binary unit that keeps it at or above one, with two fractional
/// digits and the unit abbreviation.  Its exact digits are pinned only for
/// counts of at most 1024 bytes, which stay in the plain byte unit.
pub uninterp spec fn human_size_of(bytes: u64) -> Seq<char>;

/// Relies on `byte_unit::Byte::get_appropriate_unit(true)` and the display
/// of the adjusted value: the result is a function of the byte count alone,
/// and a count of at most 1024 stays in the `B` unit, printed as the plain
/// decimal count followed by `" B"`.
#[verifier::external_body]
pub(crate) fn human_size(bytes: u64) -> (r: String)
    ensures
        r@ == human_size_of(bytes),
        bytes <= 1024 ==> r@ == dec_digits(bytes as nat) + " B"@,
{
    byte_unit::Byte::from_bytes(bytes as u128).get_appropriate_unit(true).to_string()
}

/// Relies on `chrono::Local::timestamp_opt` with whole seconds, and on the
/// `Datelike` / `Timelike` accessors: a timestamp inside the library's
/// representable range resolves to exactly one local calendar time, and the
/// accessors return a month in `1..=12`, a day in `1..=31`, an hour in
/// `0..=23` and a minute in `0..=59`.
#[verifier::external_body]
pub(crate) fn local_time_parts(secs: i64) -> (r: Option<TimeParts>)
    ensures
        r matches Some(t) ==> t.wf(),
        time_in_range(secs) ==> r is Some,
{
    match chrono::Local.timestamp_opt(secs, 0) {
        chrono::LocalResult::Single(dt) | chrono::LocalResult::Ambiguous(dt, _) => Some(
            TimeParts {
                month: dt.month() as u8,
                day: dt.day() as u8,
                hour: dt.hour() as u8,
                minute: dt.minute() as u8,
            },
        ),
        chrono::LocalResult::None => None,
    }
}

/// Relies on `users::get_user_by_uid`: a best-effort lookup in the host
/// identity database.  Nothing is promised of the outcome; the caller
/// handles both cases.
#[verifier::external_body]
pub(crate) fn lookup_user_name(uid: u32) -> Option<String> {
    match users::get_user_by_uid(uid) {
        Some(u) => Some(u.name().to_string_lossy().to_string()),
        None => None,
    }
}

/// Relies on `users::get_group_by_gid`: a best-effort lookup in the host
/// identity database.  Nothing is promised of the outcome; the caller
/// handles both cases.
#[verifier::external_body]
pub(crate) fn lookup_group_name(gid: u32) -> Option<String> {
    match users::get_group_by_gid(gid) {
        Some(g) => Some(g.name().to_string_lossy().to_string()),
        None => None,
    }
}

/// The display name for an identity lookup's outcome: the found name, or
/// the literal `Unknown` when the identity database has no mapping.
pub fn name_or_unknown(found: Option<String>) -> (r: String)
    ensures
        found matches Some(n) ==> r == n,
        found is None ==> r@ == "Unknown"@,
{
    match found {
        Some(n) => n,
        None => String::from_str("Unknown"),
    }
}

/// The owner column for a numeric user id: the database name, or `Unknown`.
pub fn resolve_user(uid: u32) -> String {
    name_or_unknown(lookup_user_name(uid))
}

/// The group column for a numeric group id: the database name, or `Unknown`.
pub fn resolve_group(gid: u32) -> String {
    name_or_unknown(lookup_group_name(gid))
}

} // verus!
