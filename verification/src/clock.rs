//! The time that the rows of one request carry: a UTC instant written out
//! to the second, as `2024-05-01T12:00:00Z`.

use std::fmt::Write;
use vstd::prelude::*;
use crate::compare::text_view;

verus! {

/// The pattern by which the time of a request is written.
pub open spec fn stamp_pattern() -> Seq<char> {
    "%Y-%m-%dT%H:%M:%SZ"@
}

/// What chrono writes for the UTC instant `unix_seconds` after the start of
/// 1970 under a `strftime` pattern; `None` where the instant lies outside
/// the years chrono can hold or the pattern cannot be used.
pub uninterp spec fn utc_text(unix_seconds: int, pattern: Seq<char>) -> Option<Seq<char>>;

/// Calls `chrono::DateTime::from_timestamp` and `DateTime::format`, and
/// collects what the formatter displays. Both depend on the arguments alone
/// (UTC, no locale), and the contract names the text [`utc_text`]. `None`
/// stands for an instant out of chrono's range and for a pattern that the
/// formatter rejects.
#[verifier::external_body]
fn format_utc(unix_seconds: i64, pattern: &str) -> (r: Option<String>)
    ensures
        text_view(r) == utc_text(unix_seconds as int, pattern@),
{
    let instant = chrono::DateTime::from_timestamp(unix_seconds, 0)?;
    let mut out = String::new();
    match write!(out, "{}", instant.format(pattern)) {
        Ok(()) => Some(out),
        Err(_) => None,
    }
}

/// The time of a request as its rows carry it.
pub open spec fn stamp_of(unix_seconds: i64) -> Option<Seq<char>> {
    utc_text(unix_seconds as int, stamp_pattern())
}

/// Writes out the instant `unix_seconds` after the start of 1970, in UTC and
/// to the second. `None` for an instant that no calendar date stands for.
pub fn stamp(unix_seconds: i64) -> (r: Option<String>)
    ensures
        text_view(r) == stamp_of(unix_seconds),
{
    format_utc(unix_seconds, "%Y-%m-%dT%H:%M:%SZ")
}

} // verus!
