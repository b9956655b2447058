//! Calendar text of time stamps, computed by `chrono`.

use vstd::prelude::*;

verus! {

/// The UTC calendar text, `%Y-%m-%d %H:%M:%S`, of an instant given in
/// milliseconds since the Unix epoch; `None` where `chrono` cannot represent
/// the instant.
pub uninterp spec fn utc_clock_text(millis: i64) -> Option<Seq<char>>;

/// The hour that a `%Y/%m/%d %H:%M:%S` time stamp falls in, written
/// `%Y/%m/%d %H:00:00`; `None` where `chrono` does not read the text as such a
/// time stamp.
pub uninterp spec fn hour_bucket_text(stamp: Seq<char>) -> Option<Seq<char>>;

/// Formats an epoch instant in milliseconds as UTC calendar text.
///
/// Calls `chrono::DateTime::<Utc>::from_timestamp_millis` and then formats the
/// instant with `%Y-%m-%d %H:%M:%S`. Trusted: the result is claimed to be the
/// one value `utc_clock_text(millis)` that these calls give for `millis`, with
/// `None` exactly where `from_timestamp_millis` gives `None`.
#[verifier::external_body]
pub(crate) fn utc_clock_string(millis: i64) -> (r: Option<String>)
    ensures
        r is Some <==> utc_clock_text(millis) is Some,
        r is Some ==> r->0@ == utc_clock_text(millis)->0,
{
    match chrono::DateTime::<chrono::Utc>::from_timestamp_millis(millis) {
        Some(t) => Some(format!("{}", t.format("%Y-%m-%d %H:%M:%S"))),
        None => None,
    }
}

/// Reads a `%Y/%m/%d %H:%M:%S` time stamp and writes the hour it falls in.
///
/// Calls `chrono::NaiveDateTime::parse_from_str(stamp, "%Y/%m/%d %H:%M:%S")`
/// and formats a parsed value with `%Y/%m/%d %H` followed by `:00:00`.
/// Trusted: the result is claimed to be the one value
/// `hour_bucket_text(stamp@)` that these calls give for `stamp`, with `None`
/// exactly where the parse fails.
#[verifier::external_body]
pub(crate) fn hour_bucket_string(stamp: &str) -> (r: Option<String>)
    ensures
        r is Some <==> hour_bucket_text(stamp@) is Some,
        r is Some ==> r->0@ == hour_bucket_text(stamp@)->0,
{
    match chrono::NaiveDateTime::parse_from_str(stamp, "%Y/%m/%d %H:%M:%S") {
        Ok(t) => Some(format!("{}:00:00", t.format("%Y/%m/%d %H"))),
        Err(_) => None,
    }
}

} // verus!
