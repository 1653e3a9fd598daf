//! Dates, through chrono, and the creation time of Discord ids.
use vstd::prelude::*;

verus! {

/// The day, the English month name and the year (`%d %B %Y`) of a UNIX time in seconds, as chrono
/// writes it in UTC; none when chrono cannot represent that time.
pub uninterp spec fn day_month_year_text(secs: i64) -> Option<Seq<char>>;

/// Formats a UNIX time in seconds as `%d %B %Y` (for instance `05 March 2024`).
///
/// Calls `chrono::DateTime::<Utc>::from_timestamp(secs, 0)` and, when it gives a date, formats it
/// with `format("%d %B %Y")`. The contract only ties the result to `secs` through
/// `day_month_year_text`; what the text is for a given time is left to chrono.
#[verifier::external_body]
pub(crate) fn format_day_month_year(secs: i64) -> (r: Option<String>)
    ensures
        match r {
            Some(s) => day_month_year_text(secs) == Some(s@),
            None => day_month_year_text(secs) is None,
        },
{
    match chrono::DateTime::from_timestamp(secs, 0) {
        Some(d) => Some(d.format("%d %B %Y").to_string()),
        None => None,
    }
}

/// The UTC instant (seconds and nanoseconds since the epoch) that chrono reads from a text with
/// `str::parse::<DateTime<Utc>>`, if it reads one.
pub uninterp spec fn parsed_utc(text: Seq<char>) -> Option<(i64, u32)>;

/// Reads a date and time with `text.parse::<chrono::DateTime<chrono::Utc>>()` and gives its
/// `timestamp()` and `timestamp_subsec_nanos()`. The contract ties the result to the text through
/// `parsed_utc` and states nothing of which texts chrono accepts.
#[verifier::external_body]
pub(crate) fn parse_utc(text: &str) -> (r: Option<(i64, u32)>)
    ensures
        r == parsed_utc(text@),
{
    match text.parse::<chrono::DateTime<chrono::Utc>>() {
        Ok(d) => Some((d.timestamp(), d.timestamp_subsec_nanos())),
        Err(_) => None,
    }
}

/// The text chrono's `Display` gives for a UTC instant (`2024-03-05 10:00:00 UTC`), if
/// `DateTime::<Utc>::from_timestamp` can represent it.
pub uninterp spec fn utc_display(secs: i64, nanos: u32) -> Option<Seq<char>>;

/// Writes a UTC instant as chrono displays it: `DateTime::<Utc>::from_timestamp(secs, nanos)`
/// followed by `to_string()`. The contract ties the text to the instant through `utc_display` only.
#[verifier::external_body]
pub(crate) fn display_utc(secs: i64, nanos: u32) -> (r: Option<String>)
    ensures
        match r {
            Some(s) => utc_display(secs, nanos) == Some(s@),
            None => utc_display(secs, nanos) is None,
        },
{
    match chrono::DateTime::from_timestamp(secs, nanos) {
        Some(d) => Some(d.to_string()),
        None => None,
    }
}

/// Milliseconds from the UNIX epoch to the start of Discord's epoch (2015-01-01).
pub open spec fn discord_epoch_ms() -> int {
    1420070400000
}

/// When a Discord id was made, in milliseconds since the UNIX epoch: the id's upper 42 bits count
/// milliseconds from Discord's epoch.
pub fn snowflake_created_ms(id: u64) -> (r: u64)
    ensures
        r == (id >> 22u64) + discord_epoch_ms(),
{
    assert((id >> 22u64) <= 0x3ff_ffff_ffff) by (bit_vector);
    (id >> 22u64) + 1420070400000
}

} // verus!
