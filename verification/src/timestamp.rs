//! Points in time, as whole seconds since the UNIX epoch, and their RFC 3339
//! text, by the `chrono` crate.

use vstd::prelude::*;

verus! {

/// The text in which `chrono` writes the point in time that lies the given
/// number of seconds after the UNIX epoch, in UTC, or `None` for a point
/// in time that it cannot hold.
pub uninterp spec fn timestamp_text(secs: i64) -> Option<Seq<char>>;

/// The number of whole seconds between the UNIX epoch and the point in time
/// that `chrono` reads from a text, or `None` for a text that it rejects.
pub uninterp spec fn text_timestamp(text: Seq<char>) -> Option<i64>;

/// `Utc::now` of `chrono`, as `DateTime::timestamp` counts it in seconds.
/// The result is the machine's clock: nothing is known of it. The call
/// panics on a machine whose clock stands before the UNIX epoch.
#[verifier::external_body]
fn current_time() -> i64 {
    chrono::Utc::now().timestamp()
}

/// `DateTime::from_timestamp` of `chrono`, written by `to_rfc3339_opts`
/// with whole seconds where there is no fraction and `Z` for UTC, which is
/// how the crate's own `Serialize` writes a `DateTime<Utc>`. The result
/// depends on the number alone: `timestamp_text` is its name.
#[verifier::external_body]
fn write_timestamp(secs: i64) -> (r: Option<String>)
    ensures
        match r {
            Some(text) => timestamp_text(secs) == Some(text@),
            None => timestamp_text(secs) is None,
        },
{
    chrono::DateTime::from_timestamp(secs, 0).map(
        |t| t.to_rfc3339_opts(chrono::SecondsFormat::AutoSi, true),
    )
}

/// `FromStr` of `chrono` for `DateTime<Utc>`, which is how the crate's own
/// `Deserialize` reads one, counted in seconds by `DateTime::timestamp`.
/// The result depends on the text alone: `text_timestamp` is its name.
#[verifier::external_body]
fn read_timestamp(text: &str) -> (r: Option<i64>)
    ensures
        r == text_timestamp(text@),
{
    text.parse::<chrono::DateTime<chrono::Utc>>().ok().map(|t| t.timestamp())
}

/// The current time, in seconds since the UNIX epoch.
pub fn now() -> i64 {
    current_time()
}

/// The RFC 3339 text of a point in time, where it has one.
pub fn to_text(secs: i64) -> (r: Option<String>)
    ensures
        match r {
            Some(text) => timestamp_text(secs) == Some(text@),
            None => timestamp_text(secs) is None,
        },
{
    write_timestamp(secs)
}

/// The point in time that a text names, where it names one.
pub fn from_text(text: &str) -> (r: Option<i64>)
    ensures
        r == text_timestamp(text@),
{
    read_timestamp(text)
}

} // verus!
