//! The wall clock and the rendering of timestamps as calendar dates.

use vstd::prelude::*;

verus! {

/// The last second that chrono can represent: 262142-12-31T23:59:59 UTC.
pub const LAST_SECOND: i64 = 8_210_266_876_799i64;

/// The first second that chrono can represent: -262143-01-01T00:00:00 UTC.
pub const FIRST_SECOND: i64 = -8_334_601_228_800i64;

/// `chrono::Utc::now().timestamp()`: the current Unix time in whole seconds.
/// chrono builds `now` from the system clock's distance to the Unix epoch
/// and from a date it can represent, so the value lies between 0 and
/// `LAST_SECOND`. Which second it is depends on the clock and is not stated.
/// chrono panics when the system clock reads earlier than the epoch; that
/// depends on the machine, not on an argument, and no clause excludes it.
#[verifier::external_body]
pub(crate) fn now_timestamp() -> (t: i64)
    ensures
        0 <= t <= LAST_SECOND,
{
    chrono::Utc::now().timestamp()
}

/// The text chrono writes for the UTC time `secs` seconds after the Unix
/// epoch with the pattern `%Y-%m-%d %H:%M:%S`.
pub uninterp spec fn utc_date_text(secs: i64) -> Seq<char>;

/// `chrono::NaiveDateTime::from_timestamp(secs, 0)` read as a UTC
/// `DateTime` and written with `format("%Y-%m-%d %H:%M:%S")`. chrono panics
/// outside `FIRST_SECOND..=LAST_SECOND`, which `requires` leaves out. The
/// text is named, not spelled out: the calendar computation is chrono's.
#[verifier::external_body]
#[allow(deprecated)]
pub(crate) fn format_utc_seconds(secs: i64) -> (r: String)
    requires
        FIRST_SECOND <= secs <= LAST_SECOND,
    ensures
        r@ == utc_date_text(secs),
{
    let naive = chrono::NaiveDateTime::from_timestamp(secs, 0);
    let date = chrono::DateTime::<chrono::Utc>::from_utc(naive, chrono::Utc);
    date.format("%Y-%m-%d %H:%M:%S").to_string()
}

/// The second, in UTC+1, of a millisecond timestamp: the milliseconds are
/// divided by 1000 rounding toward zero, and an hour is added.
pub open spec fn shown_seconds(time: i64) -> int {
    (if time >= 0 {
        time / 1000
    } else {
        -((-time) / 1000)
    }) + 3600
}

/// Whether chrono can render the date of a millisecond timestamp.
pub open spec fn date_renderable(time: i64) -> bool {
    FIRST_SECOND <= shown_seconds(time) <= LAST_SECOND
}

/// Whether chrono can render the date of a millisecond timestamp.
pub fn date_renderable_at(time: i64) -> (r: bool)
    ensures
        r == date_renderable(time),
{
    let secs = time / 1000 + 3600;
    FIRST_SECOND <= secs && secs <= LAST_SECOND
}

/// Renders a millisecond timestamp as the UTC+1 date and time
/// `YYYY-MM-DD HH:MM:SS`.
pub fn format_date(time: i64) -> (r: String)
    requires
        date_renderable(time),
    ensures
        r@ == utc_date_text(shown_seconds(time) as i64),
{
    let secs = time / 1000 + 3600;
    format_utc_seconds(secs)
}

} // verus!
