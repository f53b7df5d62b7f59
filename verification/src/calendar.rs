//! Rendering a timestamp as a calendar string, through the `time` crate.

use vstd::prelude::*;

verus! {

/// The last second of year 9999. Timestamps up to here expand to a
/// four-digit year, which keeps the calendar string at its fixed width.
pub const MAX_CALENDAR_SECS: i64 = 253_402_300_799;

/// The calendar string of a timestamp: the classic asctime layout
/// (abbreviated weekday, abbreviated month, space-padded day of month,
/// `hh:mm:ss`, year), read in universal time. It depends on the seconds
/// value alone.
pub uninterp spec fn calendar_text(secs: i64) -> Seq<char>;

/// Relies on `time::at_utc` and `time::Tm::asctime`: the timestamp is
/// expanded to a universal-time calendar date and written in the asctime
/// layout, a pure function of the seconds value; within the epoch-to-9999
/// range the day field is two characters and the year four, so the whole
/// string is 24 characters.
#[verifier::external_body]
pub(crate) fn render_calendar(secs: i64) -> (r: String)
    requires
        0 <= secs <= MAX_CALENDAR_SECS,
    ensures
        r@ == calendar_text(secs),
        r@.len() == 24,
{
    time::at_utc(time::Timespec::new(secs, 0)).asctime().to_string()
}

} // verus!
