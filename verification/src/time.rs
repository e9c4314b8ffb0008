//! Points in time, and the parsing, printing and comparing of them by `chrono`.
use vstd::prelude::*;

verus! {

/// A point in time: seconds since the Unix epoch and the nanoseconds after them. A second that
/// ends a minute may have up to two thousand million nanoseconds: those beyond the first
/// thousand million stand for a leap second.
#[derive(Clone, Copy, Debug, PartialEq, Eq, Structural)]
pub struct Moment {
    pub secs: i64,
    pub nanos: u32,
}

/// The first second of the calendar of `chrono`.
pub const FIRST_SECOND: i64 = -8_334_601_228_800;

/// The last second of the calendar of `chrono`.
pub const LAST_SECOND: i64 = 8_210_266_876_799;

/// Whether the calendar of `chrono` has the point in time.
pub open spec fn in_calendar(moment: Moment) -> bool {
    &&& FIRST_SECOND <= moment.secs <= LAST_SECOND
    &&& moment.nanos < 1_000_000_000 || (moment.nanos < 2_000_000_000 && moment.secs as int % 60
        == 59)
}

/// Tests whether the calendar of `chrono` has the point in time.
pub fn is_in_calendar(moment: &Moment) -> (yes: bool)
    ensures
        yes == in_calendar(*moment),
{
    let ends_minute = if moment.secs >= 0 {
        moment.secs % 60 == 59
    } else {
        // Counted back from the epoch, the last second of a minute comes first.
        (-1 - moment.secs) % 60 == 0
    };
    FIRST_SECOND <= moment.secs && moment.secs <= LAST_SECOND && (moment.nanos < 1_000_000_000 || (
    moment.nanos < 2_000_000_000 && ends_minute))
}

/// The point in time that `chrono::NaiveDateTime::parse_from_str` reads from a text in a
/// format.
pub uninterp spec fn parsed_time(text: Seq<char>, format: Seq<char>) -> Option<Moment>;

/// Calls `chrono::NaiveDateTime::parse_from_str`; `None` stands for its error. What it reads
/// depends on the text and the format alone, and is in the calendar.
#[verifier::external_body]
pub(crate) fn parse_time(text: &str, format: &str) -> (moment: Option<Moment>)
    ensures
        moment == parsed_time(text@, format@),
        moment matches Some(moment) ==> in_calendar(moment),
{
    let time = chrono::NaiveDateTime::parse_from_str(text, format).ok()?.and_utc();
    Some(Moment { secs: time.timestamp(), nanos: time.timestamp_subsec_nanos() })
}

/// The time of day of a point in time, in seconds.
pub open spec fn time_of_day(moment: Moment) -> int {
    moment.secs as int % 86_400
}

/// The leap second to count between two points in time: `chrono` counts the one that either
/// stands for, where their times of day are in the order that lets it fall between them.
pub open spec fn leap_between(later: Moment, earlier: Moment) -> int {
    if time_of_day(later) > time_of_day(earlier) && earlier.nanos >= 1_000_000_000 {
        1
    } else if time_of_day(later) < time_of_day(earlier) && later.nanos >= 1_000_000_000 {
        -1
    } else {
        0
    }
}

/// The nanoseconds between two points in time.
pub open spec fn nanos_between(later: Moment, earlier: Moment) -> int {
    (later.secs - earlier.secs + leap_between(later, earlier)) * 1_000_000_000 + (later.nanos
        - earlier.nanos)
}

/// The whole seconds between two points in time; a fraction is dropped.
pub open spec fn whole_seconds(later: Moment, earlier: Moment) -> int {
    let nanos = nanos_between(later, earlier);
    if nanos >= 0 {
        nanos / 1_000_000_000
    } else {
        -(-nanos / 1_000_000_000)
    }
}

/// Calls `chrono::NaiveDateTime::signed_duration_since` and `chrono::TimeDelta::num_seconds`:
/// the whole seconds from one point in time to another, negative where the other comes first.
/// Both points have to be in the calendar.
#[verifier::external_body]
pub(crate) fn seconds_between(later: Moment, earlier: Moment) -> (seconds: i64)
    requires
        in_calendar(later),
        in_calendar(earlier),
    ensures
        seconds == whole_seconds(later, earlier),
{
    let to = chrono::DateTime::from_timestamp(later.secs, later.nanos).unwrap().naive_utc();
    let from = chrono::DateTime::from_timestamp(earlier.secs, earlier.nanos).unwrap().naive_utc();
    to.signed_duration_since(from).num_seconds()
}

/// The text that `chrono::DateTime::format` prints for a second since the Unix epoch.
pub uninterp spec fn formatted_time(secs: i64, format: Seq<char>) -> Seq<char>;

/// The format of the time in a file's name.
pub open spec fn stamp_format() -> Seq<char> {
    "%Y%m%d_%H%M%S"@
}

/// Calls `chrono::DateTime::format` in a format that `chrono` knows. The text depends on the
/// second and the format alone.
#[verifier::external_body]
pub(crate) fn format_time(secs: i64, format: &str) -> (text: String)
    requires
        FIRST_SECOND <= secs <= LAST_SECOND,
        format@ == stamp_format(),
    ensures
        text@ == formatted_time(secs, format@),
{
    chrono::DateTime::from_timestamp(secs, 0).unwrap().format(format).to_string()
}

/// The text that `chrono::DateTime::to_rfc3339` prints for a point in time.
pub uninterp spec fn rfc3339_text(moment: Moment) -> Seq<char>;

/// Calls `chrono::DateTime::to_rfc3339`. The text depends on the point in time alone.
#[verifier::external_body]
pub(crate) fn to_rfc3339(moment: Moment) -> (text: String)
    requires
        in_calendar(moment),
    ensures
        text@ == rfc3339_text(moment),
{
    chrono::DateTime::from_timestamp(moment.secs, moment.nanos).unwrap().to_rfc3339()
}

/// Between two points in time without leap seconds lie the seconds that their difference in
/// nanoseconds has room for, and the way back is as long.
pub proof fn time_runs_both_ways(later: Moment, earlier: Moment)
    requires
        later.nanos < 1_000_000_000,
        earlier.nanos < 1_000_000_000,
    ensures
        whole_seconds(later, earlier) == -whole_seconds(earlier, later),
        later.nanos == earlier.nanos ==> whole_seconds(later, earlier) == later.secs
            - earlier.secs,
{
    assert(nanos_between(later, earlier) == -nanos_between(earlier, later));
}

/// The calendar has every second from its first to its last, each with its thousand million
/// nanoseconds, and as many again for a leap second in the last second of a minute.
pub proof fn the_calendar_has_every_second(secs: i64, nanos: u32)
    ensures
        ({
            let within = -8_334_601_228_800 <= secs <= 8_210_266_876_799;
            &&& nanos < 1_000_000_000 ==> (in_calendar(Moment { secs, nanos }) <==> within)
            &&& 1_000_000_000 <= nanos < 2_000_000_000 ==> (in_calendar(Moment { secs, nanos })
                <==> within && secs as int % 60 == 59)
            &&& nanos >= 2_000_000_000 ==> !in_calendar(Moment { secs, nanos })
        }),
{
}

} // verus!
