//! The clock face's strings: the current time read once per redraw, the
//! formatted time and date labels, the day name, and the whole frame — the
//! compute half of a redraw, leaving only the drawing to the renderer.
use vstd::prelude::*;

use chrono::{Datelike, Timelike};

use crate::theme::{spec_bucket, spec_strip, bucket, weather_strip, ThemeBucket};

verus! {

/// The parts of a wall-clock reading the clock face shows.
#[derive(Debug, Clone, Copy, PartialEq, Eq, Structural)]
pub struct TimeParts {
    pub hour: u32,
    pub minute: u32,
    pub second: u32,
    pub weekday: u32,
    pub month: u32,
    pub day: u32,
}

impl TimeParts {
    /// The documented ranges of a wall-clock reading: hour 0 to 23, minute
    /// and second 0 to 59, weekday 0 (Sunday) to 6, month 1 to 12, day of
    /// month 1 to 31.
    pub open spec fn wf(&self) -> bool {
        &&& self.hour < 24
        &&& self.minute < 60
        &&& self.second < 60
        &&& self.weekday < 7
        &&& 1 <= self.month <= 12
        &&& 1 <= self.day <= 31
    }
}

/// Relies on chrono's `Local::now` with the `Timelike` and `Datelike`
/// accessors and `Weekday::num_days_from_sunday`: `hour` is documented as
/// 0 to 23, `minute` and `second` as 0 to 59, `month` as 1 to 12, `day` as
/// 1 to 31, and days from Sunday as 0 to 6. The reading itself depends on
/// the wall clock, so nothing more is promised.
#[verifier::external_body]
fn local_now() -> (t: TimeParts)
    ensures
        t.wf(),
{
    let now = chrono::Local::now();
    TimeParts {
        hour: now.hour(),
        minute: now.minute(),
        second: now.second(),
        weekday: now.weekday().num_days_from_sunday(),
        month: now.month(),
        day: now.day(),
    }
}

/// The decimal digit character for one digit value.
pub open spec fn spec_digit(d: nat) -> char {
    if d == 0 {
        '0'
    } else if d == 1 {
        '1'
    } else if d == 2 {
        '2'
    } else if d == 3 {
        '3'
    } else if d == 4 {
        '4'
    } else if d == 5 {
        '5'
    } else if d == 6 {
        '6'
    } else if d == 7 {
        '7'
    } else if d == 8 {
        '8'
    } else {
        '9'
    }
}

/// A value below one hundred, zero-padded to two digits.
pub open spec fn spec_two_digits(n: nat) -> Seq<char> {
    seq![spec_digit(n / 10), spec_digit(n % 10)]
}

/// The time label, `HH:MM:SS`.
pub open spec fn spec_hhmmss(t: TimeParts) -> Seq<char> {
    spec_two_digits(t.hour as nat) + seq![':'] + spec_two_digits(t.minute as nat) + seq![':']
        + spec_two_digits(t.second as nat)
}

/// The date label, `MM-DD`.
pub open spec fn spec_mmdd(t: TimeParts) -> Seq<char> {
    spec_two_digits(t.month as nat) + seq!['-'] + spec_two_digits(t.day as nat)
}

fn digit_str(d: u32) -> (s: &'static str)
    requires
        d < 10,
    ensures
        s@ == seq![spec_digit(d as nat)],
{
    let s: &'static str = match d {
        0 => "0",
        1 => "1",
        2 => "2",
        3 => "3",
        4 => "4",
        5 => "5",
        6 => "6",
        7 => "7",
        8 => "8",
        _ => "9",
    };
    proof {
        reveal_strlit("0");
        reveal_strlit("1");
        reveal_strlit("2");
        reveal_strlit("3");
        reveal_strlit("4");
        reveal_strlit("5");
        reveal_strlit("6");
        reveal_strlit("7");
        reveal_strlit("8");
        reveal_strlit("9");
        assert(s@ =~= seq![spec_digit(d as nat)]);
    }
    s
}

fn push_two_digits(s: &mut String, n: u32)
    requires
        n < 100,
    ensures
        final(s)@ == old(s)@ + spec_two_digits(n as nat),
{
    s.append(digit_str(n / 10));
    s.append(digit_str(n % 10));
    proof {
        assert(s@ =~= old(s)@ + spec_two_digits(n as nat));
    }
}

/// Format the time label, two digits each for hour, minute and second.
pub fn format_time(t: &TimeParts) -> (r: String)
    requires
        t.wf(),
    ensures
        r@ == spec_hhmmss(*t),
{
    let mut s = String::new();
    push_two_digits(&mut s, t.hour);
    s.append(":");
    push_two_digits(&mut s, t.minute);
    s.append(":");
    push_two_digits(&mut s, t.second);
    proof {
        reveal_strlit(":");
        assert(":"@ =~= seq![':']);
        assert(s@ =~= spec_hhmmss(*t));
    }
    s
}

/// Format the date label, two digits each for month and day.
pub fn format_date(t: &TimeParts) -> (r: String)
    requires
        t.wf(),
    ensures
        r@ == spec_mmdd(*t),
{
    let mut s = String::new();
    push_two_digits(&mut s, t.month);
    s.append("-");
    push_two_digits(&mut s, t.day);
    proof {
        reveal_strlit("-");
        assert("-"@ =~= seq!['-']);
        assert(s@ =~= spec_mmdd(*t));
    }
    s
}

/// The configured name of the reading's day of week.
pub fn day_name(days: &[String; 7], t: &TimeParts) -> (r: String)
    requires
        t.wf(),
    ensures
        r@ == days@[t.weekday as int]@,
{
    days[t.weekday as usize].clone()
}

/// Everything one redraw hands the renderer besides colours: the selected
/// bucket and the four label strings.
#[derive(Debug, PartialEq)]
pub struct FrameStrings {
    pub bucket: ThemeBucket,
    pub time: String,
    pub day: String,
    pub date: String,
    pub weather: String,
}

/// The frame for one reading and one status snapshot: the bucket follows
/// the sync flag and hour, the labels follow the reading, and the weather
/// strip follows the snapshot and the second.
pub open spec fn spec_frame(
    t: TimeParts,
    days: Seq<String>,
    sync: bool,
    weather: Seq<char>,
    temperature: Seq<char>,
    f: FrameStrings,
) -> bool {
    &&& f.bucket == spec_bucket(sync, t.hour as nat)
    &&& f.time@ == spec_hhmmss(t)
    &&& f.day@ == days[t.weekday as int]@
    &&& f.date@ == spec_mmdd(t)
    &&& f.weather@ == spec_strip(weather, temperature, t.second as nat)
}

/// Compose the frame for one wall-clock reading and one status snapshot.
pub fn compose_frame(
    t: &TimeParts,
    days: &[String; 7],
    sync: bool,
    weather: &str,
    temperature: &str,
) -> (f: FrameStrings)
    requires
        t.wf(),
    ensures
        spec_frame(*t, days@, sync, weather@, temperature@, f),
{
    FrameStrings {
        bucket: bucket(sync, t.hour),
        time: format_time(t),
        day: day_name(days, t),
        date: format_date(t),
        weather: weather_strip(weather, temperature, t.second),
    }
}

/// Read the wall clock once and compose the frame for it: the compute half
/// of one redraw. Whatever reading comes back, the returned frame is
/// exactly the frame for that reading.
pub fn now_frame(days: &[String; 7], sync: bool, weather: &str, temperature: &str) -> (r: (
    TimeParts,
    FrameStrings,
))
    ensures
        r.0.wf(),
        spec_frame(r.0, days@, sync, weather@, temperature@, r.1),
{
    let t = local_now();
    let f = compose_frame(&t, days, sync, weather, temperature);
    (t, f)
}

} // verus!
