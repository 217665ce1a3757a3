//! The theme selector: a pure policy mapping the sync flag and the hour of
//! day to one of five theme buckets, resolving each bucket's five colour
//! roles from configuration with documented fallbacks, and building the
//! weather strip shown at the bottom of the clock.
use vstd::prelude::*;

use crate::configure::{lookup, spec_lookup, Point, PointMap, StrMap};

verus! {

/// One of the five theme buckets: four for the synced clock's time of day,
/// and one marking an unsynchronized clock.
#[derive(Debug, Clone, Copy, PartialEq, Eq, Structural)]
pub enum ThemeBucket {
    Early,
    Morning,
    Afternoon,
    Evening,
    Unsync,
}

/// The bucket for a sync flag and an hour of day: an unsynchronized clock
/// is always `Unsync`; a synchronized one follows the hour.
pub open spec fn spec_bucket(sync: bool, hour: nat) -> ThemeBucket {
    if !sync {
        ThemeBucket::Unsync
    } else if hour <= 5 {
        ThemeBucket::Early
    } else if hour <= 11 {
        ThemeBucket::Morning
    } else if hour <= 17 {
        ThemeBucket::Afternoon
    } else {
        ThemeBucket::Evening
    }
}

/// Select the theme bucket for a wall-clock hour.
pub fn bucket(sync: bool, hour: u32) -> (b: ThemeBucket)
    requires
        hour < 24,
    ensures
        b == spec_bucket(sync, hour as nat),
{
    if !sync {
        ThemeBucket::Unsync
    } else if hour <= 5 {
        ThemeBucket::Early
    } else if hour <= 11 {
        ThemeBucket::Morning
    } else if hour <= 17 {
        ThemeBucket::Afternoon
    } else {
        ThemeBucket::Evening
    }
}

/// Law: with the sync flag off the bucket is `Unsync`, whatever the hour.
pub proof fn lemma_bucket_unsync(hour: nat)
    ensures
        spec_bucket(false, hour) == ThemeBucket::Unsync,
{
}

/// Law: with the sync flag on, hours 0 to 5 select `Early`, 6 to 11
/// `Morning`, 12 to 17 `Afternoon`, and 18 to 23 `Evening`.
pub proof fn lemma_bucket_sync(hour: nat)
    requires
        hour < 24,
    ensures
        hour <= 5 ==> spec_bucket(true, hour) == ThemeBucket::Early,
        6 <= hour <= 11 ==> spec_bucket(true, hour) == ThemeBucket::Morning,
        12 <= hour <= 17 ==> spec_bucket(true, hour) == ThemeBucket::Afternoon,
        18 <= hour <= 23 ==> spec_bucket(true, hour) == ThemeBucket::Evening,
{
}

/// The weather strip: when weather, a separating space and temperature fit
/// in eight display cells they are shown together; otherwise the strip
/// alternates between the two every two seconds.
pub open spec fn spec_strip(w: Seq<char>, t: Seq<char>, second: nat) -> Seq<char> {
    if w.len() + 1 + t.len() < 8 {
        w + seq![' '] + t
    } else if (second / 2) % 2 == 0 {
        w
    } else {
        t
    }
}

/// Build the weather strip for the current second.
pub fn weather_strip(weather: &str, temperature: &str, second: u32) -> (r: String)
    ensures
        r@ == spec_strip(weather@, temperature@, second as nat),
{
    let wn = weather.unicode_len();
    let tn = temperature.unicode_len();
    if wn < 8 && tn < 8 && wn + 1 + tn < 8 {
        let mut s = String::from_str(weather);
        s.append(" ");
        s.append(temperature);
        proof {
            reveal_strlit(" ");
            assert(" "@ =~= seq![' ']);
        }
        s
    } else if (second / 2) % 2 == 0 {
        String::from_str(weather)
    } else {
        String::from_str(temperature)
    }
}

/// Law: when the joined form fits, the strip is weather, a space, and
/// temperature, whatever the second; the second plays no part.
pub proof fn lemma_strip_joined(w: Seq<char>, t: Seq<char>, s1: nat, s2: nat)
    requires
        w.len() + 1 + t.len() < 8,
    ensures
        spec_strip(w, t, s1) == w + seq![' '] + t,
        spec_strip(w, t, s1) == spec_strip(w, t, s2),
{
}

/// Law: when the joined form does not fit, the strip is exactly one of the
/// two labels, alternating on two-second boundaries with a period of four
/// seconds: seconds 0 and 1 of each period show the weather, 2 and 3 the
/// temperature.
pub proof fn lemma_strip_alternates(w: Seq<char>, t: Seq<char>, second: nat)
    requires
        w.len() + 1 + t.len() >= 8,
    ensures
        spec_strip(w, t, second) == if (second / 2) % 2 == 0 {
            w
        } else {
            t
        },
        second % 4 < 2 ==> spec_strip(w, t, second) == w,
        second % 4 >= 2 ==> spec_strip(w, t, second) == t,
{
    assert((second / 2) % 2 == (second % 4) / 2) by (nonlinear_arith);
}

/// The five resolved colour names of one theme bucket.
#[derive(Debug, PartialEq)]
pub struct ThemeColors {
    pub time: String,
    pub day: String,
    pub date: String,
    pub weather: String,
    pub background: String,
}

/// The colour for one role: the configured override when one is present,
/// the given default otherwise.
pub open spec fn spec_role_colour(ov: Option<&StrMap>, role: Seq<char>, dflt: Seq<char>) -> Seq<
    char,
> {
    match ov {
        Some(m) => match spec_lookup(m@, role) {
            Some(c) => c@,
            None => dflt,
        },
        None => dflt,
    }
}

/// Resolve one colour role.
fn role_colour(theme: Option<&StrMap>, role: &str, dflt: &str) -> (r: String)
    ensures
        r@ == spec_role_colour(theme, role@, dflt@),
{
    match theme {
        Some(m) => match lookup(m, &String::from_str(role)) {
            Some(c) => c.clone(),
            None => String::from_str(dflt),
        },
        None => String::from_str(dflt),
    }
}

/// Resolve a bucket's five colour roles from its configured overrides, with
/// one default foreground for the four text roles and one default
/// background.
pub fn resolve_theme(theme: Option<&StrMap>, foreground: &str, background: &str) -> (r: ThemeColors)
    ensures
        r.time@ == spec_role_colour(theme, "time"@, foreground@),
        r.day@ == spec_role_colour(theme, "day"@, foreground@),
        r.date@ == spec_role_colour(theme, "date"@, foreground@),
        r.weather@ == spec_role_colour(theme, "weather"@, foreground@),
        r.background@ == spec_role_colour(theme, "background"@, background@),
{
    ThemeColors {
        time: role_colour(theme, "time", foreground),
        day: role_colour(theme, "day", foreground),
        date: role_colour(theme, "date", foreground),
        weather: role_colour(theme, "weather", foreground),
        background: role_colour(theme, "background", background),
    }
}

/// The documented default foreground colour of each bucket.
pub open spec fn spec_bucket_foreground(b: ThemeBucket) -> Seq<char> {
    match b {
        ThemeBucket::Early => "SteelBlue"@,
        ThemeBucket::Morning => "gold"@,
        ThemeBucket::Afternoon => "pink"@,
        ThemeBucket::Evening => "SpringGreen"@,
        ThemeBucket::Unsync => "black"@,
    }
}

/// The documented default background colour of each bucket; the `Unsync`
/// background stays an error red distinguishable from the synced buckets.
pub open spec fn spec_bucket_background(b: ThemeBucket) -> Seq<char> {
    match b {
        ThemeBucket::Early => "grey5"@,
        ThemeBucket::Morning => "black"@,
        ThemeBucket::Afternoon => "black"@,
        ThemeBucket::Evening => "grey4"@,
        ThemeBucket::Unsync => "red"@,
    }
}

/// Resolve one bucket's colours from its configured overrides and its
/// documented defaults.
pub fn resolve_bucket_theme(b: ThemeBucket, overrides: Option<&StrMap>) -> (r: ThemeColors)
    ensures
        r.time@ == spec_role_colour(overrides, "time"@, spec_bucket_foreground(b)),
        r.day@ == spec_role_colour(overrides, "day"@, spec_bucket_foreground(b)),
        r.date@ == spec_role_colour(overrides, "date"@, spec_bucket_foreground(b)),
        r.weather@ == spec_role_colour(overrides, "weather"@, spec_bucket_foreground(b)),
        r.background@ == spec_role_colour(overrides, "background"@, spec_bucket_background(b)),
{
    match b {
        ThemeBucket::Early => resolve_theme(overrides, "SteelBlue", "grey5"),
        ThemeBucket::Morning => resolve_theme(overrides, "gold", "black"),
        ThemeBucket::Afternoon => resolve_theme(overrides, "pink", "black"),
        ThemeBucket::Evening => resolve_theme(overrides, "SpringGreen", "grey4"),
        ThemeBucket::Unsync => resolve_theme(overrides, "black", "red"),
    }
}

/// The four resolved font descriptors.
#[derive(Debug, PartialEq)]
pub struct FontSet {
    pub time: String,
    pub day: String,
    pub date: String,
    pub weather: String,
}

/// A configured text value, or the documented default.
pub open spec fn spec_lookup_or(m: &StrMap, key: Seq<char>, dflt: Seq<char>) -> Seq<char> {
    match spec_lookup(m@, key) {
        Some(v) => v@,
        None => dflt,
    }
}

fn lookup_or(m: &StrMap, key: &str, dflt: &str) -> (r: String)
    ensures
        r@ == spec_lookup_or(m, key@, dflt@),
{
    match lookup(m, &String::from_str(key)) {
        Some(v) => v.clone(),
        None => String::from_str(dflt),
    }
}

/// Resolve the four label fonts from configuration, with the documented
/// defaults.
pub fn resolve_fonts(fonts: &StrMap) -> (r: FontSet)
    ensures
        r.time@ == spec_lookup_or(fonts, "time"@, "Noto Sans:style=bold:size=89"@),
        r.day@ == spec_lookup_or(fonts, "day"@, "Noto Sans:style=bold:size=60"@),
        r.date@ == spec_lookup_or(fonts, "date"@, "Noto Sans:style=bold:size=60"@),
        r.weather@ == spec_lookup_or(fonts, "weather"@, "Noto Sans:style=bold:size=50"@),
{
    FontSet {
        time: lookup_or(fonts, "time", "Noto Sans:style=bold:size=89"),
        day: lookup_or(fonts, "day", "Noto Sans:style=bold:size=60"),
        date: lookup_or(fonts, "date", "Noto Sans:style=bold:size=60"),
        weather: lookup_or(fonts, "weather", "Noto Sans:style=bold:size=50"),
    }
}

/// The four resolved label positions.
#[derive(Debug, PartialEq, Eq, Structural)]
pub struct PointSet {
    pub time: Point,
    pub day: Point,
    pub date: Point,
    pub weather: Point,
}

/// A configured coordinate, or the documented default.
pub open spec fn spec_point_or(m: &PointMap, key: Seq<char>, dflt: Point) -> Point {
    match spec_lookup(m@, key) {
        Some(p) => p,
        None => dflt,
    }
}

fn point_or(m: &PointMap, key: &str, dflt: Point) -> (r: Point)
    ensures
        r == spec_point_or(m, key@, dflt),
{
    match lookup(m, &String::from_str(key)) {
        Some(p) => *p,
        None => dflt,
    }
}

/// Resolve the four label positions from configuration, with the documented
/// defaults on a 480 by 320 surface.
pub fn resolve_points(coordinates: &PointMap) -> (r: PointSet)
    ensures
        r.time == spec_point_or(coordinates, "time"@, (Point { x: 2, y: 110 })),
        r.day == spec_point_or(coordinates, "day"@, (Point { x: 2, y: 200 })),
        r.date == spec_point_or(coordinates, "date"@, (Point { x: 240, y: 200 })),
        r.weather == spec_point_or(coordinates, "weather"@, (Point { x: 2, y: 300 })),
{
    PointSet {
        time: point_or(coordinates, "time", Point { x: 2, y: 110 }),
        day: point_or(coordinates, "day", Point { x: 2, y: 200 }),
        date: point_or(coordinates, "date", Point { x: 240, y: 200 }),
        weather: point_or(coordinates, "weather", Point { x: 2, y: 300 }),
    }
}

/// The surface size: a configured positive dimension is taken; zero or a
/// negative one falls back to the 480 by 320 default.
pub fn surface_size(width: i32, height: i32) -> (r: (u32, u32))
    ensures
        r.0 == if width > 0 {
            width as u32
        } else {
            480u32
        },
        r.1 == if height > 0 {
            height as u32
        } else {
            320u32
        },
{
    let w: u32 = if width > 0 {
        width as u32
    } else {
        480
    };
    let h: u32 = if height > 0 {
        height as u32
    } else {
        320
    };
    (w, h)
}

} // verus!
