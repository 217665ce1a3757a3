use rusty_clock::theme::{
    bucket, resolve_bucket_theme, resolve_fonts, resolve_points, resolve_theme, surface_size,
    weather_strip, ThemeBucket,
};
use rusty_clock::configure::Point;

#[test]
fn unsync_wins_over_every_hour() {
    for hour in 0..24 {
        assert_eq!(bucket(false, hour), ThemeBucket::Unsync, "hour {}", hour);
    }
}

#[test]
fn synced_hours_select_their_bucket() {
    for hour in 0..=5 {
        assert_eq!(bucket(true, hour), ThemeBucket::Early, "hour {}", hour);
    }
    for hour in 6..=11 {
        assert_eq!(bucket(true, hour), ThemeBucket::Morning, "hour {}", hour);
    }
    for hour in 12..=17 {
        assert_eq!(bucket(true, hour), ThemeBucket::Afternoon, "hour {}", hour);
    }
    for hour in 18..=23 {
        assert_eq!(bucket(true, hour), ThemeBucket::Evening, "hour {}", hour);
    }
}

#[test]
fn short_strip_is_always_joined() {
    for second in 0..60 {
        assert_eq!(weather_strip("Fog", "9C", second), "Fog 9C", "second {}", second);
    }
}

#[test]
fn long_strip_alternates_on_two_second_boundaries() {
    for second in 0..60 {
        let shown = weather_strip("Thunderstorm", "20C", second);
        if (second / 2) % 2 == 0 {
            assert_eq!(shown, "Thunderstorm", "second {}", second);
        } else {
            assert_eq!(shown, "20C", "second {}", second);
        }
    }
    assert_eq!(weather_strip("Thunderstorm", "20C", 0), "Thunderstorm");
    assert_eq!(weather_strip("Thunderstorm", "20C", 1), "Thunderstorm");
    assert_eq!(weather_strip("Thunderstorm", "20C", 2), "20C");
    assert_eq!(weather_strip("Thunderstorm", "20C", 3), "20C");
    assert_eq!(weather_strip("Thunderstorm", "20C", 4), "Thunderstorm");
}

#[test]
fn strip_boundary_length_alternates() {
    // "abc" + space + "def" is seven cells: joined; one character more tips it.
    assert_eq!(weather_strip("abc", "def", 2), "abc def");
    assert_eq!(weather_strip("abcd", "def", 2), "def");
    assert_eq!(weather_strip("abcd", "def", 0), "abcd");
}

#[test]
fn empty_labels_join() {
    assert_eq!(weather_strip("", "", 17), " ");
    assert_eq!(weather_strip("Fog", "", 31), "Fog ");
}

#[test]
fn theme_defaults_apply_without_overrides() {
    let t = resolve_theme(None, "white", "black");
    assert_eq!(t.time, "white");
    assert_eq!(t.day, "white");
    assert_eq!(t.date, "white");
    assert_eq!(t.weather, "white");
    assert_eq!(t.background, "black");
}

#[test]
fn theme_overrides_beat_defaults_role_by_role() {
    let overrides = vec![
        ("time".to_string(), "ivory".to_string()),
        ("background".to_string(), "navy".to_string()),
    ];
    let t = resolve_theme(Some(&overrides), "white", "black");
    assert_eq!(t.time, "ivory");
    assert_eq!(t.day, "white");
    assert_eq!(t.date, "white");
    assert_eq!(t.weather, "white");
    assert_eq!(t.background, "navy");
}

#[test]
fn later_override_entry_wins() {
    let overrides = vec![
        ("time".to_string(), "ivory".to_string()),
        ("time".to_string(), "coral".to_string()),
    ];
    let t = resolve_theme(Some(&overrides), "white", "black");
    assert_eq!(t.time, "coral");
}

#[test]
fn bucket_default_colours() {
    let early = resolve_bucket_theme(ThemeBucket::Early, None);
    assert_eq!(early.time, "SteelBlue");
    assert_eq!(early.background, "grey5");
    let morning = resolve_bucket_theme(ThemeBucket::Morning, None);
    assert_eq!(morning.time, "gold");
    assert_eq!(morning.background, "black");
    let afternoon = resolve_bucket_theme(ThemeBucket::Afternoon, None);
    assert_eq!(afternoon.time, "pink");
    assert_eq!(afternoon.background, "black");
    let evening = resolve_bucket_theme(ThemeBucket::Evening, None);
    assert_eq!(evening.time, "SpringGreen");
    assert_eq!(evening.background, "grey4");
    let unsync = resolve_bucket_theme(ThemeBucket::Unsync, None);
    assert_eq!(unsync.time, "black");
    assert_eq!(unsync.background, "red");
}

#[test]
fn font_defaults_and_overrides() {
    let fonts = resolve_fonts(&vec![]);
    assert_eq!(fonts.time, "Noto Sans:style=bold:size=89");
    assert_eq!(fonts.day, "Noto Sans:style=bold:size=60");
    assert_eq!(fonts.date, "Noto Sans:style=bold:size=60");
    assert_eq!(fonts.weather, "Noto Sans:style=bold:size=50");

    let configured = vec![("weather".to_string(), "Mono:size=30".to_string())];
    let fonts = resolve_fonts(&configured);
    assert_eq!(fonts.time, "Noto Sans:style=bold:size=89");
    assert_eq!(fonts.weather, "Mono:size=30");
}

#[test]
fn point_defaults_and_overrides() {
    let points = resolve_points(&vec![]);
    assert_eq!(points.time, Point { x: 2, y: 110 });
    assert_eq!(points.day, Point { x: 2, y: 200 });
    assert_eq!(points.date, Point { x: 240, y: 200 });
    assert_eq!(points.weather, Point { x: 2, y: 300 });

    let configured = vec![("date".to_string(), Point { x: 250, y: 210 })];
    let points = resolve_points(&configured);
    assert_eq!(points.date, Point { x: 250, y: 210 });
    assert_eq!(points.time, Point { x: 2, y: 110 });
}

#[test]
fn surface_size_defaults() {
    assert_eq!(surface_size(480, 320), (480, 320));
    assert_eq!(surface_size(0, 0), (480, 320));
    assert_eq!(surface_size(-1, 200), (480, 200));
    assert_eq!(surface_size(800, -5), (800, 320));
}
