use rusty_clock::clock::{compose_frame, day_name, format_date, format_time, now_frame, TimeParts};
use rusty_clock::theme::{bucket, weather_strip, ThemeBucket};

fn parts(hour: u32, minute: u32, second: u32, weekday: u32, month: u32, day: u32) -> TimeParts {
    TimeParts { hour, minute, second, weekday, month, day }
}

fn day_names() -> [String; 7] {
    [
        "Sunday".to_string(),
        "Monday".to_string(),
        "Tuesday".to_string(),
        "Wednesday".to_string(),
        "Thursday".to_string(),
        "Friday".to_string(),
        "Saturday".to_string(),
    ]
}

#[test]
fn time_label_is_zero_padded() {
    assert_eq!(format_time(&parts(9, 5, 7, 0, 1, 1)), "09:05:07");
    assert_eq!(format_time(&parts(23, 59, 59, 0, 1, 1)), "23:59:59");
    assert_eq!(format_time(&parts(0, 0, 0, 0, 1, 1)), "00:00:00");
}

#[test]
fn date_label_is_zero_padded() {
    assert_eq!(format_date(&parts(0, 0, 0, 0, 2, 3)), "02-03");
    assert_eq!(format_date(&parts(0, 0, 0, 0, 12, 31)), "12-31");
}

#[test]
fn day_name_follows_weekday() {
    let days = day_names();
    assert_eq!(day_name(&days, &parts(0, 0, 0, 0, 1, 1)), "Sunday");
    assert_eq!(day_name(&days, &parts(0, 0, 0, 6, 1, 1)), "Saturday");
}

#[test]
fn frame_is_composed_from_reading_and_snapshot() {
    let days = day_names();
    let t = parts(14, 30, 2, 3, 7, 26);
    let frame = compose_frame(&t, &days, true, "Thunderstorm", "20C");
    assert_eq!(frame.bucket, ThemeBucket::Afternoon);
    assert_eq!(frame.time, "14:30:02");
    assert_eq!(frame.day, "Wednesday");
    assert_eq!(frame.date, "07-26");
    assert_eq!(frame.weather, "20C");

    let frame = compose_frame(&t, &days, false, "Fog", "9C");
    assert_eq!(frame.bucket, ThemeBucket::Unsync);
    assert_eq!(frame.weather, "Fog 9C");
}

#[test]
fn now_frame_matches_its_own_reading() {
    let days = day_names();
    let (t, frame) = now_frame(&days, true, "Fog", "9C");
    assert!(t.hour < 24);
    assert!(t.minute < 60);
    assert!(t.second < 60);
    assert!(t.weekday < 7);
    assert!((1..=12).contains(&t.month));
    assert!((1..=31).contains(&t.day));
    assert_eq!(frame.time, format_time(&t));
    assert_eq!(frame.date, format_date(&t));
    assert_eq!(frame.day, day_name(&days, &t));
    assert_eq!(frame.bucket, bucket(true, t.hour));
    assert_eq!(frame.weather, weather_strip("Fog", "9C", t.second));
}
