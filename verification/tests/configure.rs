use rusty_clock::configure::{
    field, lookup, make_map, make_point, nested_map, points_map, read, ConfigError, ConfigTable,
    ConfigValue, Point,
};

fn text(s: &str) -> ConfigValue {
    ConfigValue::Text(s.to_string())
}

fn table(entries: Vec<(&str, ConfigValue)>) -> ConfigValue {
    ConfigValue::Table(raw_table(entries))
}

fn raw_table(entries: Vec<(&str, ConfigValue)>) -> ConfigTable {
    ConfigTable {
        items: vec![],
        entries: entries.into_iter().map(|(k, v)| (k.to_string(), v)).collect(),
    }
}

fn items_table(items: Vec<ConfigValue>) -> ConfigValue {
    ConfigValue::Table(ConfigTable { items, entries: vec![] })
}

fn seven_days() -> ConfigValue {
    items_table(vec![
        text("Sun"),
        text("Mon"),
        text("Tue"),
        text("Wed"),
        text("Thu"),
        text("Fri"),
        text("Sat"),
    ])
}

fn point_table(x: i64, y: i64) -> ConfigValue {
    table(vec![("x", ConfigValue::Int(x)), ("y", ConfigValue::Int(y))])
}

fn full_config() -> ConfigTable {
    raw_table(vec![
        ("socket", text("/tmp/clock.sock")),
        ("width", ConfigValue::Int(480)),
        ("height", ConfigValue::Int(320)),
        ("days", seven_days()),
        ("fonts", table(vec![("time", text("Mono:size=80"))])),
        ("themes", table(vec![("early", table(vec![("time", text("ivory"))]))])),
        ("coordinates", table(vec![("time", point_table(4, 100))])),
    ])
}

#[test]
fn full_configuration_reads() {
    let cfg = read(&full_config()).expect("configuration should read");
    assert_eq!(cfg.socket, "/tmp/clock.sock");
    assert_eq!(cfg.width, 480);
    assert_eq!(cfg.height, 320);
    assert_eq!(cfg.days[0], "Sun");
    assert_eq!(cfg.days[6], "Sat");
    assert_eq!(cfg.fonts, vec![("time".to_string(), "Mono:size=80".to_string())]);
    assert_eq!(cfg.coordinates, vec![("time".to_string(), Point { x: 4, y: 100 })]);
    assert_eq!(cfg.themes.len(), 1);
    assert_eq!(cfg.themes[0].0, "early");
    assert_eq!(cfg.themes[0].1, vec![("time".to_string(), "ivory".to_string())]);
}

fn without(key: &str) -> ConfigTable {
    let mut t = full_config();
    t.entries.retain(|(k, _)| k != key);
    t
}

fn with(key: &str, v: ConfigValue) -> ConfigTable {
    let mut t = without(key);
    t.entries.push((key.to_string(), v));
    t
}

#[test]
fn missing_socket_is_nil_value_error() {
    match read(&without("socket")) {
        Err(ConfigError::NilValueError(s)) => assert_eq!(s, "socket"),
        _ => panic!("expected a nil-value error for the socket"),
    }
}

#[test]
fn non_text_socket_is_type_error() {
    match read(&with("socket", ConfigValue::Int(5))) {
        Err(ConfigError::TypeError(s)) => assert_eq!(s, "socket"),
        _ => panic!("expected a type error for the socket"),
    }
}

#[test]
fn missing_dimensions_read_as_zero() {
    let cfg = read(&without("width")).expect("width is optional");
    assert_eq!(cfg.width, 0);
    let cfg = read(&with("height", text("tall"))).expect("a non-integer height reads as zero");
    assert_eq!(cfg.height, 0);
}

#[test]
fn oversized_dimension_is_truncated_to_machine_width() {
    let cfg = read(&with("width", ConfigValue::Int((1i64 << 32) + 5))).expect("width is lenient");
    assert_eq!(cfg.width, 5);
}

#[test]
fn negative_dimension_is_kept_as_read() {
    let cfg = read(&with("height", ConfigValue::Int(-7))).expect("height is lenient");
    assert_eq!(cfg.height, -7);
    // The surface falls back to its default for a non-positive height.
    assert_eq!(rusty_clock::theme::surface_size(cfg.width, cfg.height), (480, 320));
}

#[test]
fn six_days_are_rejected() {
    let days = items_table(vec![
        text("Sun"),
        text("Mon"),
        text("Tue"),
        text("Wed"),
        text("Thu"),
        text("Fri"),
    ]);
    match read(&with("days", days)) {
        Err(ConfigError::NotSevenDaysError(s)) => assert_eq!(s, "days"),
        _ => panic!("expected the seven-days error"),
    }
}

#[test]
fn eight_days_are_rejected() {
    let days = items_table(vec![
        text("Sun"),
        text("Mon"),
        text("Tue"),
        text("Wed"),
        text("Thu"),
        text("Fri"),
        text("Sat"),
        text("Sun"),
    ]);
    assert!(matches!(read(&with("days", days)), Err(ConfigError::NotSevenDaysError(_))));
}

#[test]
fn non_text_day_is_type_error() {
    let days = items_table(vec![
        text("Sun"),
        ConfigValue::Int(2),
        text("Tue"),
        text("Wed"),
        text("Thu"),
        text("Fri"),
        text("Sat"),
    ]);
    match read(&with("days", days)) {
        Err(ConfigError::TypeError(s)) => assert_eq!(s, "days"),
        _ => panic!("expected a type error for the days"),
    }
}

#[test]
fn missing_days_is_nil_value_error() {
    assert!(matches!(read(&without("days")), Err(ConfigError::NilValueError(s)) if s == "days"));
}

#[test]
fn missing_fonts_is_nil_value_error() {
    assert!(matches!(read(&without("fonts")), Err(ConfigError::NilValueError(s)) if s == "fonts"));
}

#[test]
fn non_table_themes_is_type_error() {
    assert!(matches!(
        read(&with("themes", text("early"))),
        Err(ConfigError::TypeError(s)) if s == "themes"
    ));
}

#[test]
fn missing_coordinates_is_nil_value_error() {
    assert!(matches!(
        read(&without("coordinates")),
        Err(ConfigError::NilValueError(s)) if s == "coordinates"
    ));
}

#[test]
fn non_text_font_value_names_its_key() {
    let fonts = table(vec![("time", text("Mono")), ("day", ConfigValue::Int(3))]);
    match read(&with("fonts", fonts)) {
        Err(ConfigError::TypeError(s)) => assert_eq!(s, "day"),
        _ => panic!("expected a type error inside the fonts table"),
    }
}

#[test]
fn non_table_theme_value_names_its_key() {
    let themes = table(vec![("early", text("ivory"))]);
    match read(&with("themes", themes)) {
        Err(ConfigError::TypeError(s)) => assert_eq!(s, "early"),
        _ => panic!("expected a type error inside the themes table"),
    }
}

#[test]
fn non_text_theme_colour_names_its_inner_key() {
    let themes = table(vec![("early", table(vec![("background", ConfigValue::Int(1))]))]);
    match read(&with("themes", themes)) {
        Err(ConfigError::TypeError(s)) => assert_eq!(s, "background"),
        _ => panic!("expected a type error inside the theme's colour table"),
    }
}

#[test]
fn non_table_coordinate_names_its_key() {
    let coords = table(vec![("weather", ConfigValue::Int(7))]);
    match read(&with("coordinates", coords)) {
        Err(ConfigError::TypeError(s)) => assert_eq!(s, "weather"),
        _ => panic!("expected a type error inside the coordinates table"),
    }
}

#[test]
fn point_fields_default_to_zero() {
    let p = make_point(&raw_table(vec![("x", ConfigValue::Int(12))]));
    assert_eq!(p, Point { x: 12, y: 0 });
    let p = make_point(&raw_table(vec![("x", text("left")), ("y", ConfigValue::Int(-4))]));
    assert_eq!(p, Point { x: 0, y: -4 });
}

#[test]
fn maps_keep_order_and_later_keys_shadow() {
    let t = raw_table(vec![("a", text("1")), ("b", text("2")), ("a", text("3"))]);
    let m = make_map(&t).expect("all values are text");
    assert_eq!(
        m,
        vec![
            ("a".to_string(), "1".to_string()),
            ("b".to_string(), "2".to_string()),
            ("a".to_string(), "3".to_string()),
        ]
    );
    assert_eq!(lookup(&m, &"a".to_string()), Some(&"3".to_string()));
    assert_eq!(lookup(&m, &"b".to_string()), Some(&"2".to_string()));
    assert_eq!(lookup(&m, &"c".to_string()), None);
}

#[test]
fn nested_and_point_maps_build() {
    let themes = raw_table(vec![("late", table(vec![("time", text("red"))]))]);
    let m = nested_map(&themes).expect("theme table is well formed");
    assert_eq!(m[0].0, "late");
    assert_eq!(m[0].1, vec![("time".to_string(), "red".to_string())]);

    let coords = raw_table(vec![("day", point_table(9, 8))]);
    let m = points_map(&coords).expect("coordinates are well formed");
    assert_eq!(m, vec![("day".to_string(), Point { x: 9, y: 8 })]);
}

#[test]
fn field_reads_the_latest_binding() {
    let t = raw_table(vec![("socket", text("/a")), ("socket", text("/b"))]);
    match field(&t, &"socket".to_string()) {
        Some(ConfigValue::Text(s)) => assert_eq!(s, "/b"),
        _ => panic!("expected the later socket binding"),
    }
    assert!(field(&t, &"width".to_string()).is_none());
}

#[test]
fn error_messages_name_the_field() {
    assert_eq!(
        ConfigError::NilValueError("socket".to_string()).message(),
        "nil value for: socket"
    );
    assert_eq!(
        ConfigError::TypeError("fonts".to_string()).message(),
        "incorrect type for: fonts"
    );
    assert_eq!(
        ConfigError::NotSevenDaysError("days".to_string()).message(),
        "require seven day entries in: days"
    );
    assert_eq!(
        ConfigError::LuaError("syntax error".to_string()).message(),
        "Lua error: syntax error"
    );
    assert_eq!(ConfigError::NilValueError("socket".to_string()).description(), "nil value");
    assert_eq!(ConfigError::TypeError("x".to_string()).description(), "incorrect type");
    assert_eq!(
        ConfigError::NotSevenDaysError("days".to_string()).description(),
        "require seven day entries"
    );
    assert_eq!(ConfigError::LuaError("e".to_string()).description(), "Lua error");
}

#[test]
fn error_precedence_follows_read_order() {
    // Both the socket and the days are broken: the socket is reported.
    let mut t = without("socket");
    t.entries.retain(|(k, _)| k != "days");
    assert!(matches!(read(&t), Err(ConfigError::NilValueError(s)) if s == "socket"));
}
