use schedulatte::clock::TimeOfDay;
use schedulatte::config::{load_schedule, parse_time, parse_time_range, ConfigError, ConfigKey, WindowEnd};

fn s(v: &str) -> Option<String> {
    Some(v.to_string())
}

#[test]
fn parses_hour_and_minute() {
    assert_eq!(parse_time("08:00"), Some(TimeOfDay::from_hm(8, 0)));
    assert_eq!(parse_time("17:45"), Some(TimeOfDay::from_hm(17, 45)));
    assert_eq!(parse_time("7:15"), Some(TimeOfDay::from_hm(7, 15)));
    assert_eq!(parse_time("00:00").map(|t| t.secs), Some(0));
}

#[test]
fn rejects_malformed_times() {
    assert_eq!(parse_time("17:60"), None);
    assert_eq!(parse_time("24:00"), None);
    assert_eq!(parse_time("noon"), None);
    assert_eq!(parse_time(""), None);
    assert_eq!(parse_time("12"), None);
}

#[test]
fn parses_a_range() {
    let w = parse_time_range("08:00", "12:30").unwrap();
    assert_eq!(w.start, TimeOfDay::from_hm(8, 0));
    assert_eq!(w.end, TimeOfDay::from_hm(12, 30));
    assert_eq!(parse_time_range("x", "12:30"), Err(WindowEnd::Start));
    assert_eq!(parse_time_range("08:00", "y"), Err(WindowEnd::End));
    assert_eq!(parse_time_range("x", "y"), Err(WindowEnd::Start));
}

#[test]
fn loads_two_windows() {
    let sch = load_schedule(s("08:00"), s("12:00"), s("13:00"), s("17:00")).unwrap();
    assert_eq!(sch.windows.len(), 2);
    assert_eq!(sch.windows[0].start, TimeOfDay::from_hm(8, 0));
    assert_eq!(sch.windows[0].end, TimeOfDay::from_hm(12, 0));
    assert_eq!(sch.windows[1].start, TimeOfDay::from_hm(13, 0));
    assert_eq!(sch.windows[1].end, TimeOfDay::from_hm(17, 0));
}

#[test]
fn missing_entries_are_reported_in_order() {
    let e = |a, b, c, d| load_schedule(a, b, c, d).unwrap_err();
    assert_eq!(e(None, None, None, None), ConfigError::Missing(ConfigKey::MorningStart));
    assert_eq!(e(s("08:00"), None, None, None), ConfigError::Missing(ConfigKey::MorningEnd));
    assert_eq!(
        e(s("08:00"), s("12:00"), None, s("bad")),
        ConfigError::Missing(ConfigKey::AfternoonStart)
    );
    assert_eq!(
        e(s("08:00"), s("12:00"), s("13:00"), None),
        ConfigError::Missing(ConfigKey::AfternoonEnd)
    );
    assert_eq!(e(s("bad"), s("12:00"), s("13:00"), None), ConfigError::Missing(ConfigKey::AfternoonEnd));
}

#[test]
fn invalid_entries_are_reported_in_order() {
    let e = |a, b, c, d| load_schedule(a, b, c, d).unwrap_err();
    assert_eq!(
        e(s("8h"), s("12:00"), s("13:00"), s("17:00")),
        ConfigError::InvalidTime(ConfigKey::MorningStart)
    );
    assert_eq!(
        e(s("08:00"), s("25:00"), s("13:00"), s("x")),
        ConfigError::InvalidTime(ConfigKey::MorningEnd)
    );
    assert_eq!(
        e(s("08:00"), s("12:00"), s("13:61"), s("17:00")),
        ConfigError::InvalidTime(ConfigKey::AfternoonStart)
    );
    assert_eq!(
        e(s("08:00"), s("12:00"), s("13:00"), s("")),
        ConfigError::InvalidTime(ConfigKey::AfternoonEnd)
    );
}
