use away::timefmt::{format_hms, parse_clock_12h, parse_duration_hms, ClockTime12, Hms};

#[test]
fn duration_parses_example() {
    let d = parse_duration_hms("1:15:30").unwrap();
    assert_eq!(
        d,
        Hms {
            hours: 1,
            minutes: 15,
            seconds: 30
        }
    );
    assert_eq!(d.total_seconds(), 4530);
}

#[test]
fn duration_parses_short_fields() {
    let d = parse_duration_hms("5:3:2").unwrap();
    assert_eq!(
        d,
        Hms {
            hours: 5,
            minutes: 3,
            seconds: 2
        }
    );
    let d = parse_duration_hms("0:00:05").unwrap();
    assert_eq!(d.total_seconds(), 5);
}

#[test]
fn duration_rejects_out_of_range_fields() {
    assert!(parse_duration_hms("24:00:00").is_none());
    assert!(parse_duration_hms("1:60:00").is_none());
    assert!(parse_duration_hms("1:00:60").is_none());
}

#[test]
fn duration_rejects_malformed_text() {
    assert!(parse_duration_hms("").is_none());
    assert!(parse_duration_hms("1:15").is_none());
    assert!(parse_duration_hms("1:15:30:00").is_none());
    assert!(parse_duration_hms("a:b:c").is_none());
    assert!(parse_duration_hms("1:15:30x").is_none());
    assert!(parse_duration_hms("115:30:00").is_none());
    assert!(parse_duration_hms("1::30").is_none());
}

#[test]
fn clock_parses_afternoon() {
    let t = parse_clock_12h("5:30:pm").unwrap();
    assert_eq!(
        t,
        ClockTime12 {
            hour: 5,
            minute: 30,
            pm: true
        }
    );
    assert_eq!(t.target_seconds(), 17 * 3600 + 30 * 60);
}

#[test]
fn clock_parses_morning_and_upper_case() {
    let t = parse_clock_12h("10:00:am").unwrap();
    assert_eq!(t.target_seconds(), 10 * 3600);
    let t = parse_clock_12h("10:00:AM").unwrap();
    assert!(!t.pm);
    let t = parse_clock_12h("5:30:Pm").unwrap();
    assert!(t.pm);
}

#[test]
fn clock_wraps_twelve() {
    let midnight = parse_clock_12h("12:00:am").unwrap();
    assert_eq!(midnight.target_seconds(), 0);
    let noon = parse_clock_12h("12:00:pm").unwrap();
    assert_eq!(noon.target_seconds(), 12 * 3600);
}

#[test]
fn clock_rejects_malformed_text() {
    assert!(parse_clock_12h("25:99:zz").is_none());
    assert!(parse_clock_12h("0:00:am").is_none());
    assert!(parse_clock_12h("13:00:pm").is_none());
    assert!(parse_clock_12h("5:60:pm").is_none());
    assert!(parse_clock_12h("5:30:xm").is_none());
    assert!(parse_clock_12h("5:30:pmm").is_none());
    assert!(parse_clock_12h("5:30").is_none());
    assert!(parse_clock_12h("").is_none());
}

#[test]
fn countdown_renders_zero_padded() {
    assert_eq!(format_hms(0), "0:00:00");
    assert_eq!(format_hms(5), "0:00:05");
    assert_eq!(format_hms(61), "0:01:01");
    assert_eq!(format_hms(4530), "1:15:30");
    assert_eq!(format_hms(86399), "23:59:59");
}

#[test]
fn countdown_hours_are_unpadded_and_unbounded() {
    assert_eq!(format_hms(36000 * 1000), "10000:00:00");
    assert_eq!(format_hms(3600), "1:00:00");
}
