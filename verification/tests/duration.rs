use seris::duration::format_duration;

#[test]
fn utility_formats_uptime_compactly() {
    assert_eq!(format_duration(59), "59s");
    assert_eq!(format_duration(61), "1m 01s");
    assert_eq!(format_duration(3_661), "1h 01m 01s");
    assert_eq!(format_duration(90_061), "1d 01h 01m 01s");
}

#[test]
fn dashboard_formats_uptime_compactly() {
    assert_eq!(format_duration(59), "59s");
    assert_eq!(format_duration(61), "1m 01s");
    assert_eq!(format_duration(3_661), "1h 01m 01s");
    assert_eq!(format_duration(90_061), "1d 01h 01m 01s");
}

#[test]
fn formats_edge_durations() {
    assert_eq!(format_duration(0), "0s");
    assert_eq!(format_duration(60), "1m 00s");
    assert_eq!(format_duration(3_600), "1h 00m 00s");
    assert_eq!(format_duration(86_400), "1d 00h 00m 00s");
    assert_eq!(format_duration(1_123_200), "13d 00h 00m 00s");
    assert_eq!(
        format_duration(u64::MAX),
        "213503982334601d 07h 00m 15s"
    );
}
