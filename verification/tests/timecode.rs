use video_player::format_time;

#[test]
fn times_under_an_hour_read_minutes_and_seconds() {
    assert_eq!(format_time(0), "00:00");
    assert_eq!(format_time(7), "00:07");
    assert_eq!(format_time(59), "00:59");
    assert_eq!(format_time(61), "01:01");
    assert_eq!(format_time(599), "09:59");
    assert_eq!(format_time(600), "10:00");
    assert_eq!(format_time(3599), "59:59");
}

#[test]
fn times_from_an_hour_on_carry_an_hour_field() {
    assert_eq!(format_time(3600), "01:00:00");
    assert_eq!(format_time(3661), "01:01:01");
    assert_eq!(format_time(86_399), "23:59:59");
}

#[test]
fn the_hour_field_widens_rather_than_wrap() {
    assert_eq!(format_time(360_000), "100:00:00");
    assert_eq!(format_time(3_600_000), "1000:00:00");
}
