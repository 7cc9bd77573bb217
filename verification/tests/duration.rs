use komari_tg_bot::connection::ws_get::status::format_duration;

#[test]
fn zero_seconds_is_shown_as_zero_seconds() {
    assert_eq!(format_duration(0), "0 seconds");
}

#[test]
fn one_of_each_unit() {
    assert_eq!(
        format_duration(31536000 + 2592000 + 86400 + 3600 + 60 + 1),
        "1 年 1 月 1 天 1 时 1 分 1 秒"
    );
}

#[test]
fn units_that_are_zero_are_left_out() {
    assert_eq!(format_duration(3600), "1 时");
    assert_eq!(format_duration(86400 + 5), "1 天 5 秒");
    assert_eq!(format_duration(59), "59 秒");
    assert_eq!(format_duration(60), "1 分");
}

#[test]
fn the_longest_duration() {
    assert_eq!(
        format_duration(u64::MAX),
        "584942417355 年 26 天 7 时 15 秒"
    );
}
