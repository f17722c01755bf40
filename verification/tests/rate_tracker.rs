use rs_pixel::key::{Key, RATE_LIMIT_THRESHOLD};
use rs_pixel::util::utils::get_timestamp_millis;

fn recorded(remaining: i64, reset_seconds: i64, at: i64) -> Key {
    let mut key = Key::new("secret".to_string());
    key.record_remaining_limit(remaining, at);
    key.record_time_till_reset(reset_seconds, at);
    key
}

#[test]
fn fresh_key_is_not_limited() {
    let key = Key::new("secret".to_string());
    assert!(!key.is_rate_limited_at(0));
    assert!(!key.is_rate_limited_at(1_700_000_000_000));
    assert!(!key.is_rate_limited());
    assert_eq!(key.get_time_till_reset_at(5), 0);
    assert_eq!(key.get_time_till_reset(), 0);
    assert_eq!(key.secret_text(), "secret");
}

#[test]
fn threshold_is_one() {
    assert_eq!(RATE_LIMIT_THRESHOLD, 1);
    assert!(recorded(1, 30, 1_000).is_rate_limited_at(1_000));
    assert!(recorded(0, 30, 1_000).is_rate_limited_at(1_000));
    assert!(recorded(-3, 30, 1_000).is_rate_limited_at(1_000));
    assert!(!recorded(2, 30, 1_000).is_rate_limited_at(1_000));
    assert!(!recorded(120, 30, 1_000).is_rate_limited_at(1_000));
}

#[test]
fn limited_inside_the_window_only() {
    let key = recorded(0, 30, 1_000);
    assert!(key.is_rate_limited_at(1_000));
    assert!(key.is_rate_limited_at(30_999));
    assert!(!key.is_rate_limited_at(31_000));
    assert!(!key.is_rate_limited_at(31_001));
    assert!(!key.is_rate_limited_at(i64::MAX));
}

#[test]
fn zero_or_negative_countdown_never_limits() {
    assert!(!recorded(0, 0, 1_000).is_rate_limited_at(1_000));
    assert!(!recorded(0, 0, 1_000).is_rate_limited_at(0));
    assert!(!recorded(0, -5, 1_000).is_rate_limited_at(0));
}

#[test]
fn time_until_reset_counts_whole_seconds_down_to_zero() {
    let key = recorded(0, 30, 1_000);
    assert_eq!(key.get_time_till_reset_at(1_000), 30);
    assert_eq!(key.get_time_till_reset_at(1_001), 29);
    assert_eq!(key.get_time_till_reset_at(11_000), 20);
    assert_eq!(key.get_time_till_reset_at(30_000), 1);
    assert_eq!(key.get_time_till_reset_at(30_001), 0);
    assert_eq!(key.get_time_till_reset_at(31_000), 0);
    assert_eq!(key.get_time_till_reset_at(99_000), 0);
}

#[test]
fn time_until_reset_never_grows_as_the_clock_advances() {
    let key = recorded(1, 7, 500);
    let mut last = key.get_time_till_reset_at(0);
    let mut now = 0;
    while now <= 9_000 {
        let left = key.get_time_till_reset_at(now);
        assert!(left >= 0);
        assert!(left <= last);
        last = left;
        now += 37;
    }
    assert_eq!(last, 0);
}

#[test]
fn later_record_replaces_the_earlier_one() {
    let mut key = recorded(0, 30, 1_000);
    key.record_remaining_limit(100, 5_000);
    assert!(!key.is_rate_limited_at(5_000));
    assert_eq!(key.get_time_till_reset_at(5_000), 30);
    key.record_time_till_reset(10, 6_000);
    assert_eq!(key.get_time_till_reset_at(6_000), 10);
}

#[test]
fn extreme_values_do_not_overflow() {
    let key = recorded(0, i64::MAX, i64::MAX);
    assert!(key.is_rate_limited_at(i64::MAX));
    assert_eq!(key.get_time_till_reset_at(i64::MIN), i64::MAX);
    let key = recorded(0, i64::MIN, i64::MIN);
    assert!(!key.is_rate_limited_at(i64::MIN));
    assert_eq!(key.get_time_till_reset_at(i64::MAX), 0);
    let key = recorded(0, 1, i64::MAX);
    assert_eq!(key.get_time_till_reset_at(i64::MAX), 1);
}

#[test]
fn system_clock_versions_agree_with_the_present() {
    let mut key = Key::new("secret".to_string());
    key.update_remaining_limit(0);
    key.update_time_till_reset(3_600);
    assert!(key.is_rate_limited());
    let left = key.get_time_till_reset();
    assert!(left == 3_600 || left == 3_599);
    key.update_time_till_reset(0);
    assert!(!key.is_rate_limited());
    assert!(get_timestamp_millis() > 1_600_000_000_000);
}
