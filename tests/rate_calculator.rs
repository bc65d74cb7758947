use zfs_monitor::{RateCalculator, RateSample, Timestamp};

#[test]
fn test_has_previous_data() {
    let mut calculator = RateCalculator::new();
    let now = Timestamp::from_secs(0);

    assert!(!calculator.has_previous_data("test"));

    calculator.update("test", 100, now);
    assert!(calculator.has_previous_data("test"));

    assert!(!calculator.has_previous_data("nonexistent"));
}

#[test]
fn test_reset_functionality() {
    let mut calculator = RateCalculator::new();
    let now = Timestamp::from_secs(0);

    calculator.update("test1", 100, now);
    calculator.update("test2", 200, now);

    assert!(calculator.has_previous_data("test1"));
    assert!(calculator.has_previous_data("test2"));

    calculator.reset();

    assert!(!calculator.has_previous_data("test1"));
    assert!(!calculator.has_previous_data("test2"));
}

#[test]
fn test_update_overwrites_previous_values() {
    let mut calculator = RateCalculator::new();
    let time1 = Timestamp::from_secs(0);
    let time2 = Timestamp::from_secs(1);

    calculator.update("test", 100, time1);
    assert_eq!(calculator.previous("test").unwrap().value, 100);
    assert_eq!(calculator.previous("test").unwrap().at, time1);

    calculator.update("test", 200, time2);
    assert_eq!(calculator.previous("test").unwrap().value, 200);
    assert_eq!(calculator.previous("test").unwrap().at, time2);
}

#[test]
fn test_first_measurement_returns_none() {
    let calculator = RateCalculator::new();
    let now = Timestamp::from_secs(0);

    let rate = calculator.calculate_rate("test", 100, now);
    assert!(rate.is_none());
}

#[test]
fn test_zero_time_delta() {
    let mut calculator = RateCalculator::new();
    let now = Timestamp::from_secs(5);

    calculator.update("test", 100, now);
    let rate = calculator.calculate_rate("test", 200, now).unwrap();

    assert_eq!(rate.per_second(), 0);
    assert_eq!(rate.elapsed_nanos, 0);
}

#[test]
fn test_different_keys() {
    let mut calculator = RateCalculator::new();
    let now = Timestamp::from_secs(0);

    calculator.update("key1", 100, now);
    calculator.update("key2", 200, now);

    let rate1 = calculator.calculate_rate("key1", 150, Timestamp::from_secs(1)).unwrap();
    let rate2 = calculator.calculate_rate("key2", 250, Timestamp::from_secs(1)).unwrap();

    assert_eq!(rate1.per_second(), 50);
    assert_eq!(rate2.per_second(), 50);
}

#[test]
fn test_zero_rate_calculation() {
    let mut calculator = RateCalculator::new();
    let now = Timestamp::from_secs(0);

    calculator.update("test", 100, now);
    let rate = calculator.calculate_rate("test", 100, Timestamp::from_secs(1)).unwrap();

    assert_eq!(rate.per_second(), 0);
}

#[test]
fn test_decreasing_rate_calculation() {
    let mut calculator = RateCalculator::new();
    let now = Timestamp::from_secs(0);

    calculator.update("test", 200, now);
    let rate = calculator.calculate_rate("test", 100, Timestamp::from_secs(1)).unwrap();

    assert_eq!(rate.per_second(), 0);
    assert_eq!(rate.delta, 0);
}

#[test]
fn test_overflow_protection() {
    let mut calculator = RateCalculator::new();
    let now = Timestamp::from_secs(0);

    calculator.update("test", u64::MAX, now);
    let rate = calculator.calculate_rate("test", 0, Timestamp::from_secs(1)).unwrap();
    assert_eq!(rate.per_second(), 0);

    calculator.reset();
    calculator.update("large", u64::MAX / 2, now);
    let rate = calculator.calculate_rate("large", u64::MAX, Timestamp::from_secs(1)).unwrap();
    assert!(rate.per_second() > 0);
}

#[test]
fn test_precision_with_small_deltas() {
    let mut calculator = RateCalculator::new();
    let now = Timestamp::from_secs(0);

    calculator.update("precise", 1000, now);
    let later = Timestamp::from_nanos(500_000);
    let rate = calculator.calculate_rate("precise", 1001, later).unwrap();

    let per_second = rate.per_second() as f64;
    assert!((per_second - 2000.0).abs() < 100.0);
}

#[test]
fn test_very_large_rates() {
    let mut calculator = RateCalculator::new();
    let now = Timestamp::from_secs(0);

    calculator.update("bandwidth", 0, now);
    let rate = calculator
        .calculate_rate("bandwidth", 1_000_000_000, Timestamp::from_nanos(1_000_000))
        .unwrap();

    let per_second = rate.per_second() as f64;
    assert!((per_second - 1_000_000_000_000.0).abs() < 1_000_000.0);
}

#[test]
fn test_rate_calculation_with_fractional_seconds() {
    let mut calculator = RateCalculator::new();
    let now = Timestamp::from_secs(0);

    calculator.update("test", 0, now);

    let half_second = Timestamp::from_nanos(500_000_000);
    let rate = calculator.calculate_rate("test", 100, half_second).unwrap();

    let per_second = rate.per_second() as f64;
    assert!((per_second - 200.0).abs() < 10.0);
}

#[test]
fn test_calculate_rate_without_update() {
    let mut calculator = RateCalculator::new();
    let now = Timestamp::from_secs(0);

    calculator.update("manual", 100, now);

    let later = Timestamp::from_secs(2);
    let rate = calculator.calculate_rate("manual", 300, later).unwrap();

    let per_second = rate.per_second() as f64;
    assert!((per_second - 100.0).abs() < 5.0);

    assert_eq!(calculator.previous("manual").unwrap().value, 100);
}

#[test]
fn test_empty_key_handling() {
    let mut calculator = RateCalculator::new();
    let now = Timestamp::from_secs(0);

    let rate = calculator.calculate_and_update("", 100, now);
    assert!(rate.is_none());

    let rate2 = calculator
        .calculate_and_update("", 200, Timestamp::from_secs(1))
        .unwrap();
    assert_eq!(rate2.per_second(), 100);
}

#[test]
fn test_unicode_keys() {
    let mut calculator = RateCalculator::new();
    let now = Timestamp::from_secs(0);

    let key = "测试_key_🚀";
    let rate = calculator.calculate_and_update(key, 50, now);
    assert!(rate.is_none());

    let rate2 = calculator
        .calculate_and_update(key, 100, Timestamp::from_secs(1))
        .unwrap();
    assert_eq!(rate2.per_second(), 50);
}

#[test]
fn rate_sample_exact_values() {
    let s = RateSample { delta: 100, elapsed_nanos: 100_000_000 };
    assert_eq!(s.per_second(), 1000);
    let s = RateSample { delta: 7, elapsed_nanos: 2_000_000_000 };
    assert_eq!(s.per_second(), 3);
    let s = RateSample { delta: u64::MAX, elapsed_nanos: 1 };
    assert_eq!(s.per_second(), u64::MAX);
    let s = RateSample { delta: 5, elapsed_nanos: 0 };
    assert_eq!(s.per_second(), 0);
}

#[test]
fn rate_time_going_backwards_gives_zero() {
    let mut calculator = RateCalculator::new();
    calculator.update("k", 10, Timestamp::from_secs(5));
    let rate = calculator.calculate_rate("k", 20, Timestamp::from_secs(4)).unwrap();
    assert_eq!(rate.per_second(), 0);
}

#[test]
fn rate_keys_are_independent() {
    let mut calculator = RateCalculator::new();
    assert!(calculator.calculate_and_update("a", 10, Timestamp::from_secs(0)).is_none());
    assert!(calculator.calculate_and_update("b", 1000, Timestamp::from_secs(0)).is_none());
    let a = calculator.calculate_and_update("a", 30, Timestamp::from_secs(2)).unwrap();
    assert_eq!(a.per_second(), 10);
    let b = calculator.calculate_and_update("b", 1000, Timestamp::from_secs(3)).unwrap();
    assert_eq!(b.per_second(), 0);
    assert_eq!(calculator.previous("a").unwrap().value, 30);
    assert_eq!(calculator.previous("b").unwrap().at, Timestamp::from_secs(3));
}
