use retainer::commands::duration;
use retainer::commands::duration::get;
use retainer::retention::{is_valid_expiry_days, RetentionPeriod, MAX_EXPIRY_DAYS, MIN_EXPIRY_DAYS};

#[test]
fn retention_period_bounds() {
    assert_eq!(MIN_EXPIRY_DAYS, 1);
    assert_eq!(MAX_EXPIRY_DAYS, 14);
    assert!(!is_valid_expiry_days(0));
    assert!(is_valid_expiry_days(1));
    assert!(is_valid_expiry_days(14));
    assert!(!is_valid_expiry_days(15));
    assert!(RetentionPeriod::new(0).is_none());
    assert!(RetentionPeriod::new(15).is_none());
    assert_eq!(RetentionPeriod::new(9).unwrap().days(), 9);
}

#[test]
fn duration_get_reports_period() {
    let period = RetentionPeriod::new(14).unwrap();
    let reply = get(&period);
    assert_eq!(reply.content, "Current message retention duration is 14 days");
    assert!(reply.ephemeral);
}

#[test]
fn duration_set_then_get() {
    let mut period = RetentionPeriod::new(14).unwrap();
    let reply = duration::set(&mut period, 3);
    assert_eq!(reply.content, "Duration set to 3 days");
    assert!(reply.ephemeral);
    assert_eq!(period.days(), 3);
    assert_eq!(get(&period).content, "Current message retention duration is 3 days");
}

#[test]
fn duration_set_refuses_out_of_range() {
    let mut period = RetentionPeriod::new(5).unwrap();
    let reply = duration::set(&mut period, 15);
    assert_eq!(reply.content, "Duration must be between 1 and 14 (inclusive), got 15");
    assert_eq!(period.days(), 5);
    let reply = duration::set(&mut period, 0);
    assert_eq!(reply.content, "Duration must be between 1 and 14 (inclusive), got 0");
    let reply = duration::set(&mut period, -7);
    assert_eq!(reply.content, "Duration must be between 1 and 14 (inclusive), got -7");
    assert_eq!(period.days(), 5);
    assert_eq!(get(&period).content, "Current message retention duration is 5 days");
}
