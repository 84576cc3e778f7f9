use retainer::commands::channels::channel_key;
use retainer::events::message_delete::message_delete;
use retainer::events::message_send::{message_send, track_message, SendAction};
use retainer::retention::RetentionPeriod;
use retainer::time::{add_days, Timestamp, CLOCK_MAX_SECS, CLOCK_MIN_SECS};
use retainer::util::cleanup::{cleanup_target, CleanupTarget};

#[test]
fn timestamp_refuses_whole_second_of_nanos() {
    assert!(Timestamp::new(0, 999_999_999).is_some());
    assert!(Timestamp::new(0, 1_000_000_000).is_none());
    let t = Timestamp::new(-5, 7).unwrap();
    assert_eq!((t.secs(), t.nanos()), (-5, 7));
}

#[test]
fn add_days_shifts_by_whole_days() {
    let now = Timestamp::new(1_700_000_000, 123).unwrap();
    let later = add_days(&now, 14).unwrap();
    assert_eq!(later.secs(), 1_700_000_000 + 14 * 86_400);
    assert_eq!(later.nanos(), 123);
    assert!(add_days(&now, i64::MAX).is_none());
}

#[test]
fn message_in_unlistened_channel_is_ignored() {
    let period = RetentionPeriod::new(3).unwrap();
    let now = Timestamp::new(1_700_000_000, 0).unwrap();
    assert!(matches!(message_send::<String>(Ok(None), 77, &period, &now), SendAction::Ignore));
}

#[test]
fn message_send_store_failure_is_reported() {
    let period = RetentionPeriod::new(3).unwrap();
    let now = Timestamp::new(1_700_000_000, 0).unwrap();
    match message_send(Err("broken".to_string()), 77, &period, &now) {
        SendAction::Fail(e) => assert_eq!(e, "broken"),
        _ => panic!("expected the store's error"),
    }
}

#[test]
fn message_in_listened_channel_is_tracked() {
    let period = RetentionPeriod::new(3).unwrap();
    let now = Timestamp::new(1_700_000_000, 42).unwrap();
    match message_send::<String>(Ok(Some(channel_key(555))), 1234, &period, &now) {
        SendAction::Track(record) => {
            assert_eq!(record.message_id, "1234");
            assert_eq!(record.channel_id, "555");
            assert_eq!(record.expires_at.secs(), 1_700_000_000 + 3 * 86_400);
            assert_eq!(record.expires_at.nanos(), 42);
        }
        _ => panic!("expected a record"),
    }
}

#[test]
fn deleted_message_key() {
    assert_eq!(message_delete(1234), "1234");
    assert_eq!(message_delete(u64::MAX), "18446744073709551615");
}

#[test]
fn cleanup_reads_stored_keys_back() {
    let period = RetentionPeriod::new(1).unwrap();
    let now = Timestamp::new(0, 0).unwrap();
    let record = match message_send::<String>(Ok(Some(channel_key(987654321))), 123456789, &period, &now) {
        SendAction::Track(record) => record,
        _ => panic!("expected a record"),
    };
    let target = cleanup_target(&record.channel_id, &record.message_id).unwrap();
    assert_eq!(target, CleanupTarget { channel: 987654321, message: 123456789 });
}

#[test]
fn track_message_without_expiry() {
    assert!(matches!(
        track_message::<String>("5".to_string(), 6, None),
        SendAction::ExpiryOutOfRange
    ));
    let at = Timestamp::new(100, 5).unwrap();
    match track_message::<String>("5".to_string(), 6, Some(at)) {
        SendAction::Track(record) => {
            assert_eq!(record.channel_id, "5");
            assert_eq!(record.message_id, "6");
            assert_eq!((record.expires_at.secs(), record.expires_at.nanos()), (100, 5));
        }
        _ => panic!("expected a record"),
    }
}

#[test]
fn tracked_message_expires_after_its_period() {
    let period = RetentionPeriod::new(14).unwrap();
    let now = Timestamp::new(1_000_000, 0).unwrap();
    let record = match message_send::<String>(Ok(Some("1".to_string())), 2, &period, &now) {
        SendAction::Track(record) => record,
        _ => panic!("expected a record"),
    };
    let expires = (record.expires_at.secs(), record.expires_at.nanos());
    // not expired at the time it was sent, nor exactly at its expiry
    assert!(!((expires.0, expires.1) < (1_000_000, 0)));
    assert_eq!(expires, (1_000_000 + 14 * 86_400, 0));
    // expired one nanosecond later
    assert!((expires.0, expires.1) < (1_000_000 + 14 * 86_400, 1));
}

#[test]
fn add_days_reaches_chrono_limits_exactly() {
    let late = Timestamp::new(CLOCK_MAX_SECS - 14 * 86_400, 999_999_999).unwrap();
    let r = add_days(&late, 14).unwrap();
    assert_eq!((r.secs(), r.nanos()), (CLOCK_MAX_SECS, 999_999_999));
    let past_end = Timestamp::new(CLOCK_MAX_SECS - 14 * 86_400 + 1, 0).unwrap();
    assert!(add_days(&past_end, 14).is_none());
    let early = Timestamp::new(CLOCK_MIN_SECS + 86_400, 0).unwrap();
    let r = add_days(&early, -1).unwrap();
    assert_eq!(r.secs(), CLOCK_MIN_SECS);
    let before_start = Timestamp::new(CLOCK_MIN_SECS + 86_399, 0).unwrap();
    assert!(add_days(&before_start, -1).is_none());
    let outside = Timestamp::new(CLOCK_MAX_SECS + 1, 0).unwrap();
    assert!(add_days(&outside, 0).is_none());
    assert!(add_days(&outside, -1).is_none());
}
