use retainer::util::cleanup::{cleanup_schedule, cleanup_target, CleanupError, CleanupTarget};

#[test]
fn cleanup_runs_hourly() {
    assert_eq!(cleanup_schedule(), "0 0 * * * *");
}

#[test]
fn cleanup_target_of_valid_keys() {
    assert_eq!(cleanup_target("123", "456"), Ok(CleanupTarget { channel: 123, message: 456 }));
    assert_eq!(cleanup_target("+12", "0034"), Ok(CleanupTarget { channel: 12, message: 34 }));
    assert_eq!(
        cleanup_target("18446744073709551615", "1"),
        Ok(CleanupTarget { channel: u64::MAX, message: 1 })
    );
}

#[test]
fn cleanup_target_errors_in_order() {
    assert_eq!(cleanup_target("abc", "x"), Err(CleanupError::ChannelIdUnreadable));
    assert_eq!(cleanup_target("-1", "1"), Err(CleanupError::ChannelIdUnreadable));
    assert_eq!(cleanup_target("18446744073709551616", "1"), Err(CleanupError::ChannelIdUnreadable));
    assert_eq!(cleanup_target("", "1"), Err(CleanupError::ChannelIdUnreadable));
    assert_eq!(cleanup_target("1", " 2"), Err(CleanupError::MessageIdUnreadable));
    assert_eq!(cleanup_target("0", "x"), Err(CleanupError::MessageIdUnreadable));
    assert_eq!(cleanup_target("0", "5"), Err(CleanupError::ZeroChannelId));
    assert_eq!(cleanup_target("5", "0"), Err(CleanupError::ZeroMessageId));
    assert_eq!(cleanup_target("0", "0"), Err(CleanupError::ZeroChannelId));
}
