//! The hourly cleanup: every expired message is deleted, then its record.

use vstd::prelude::*;
use crate::commands::channels::id_key;
use crate::decimal::{parse_u64, spec_parse_u64, lemma_u64_text_parses_back};

verus! {

/// When the cleanup runs, as a cron schedule with seconds: at the start of
/// every hour.
pub fn cleanup_schedule() -> (r: &'static str)
    ensures
        r@ == "0 0 * * * *"@,
{
    "0 0 * * * *"
}

/// The message that an expired record names.
#[derive(Clone, Copy, Debug, PartialEq, Eq, Structural)]
pub struct CleanupTarget {
    pub channel: u64,
    pub message: u64,
}

/// Why an expired record names no message; the cleanup stops on it.
#[derive(Clone, Copy, Debug, PartialEq, Eq, Structural)]
pub enum CleanupError {
    /// The channel key is not the decimal text of a `u64`.
    ChannelIdUnreadable,
    /// The message key is not the decimal text of a `u64`.
    MessageIdUnreadable,
    /// The channel key reads as zero, which is no channel.
    ZeroChannelId,
    /// The message key reads as zero, which is no message.
    ZeroMessageId,
}

/// The message named by a record with these keys; its keys are read in the
/// order channel, then message, and each must be a nonzero identifier.
pub open spec fn spec_cleanup_target(channel_key: Seq<char>, message_key: Seq<char>) -> Result<
    CleanupTarget,
    CleanupError,
> {
    match spec_parse_u64(channel_key) {
        None => Err(CleanupError::ChannelIdUnreadable),
        Some(channel) => match spec_parse_u64(message_key) {
            None => Err(CleanupError::MessageIdUnreadable),
            Some(message) => if channel == 0 {
                Err(CleanupError::ZeroChannelId)
            } else if message == 0 {
                Err(CleanupError::ZeroMessageId)
            } else {
                Ok(CleanupTarget { channel, message })
            },
        },
    }
}

/// The message to delete for an expired record with these keys.
pub fn cleanup_target(channel_key: &str, message_key: &str) -> (r: Result<CleanupTarget, CleanupError>)
    ensures
        r == spec_cleanup_target(channel_key@, message_key@),
{
    let channel = match parse_u64(channel_key) {
        Some(c) => c,
        None => { return Err(CleanupError::ChannelIdUnreadable); },
    };
    let message = match parse_u64(message_key) {
        Some(m) => m,
        None => { return Err(CleanupError::MessageIdUnreadable); },
    };
    if channel == 0 {
        Err(CleanupError::ZeroChannelId)
    } else if message == 0 {
        Err(CleanupError::ZeroMessageId)
    } else {
        Ok(CleanupTarget { channel, message })
    }
}

/// The cleanup reads back what was stored: a record whose keys are those of
/// a channel and a message names exactly that message.
pub proof fn lemma_stored_keys_read_back(channel: u64, message: u64)
    requires
        channel != 0,
        message != 0,
    ensures
        spec_cleanup_target(id_key(channel), id_key(message)) == Ok::<CleanupTarget, CleanupError>(
            CleanupTarget { channel, message },
        ),
{
    lemma_u64_text_parses_back(channel);
    lemma_u64_text_parses_back(message);
}

} // verus!
