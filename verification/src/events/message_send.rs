//! A message was sent: where its channel is listened to, the bot marks it
//! and records when it expires.

use vstd::prelude::*;
use crate::commands::channels::id_key;
use crate::decimal::u64_text;
use crate::retention::{RetentionPeriod, MAX_EXPIRY_DAYS, valid_expiry_days};
use crate::time::{Timestamp, add_days, day_nanos, earlier, within_clock_range, SECONDS_PER_DAY};

verus! {

/// The stored record of a message that is to be deleted once it expires.
pub struct MessageRecord {
    /// The key of the message.
    pub message_id: String,
    /// The key of its channel.
    pub channel_id: String,
    /// When it expires.
    pub expires_at: Timestamp,
}

/// What to do with a new message in a channel of a server.
pub enum SendAction<E> {
    /// Its channel is not listened to: nothing.
    Ignore,
    /// Mark the message with a timer reaction, then store this record.
    Track(MessageRecord),
    /// The store failed when asked for the channel: end with its error.
    Fail(E),
    /// The expiry is beyond the instants that the clock library represents.
    ExpiryOutOfRange,
}

/// When a message recorded at `now` with a retention period of `days` days expires.
pub open spec fn expiry_after(now: Timestamp, days: int) -> int {
    now@ + days * day_nanos()
}

/// What to do with a new message `message` in the listened channel stored
/// under `channel_id`, given when it expires (`None` where the clock library
/// could not compute that instant).
pub fn track_message<E>(channel_id: String, message: u64, expires_at: Option<Timestamp>) -> (r:
    SendAction<E>)
    ensures
        expires_at is None ==> r == SendAction::<E>::ExpiryOutOfRange,
        expires_at matches Some(t) ==> (r matches SendAction::Track(record) && record.channel_id
            == channel_id && record.message_id@ == id_key(message) && record.expires_at == t),
{
    match expires_at {
        Some(expires_at) => {
            let message_id = u64_text(message);
            SendAction::Track(MessageRecord { message_id, channel_id, expires_at })
        },
        None => SendAction::ExpiryOutOfRange,
    }
}

/// A new message `message` in a channel of a server, given what the store
/// answered when asked for that channel (its key, `None` where it is not
/// listened to, or the store's error), the retention period in force and
/// the present instant.
pub fn message_send<E>(
    lookup: Result<Option<String>, E>,
    message: u64,
    period: &RetentionPeriod,
    now: &Timestamp,
) -> (r: SendAction<E>)
    ensures
        lookup matches Ok(None) ==> r == SendAction::<E>::Ignore,
        lookup matches Err(e) ==> r == SendAction::<E>::Fail(e),
        lookup matches Ok(Some(key)) ==> (r is Track || r is ExpiryOutOfRange),
        lookup matches Ok(Some(key)) ==> (r is Track <==> within_clock_range(now.spec_secs())
            && within_clock_range(now.spec_secs() + period@ * SECONDS_PER_DAY)),
        r matches SendAction::Track(record) ==> {
            &&& lookup == Ok::<Option<String>, E>(Some(record.channel_id))
            &&& record.message_id@ == id_key(message)
            &&& record.expires_at@ == expiry_after(*now, period@)
            &&& record.expires_at.spec_secs() == now.spec_secs() + period@ * SECONDS_PER_DAY
            &&& record.expires_at.spec_nanos() == now.spec_nanos()
        },
{
    match lookup {
        Ok(Some(channel_id)) => track_message(channel_id, message, add_days(now, period.days())),
        Ok(None) => SendAction::Ignore,
        Err(e) => SendAction::Fail(e),
    }
}

/// A message recorded at `now` under a valid retention period of `days`
/// days is not yet expired at `now` nor during the day after it, is expired
/// (its expiry comes before the present) exactly at the instants later than
/// `days` whole days after `now`, and so at every instant later than 14 days
/// after `now`.
pub proof fn lemma_expiry_window(now: Timestamp, days: int, expires_at: Timestamp, t: Timestamp)
    requires
        valid_expiry_days(days),
        expires_at@ == expiry_after(now, days),
    ensures
        !earlier(expires_at, now),
        earlier(expires_at, t) <==> t@ > now@ + days * day_nanos(),
        t@ <= now@ + day_nanos() ==> !earlier(expires_at, t),
        t@ > now@ + MAX_EXPIRY_DAYS * day_nanos() ==> earlier(expires_at, t),
{
    assert(day_nanos() <= days * day_nanos() <= MAX_EXPIRY_DAYS * day_nanos()) by (nonlinear_arith)
        requires
            1 <= days <= 14,
    ;
}

} // verus!
