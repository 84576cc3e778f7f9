//! `/ping`: how long the bot took to answer.

use vstd::prelude::*;
use vstd::string::*;
use crate::decimal::{nat_decimal, u128_text};
use crate::reply::{Reply, ephemeral};

verus! {

/// The creation time of a command, in milliseconds since the epoch, read as
/// an unsigned 128-bit number the way a cast reads it (a negative time wraps
/// around).
pub open spec fn created_unsigned(created_ms: i64) -> int {
    if created_ms >= 0 {
        created_ms as int
    } else {
        created_ms + u128::MAX + 1
    }
}

/// The milliseconds from a command's creation to `now_ms`; zero where the
/// creation does not come first.
pub open spec fn latency_ms(now_ms: u128, created_ms: i64) -> int {
    let created = created_unsigned(created_ms);
    if now_ms >= created {
        now_ms - created
    } else {
        0
    }
}

pub open spec fn pong_text(latency: nat) -> Seq<char> {
    "\u{1F3D3} Pong!\n\n-# Responded in `"@ + nat_decimal(latency) + "ms`"@
}

/// `/ping`: the reply at `now_ms` milliseconds since the epoch to a command
/// created at `created_ms` milliseconds since the epoch.
pub fn ping(now_ms: u128, created_ms: i64) -> (r: Reply)
    ensures
        r.content@ == pong_text(latency_ms(now_ms, created_ms) as nat),
        0 <= created_ms <= now_ms ==> r.content@ == pong_text((now_ms - created_ms) as nat),
        0 <= created_ms && now_ms < created_ms ==> r.content@ == pong_text(0),
        r.ephemeral,
{
    let created: u128 = if created_ms >= 0 {
        created_ms as u128
    } else {
        u128::MAX - ((-(created_ms + 1)) as u128)
    };
    let latency: u128 = if now_ms >= created {
        now_ms - created
    } else {
        0
    };
    let mut text = String::from_str("\u{1F3D3} Pong!\n\n-# Responded in `");
    let digits = u128_text(latency);
    text.append(digits.as_str());
    text.append("ms`");
    ephemeral(text)
}

/// The reported latency is the time elapsed from the command's creation to
/// now, in milliseconds, and never negative: for a creation time at or after
/// the epoch it is `now_ms - created_ms` when the creation comes first and 0
/// otherwise; a creation time before the epoch, read as a wrapped unsigned
/// number, lies 2^128 milliseconds later.
pub proof fn lemma_latency_is_elapsed_time(now_ms: u128, created_ms: i64)
    ensures
        0 <= created_ms <= now_ms ==> latency_ms(now_ms, created_ms) == now_ms - created_ms,
        0 <= created_ms && now_ms < created_ms ==> latency_ms(now_ms, created_ms) == 0,
        created_ms < 0 ==> latency_ms(now_ms, created_ms) == if now_ms - created_ms
            >= 0x1_0000_0000_0000_0000_0000_0000_0000_0000 {
            now_ms - created_ms - 0x1_0000_0000_0000_0000_0000_0000_0000_0000
        } else {
            0
        },
        latency_ms(now_ms, created_ms) >= 0,
{
}

} // verus!
