//! `/duration get` and `/duration set`: reading and changing the retention period.

use vstd::prelude::*;
use vstd::string::*;
use crate::decimal::{int_decimal, i64_text};
use crate::reply::{Reply, ephemeral};
use crate::retention::{RetentionPeriod, valid_expiry_days};

verus! {

pub open spec fn current_duration_text(days: int) -> Seq<char> {
    "Current message retention duration is "@ + int_decimal(days) + " days"@
}

pub open spec fn duration_set_text(days: int) -> Seq<char> {
    "Duration set to "@ + int_decimal(days) + " days"@
}

pub open spec fn duration_refused_text(days: int) -> Seq<char> {
    "Duration must be between 1 and 14 (inclusive), got "@ + int_decimal(days)
}

/// The period in force after `/duration set` asked for `requested` days
/// while `current` days were in force.
pub open spec fn period_after_set(current: int, requested: int) -> int {
    if valid_expiry_days(requested) {
        requested
    } else {
        current
    }
}

/// `/duration get`: tells the user the retention period in force.
pub fn get(period: &RetentionPeriod) -> (r: Reply)
    ensures
        r.content@ == current_duration_text(period@),
        r.ephemeral,
{
    let mut text = String::from_str("Current message retention duration is ");
    let days = i64_text(period.days());
    text.append(days.as_str());
    text.append(" days");
    ephemeral(text)
}

/// `/duration set`: puts a period of `duration` days in force where it lies
/// between 1 and 14 days, and otherwise keeps the period and says why.
pub fn set(period: &mut RetentionPeriod, duration: i64) -> (r: Reply)
    ensures
        final(period)@ == period_after_set(old(period)@, duration as int),
        valid_expiry_days(duration as int) ==> r.content@ == duration_set_text(duration as int),
        !valid_expiry_days(duration as int) ==> r.content@ == duration_refused_text(duration as int),
        1 <= duration <= 14 ==> final(period)@ == duration && r.content@ == duration_set_text(
            duration as int,
        ),
        duration < 1 || duration > 14 ==> final(period)@ == old(period)@ && r.content@
            == duration_refused_text(duration as int),
        r.ephemeral,
{
    let days = i64_text(duration);
    if period.try_set(duration) {
        let mut text = String::from_str("Duration set to ");
        text.append(days.as_str());
        text.append(" days");
        ephemeral(text)
    } else {
        let mut text = String::from_str("Duration must be between 1 and 14 (inclusive), got ");
        text.append(days.as_str());
        ephemeral(text)
    }
}

/// What `/duration get` reports after `/duration set` with `requested` days:
/// the requested period where it was accepted, the earlier one where it was
/// refused.
pub proof fn lemma_get_reports_last_accepted(current: int, requested: int)
    requires
        valid_expiry_days(current),
    ensures
        valid_expiry_days(period_after_set(current, requested)),
        valid_expiry_days(requested) ==> current_duration_text(period_after_set(current, requested))
            == current_duration_text(requested),
        !valid_expiry_days(requested) ==> current_duration_text(period_after_set(current, requested))
            == current_duration_text(current),
{
}

} // verus!
