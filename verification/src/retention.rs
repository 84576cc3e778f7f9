//! The retention period: for how many days a message is kept.

use vstd::prelude::*;

verus! {

/// The shortest retention period, in days.
pub const MIN_EXPIRY_DAYS: i64 = 1;

/// The longest retention period, in days: the chat service lets a bot delete
/// messages in bulk only while they are at most 14 days old.
pub const MAX_EXPIRY_DAYS: i64 = 14;

/// A retention period is valid between 1 and 14 days, both included.
pub open spec fn valid_expiry_days(days: int) -> bool {
    MIN_EXPIRY_DAYS <= days <= MAX_EXPIRY_DAYS
}

pub fn is_valid_expiry_days(days: i64) -> (r: bool)
    ensures
        r == valid_expiry_days(days as int),
{
    MIN_EXPIRY_DAYS <= days && days <= MAX_EXPIRY_DAYS
}

/// The valid retention periods are exactly the whole numbers of days from 1
/// to 14.
pub proof fn lemma_valid_periods(days: int)
    ensures
        valid_expiry_days(days) <==> 1 <= days && days <= 14,
{
}

/// The retention period in force; it is always valid.
pub struct RetentionPeriod {
    days: i64,
}

impl RetentionPeriod {
    #[verifier::type_invariant]
    spec fn wf(self) -> bool {
        valid_expiry_days(self.days as int)
    }

    /// The period of `days` days; `None` where `days` is not a valid period.
    pub fn new(days: i64) -> (r: Option<RetentionPeriod>)
        ensures
            r is Some <==> valid_expiry_days(days as int),
            r matches Some(p) ==> p@ == days,
    {
        if is_valid_expiry_days(days) {
            Some(RetentionPeriod { days })
        } else {
            None
        }
    }

    pub fn days(&self) -> (r: i64)
        ensures
            r == self@,
            valid_expiry_days(r as int),
    {
        proof {
            use_type_invariant(self);
        }
        self.days
    }

    /// Replaces the period by `days` days where that is a valid period, and
    /// otherwise leaves it as it is; says whether it replaced it.
    pub fn try_set(&mut self, days: i64) -> (accepted: bool)
        ensures
            accepted == valid_expiry_days(days as int),
            accepted ==> final(self)@ == days,
            !accepted ==> final(self)@ == old(self)@,
            valid_expiry_days(final(self)@),
    {
        proof {
            use_type_invariant(&*self);
        }
        if is_valid_expiry_days(days) {
            self.days = days;
            true
        } else {
            false
        }
    }
}

impl View for RetentionPeriod {
    /// The number of days.
    type V = int;

    closed spec fn view(&self) -> int {
        self.days as int
    }
}

} // verus!
