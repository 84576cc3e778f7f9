//! Points in time, as the retention rules see them: UTC instants given by
//! whole seconds since the Unix epoch and the nanoseconds past that second.

use vstd::prelude::*;

verus! {

pub const NANOS_PER_SECOND: u32 = 1_000_000_000;

pub const SECONDS_PER_DAY: i64 = 86_400;

/// The earliest second that chrono represents, `DateTime::<Utc>::MIN_UTC`:
/// January 1 of the year -262143, 00:00:00 UTC, in seconds since the epoch.
pub const CLOCK_MIN_SECS: i64 = -8_334_601_228_800;

/// The latest second that chrono represents, `DateTime::<Utc>::MAX_UTC`:
/// December 31 of the year 262142, 23:59:59 UTC (and any fraction of that
/// second), in seconds since the epoch.
pub const CLOCK_MAX_SECS: i64 = 8_210_266_876_799;

/// The instant `secs` seconds after the epoch (with any fraction of a second
/// after it) lies where chrono represents it.
pub open spec fn within_clock_range(secs: int) -> bool {
    CLOCK_MIN_SECS <= secs <= CLOCK_MAX_SECS
}

/// Nanoseconds in one day.
pub open spec fn day_nanos() -> int {
    86_400_000_000_000
}

/// A UTC instant without leap seconds: `secs` since the Unix epoch and
/// `nanos` (below one second) after it.
pub struct Timestamp {
    secs: i64,
    nanos: u32,
}

impl Timestamp {
    #[verifier::type_invariant]
    spec fn wf(self) -> bool {
        self.nanos < NANOS_PER_SECOND
    }

    pub closed spec fn spec_secs(self) -> int {
        self.secs as int
    }

    pub closed spec fn spec_nanos(self) -> int {
        self.nanos as int
    }

    /// A timestamp's view counts the nanoseconds of its seconds and those
    /// after them.
    pub proof fn lemma_view(self)
        ensures
            self@ == self.spec_secs() * 1_000_000_000 + self.spec_nanos(),
    {
    }

    /// The instant at `secs` seconds and `nanos` nanoseconds past the epoch;
    /// `None` where `nanos` is a whole second or more.
    pub fn new(secs: i64, nanos: u32) -> (r: Option<Timestamp>)
        ensures
            r is Some <==> nanos < NANOS_PER_SECOND,
            r matches Some(t) ==> t.spec_secs() == secs && t.spec_nanos() == nanos && t@ == secs
                * 1_000_000_000 + nanos,
    {
        if nanos < NANOS_PER_SECOND {
            Some(Timestamp { secs, nanos })
        } else {
            None
        }
    }

    pub fn secs(&self) -> (r: i64)
        ensures
            r == self.spec_secs(),
    {
        self.secs
    }

    pub fn nanos(&self) -> (r: u32)
        ensures
            r == self.spec_nanos(),
            r < NANOS_PER_SECOND,
    {
        proof {
            use_type_invariant(self);
        }
        self.nanos
    }
}

impl View for Timestamp {
    /// Nanoseconds since the Unix epoch.
    type V = int;

    closed spec fn view(&self) -> int {
        self.secs * 1_000_000_000 + self.nanos
    }
}

/// `a` comes strictly before `b`; this is how the stored expiry of a message
/// is compared with the present.
pub open spec fn earlier(a: Timestamp, b: Timestamp) -> bool {
    a@ < b@
}

/// `chrono::DateTime::<Utc>::checked_add_signed` with a `TimeDelta` of
/// `days` days, on the instant given by `secs` and `nanos`. Where it returns
/// a result, that is the same instant shifted by exactly `days * 86400`
/// seconds (chrono adds durations to UTC instants without leap seconds).
/// It returns a result exactly where both instants lie between
/// `DateTime::<Utc>::MIN_UTC` and `MAX_UTC`: `from_timestamp` accepts the
/// start exactly then, and `checked_add_signed` keeps the time of day and
/// moves the date by `days`, failing exactly where the date leaves chrono's
/// years (the day count of two such instants always fits a `TimeDelta`).
#[verifier::external_body]
fn utc_add_days(secs: i64, nanos: u32, days: i64) -> (r: Option<(i64, u32)>)
    requires
        nanos < NANOS_PER_SECOND,
    ensures
        r matches Some((s, n)) ==> s == secs + days * SECONDS_PER_DAY && n == nanos,
        r is Some <==> (within_clock_range(secs as int) && within_clock_range(secs + days * SECONDS_PER_DAY)),
{
    let start = chrono::DateTime::from_timestamp(secs, nanos)?;
    let end = start.checked_add_signed(chrono::TimeDelta::try_days(days)?)?;
    Some((end.timestamp(), end.timestamp_subsec_nanos()))
}

/// The instant `days` whole days after `t`, computed by chrono; `None`
/// exactly where `t` or that instant lies outside chrono's range.
pub fn add_days(t: &Timestamp, days: i64) -> (r: Option<Timestamp>)
    ensures
        r is Some <==> within_clock_range(t.spec_secs()) && within_clock_range(
            t.spec_secs() + days * SECONDS_PER_DAY,
        ),
        r matches Some(u) ==> {
            &&& u.spec_secs() == t.spec_secs() + days * SECONDS_PER_DAY
            &&& u.spec_nanos() == t.spec_nanos()
            &&& u@ == t@ + days * day_nanos()
        },
{
    proof {
        use_type_invariant(t);
    }
    match utc_add_days(t.secs, t.nanos, days) {
        Some((s, n)) => {
            let u = Timestamp { secs: s, nanos: n };
            assert(u@ == t@ + days * day_nanos()) by (nonlinear_arith)
                requires
                    s == t.secs + days * 86400,
                    n == t.nanos,
                    u@ == s * 1_000_000_000 + n,
                    t@ == t.secs * 1_000_000_000 + t.nanos,
            ;
            Some(u)
        },
        None => None,
    }
}

} // verus!
