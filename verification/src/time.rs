//! Spans of time, as the process and system information reports them, and
//! the points in time that the platform reports.
use vstd::prelude::*;

verus! {

/// Nanoseconds in a second.
pub const NANOS_PER_SEC: u64 = 1_000_000_000;

/// The largest span a `Duration` can hold, in nanoseconds.
pub open spec fn max_duration_nanos() -> nat {
    (u64::MAX as nat) * (NANOS_PER_SEC as nat) + (NANOS_PER_SEC - 1) as nat
}

/// A span of time with nanosecond precision: whole seconds and the
/// nanoseconds of the second that is not whole. Its view is the span in
/// nanoseconds.
#[derive(Debug, Clone, Copy, PartialEq, Eq, Hash, PartialOrd, Ord, Default)]
pub struct Duration {
    secs: u64,
    nanos: u32,
}

impl View for Duration {
    type V = nat;

    closed spec fn view(&self) -> nat {
        (self.secs as nat) * (NANOS_PER_SEC as nat) + self.nanos as nat
    }
}

impl Duration {
    #[verifier::type_invariant]
    spec fn subsecond_in_range(self) -> bool {
        self.nanos < NANOS_PER_SEC
    }

    /// A duration of `secs` whole seconds and `nanos` nanoseconds.
    pub fn new(secs: u64, nanos: u32) -> (d: Duration)
        requires
            (secs as nat) * (NANOS_PER_SEC as nat) + nanos as nat <= max_duration_nanos(),
        ensures
            d@ == (secs as nat) * (NANOS_PER_SEC as nat) + nanos as nat,
    {
        let extra = (nanos / 1_000_000_000) as u64;
        let rest = nanos % 1_000_000_000;
        assert(extra <= 4);
        Duration { secs: secs + extra, nanos: rest }
    }

    /// A duration of `secs` whole seconds.
    pub fn from_secs(secs: u64) -> (d: Duration)
        ensures
            d@ == (secs as nat) * (NANOS_PER_SEC as nat),
    {
        Duration { secs, nanos: 0 }
    }

    /// A duration of `millis` milliseconds.
    pub fn from_millis(millis: u64) -> (d: Duration)
        ensures
            d@ == (millis as nat) * 1_000_000,
    {
        let secs = millis / 1000;
        let rest = millis % 1000;
        assert(rest * 1_000_000 < 1_000_000_000) by (nonlinear_arith)
            requires
                rest < 1000,
        ;
        Duration { secs, nanos: (rest * 1_000_000) as u32 }
    }

    /// A duration of `nanos` nanoseconds.
    pub fn from_nanos(nanos: u64) -> (d: Duration)
        ensures
            d@ == nanos as nat,
    {
        Duration { secs: nanos / NANOS_PER_SEC, nanos: (nanos % NANOS_PER_SEC) as u32 }
    }

    /// The whole seconds of the duration.
    pub fn as_secs(&self) -> (s: u64)
        ensures
            s as nat == self@ / (NANOS_PER_SEC as nat),
    {
        proof {
            use_type_invariant(self);
        }
        self.secs
    }

    /// The nanoseconds beyond the whole seconds.
    pub fn subsec_nanos(&self) -> (n: u32)
        ensures
            n as nat == self@ % (NANOS_PER_SEC as nat),
    {
        proof {
            use_type_invariant(self);
        }
        self.nanos
    }

    /// The whole duration in nanoseconds.
    pub fn as_nanos(&self) -> (n: u128)
        ensures
            n as nat == self@,
    {
        proof {
            use_type_invariant(self);
            assert(self.secs as u128 * 1_000_000_000u128 <= 18446744073709551615u128
                * 1_000_000_000u128) by (nonlinear_arith)
                requires
                    self.secs <= 18446744073709551615u64,
            ;
        }
        (self.secs as u128) * 1_000_000_000u128 + (self.nanos as u128)
    }

    /// The sum of two durations, or `None` when it does not fit.
    pub fn checked_add(&self, other: &Duration) -> (r: Option<Duration>)
        ensures
            r matches Some(d) ==> d@ == self@ + other@,
            r is None <==> self@ + other@ > max_duration_nanos(),
    {
        proof {
            use_type_invariant(self);
            use_type_invariant(other);
        }
        let mut nanos: u32 = self.nanos + other.nanos;
        let mut carry: u64 = 0;
        if nanos >= 1_000_000_000 {
            nanos = nanos - 1_000_000_000;
            carry = 1;
        }
        match self.secs.checked_add(other.secs) {
            Some(s) => match s.checked_add(carry) {
                Some(total) => Some(Duration { secs: total, nanos }),
                None => None,
            },
            None => None,
        }
    }

    /// The sum of two durations that fits the type.
    pub fn plus(&self, other: &Duration) -> (d: Duration)
        requires
            self@ + other@ <= max_duration_nanos(),
        ensures
            d@ == self@ + other@,
    {
        match self.checked_add(other) {
            Some(d) => d,
            None => {
                assert(false);
                *self
            },
        }
    }

    /// `true` when `self` is a shorter span than `other`.
    pub fn is_shorter_than(&self, other: &Duration) -> (b: bool)
        ensures
            b == (self@ < other@),
    {
        proof {
            use_type_invariant(self);
            use_type_invariant(other);
            let a = self.secs as int;
            let c = other.secs as int;
            if a < c {
                assert(a * 1_000_000_000 + 1_000_000_000 <= c * 1_000_000_000);
            }
            if c < a {
                assert(c * 1_000_000_000 + 1_000_000_000 <= a * 1_000_000_000);
            }
        }
        self.secs < other.secs || (self.secs == other.secs && self.nanos < other.nanos)
    }
}

/// `std::time::SystemTime`, carried opaquely.
#[verifier::external_type_specification]
#[verifier::external_body]
pub struct ExSystemTime(std::time::SystemTime);

/// The point in time `nanos` nanoseconds after the Unix epoch, as
/// `UNIX_EPOCH + Duration` computes it.
pub uninterp spec fn unix_epoch_plus(nanos: nat) -> std::time::SystemTime;

/// The largest span after the Unix epoch, in nanoseconds,
/// that every platform's `SystemTime` can name: Windows keeps a point in
/// time as a signed 64-bit count of 100-nanosecond intervals since 1601,
/// of which the Unix epoch takes 116444736000000000.
pub open spec fn max_unix_nanos() -> nat {
    910692730085477580700
}

/// `<SystemTime as Add<Duration>>::add` applied to `UNIX_EPOCH`: the point in
/// time `since_epoch` after the Unix epoch. The addition panics only when the
/// point cannot be represented; the `requires` keeps the span within
/// `max_unix_nanos`.
#[verifier::external_body]
pub(crate) fn unix_time(since_epoch: Duration) -> (t: std::time::SystemTime)
    requires
        since_epoch@ <= max_unix_nanos(),
    ensures
        t == unix_epoch_plus(since_epoch@),
{
    std::time::UNIX_EPOCH + std::time::Duration::new(since_epoch.secs, since_epoch.nanos)
}

/// `SystemTime::now`: the current point in time. Nothing is claimed of it.
#[verifier::external_body]
pub(crate) fn system_time_now() -> std::time::SystemTime {
    std::time::SystemTime::now()
}

/// The point in time `nanos` nanoseconds before `t`, or `None` where the
/// platform cannot represent it, as `SystemTime::checked_sub` computes it.
pub uninterp spec fn time_minus(t: std::time::SystemTime, nanos: nat) -> Option<std::time::SystemTime>;

/// `SystemTime::checked_sub`: the point in time `span` before `t`, or `None`
/// when the platform cannot represent it; a function of its two arguments,
/// named by `time_minus`.
#[verifier::external_body]
pub(crate) fn system_time_checked_sub(t: std::time::SystemTime, span: Duration) -> (r: Option<std::time::SystemTime>)
    ensures
        r == time_minus(t, span@),
{
    t.checked_sub(std::time::Duration::new(span.secs, span.nanos))
}

} // verus!
