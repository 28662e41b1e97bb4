//! Spans of time, to the nanosecond.

use vstd::prelude::*;

verus! {

pub const NANOS_PER_SEC: u32 = 1_000_000_000;

/// A span of time: whole seconds and the nanoseconds left over.
#[derive(Debug, Clone, Copy, PartialEq, Eq)]
pub struct Duration {
    secs: u64,
    subsec_nanos: u32,
}

/// A duration is, in contracts, its length in nanoseconds.
impl View for Duration {
    type V = nat;

    closed spec fn view(&self) -> nat {
        (self.secs * NANOS_PER_SEC + self.subsec_nanos) as nat
    }
}

/// A count of milliseconds as the 64-bit millisecond fields and bounds of this
/// crate hold it: one that is too great for them is held as the greatest.
pub open spec fn capped_to_u64(n: nat) -> u64 {
    if n <= u64::MAX {
        n as u64
    } else {
        u64::MAX
    }
}

impl Duration {
    /// The nanoseconds left over make up less than a second.
    #[verifier::type_invariant]
    spec fn is_normal(self) -> bool {
        self.subsec_nanos < NANOS_PER_SEC
    }

    /// The length in whole milliseconds, rounded down.
    pub open spec fn millis(self) -> nat {
        self@ / 1_000_000
    }

    /// The length in whole milliseconds, rounded up.
    pub open spec fn millis_up(self) -> nat {
        (self@ + 999_999) as nat / 1_000_000
    }

    /// The length in milliseconds as a 64-bit field holds it.
    pub open spec fn millis_u64(self) -> u64 {
        capped_to_u64(self.millis())
    }

    /// A duration of `secs` seconds and `subsec_nanos` nanoseconds.
    pub fn new(secs: u64, subsec_nanos: u32) -> (d: Duration)
        requires
            subsec_nanos < NANOS_PER_SEC,
        ensures
            d@ == secs * NANOS_PER_SEC + subsec_nanos,
    {
        Duration { secs, subsec_nanos }
    }

    pub fn from_secs(secs: u64) -> (d: Duration)
        ensures
            d@ == secs * NANOS_PER_SEC,
    {
        Duration { secs, subsec_nanos: 0 }
    }

    pub fn from_millis(millis: u64) -> (d: Duration)
        ensures
            d@ == millis * 1_000_000,
            d.millis() == millis,
    {
        let subsec_millis: u32 = (millis % 1000) as u32;
        Duration { secs: millis / 1000, subsec_nanos: subsec_millis * 1_000_000 }
    }

    /// The whole seconds in this duration.
    pub fn as_secs(&self) -> (secs: u64)
        ensures
            secs == self@ / NANOS_PER_SEC as nat,
    {
        proof {
            use_type_invariant(self);
        }
        self.secs
    }

    /// The nanoseconds beyond the whole seconds.
    pub fn subsec_nanos(&self) -> (nanos: u32)
        ensures
            nanos == self@ % NANOS_PER_SEC as nat,
    {
        proof {
            use_type_invariant(self);
        }
        self.subsec_nanos
    }

    pub fn as_millis(&self) -> (millis: u128)
        ensures
            millis == self.millis(),
    {
        self.secs as u128 * 1000 + (self.subsec_nanos / 1_000_000) as u128
    }

    /// The length in whole milliseconds, rounded up.
    pub fn as_millis_up(&self) -> (millis: u128)
        ensures
            millis == self.millis_up(),
    {
        (self.as_nanos() + 999_999) / 1_000_000
    }

    pub fn as_nanos(&self) -> (nanos: u128)
        ensures
            nanos == self@,
            nanos <= u64::MAX * NANOS_PER_SEC + u32::MAX,
    {
        let whole: u128 = self.secs as u128 * NANOS_PER_SEC as u128;
        proof {
            assert(self.secs * NANOS_PER_SEC <= u64::MAX * NANOS_PER_SEC) by (nonlinear_arith);
        }
        whole + self.subsec_nanos as u128
    }

    /// The length in whole milliseconds, or the greatest `u64` where there are
    /// more than that.
    pub fn as_millis_u64(&self) -> (millis: u64)
        ensures
            millis == self.millis_u64(),
    {
        let wide: u128 = self.as_millis();
        if wide <= u64::MAX as u128 {
            wide as u64
        } else {
            u64::MAX
        }
    }
}

/// A duration gives back the seconds and the nanoseconds that it was made of, and
/// its length in nanoseconds is their sum.
pub proof fn law_parts_add_up(
    secs: u64,
    subsec_nanos: u32,
    d: Duration,
    whole: u64,
    rest: u32,
    nanos: u128,
)
    requires
        subsec_nanos < 1_000_000_000,
        call_ensures(Duration::new, (secs, subsec_nanos), d),
        call_ensures(Duration::as_secs, (&d,), whole),
        call_ensures(Duration::subsec_nanos, (&d,), rest),
        call_ensures(Duration::as_nanos, (&d,), nanos),
    ensures
        whole == secs,
        rest == subsec_nanos,
        nanos == secs * 1_000_000_000 + subsec_nanos,
        d@ == nanos,
{
}

/// A duration of whole seconds or whole milliseconds has that many of them, and no
/// more.
pub proof fn law_whole_units_are_kept(
    n: u64,
    from_secs: Duration,
    from_millis: Duration,
    secs: u64,
    down: u128,
    up: u128,
    capped: u64,
)
    requires
        call_ensures(Duration::from_secs, (n,), from_secs),
        call_ensures(Duration::as_secs, (&from_secs,), secs),
        call_ensures(Duration::from_millis, (n,), from_millis),
        call_ensures(Duration::as_millis, (&from_millis,), down),
        call_ensures(Duration::as_millis_up, (&from_millis,), up),
        call_ensures(Duration::as_millis_u64, (&from_millis,), capped),
    ensures
        secs == n,
        from_secs@ == n * 1_000_000_000,
        from_millis@ == n * 1_000_000,
        down == n,
        up == n,
        capped == n,
{
}

/// The milliseconds of a duration, rounded down, are those that it lasts for; rounded
/// up, those that last for it; either way by less than one. In a 64-bit field they
/// are the same number, unless that field cannot hold it: then the greatest that it
/// can.
pub proof fn law_milliseconds_are_rounded(d: Duration, down: u128, up: u128, capped: u64)
    requires
        call_ensures(Duration::as_millis, (&d,), down),
        call_ensures(Duration::as_millis_up, (&d,), up),
        call_ensures(Duration::as_millis_u64, (&d,), capped),
    ensures
        down * 1_000_000 <= d@ < (down + 1) * 1_000_000,
        (up - 1) * 1_000_000 < d@ <= up * 1_000_000,
        down <= u64::MAX ==> capped == down,
        down > u64::MAX ==> capped == u64::MAX,
        d.millis() == down,
        d.millis_up() == up,
        d.millis_u64() == capped,
{
}

/// What is said of the milliseconds of a duration holds of the duration itself,
/// whether or not anyone asks for them.
pub proof fn law_milliseconds_fit_the_duration(d: Duration)
    ensures
        d.millis() * 1_000_000 <= d@ < (d.millis() + 1) * 1_000_000,
        (d.millis_up() - 1) * 1_000_000 < d@ <= d.millis_up() * 1_000_000,
        d@ < 0x1_0000_0000_0000_0000 * 1_000_000 ==> d.millis_u64() * 1_000_000 <= d@ < (
        d.millis_u64() + 1) * 1_000_000,
        d@ >= 0x1_0000_0000_0000_0000 * 1_000_000 ==> d.millis_u64() == u64::MAX,
{
}

} // verus!
