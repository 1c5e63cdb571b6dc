//! Points in time on the program's monotonic clock.

use vstd::prelude::*;

verus! {

/// Nanoseconds in one second.
pub const NANOS_PER_SEC: u128 = 1_000_000_000;

/// The last point the clock can show: `u64::MAX` whole seconds and
/// 999 999 999 nanoseconds after its start, as much as
/// `std::time::Duration` holds.
pub const LAST_NANO: u128 = 18_446_744_073_709_551_615_999_999_999;

/// A point in time: nanoseconds since the clock was started.
#[derive(Clone, Copy)]
pub struct Moment {
    nanos: u128,
}

impl View for Moment {
    type V = int;

    closed spec fn view(&self) -> int {
        self.nanos as int
    }
}

/// The point `secs` seconds after `now`.
pub open spec fn after(now: int, secs: int) -> int {
    now + secs * NANOS_PER_SEC
}

/// Nanoseconds from `earlier` to `later`, zero when `later` is not later.
pub open spec fn span(earlier: int, later: int) -> int {
    if earlier <= later {
        later - earlier
    } else {
        0
    }
}

/// Whole seconds in a span of nanoseconds.
pub open spec fn whole_secs(nanos: int) -> int {
    nanos / (NANOS_PER_SEC as int)
}

/// Whether the clock can show the point `secs` seconds after `now`.
pub open spec fn in_range(now: int, secs: int) -> bool {
    after(now, secs) <= LAST_NANO
}

impl Moment {
    #[verifier::type_invariant]
    closed spec fn on_clock(self) -> bool {
        self.nanos <= LAST_NANO
    }

    /// The point that lies `secs` seconds and `subsec_nanos` nanoseconds after
    /// the start of the clock.
    pub fn at(secs: u64, subsec_nanos: u32) -> (m: Moment)
        requires
            subsec_nanos < NANOS_PER_SEC,
        ensures
            m@ == secs * NANOS_PER_SEC + subsec_nanos,
            0 <= m@ <= LAST_NANO,
    {
        Moment { nanos: secs as u128 * NANOS_PER_SEC + subsec_nanos as u128 }
    }

    /// Whether the clock can show the point `secs` seconds after this one.
    pub fn admits(&self, secs: u64) -> (b: bool)
        ensures
            b == in_range(self@, secs as int),
    {
        proof {
            use_type_invariant(self);
        }
        self.nanos + secs as u128 * NANOS_PER_SEC <= LAST_NANO
    }

    /// The point `secs` seconds after this one.
    pub fn plus_secs(&self, secs: u64) -> (m: Moment)
        requires
            in_range(self@, secs as int),
        ensures
            m@ == after(self@, secs as int),
    {
        proof {
            use_type_invariant(self);
        }
        Moment { nanos: self.nanos + secs as u128 * NANOS_PER_SEC }
    }

    /// Whether this point comes before `other`.
    pub fn is_before(&self, other: &Moment) -> (b: bool)
        ensures
            b == (self@ < other@),
    {
        self.nanos < other.nanos
    }

    /// Nanoseconds from `earlier` to this point, zero if there are none.
    pub fn nanos_since(&self, earlier: &Moment) -> (n: u128)
        ensures
            n == span(earlier@, self@),
            n <= LAST_NANO,
    {
        proof {
            use_type_invariant(self);
        }
        if earlier.nanos <= self.nanos {
            self.nanos - earlier.nanos
        } else {
            0
        }
    }

    /// Whole seconds from `earlier` to this point, zero if there are none.
    pub fn secs_since(&self, earlier: &Moment) -> (n: u64)
        ensures
            n == whole_secs(span(earlier@, self@)),
    {
        (self.nanos_since(earlier) / NANOS_PER_SEC) as u64
    }
}

/// A point so many seconds later is that many thousand million nanoseconds
/// later, and the clock shows it unless it lies past `u64::MAX` seconds and
/// 999 999 999 nanoseconds.
pub proof fn law_seconds_later(now: int, secs: int)
    ensures
        after(now, secs) - now == secs * 1_000_000_000,
        in_range(now, secs) <==> now + secs * 1_000_000_000
            <= 18_446_744_073_709_551_615_999_999_999,
{
}

/// A span leads from the earlier point to the later one, and is empty when they
/// are in the wrong order; its whole seconds leave less than a second over.
pub proof fn law_spans(earlier: int, later: int)
    ensures
        earlier <= later ==> earlier + span(earlier, later) == later,
        later <= earlier ==> span(earlier, later) == 0,
        0 <= span(earlier, later) - whole_secs(span(earlier, later)) * 1_000_000_000
            < 1_000_000_000,
{
}

} // verus!
