//! Points in time on the clock that keeps counting while the machine
//! sleeps, and the spans between them.

use vstd::prelude::*;

verus! {

/// The number of nanoseconds in a second.
pub const NSEC_PER_SEC: i64 = 1_000_000_000;

/// A span of time: whole seconds and the nanoseconds beyond them.
#[derive(Clone, Copy, Debug, PartialEq, Eq)]
pub struct Duration {
    secs: u64,
    nanos: u32,
}

impl Duration {
    #[verifier::type_invariant]
    spec fn well_formed(self) -> bool {
        self.nanos < NSEC_PER_SEC
    }

    /// The length of the span in nanoseconds.
    pub closed spec fn as_nanos(self) -> nat {
        (self.secs * NSEC_PER_SEC + self.nanos) as nat
    }

    /// The span of no length.
    pub fn zero() -> (r: Duration)
        ensures
            r.as_nanos() == 0,
    {
        Duration { secs: 0, nanos: 0 }
    }

    /// The span of `secs` seconds and `nanos` nanoseconds; `None` unless
    /// the nanoseconds are those of a part of a second.
    pub fn new(secs: u64, nanos: u32) -> (r: Option<Duration>)
        ensures
            r is Some <==> nanos < NSEC_PER_SEC,
            r matches Some(span) ==> span.as_nanos() == secs * NSEC_PER_SEC + nanos,
    {
        if nanos < 1_000_000_000 {
            Some(Duration { secs, nanos })
        } else {
            None
        }
    }

    /// The span of `millis` milliseconds.
    pub fn from_millis(millis: u64) -> (r: Duration)
        ensures
            r.as_nanos() == millis * 1_000_000,
    {
        let secs: u64 = millis / 1000;
        let rest: u64 = millis % 1000;
        let nanos: u32 = (rest * 1_000_000) as u32;
        assert(millis * 1_000_000 == secs * NSEC_PER_SEC + nanos) by (nonlinear_arith)
            requires
                secs == millis / 1000,
                nanos == (millis % 1000) * 1_000_000,
                NSEC_PER_SEC == 1_000_000_000,
        ;
        Duration { secs, nanos }
    }

    /// The whole seconds of the span.
    pub fn as_secs(&self) -> (r: u64)
        ensures
            r == self.as_nanos() / (NSEC_PER_SEC as nat),
    {
        proof {
            use_type_invariant(self);
            assert((self.secs * NSEC_PER_SEC + self.nanos) / (NSEC_PER_SEC as int) == self.secs)
                by (nonlinear_arith)
                requires
                    0 <= self.nanos < NSEC_PER_SEC,
                    NSEC_PER_SEC == 1_000_000_000,
            ;
        }
        self.secs
    }

    /// The nanoseconds of the span beyond its whole seconds.
    pub fn subsec_nanos(&self) -> (r: u32)
        ensures
            r == self.as_nanos() % (NSEC_PER_SEC as nat),
    {
        proof {
            use_type_invariant(self);
            assert((self.secs * NSEC_PER_SEC + self.nanos) % (NSEC_PER_SEC as int) == self.nanos)
                by (nonlinear_arith)
                requires
                    0 <= self.nanos < NSEC_PER_SEC,
                    NSEC_PER_SEC == 1_000_000_000,
            ;
        }
        self.nanos
    }

    /// What is left of this span once `other` is taken from it; `None`
    /// where `other` is the longer one.
    pub fn checked_sub(&self, other: &Duration) -> (r: Option<Duration>)
        ensures
            match r {
                Some(rest) => rest.as_nanos() + other.as_nanos() == self.as_nanos(),
                None => self.as_nanos() < other.as_nanos(),
            },
    {
        proof {
            use_type_invariant(self);
            use_type_invariant(other);
        }
        if self.secs < other.secs {
            assert(self.as_nanos() < other.as_nanos()) by (nonlinear_arith)
                requires
                    self.secs < other.secs,
                    self.nanos < NSEC_PER_SEC,
                    self.as_nanos() == self.secs * NSEC_PER_SEC + self.nanos,
                    other.as_nanos() == other.secs * NSEC_PER_SEC + other.nanos,
                    NSEC_PER_SEC == 1_000_000_000,
            ;
            None
        } else if self.nanos >= other.nanos {
            let rest = Duration { secs: self.secs - other.secs, nanos: self.nanos - other.nanos };
            assert(rest.as_nanos() + other.as_nanos() == self.as_nanos()) by (nonlinear_arith)
                requires
                    rest.as_nanos() == (self.secs - other.secs) * NSEC_PER_SEC + (self.nanos
                        - other.nanos),
                    self.as_nanos() == self.secs * NSEC_PER_SEC + self.nanos,
                    other.as_nanos() == other.secs * NSEC_PER_SEC + other.nanos,
            ;
            Some(rest)
        } else if self.secs > other.secs {
            let nanos: u32 = self.nanos + (1_000_000_000u32 - other.nanos);
            let rest = Duration { secs: self.secs - other.secs - 1, nanos };
            assert(rest.as_nanos() + other.as_nanos() == self.as_nanos()) by (nonlinear_arith)
                requires
                    rest.as_nanos() == (self.secs - other.secs - 1) * NSEC_PER_SEC + (self.nanos
                        + 1_000_000_000 - other.nanos),
                    self.as_nanos() == self.secs * NSEC_PER_SEC + self.nanos,
                    other.as_nanos() == other.secs * NSEC_PER_SEC + other.nanos,
                    NSEC_PER_SEC == 1_000_000_000,
            ;
            Some(rest)
        } else {
            None
        }
    }
}

/// A point in time: the seconds that the clock showed and the nanoseconds
/// beyond them, which stay below a second.
#[derive(Clone, Copy, Debug, PartialEq, Eq)]
pub struct Instant {
    tv_sec: i64,
    tv_nsec: i64,
}

impl Instant {
    #[verifier::type_invariant]
    spec fn well_formed(self) -> bool {
        0 <= self.tv_nsec < NSEC_PER_SEC
    }

    /// The nanoseconds from the clock's zero to this instant.
    pub closed spec fn nanos(self) -> int {
        self.tv_sec * NSEC_PER_SEC + self.tv_nsec
    }

    /// The instant at which the clock shows `tv_sec` seconds and `tv_nsec`
    /// nanoseconds; `None` unless the nanoseconds are those of a part of a
    /// second.
    pub fn new(tv_sec: i64, tv_nsec: i64) -> (r: Option<Instant>)
        ensures
            r is Some <==> 0 <= tv_nsec < NSEC_PER_SEC,
            r matches Some(instant) ==> instant.nanos() == tv_sec * NSEC_PER_SEC + tv_nsec,
    {
        if 0 <= tv_nsec && tv_nsec < NSEC_PER_SEC {
            Some(Instant { tv_sec, tv_nsec })
        } else {
            None
        }
    }

    /// The present instant, by `from_timespec` of what the clock shows now.
    pub fn now() -> Instant {
        let (tv_sec, tv_nsec) = now();
        Instant::from_timespec(tv_sec, tv_nsec)
    }

    /// The instant of a reading of the clock that shows `tv_sec` seconds and
    /// `tv_nsec` nanoseconds. Nanoseconds that are not those of a part of a
    /// second count as none.
    pub fn from_timespec(tv_sec: i64, tv_nsec: i64) -> (r: Instant)
        ensures
            r.nanos() == tv_sec * NSEC_PER_SEC + if 0 <= tv_nsec < NSEC_PER_SEC {
                tv_nsec as int
            } else {
                0
            },
    {
        match Instant::new(tv_sec, tv_nsec) {
            Some(instant) => instant,
            None => Instant { tv_sec, tv_nsec: 0 },
        }
    }

    /// The span from `earlier` to this instant; `None` where `earlier` is
    /// the later one.
    pub fn checked_duration_since(&self, earlier: Instant) -> (r: Option<Duration>)
        ensures
            match r {
                Some(span) => span.as_nanos() == self.nanos() - earlier.nanos(),
                None => self.nanos() < earlier.nanos(),
            },
    {
        proof {
            use_type_invariant(self);
            use_type_invariant(earlier);
        }
        let seconds: i128 = self.tv_sec as i128 - earlier.tv_sec as i128;
        let (tv_sec, tv_nsec): (i128, i64) = if self.tv_nsec < earlier.tv_nsec {
            (seconds - 1, NSEC_PER_SEC - earlier.tv_nsec + self.tv_nsec)
        } else {
            (seconds, self.tv_nsec - earlier.tv_nsec)
        };
        if tv_sec < 0 {
            return None;
        }
        Some(Duration { secs: tv_sec as u64, nanos: tv_nsec as u32 })
    }

    /// The span from `earlier` to this instant; no span at all where
    /// `earlier` is the later one.
    pub fn duration_since(&self, earlier: Instant) -> (r: Duration)
        ensures
            r.as_nanos() == if self.nanos() < earlier.nanos() {
                0
            } else {
                self.nanos() - earlier.nanos()
            },
    {
        match self.checked_duration_since(earlier) {
            Some(span) => span,
            None => Duration::zero(),
        }
    }
}

/// Reads the clock that keeps counting while the machine sleeps, through
/// `nix::time::clock_gettime` with `CLOCK_BOOTTIME`. What the clock shows
/// depends on when it is read, so nothing is claimed of the result. Where
/// the system refuses the clock, the result is zero seconds and nanoseconds.
#[verifier::external_body]
fn now() -> (i64, i64) {
    match nix::time::clock_gettime(nix::time::ClockId::CLOCK_BOOTTIME) {
        Ok(t) => (t.tv_sec() as i64, t.tv_nsec() as i64),
        Err(_) => (0, 0),
    }
}

} // verus!
