use vstd::arithmetic::div_mod::lemma_fundamental_div_mod;
use vstd::arithmetic::div_mod::lemma_fundamental_div_mod_converse;
use vstd::prelude::*;

verus! {

/// Nanoseconds in one second.
pub const NANOS_PER_SEC: u32 = 1_000_000_000;

/// The first number of nanoseconds that is too long for a [`Duration`]:
/// its whole seconds would no longer fit in 64 bits.
pub open spec fn nanos_limit() -> nat {
    ((u64::MAX as nat) + 1) * (NANOS_PER_SEC as nat)
}

/// A span of time: whole seconds and the nanoseconds beyond them.
///
/// The nanoseconds beyond the seconds are always less than one second, so
/// each span is held in exactly one way.
#[derive(Debug, Clone, Copy, PartialEq, Eq)]
pub struct Duration {
    secs: u64,
    nanos: u32,
}

impl Duration {
    #[verifier::type_invariant]
    spec fn inv(self) -> bool {
        self.nanos < NANOS_PER_SEC
    }

    /// The span in nanoseconds.
    pub closed spec fn total_nanos(self) -> nat {
        (self.secs as nat) * (NANOS_PER_SEC as nat) + (self.nanos as nat)
    }

    /// A span of `secs` whole seconds.
    pub fn from_secs(secs: u64) -> (r: Duration)
        ensures
            r.total_nanos() == secs * NANOS_PER_SEC,
    {
        Duration { secs, nanos: 0 }
    }

    /// A span of `secs` seconds and `nanos` nanoseconds, or `None` when that
    /// is longer than a span can be. `nanos` may hold whole seconds too.
    pub fn new(secs: u64, nanos: u32) -> (r: Option<Duration>)
        ensures
            r is Some <==> secs * NANOS_PER_SEC + nanos < nanos_limit(),
            r matches Some(d) ==> d.total_nanos() == secs * NANOS_PER_SEC + nanos,
    {
        let carry: u64 = (nanos / NANOS_PER_SEC) as u64;
        let rest: u32 = nanos % NANOS_PER_SEC;
        assert(nanos == carry * NANOS_PER_SEC + rest) by {
            lemma_fundamental_div_mod(nanos as int, NANOS_PER_SEC as int);
        }
        assert(secs * NANOS_PER_SEC + nanos == (secs + carry) * NANOS_PER_SEC + rest)
            by (nonlinear_arith)
            requires
                nanos == carry * NANOS_PER_SEC + rest,
        ;
        if carry > u64::MAX - secs {
            assert((secs + carry) * NANOS_PER_SEC >= (u64::MAX + 1) * NANOS_PER_SEC)
                by (nonlinear_arith)
                requires
                    secs + carry >= u64::MAX + 1,
            ;
            None
        } else {
            assert((secs + carry) * NANOS_PER_SEC + rest < (u64::MAX + 1) * NANOS_PER_SEC)
                by (nonlinear_arith)
                requires
                    secs + carry <= u64::MAX,
                    rest < NANOS_PER_SEC,
            ;
            Some(Duration { secs: secs + carry, nanos: rest })
        }
    }

    /// The whole seconds of the span.
    pub fn as_secs(&self) -> (r: u64)
        ensures
            r == self.total_nanos() / (NANOS_PER_SEC as nat),
    {
        proof {
            use_type_invariant(self);
            lemma_fundamental_div_mod_converse(
                self.total_nanos() as int,
                NANOS_PER_SEC as int,
                self.secs as int,
                self.nanos as int,
            );
        }
        self.secs
    }

    /// The nanoseconds beyond the whole seconds.
    pub fn subsec_nanos(&self) -> (r: u32)
        ensures
            r == self.total_nanos() % (NANOS_PER_SEC as nat),
    {
        proof {
            use_type_invariant(self);
            lemma_fundamental_div_mod_converse(
                self.total_nanos() as int,
                NANOS_PER_SEC as int,
                self.secs as int,
                self.nanos as int,
            );
        }
        self.nanos
    }

    /// The sum of two spans, or `None` when it is longer than a span can be.
    pub fn checked_add(&self, other: &Duration) -> (r: Option<Duration>)
        ensures
            r is Some <==> self.total_nanos() + other.total_nanos() < nanos_limit(),
            r matches Some(d) ==> d.total_nanos() == self.total_nanos() + other.total_nanos(),
    {
        proof {
            use_type_invariant(self);
            use_type_invariant(other);
        }
        let sum: u32 = self.nanos + other.nanos;
        let carry: u64 = if sum >= NANOS_PER_SEC { 1 } else { 0 };
        let rest: u32 = if sum >= NANOS_PER_SEC { sum - NANOS_PER_SEC } else { sum };
        let ghost total = self.total_nanos() + other.total_nanos();
        assert(total == (self.secs + other.secs + carry) * NANOS_PER_SEC + rest)
            by (nonlinear_arith)
            requires
                total == self.secs * NANOS_PER_SEC + self.nanos + other.secs * NANOS_PER_SEC
                    + other.nanos,
                self.nanos + other.nanos == carry * NANOS_PER_SEC + rest,
        ;
        if other.secs > u64::MAX - self.secs || carry > u64::MAX - self.secs - other.secs {
            assert((self.secs + other.secs + carry) * NANOS_PER_SEC >= (u64::MAX + 1)
                * NANOS_PER_SEC) by (nonlinear_arith)
                requires
                    self.secs + other.secs + carry >= u64::MAX + 1,
            ;
            None
        } else {
            let secs: u64 = self.secs + other.secs + carry;
            assert(secs * NANOS_PER_SEC + rest < (u64::MAX + 1) * NANOS_PER_SEC)
                by (nonlinear_arith)
                requires
                    secs <= u64::MAX,
                    rest < NANOS_PER_SEC,
            ;
            Some(Duration { secs, nanos: rest })
        }
    }

    /// Whether this span is shorter than `other`.
    pub fn is_shorter_than(&self, other: &Duration) -> (r: bool)
        ensures
            r == (self.total_nanos() < other.total_nanos()),
    {
        proof {
            use_type_invariant(self);
            use_type_invariant(other);
            let n = NANOS_PER_SEC as int;
            let a = self.secs as int;
            let b = other.secs as int;
            assert(a < b ==> a * n + n <= b * n) by (nonlinear_arith)
                requires
                    n > 0,
            ;
            assert(b < a ==> b * n + n <= a * n) by (nonlinear_arith)
                requires
                    n > 0,
            ;
        }
        self.secs < other.secs || (self.secs == other.secs && self.nanos < other.nanos)
    }
}

/// A point in time, held as the span since the Unix epoch.
#[derive(Debug, Clone, Copy, PartialEq, Eq)]
pub struct Timestamp {
    since_epoch: Duration,
}

impl Timestamp {
    /// The nanoseconds from the Unix epoch to this point.
    pub closed spec fn nanos(self) -> nat {
        self.since_epoch.total_nanos()
    }

    /// The point that lies `since_epoch` after the Unix epoch.
    pub fn from_unix(since_epoch: Duration) -> (r: Timestamp)
        ensures
            r.nanos() == since_epoch.total_nanos(),
    {
        Timestamp { since_epoch }
    }

    /// The span from the Unix epoch to this point.
    pub fn since_unix(&self) -> (r: Duration)
        ensures
            r.total_nanos() == self.nanos(),
    {
        self.since_epoch
    }

    /// Whether this point lies before `other`.
    pub fn is_before(&self, other: &Timestamp) -> (r: bool)
        ensures
            r == (self.nanos() < other.nanos()),
    {
        self.since_epoch.is_shorter_than(&other.since_epoch)
    }

    /// The point `span` after this one, or `None` when it cannot be held.
    pub fn checked_add(&self, span: &Duration) -> (r: Option<Timestamp>)
        ensures
            r is Some <==> self.nanos() + span.total_nanos() < nanos_limit(),
            r matches Some(t) ==> t.nanos() == self.nanos() + span.total_nanos(),
    {
        match self.since_epoch.checked_add(span) {
            Some(since_epoch) => Some(Timestamp { since_epoch }),
            None => None,
        }
    }
}

} // verus!
