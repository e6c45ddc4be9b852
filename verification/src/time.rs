use vstd::prelude::*;

verus! {

/// Microseconds in one second.
pub const USEC_PER_SEC: i64 = 1_000_000;

/// A point on a monotonic clock, or a span between two such points: whole
/// seconds and the microseconds that follow them.
#[derive(Debug, Clone, Copy, PartialEq, Eq, Structural)]
pub struct TimeVal {
    pub tv_sec: i64,
    pub tv_usec: i64,
}

impl TimeVal {
    /// A value is normalized when its microseconds are less than one second.
    pub open spec fn normalized(self) -> bool {
        0 <= self.tv_usec < USEC_PER_SEC
    }

    /// A value is well formed when it is normalized and its seconds are not
    /// negative.
    pub open spec fn wf(self) -> bool {
        &&& 0 <= self.tv_sec
        &&& self.normalized()
    }

    /// The value as a count of microseconds.
    pub open spec fn micros(self) -> int {
        self.tv_sec * USEC_PER_SEC + self.tv_usec
    }

    /// Whether `self` is not earlier than `other`, by seconds first and
    /// microseconds second.
    pub open spec fn spec_ge(self, other: TimeVal) -> bool {
        self.tv_sec > other.tv_sec || (self.tv_sec == other.tv_sec && self.tv_usec
            >= other.tv_usec)
    }

    /// Builds a value from its two components, if they form a well-formed one.
    pub fn new(tv_sec: i64, tv_usec: i64) -> (r: Option<TimeVal>)
        ensures
            r.is_some() <==> (TimeVal { tv_sec, tv_usec }).wf(),
            r.is_some() ==> r.unwrap() == (TimeVal { tv_sec, tv_usec }),
    {
        let t = TimeVal { tv_sec, tv_usec };
        if t.is_valid() {
            Some(t)
        } else {
            None
        }
    }

    /// Tells whether the value is well formed.
    pub fn is_valid(&self) -> (r: bool)
        ensures
            r == self.wf(),
    {
        0 <= self.tv_sec && 0 <= self.tv_usec && self.tv_usec < USEC_PER_SEC
    }

    /// Tells whether `self` is not earlier than `other`.
    pub fn ge(&self, other: &TimeVal) -> (r: bool)
        ensures
            r == self.spec_ge(*other),
            (self.normalized() && other.normalized()) ==> (r <==> self.micros()
                >= other.micros()),
    {
        self.tv_sec > other.tv_sec || (self.tv_sec == other.tv_sec && self.tv_usec
            >= other.tv_usec)
    }

    /// Time elapsed since `other`, which must not be later than `self`.
    ///
    /// The result is the exact difference, well formed: when the
    /// microseconds of `self` are fewer than those of `other`, one second is
    /// borrowed from the seconds. The two must be normalized, and their
    /// seconds must not lie further apart than a time value can hold.
    pub fn elapsed_since(&self, other: TimeVal) -> (r: TimeVal)
        requires
            self.normalized(),
            other.normalized(),
            self.spec_ge(other),
            self.tv_sec - other.tv_sec <= i64::MAX,
        ensures
            r.wf(),
            r.micros() == self.micros() - other.micros(),
            r == spec_elapsed(*self, other),
    {
        if self.tv_usec >= other.tv_usec {
            TimeVal {
                tv_sec: self.tv_sec - other.tv_sec,
                tv_usec: self.tv_usec - other.tv_usec,
            }
        } else {
            TimeVal {
                tv_sec: self.tv_sec - other.tv_sec - 1,
                tv_usec: self.tv_usec + USEC_PER_SEC - other.tv_usec,
            }
        }
    }
}

/// The span from `earlier` to `later`, component by component.
pub open spec fn spec_elapsed(later: TimeVal, earlier: TimeVal) -> TimeVal {
    if later.tv_usec >= earlier.tv_usec {
        TimeVal {
            tv_sec: (later.tv_sec - earlier.tv_sec) as i64,
            tv_usec: (later.tv_usec - earlier.tv_usec) as i64,
        }
    } else {
        TimeVal {
            tv_sec: (later.tv_sec - earlier.tv_sec - 1) as i64,
            tv_usec: (later.tv_usec + USEC_PER_SEC - earlier.tv_usec) as i64,
        }
    }
}

/// Normalized values are ordered as their microsecond counts are.
pub proof fn lemma_ge_is_micros_order(a: TimeVal, b: TimeVal)
    requires
        a.normalized(),
        b.normalized(),
    ensures
        a.spec_ge(b) <==> a.micros() >= b.micros(),
        a.micros() == b.micros() <==> a == b,
{
}

/// For a normalized `earlier` that is not later than a normalized `later`,
/// and not further from it than a time value can hold, the elapsed time is
/// well formed (so never negative in either component), equals the exact
/// difference, and is zero exactly when the two are equal.
pub proof fn lemma_elapsed_exact(later: TimeVal, earlier: TimeVal)
    requires
        later.normalized(),
        earlier.normalized(),
        later.spec_ge(earlier),
        later.tv_sec - earlier.tv_sec <= i64::MAX,
    ensures
        spec_elapsed(later, earlier).wf(),
        spec_elapsed(later, earlier).micros() == later.micros() - earlier.micros(),
        later == earlier <==> spec_elapsed(later, earlier) == (TimeVal { tv_sec: 0, tv_usec: 0 }),
{
}

} // verus!
