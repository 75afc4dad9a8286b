//! A deadband: a one-dimensional tolerance interval and the three-way
//! classification of a value against it.

use vstd::laws_cmp::obeys_partial_cmp_spec_properties;
use vstd::prelude::*;
use vstd::std_specs::cmp::PartialEqSpec;
use vstd::std_specs::cmp::PartialOrdIs;
use vstd::std_specs::cmp::PartialOrdSpec;

verus! {

/// One end of a deadband.
#[derive(Copy, Clone, Debug)]
pub enum Boundary<T> {
    /// The end value itself belongs to the band.
    Included(T),
    /// The band stops just short of the end value.
    Excluded(T),
    /// The band has no end on this side.
    Unbounded,
}

/// Where a value lies relative to a deadband.
#[derive(Copy, Clone, PartialEq, Eq, Structural, Debug)]
pub enum DeadbandComparisonResult {
    /// Outside the band, beyond its lower end.
    Low,
    /// Inside the band, or not ordered against the end that would exclude it.
    Hold,
    /// Outside the band, beyond its upper end.
    High,
}

/// An immutable tolerance interval over `T`.
///
/// The two ends are independent. Nothing relates them: a band whose lower end
/// lies above its upper end is accepted, and is classified by the lower end
/// first.
#[derive(Copy, Clone, Debug)]
pub struct Deadband<T> {
    lower: Boundary<T>,
    upper: Boundary<T>,
}

impl<T> Deadband<T> {
    /// The lower end of the band.
    pub closed spec fn lower(&self) -> Boundary<T> {
        self.lower
    }

    /// The upper end of the band.
    pub closed spec fn upper(&self) -> Boundary<T> {
        self.upper
    }

    /// `value` is excluded by the lower end.
    pub open spec fn below<U: ?Sized + PartialOrd<T>>(&self, value: &U) -> bool {
        match self.lower() {
            Boundary::Included(bound) => value.is_lt(&bound),
            Boundary::Excluded(bound) => value.is_le(&bound),
            Boundary::Unbounded => false,
        }
    }

    /// `value` is excluded by the upper end.
    pub open spec fn above<U: ?Sized + PartialOrd<T>>(&self, value: &U) -> bool {
        match self.upper() {
            Boundary::Included(bound) => value.is_gt(&bound),
            Boundary::Excluded(bound) => value.is_ge(&bound),
            Boundary::Unbounded => false,
        }
    }

    /// The classification of `value`: the lower end is tested first.
    pub open spec fn classify<U: ?Sized + PartialOrd<T>>(
        &self,
        value: &U,
    ) -> DeadbandComparisonResult {
        if self.below(value) {
            DeadbandComparisonResult::Low
        } else if self.above(value) {
            DeadbandComparisonResult::High
        } else {
            DeadbandComparisonResult::Hold
        }
    }

    /// `value` is ordered against neither end: each end that has a value
    /// compares with `value` as nothing at all.
    pub open spec fn unordered<U: ?Sized + PartialOrd<T>>(&self, value: &U) -> bool {
        &&& self.lower() matches Boundary::Included(bound) ==> value.partial_cmp_spec(&bound)
            is None
        &&& self.lower() matches Boundary::Excluded(bound) ==> value.partial_cmp_spec(&bound)
            is None
        &&& self.upper() matches Boundary::Included(bound) ==> value.partial_cmp_spec(&bound)
            is None
        &&& self.upper() matches Boundary::Excluded(bound) ==> value.partial_cmp_spec(&bound)
            is None
    }

    /// A band with the two given ends.
    pub fn new(lower: Boundary<T>, upper: Boundary<T>) -> (band: Self)
        ensures
            band.lower() == lower,
            band.upper() == upper,
    {
        Deadband { lower, upper }
    }

    /// Classifies `value` against the band.
    ///
    /// `U` may differ from `T`; all that is used is the order of a `U`
    /// against a `T`. Where `<`, `<=`, `>` and `>=` on them answer as
    /// `partial_cmp_spec` does, the result is exactly `classify`. Whatever
    /// the order does, only an end that is there can exclude a value, so that
    /// a band without ends holds every value.
    pub fn compare<U>(&self, value: &U) -> (result: DeadbandComparisonResult) where
        T: PartialOrd<U>,
        U: ?Sized + PartialOrd<T>,

        ensures
            U::obeys_partial_cmp_spec() ==> result == self.classify(value),
            result == DeadbandComparisonResult::Low ==> !(self.lower() is Unbounded),
            result == DeadbandComparisonResult::High ==> !(self.upper() is Unbounded),
            self.lower() is Unbounded && self.upper() is Unbounded ==> result
                == DeadbandComparisonResult::Hold,
    {
        if self.is_below(value) {
            DeadbandComparisonResult::Low
        } else if self.is_above(value) {
            DeadbandComparisonResult::High
        } else {
            DeadbandComparisonResult::Hold
        }
    }

    fn is_below<U>(&self, value: &U) -> (low: bool) where
        T: PartialOrd<U>,
        U: ?Sized + PartialOrd<T>,

        ensures
            U::obeys_partial_cmp_spec() ==> low == self.below(value),
            self.lower() is Unbounded ==> !low,
    {
        match &self.lower {
            Boundary::Included(bound) => value < bound,
            Boundary::Excluded(bound) => value <= bound,
            Boundary::Unbounded => false,
        }
    }

    fn is_above<U>(&self, value: &U) -> (high: bool) where
        T: PartialOrd<U>,
        U: ?Sized + PartialOrd<T>,

        ensures
            U::obeys_partial_cmp_spec() ==> high == self.above(value),
            self.upper() is Unbounded ==> !high,
    {
        match &self.upper {
            Boundary::Included(bound) => value > bound,
            Boundary::Excluded(bound) => value >= bound,
            Boundary::Unbounded => false,
        }
    }
}

impl<T: PartialOrd> Deadband<T> {
    /// A band is nothing but its two ends.
    pub proof fn lemma_ends_determine(a: Self, b: Self)
        requires
            a.lower() == b.lower(),
            a.upper() == b.upper(),
        ensures
            a == b,
    {
    }

    /// A band without ends holds every value.
    pub proof fn lemma_unbounded_holds(self, value: T)
        requires
            self.lower() is Unbounded,
            self.upper() is Unbounded,
        ensures
            self.classify(&value) == DeadbandComparisonResult::Hold,
    {
    }

    /// In the closed band `[lo, hi]` with `lo <= hi`, both ends are held, a
    /// value below `lo` is low, a value above `hi` is high, and a value from
    /// `lo` to `hi` is held.
    ///
    /// This is stated of an order that is lawful in the sense of
    /// `vstd::laws_cmp`, and of ends that are equal to themselves in it (which
    /// leaves out an end that is not a number).
    pub proof fn lemma_closed_band(self, lo: T, hi: T, value: T)
        requires
            obeys_partial_cmp_spec_properties::<T>(),
            self.lower() == Boundary::Included(lo),
            self.upper() == Boundary::Included(hi),
            lo.is_le(&hi),
            lo.is_le(&lo),
            hi.is_le(&hi),
        ensures
            self.classify(&lo) == DeadbandComparisonResult::Hold,
            self.classify(&hi) == DeadbandComparisonResult::Hold,
            value.is_lt(&lo) ==> self.classify(&value) == DeadbandComparisonResult::Low,
            value.is_gt(&hi) ==> self.classify(&value) == DeadbandComparisonResult::High,
            value.is_ge(&lo) && value.is_le(&hi) ==> self.classify(&value)
                == DeadbandComparisonResult::Hold,
    {
        reveal(obeys_partial_cmp_spec_properties);
        assert(!lo.is_lt(&lo) && !hi.is_gt(&hi));
        assert(!hi.is_lt(&lo)) by {
            if hi.is_lt(&lo) {
                assert(lo.is_gt(&hi));
            }
        }
        assert(!lo.is_gt(&hi));
        if value.is_gt(&hi) && value.is_lt(&lo) {
            assert(lo.is_gt(&value));
            if lo.is_lt(&hi) {
                assert(hi.is_gt(&lo));
                assert(hi.is_gt(&value));
            } else {
                assert(lo.eq_spec(&hi));
            }
        }
    }

    /// An excluded upper end is itself high; an included one is not above
    /// the band. The end has to be equal to itself in the order, and, to be
    /// classified high, must not be cut off by the lower end first.
    pub proof fn lemma_upper_end(self, hi: T)
        requires
            hi.is_le(&hi),
            hi.is_ge(&hi),
        ensures
            self.upper() == Boundary::Excluded(hi) && !self.below(&hi) ==> self.classify(&hi)
                == DeadbandComparisonResult::High,
            self.upper() == Boundary::Included(hi) ==> !self.above(&hi),
            self.upper() == Boundary::Included(hi) && !self.below(&hi) ==> self.classify(&hi)
                == DeadbandComparisonResult::Hold,
    {
    }

    /// An excluded lower end is itself low; an included one is not below
    /// the band. The end has to be equal to itself in the order.
    pub proof fn lemma_lower_end(self, lo: T)
        requires
            lo.is_le(&lo),
            lo.is_ge(&lo),
        ensures
            self.lower() == Boundary::Excluded(lo) ==> self.classify(&lo)
                == DeadbandComparisonResult::Low,
            self.lower() == Boundary::Included(lo) ==> !self.below(&lo),
            self.lower() == Boundary::Included(lo) && !self.above(&lo) ==> self.classify(&lo)
                == DeadbandComparisonResult::Hold,
    {
    }

    /// A value that is ordered against neither end is held: a reading that
    /// is not a number never moves the output.
    pub proof fn lemma_unordered_holds(self, value: T)
        requires
            self.unordered(&value),
        ensures
            self.classify(&value) == DeadbandComparisonResult::Hold,
    {
    }
}

} // verus!
