use vstd::prelude::*;
use crate::num::Num;

verus! {

/// A space whose elements can be added, subtracted and scaled by `Scalar`.
pub trait VectorSpace: Copy {
    type Scalar: Num;
}

/// A space with a squared distance between two elements.
pub trait MetricSpace: Sized {
    type Metric: Num;

    /// The squared distance as an integer.
    spec fn distance2_spec(self, other: Self) -> int;

    /// Whether every step of computing the squared distance stays in range.
    spec fn distance2_fits(self, other: Self) -> bool;

    fn distance2(self, other: Self) -> (r: Self::Metric)
        requires
            self.distance2_fits(other),
        ensures
            r.value() == self.distance2_spec(other),
    ;
}

/// A vector space with an inner product.
pub trait InnerSpace: VectorSpace {
    /// The inner product as an integer.
    spec fn dot_spec(self, other: Self) -> int;

    /// Whether every step of computing the inner product stays in range.
    spec fn dot_fits(self, other: Self) -> bool;

    fn dot(self, other: Self) -> (r: Self::Scalar)
        requires
            self.dot_fits(other),
        ensures
            r.value() == self.dot_spec(other),
    ;

    /// The squared magnitude: the inner product of a vector with itself.
    fn magnitude2(self) -> (r: Self::Scalar)
        requires
            self.dot_fits(self),
        ensures
            r.value() == self.dot_spec(self),
    {
        self.dot(self)
    }
}

} // verus!
