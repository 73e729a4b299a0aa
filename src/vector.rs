use vstd::prelude::*;
use crate::num::{div_trunc, fits2, fits3, fits4, fits_diff, rem_trunc, Num, Signed};
use crate::structure::{InnerSpace, MetricSpace, VectorSpace};

verus! {

/// A fixed-size vector of scalars.
pub trait Vector: Sized {
    type Element: Num;

    /// The sum of the components as an integer.
    spec fn sum_spec(self) -> int;

    /// Whether each partial sum of the components stays in range.
    spec fn sum_fits(self) -> bool;

    /// The product of the components as an integer.
    spec fn product_spec(self) -> int;

    /// Whether each partial product of the components stays in range.
    spec fn product_fits(self) -> bool;

    /// The number of components.
    fn length() -> usize;

    /// The vector with every component equal to `scalar`.
    fn from_value(scalar: Self::Element) -> Self;

    fn sum(self) -> (r: Self::Element)
        requires
            self.sum_fits(),
        ensures
            r.value() == self.sum_spec(),
    ;

    fn product(self) -> (r: Self::Element)
        requires
            self.product_fits(),
        ensures
            r.value() == self.product_spec(),
    ;
}

/// A vector of 1 scalar, laid out as `x`.
#[derive(Clone, Copy, Debug, PartialEq, Eq)]
pub struct Vec1<S> {
    pub x: S,
}

impl<S> Vec1<S> {
    pub fn new(x: S) -> (r: Vec1<S>)
        ensures
            r.x == x,
    {
        Vec1 { x }
    }
}

impl<S: Num> Vec1<S> {
    /// Each component is the scalar its value stands for.
    pub proof fn lemma_canonical(self)
        ensures
            S::from_int(self.x.value()) == self.x,
            S::fits(self.x.value()),
    {
        S::lemma_value(self.x, self.x);
    }

    /// The componentwise sum.
    pub open spec fn spec_add(self, rhs: Self) -> Vec1<S> {
        Vec1 { x: S::from_int(self.x.value() + rhs.x.value()) }
    }

    /// The componentwise difference.
    pub open spec fn spec_sub(self, rhs: Self) -> Vec1<S> {
        Vec1 { x: S::from_int(self.x.value() - rhs.x.value()) }
    }

    /// Each component multiplied by `s`.
    pub open spec fn spec_scale(self, s: S) -> Vec1<S> {
        Vec1 { x: S::from_int(self.x.value() * s.value()) }
    }

    /// Each component divided by `s`, rounded toward zero.
    pub open spec fn spec_div(self, s: S) -> Vec1<S> {
        Vec1 { x: S::from_int(div_trunc(self.x.value(), s.value())) }
    }

    /// The remainder of each component divided by `s`.
    pub open spec fn spec_rem(self, s: S) -> Vec1<S> {
        Vec1 { x: S::from_int(rem_trunc(self.x.value(), s.value())) }
    }

    /// Each component negated.
    pub open spec fn spec_neg(self) -> Vec1<S> {
        Vec1 { x: S::from_int(-self.x.value()) }
    }

    /// Whether each componentwise sum stays in range.
    pub open spec fn fits_add(self, rhs: Self) -> bool {
        S::fits(self.x.value() + rhs.x.value())
    }

    /// Whether each componentwise difference stays in range.
    pub open spec fn fits_sub(self, rhs: Self) -> bool {
        S::fits(self.x.value() - rhs.x.value())
    }

    /// Whether each component times `s` stays in range.
    pub open spec fn fits_scale(self, s: S) -> bool {
        S::fits(self.x.value() * s.value())
    }

    /// Whether `s` is not zero and each quotient by it stays in range.
    pub open spec fn fits_div(self, s: S) -> bool {
        s.value() != 0 &&
        S::fits(div_trunc(self.x.value(), s.value()))
    }

    /// Whether each negated component stays in range.
    pub open spec fn fits_neg(self) -> bool {
        S::fits(-self.x.value())
    }

    /// The vector whose components are all zero, as a value.
    pub open spec fn spec_zero() -> Self {
        Vec1 { x: S::ZERO }
    }

    /// Adding the zero vector leaves a vector unchanged, and so does
    /// multiplying it by one.
    pub proof fn lemma_add_zero_mul_one(v: Self)
        ensures
            v.fits_add(Self::spec_zero()),
            v.spec_add(Self::spec_zero()) == v,
            v.fits_scale(S::ONE),
            v.spec_scale(S::ONE) == v,
    {
        S::lemma_value(S::ZERO, S::ONE);
        v.lemma_canonical();
    }

    /// The vector whose components are all zero.
    pub fn zero() -> (r: Self)
        ensures
            r == Self::spec_zero(),
            r.x.value() == 0,
    {
        proof {
            S::lemma_value(S::ZERO, S::ZERO);
        }
        Vec1 { x: S::ZERO }
    }

    /// The unit vector along `x`.
    pub fn unit_x() -> (r: Self)
        ensures
            r == (Vec1 { x: S::ONE }),
            r.x.value() == 1,
    {
        proof {
            S::lemma_value(S::ZERO, S::ONE);
        }
        Vec1 { x: S::ONE }
    }

    /// The smaller of each pair of components.
    pub fn min_element_wise(self, rhs: Self) -> (r: Self)
        ensures
            r.x.value() == if self.x.value() <= rhs.x.value() { self.x.value() } else { rhs.x.value() },
    {
        Vec1 { x: self.x.minimum(rhs.x) }
    }

    /// The larger of each pair of components.
    pub fn max_element_wise(self, rhs: Self) -> (r: Self)
        ensures
            r.x.value() == if self.x.value() >= rhs.x.value() { self.x.value() } else { rhs.x.value() },
    {
        Vec1 { x: self.x.maximum(rhs.x) }
    }
}

impl<S: Signed> Vec1<S> {
    /// The absolute value of each component.
    pub fn abs(&self) -> (r: Self)
        requires
            self.fits_neg(),
        ensures
            r.x.value() == if self.x.value() < 0 { -self.x.value() } else { self.x.value() },
    {
        Vec1 { x: self.x.abs() }
    }
}

impl<S: Num> core::ops::Add<Vec1<S>> for Vec1<S> {
    type Output = Vec1<S>;

    fn add(self, rhs: Vec1<S>) -> (r: Vec1<S>)
        ensures
            r == self.spec_add(rhs),
    {
        let r = Vec1 { x: self.x.plus(rhs.x) };
        proof {
            r.lemma_canonical();
        }
        r
    }
}

impl<S: Num> vstd::std_specs::ops::AddSpecImpl<Vec1<S>> for Vec1<S> {
    open spec fn obeys_add_spec() -> bool {
        true
    }

    open spec fn add_req(self, rhs: Vec1<S>) -> bool {
        self.fits_add(rhs)
    }

    open spec fn add_spec(self, rhs: Vec1<S>) -> Vec1<S> {
        self.spec_add(rhs)
    }
}

impl<S: Num> core::ops::Sub<Vec1<S>> for Vec1<S> {
    type Output = Vec1<S>;

    fn sub(self, rhs: Vec1<S>) -> (r: Vec1<S>)
        ensures
            r == self.spec_sub(rhs),
    {
        let r = Vec1 { x: self.x.minus(rhs.x) };
        proof {
            r.lemma_canonical();
        }
        r
    }
}

impl<S: Num> vstd::std_specs::ops::SubSpecImpl<Vec1<S>> for Vec1<S> {
    open spec fn obeys_sub_spec() -> bool {
        true
    }

    open spec fn sub_req(self, rhs: Vec1<S>) -> bool {
        self.fits_sub(rhs)
    }

    open spec fn sub_spec(self, rhs: Vec1<S>) -> Vec1<S> {
        self.spec_sub(rhs)
    }
}

impl<S: Num> core::ops::Mul<S> for Vec1<S> {
    type Output = Vec1<S>;

    fn mul(self, rhs: S) -> (r: Vec1<S>)
        ensures
            r == self.spec_scale(rhs),
    {
        let r = Vec1 { x: self.x.times(rhs) };
        proof {
            r.lemma_canonical();
        }
        r
    }
}

impl<S: Num> vstd::std_specs::ops::MulSpecImpl<S> for Vec1<S> {
    open spec fn obeys_mul_spec() -> bool {
        true
    }

    open spec fn mul_req(self, rhs: S) -> bool {
        self.fits_scale(rhs)
    }

    open spec fn mul_spec(self, rhs: S) -> Vec1<S> {
        self.spec_scale(rhs)
    }
}

impl<S: Num> core::ops::Div<S> for Vec1<S> {
    type Output = Vec1<S>;

    fn div(self, rhs: S) -> (r: Vec1<S>)
        ensures
            r == self.spec_div(rhs),
    {
        let r = Vec1 { x: self.x.quot(rhs) };
        proof {
            r.lemma_canonical();
        }
        r
    }
}

impl<S: Num> vstd::std_specs::ops::DivSpecImpl<S> for Vec1<S> {
    open spec fn obeys_div_spec() -> bool {
        true
    }

    open spec fn div_req(self, rhs: S) -> bool {
        self.fits_div(rhs)
    }

    open spec fn div_spec(self, rhs: S) -> Vec1<S> {
        self.spec_div(rhs)
    }
}

impl<S: Num> core::ops::Rem<S> for Vec1<S> {
    type Output = Vec1<S>;

    fn rem(self, rhs: S) -> (r: Vec1<S>)
        ensures
            r == self.spec_rem(rhs),
    {
        let r = Vec1 { x: self.x.modulo(rhs) };
        proof {
            r.lemma_canonical();
        }
        r
    }
}

impl<S: Num> vstd::std_specs::ops::RemSpecImpl<S> for Vec1<S> {
    open spec fn obeys_rem_spec() -> bool {
        true
    }

    open spec fn rem_req(self, rhs: S) -> bool {
        self.fits_div(rhs)
    }

    open spec fn rem_spec(self, rhs: S) -> Vec1<S> {
        self.spec_rem(rhs)
    }
}

impl<S: Signed> core::ops::Neg for Vec1<S> {
    type Output = Vec1<S>;

    fn neg(self) -> (r: Vec1<S>)
        ensures
            r == self.spec_neg(),
    {
        let r = Vec1 { x: self.x.negate() };
        proof {
            r.lemma_canonical();
        }
        r
    }
}

impl<S: Signed> vstd::std_specs::ops::NegSpecImpl for Vec1<S> {
    open spec fn obeys_neg_spec() -> bool {
        true
    }

    open spec fn neg_req(self) -> bool {
        self.fits_neg()
    }

    open spec fn neg_spec(self) -> Vec1<S> {
        self.spec_neg()
    }
}

impl core::ops::Mul<Vec1<i32>> for i32 {
    type Output = Vec1<i32>;

    fn mul(self, rhs: Vec1<i32>) -> (r: Vec1<i32>)
        ensures
            r == (Vec1 { x: <i32 as Num>::from_int(self.value() * rhs.x.value()) }),
    {
        let r = Vec1 { x: self.times(rhs.x) };
        proof {
            r.lemma_canonical();
        }
        r
    }
}

impl vstd::std_specs::ops::MulSpecImpl<Vec1<i32>> for i32 {
    open spec fn obeys_mul_spec() -> bool {
        true
    }

    open spec fn mul_req(self, rhs: Vec1<i32>) -> bool {
        <i32 as Num>::fits(self.value() * rhs.x.value())
    }

    open spec fn mul_spec(self, rhs: Vec1<i32>) -> Vec1<i32> {
        Vec1 { x: <i32 as Num>::from_int(self.value() * rhs.x.value()) }
    }
}

impl core::ops::Div<Vec1<i32>> for i32 {
    type Output = Vec1<i32>;

    fn div(self, rhs: Vec1<i32>) -> (r: Vec1<i32>)
        ensures
            r == (Vec1 { x: <i32 as Num>::from_int(div_trunc(self.value(), rhs.x.value())) }),
    {
        let r = Vec1 { x: self.quot(rhs.x) };
        proof {
            r.lemma_canonical();
        }
        r
    }
}

impl vstd::std_specs::ops::DivSpecImpl<Vec1<i32>> for i32 {
    open spec fn obeys_div_spec() -> bool {
        true
    }

    open spec fn div_req(self, rhs: Vec1<i32>) -> bool {
        rhs.x.value() != 0 &&
        <i32 as Num>::fits(div_trunc(self.value(), rhs.x.value()))
    }

    open spec fn div_spec(self, rhs: Vec1<i32>) -> Vec1<i32> {
        Vec1 { x: <i32 as Num>::from_int(div_trunc(self.value(), rhs.x.value())) }
    }
}

impl core::ops::Rem<Vec1<i32>> for i32 {
    type Output = Vec1<i32>;

    fn rem(self, rhs: Vec1<i32>) -> (r: Vec1<i32>)
        ensures
            r == (Vec1 { x: <i32 as Num>::from_int(rem_trunc(self.value(), rhs.x.value())) }),
    {
        let r = Vec1 { x: self.modulo(rhs.x) };
        proof {
            r.lemma_canonical();
        }
        r
    }
}

impl vstd::std_specs::ops::RemSpecImpl<Vec1<i32>> for i32 {
    open spec fn obeys_rem_spec() -> bool {
        true
    }

    open spec fn rem_req(self, rhs: Vec1<i32>) -> bool {
        rhs.x.value() != 0 &&
        <i32 as Num>::fits(div_trunc(self.value(), rhs.x.value()))
    }

    open spec fn rem_spec(self, rhs: Vec1<i32>) -> Vec1<i32> {
        Vec1 { x: <i32 as Num>::from_int(rem_trunc(self.value(), rhs.x.value())) }
    }
}

impl core::ops::Mul<Vec1<i64>> for i64 {
    type Output = Vec1<i64>;

    fn mul(self, rhs: Vec1<i64>) -> (r: Vec1<i64>)
        ensures
            r == (Vec1 { x: <i64 as Num>::from_int(self.value() * rhs.x.value()) }),
    {
        let r = Vec1 { x: self.times(rhs.x) };
        proof {
            r.lemma_canonical();
        }
        r
    }
}

impl vstd::std_specs::ops::MulSpecImpl<Vec1<i64>> for i64 {
    open spec fn obeys_mul_spec() -> bool {
        true
    }

    open spec fn mul_req(self, rhs: Vec1<i64>) -> bool {
        <i64 as Num>::fits(self.value() * rhs.x.value())
    }

    open spec fn mul_spec(self, rhs: Vec1<i64>) -> Vec1<i64> {
        Vec1 { x: <i64 as Num>::from_int(self.value() * rhs.x.value()) }
    }
}

impl core::ops::Div<Vec1<i64>> for i64 {
    type Output = Vec1<i64>;

    fn div(self, rhs: Vec1<i64>) -> (r: Vec1<i64>)
        ensures
            r == (Vec1 { x: <i64 as Num>::from_int(div_trunc(self.value(), rhs.x.value())) }),
    {
        let r = Vec1 { x: self.quot(rhs.x) };
        proof {
            r.lemma_canonical();
        }
        r
    }
}

impl vstd::std_specs::ops::DivSpecImpl<Vec1<i64>> for i64 {
    open spec fn obeys_div_spec() -> bool {
        true
    }

    open spec fn div_req(self, rhs: Vec1<i64>) -> bool {
        rhs.x.value() != 0 &&
        <i64 as Num>::fits(div_trunc(self.value(), rhs.x.value()))
    }

    open spec fn div_spec(self, rhs: Vec1<i64>) -> Vec1<i64> {
        Vec1 { x: <i64 as Num>::from_int(div_trunc(self.value(), rhs.x.value())) }
    }
}

impl core::ops::Rem<Vec1<i64>> for i64 {
    type Output = Vec1<i64>;

    fn rem(self, rhs: Vec1<i64>) -> (r: Vec1<i64>)
        ensures
            r == (Vec1 { x: <i64 as Num>::from_int(rem_trunc(self.value(), rhs.x.value())) }),
    {
        let r = Vec1 { x: self.modulo(rhs.x) };
        proof {
            r.lemma_canonical();
        }
        r
    }
}

impl vstd::std_specs::ops::RemSpecImpl<Vec1<i64>> for i64 {
    open spec fn obeys_rem_spec() -> bool {
        true
    }

    open spec fn rem_req(self, rhs: Vec1<i64>) -> bool {
        rhs.x.value() != 0 &&
        <i64 as Num>::fits(div_trunc(self.value(), rhs.x.value()))
    }

    open spec fn rem_spec(self, rhs: Vec1<i64>) -> Vec1<i64> {
        Vec1 { x: <i64 as Num>::from_int(rem_trunc(self.value(), rhs.x.value())) }
    }
}

impl core::ops::Mul<Vec1<u32>> for u32 {
    type Output = Vec1<u32>;

    fn mul(self, rhs: Vec1<u32>) -> (r: Vec1<u32>)
        ensures
            r == (Vec1 { x: <u32 as Num>::from_int(self.value() * rhs.x.value()) }),
    {
        let r = Vec1 { x: self.times(rhs.x) };
        proof {
            r.lemma_canonical();
        }
        r
    }
}

impl vstd::std_specs::ops::MulSpecImpl<Vec1<u32>> for u32 {
    open spec fn obeys_mul_spec() -> bool {
        true
    }

    open spec fn mul_req(self, rhs: Vec1<u32>) -> bool {
        <u32 as Num>::fits(self.value() * rhs.x.value())
    }

    open spec fn mul_spec(self, rhs: Vec1<u32>) -> Vec1<u32> {
        Vec1 { x: <u32 as Num>::from_int(self.value() * rhs.x.value()) }
    }
}

impl core::ops::Div<Vec1<u32>> for u32 {
    type Output = Vec1<u32>;

    fn div(self, rhs: Vec1<u32>) -> (r: Vec1<u32>)
        ensures
            r == (Vec1 { x: <u32 as Num>::from_int(div_trunc(self.value(), rhs.x.value())) }),
    {
        let r = Vec1 { x: self.quot(rhs.x) };
        proof {
            r.lemma_canonical();
        }
        r
    }
}

impl vstd::std_specs::ops::DivSpecImpl<Vec1<u32>> for u32 {
    open spec fn obeys_div_spec() -> bool {
        true
    }

    open spec fn div_req(self, rhs: Vec1<u32>) -> bool {
        rhs.x.value() != 0 &&
        <u32 as Num>::fits(div_trunc(self.value(), rhs.x.value()))
    }

    open spec fn div_spec(self, rhs: Vec1<u32>) -> Vec1<u32> {
        Vec1 { x: <u32 as Num>::from_int(div_trunc(self.value(), rhs.x.value())) }
    }
}

impl core::ops::Rem<Vec1<u32>> for u32 {
    type Output = Vec1<u32>;

    fn rem(self, rhs: Vec1<u32>) -> (r: Vec1<u32>)
        ensures
            r == (Vec1 { x: <u32 as Num>::from_int(rem_trunc(self.value(), rhs.x.value())) }),
    {
        let r = Vec1 { x: self.modulo(rhs.x) };
        proof {
            r.lemma_canonical();
        }
        r
    }
}

impl vstd::std_specs::ops::RemSpecImpl<Vec1<u32>> for u32 {
    open spec fn obeys_rem_spec() -> bool {
        true
    }

    open spec fn rem_req(self, rhs: Vec1<u32>) -> bool {
        rhs.x.value() != 0 &&
        <u32 as Num>::fits(div_trunc(self.value(), rhs.x.value()))
    }

    open spec fn rem_spec(self, rhs: Vec1<u32>) -> Vec1<u32> {
        Vec1 { x: <u32 as Num>::from_int(rem_trunc(self.value(), rhs.x.value())) }
    }
}

impl core::ops::Mul<Vec1<u64>> for u64 {
    type Output = Vec1<u64>;

    fn mul(self, rhs: Vec1<u64>) -> (r: Vec1<u64>)
        ensures
            r == (Vec1 { x: <u64 as Num>::from_int(self.value() * rhs.x.value()) }),
    {
        let r = Vec1 { x: self.times(rhs.x) };
        proof {
            r.lemma_canonical();
        }
        r
    }
}

impl vstd::std_specs::ops::MulSpecImpl<Vec1<u64>> for u64 {
    open spec fn obeys_mul_spec() -> bool {
        true
    }

    open spec fn mul_req(self, rhs: Vec1<u64>) -> bool {
        <u64 as Num>::fits(self.value() * rhs.x.value())
    }

    open spec fn mul_spec(self, rhs: Vec1<u64>) -> Vec1<u64> {
        Vec1 { x: <u64 as Num>::from_int(self.value() * rhs.x.value()) }
    }
}

impl core::ops::Div<Vec1<u64>> for u64 {
    type Output = Vec1<u64>;

    fn div(self, rhs: Vec1<u64>) -> (r: Vec1<u64>)
        ensures
            r == (Vec1 { x: <u64 as Num>::from_int(div_trunc(self.value(), rhs.x.value())) }),
    {
        let r = Vec1 { x: self.quot(rhs.x) };
        proof {
            r.lemma_canonical();
        }
        r
    }
}

impl vstd::std_specs::ops::DivSpecImpl<Vec1<u64>> for u64 {
    open spec fn obeys_div_spec() -> bool {
        true
    }

    open spec fn div_req(self, rhs: Vec1<u64>) -> bool {
        rhs.x.value() != 0 &&
        <u64 as Num>::fits(div_trunc(self.value(), rhs.x.value()))
    }

    open spec fn div_spec(self, rhs: Vec1<u64>) -> Vec1<u64> {
        Vec1 { x: <u64 as Num>::from_int(div_trunc(self.value(), rhs.x.value())) }
    }
}

impl core::ops::Rem<Vec1<u64>> for u64 {
    type Output = Vec1<u64>;

    fn rem(self, rhs: Vec1<u64>) -> (r: Vec1<u64>)
        ensures
            r == (Vec1 { x: <u64 as Num>::from_int(rem_trunc(self.value(), rhs.x.value())) }),
    {
        let r = Vec1 { x: self.modulo(rhs.x) };
        proof {
            r.lemma_canonical();
        }
        r
    }
}

impl vstd::std_specs::ops::RemSpecImpl<Vec1<u64>> for u64 {
    open spec fn obeys_rem_spec() -> bool {
        true
    }

    open spec fn rem_req(self, rhs: Vec1<u64>) -> bool {
        rhs.x.value() != 0 &&
        <u64 as Num>::fits(div_trunc(self.value(), rhs.x.value()))
    }

    open spec fn rem_spec(self, rhs: Vec1<u64>) -> Vec1<u64> {
        Vec1 { x: <u64 as Num>::from_int(rem_trunc(self.value(), rhs.x.value())) }
    }
}

impl<S: Num> VectorSpace for Vec1<S> {
    type Scalar = S;
}

impl<S: Num> InnerSpace for Vec1<S> {
    open spec fn dot_spec(self, other: Self) -> int {
        self.x.value() * other.x.value()
    }

    open spec fn dot_fits(self, other: Self) -> bool {
        S::fits(self.x.value() * other.x.value())
    }

    fn dot(self, other: Self) -> (r: S) {
        self.x.times(other.x)
    }
}

impl<S: Num> MetricSpace for Vec1<S> {
    type Metric = S;

    open spec fn distance2_spec(self, other: Self) -> int {
        (other.x.value() - self.x.value()) * (other.x.value() - self.x.value())
    }

    open spec fn distance2_fits(self, other: Self) -> bool {
        other.fits_sub(self) && S::fits((other.x.value() - self.x.value()) * (other.x.value() - self.x.value()))
    }

    fn distance2(self, other: Self) -> (r: S) {
        let d = other - self;
        proof {
            S::lemma_from_int(other.x.value() - self.x.value());
        }
        d.magnitude2()
    }
}

impl<S: Num> Vector for Vec1<S> {
    type Element = S;

    open spec fn sum_spec(self) -> int {
        self.x.value()
    }

    open spec fn sum_fits(self) -> bool {
        S::fits(self.x.value())
    }

    open spec fn product_spec(self) -> int {
        self.x.value()
    }

    open spec fn product_fits(self) -> bool {
        true
    }

    fn length() -> (r: usize)
        ensures
            r == 1,
    {
        1
    }

    fn from_value(scalar: S) -> (r: Self)
        ensures
            r.x == scalar,
    {
        Vec1 { x: scalar }
    }

    fn sum(self) -> (r: S) {
        self.x
    }

    fn product(self) -> (r: S) {
        self.x
    }
}

impl<S: Copy> Vec1<S> {
    /// The vector whose components are the array's, in order.
    pub fn from_slice(slice: &[S; 1]) -> (r: Self)
        ensures
            r.x == slice@[0],
    {
        Vec1 { x: slice[0] }
    }

    /// The vector of one more dimension whose last component is `y`.
    pub fn extend(self, y: S) -> (r: Vec2<S>)
        ensures
            r.x == self.x,
            r.y == y,
    {
        Vec2 { x: self.x, y }
    }
}

/// A vector of 2 scalars, laid out as `x, y`.
#[derive(Clone, Copy, Debug, PartialEq, Eq)]
pub struct Vec2<S> {
    pub x: S,
    pub y: S,
}

impl<S> Vec2<S> {
    pub fn new(x: S, y: S) -> (r: Vec2<S>)
        ensures
            r.x == x,
            r.y == y,
    {
        Vec2 { x, y }
    }
}

impl<S: Num> Vec2<S> {
    /// Each component is the scalar its value stands for.
    pub proof fn lemma_canonical(self)
        ensures
            S::from_int(self.x.value()) == self.x,
            S::fits(self.x.value()),
            S::from_int(self.y.value()) == self.y,
            S::fits(self.y.value()),
    {
        S::lemma_value(self.x, self.x);
        S::lemma_value(self.y, self.y);
    }

    /// The componentwise sum.
    pub open spec fn spec_add(self, rhs: Self) -> Vec2<S> {
        Vec2 { x: S::from_int(self.x.value() + rhs.x.value()), y: S::from_int(self.y.value() + rhs.y.value()) }
    }

    /// The componentwise difference.
    pub open spec fn spec_sub(self, rhs: Self) -> Vec2<S> {
        Vec2 { x: S::from_int(self.x.value() - rhs.x.value()), y: S::from_int(self.y.value() - rhs.y.value()) }
    }

    /// Each component multiplied by `s`.
    pub open spec fn spec_scale(self, s: S) -> Vec2<S> {
        Vec2 { x: S::from_int(self.x.value() * s.value()), y: S::from_int(self.y.value() * s.value()) }
    }

    /// Each component divided by `s`, rounded toward zero.
    pub open spec fn spec_div(self, s: S) -> Vec2<S> {
        Vec2 { x: S::from_int(div_trunc(self.x.value(), s.value())), y: S::from_int(div_trunc(self.y.value(), s.value())) }
    }

    /// The remainder of each component divided by `s`.
    pub open spec fn spec_rem(self, s: S) -> Vec2<S> {
        Vec2 { x: S::from_int(rem_trunc(self.x.value(), s.value())), y: S::from_int(rem_trunc(self.y.value(), s.value())) }
    }

    /// Each component negated.
    pub open spec fn spec_neg(self) -> Vec2<S> {
        Vec2 { x: S::from_int(-self.x.value()), y: S::from_int(-self.y.value()) }
    }

    /// Whether each componentwise sum stays in range.
    pub open spec fn fits_add(self, rhs: Self) -> bool {
        S::fits(self.x.value() + rhs.x.value()) &&
        S::fits(self.y.value() + rhs.y.value())
    }

    /// Whether each componentwise difference stays in range.
    pub open spec fn fits_sub(self, rhs: Self) -> bool {
        S::fits(self.x.value() - rhs.x.value()) &&
        S::fits(self.y.value() - rhs.y.value())
    }

    /// Whether each component times `s` stays in range.
    pub open spec fn fits_scale(self, s: S) -> bool {
        S::fits(self.x.value() * s.value()) &&
        S::fits(self.y.value() * s.value())
    }

    /// Whether `s` is not zero and each quotient by it stays in range.
    pub open spec fn fits_div(self, s: S) -> bool {
        s.value() != 0 &&
        S::fits(div_trunc(self.x.value(), s.value())) &&
        S::fits(div_trunc(self.y.value(), s.value()))
    }

    /// Whether each negated component stays in range.
    pub open spec fn fits_neg(self) -> bool {
        S::fits(-self.x.value()) &&
        S::fits(-self.y.value())
    }

    /// The vector whose components are all zero, as a value.
    pub open spec fn spec_zero() -> Self {
        Vec2 { x: S::ZERO, y: S::ZERO }
    }

    /// Adding the zero vector leaves a vector unchanged, and so does
    /// multiplying it by one.
    pub proof fn lemma_add_zero_mul_one(v: Self)
        ensures
            v.fits_add(Self::spec_zero()),
            v.spec_add(Self::spec_zero()) == v,
            v.fits_scale(S::ONE),
            v.spec_scale(S::ONE) == v,
    {
        S::lemma_value(S::ZERO, S::ONE);
        v.lemma_canonical();
    }

    /// The vector whose components are all zero.
    pub fn zero() -> (r: Self)
        ensures
            r == Self::spec_zero(),
            r.x.value() == 0,
            r.y.value() == 0,
    {
        proof {
            S::lemma_value(S::ZERO, S::ZERO);
        }
        Vec2 { x: S::ZERO, y: S::ZERO }
    }

    /// The unit vector along `x`.
    pub fn unit_x() -> (r: Self)
        ensures
            r == (Vec2 { x: S::ONE, y: S::ZERO }),
            r.x.value() == 1,
            r.y.value() == 0,
    {
        proof {
            S::lemma_value(S::ZERO, S::ONE);
        }
        Vec2 { x: S::ONE, y: S::ZERO }
    }

    /// The unit vector along `y`.
    pub fn unit_y() -> (r: Self)
        ensures
            r == (Vec2 { x: S::ZERO, y: S::ONE }),
            r.x.value() == 0,
            r.y.value() == 1,
    {
        proof {
            S::lemma_value(S::ZERO, S::ONE);
        }
        Vec2 { x: S::ZERO, y: S::ONE }
    }

    /// The smaller of each pair of components.
    pub fn min_element_wise(self, rhs: Self) -> (r: Self)
        ensures
            r.x.value() == if self.x.value() <= rhs.x.value() { self.x.value() } else { rhs.x.value() },
            r.y.value() == if self.y.value() <= rhs.y.value() { self.y.value() } else { rhs.y.value() },
    {
        Vec2 { x: self.x.minimum(rhs.x), y: self.y.minimum(rhs.y) }
    }

    /// The larger of each pair of components.
    pub fn max_element_wise(self, rhs: Self) -> (r: Self)
        ensures
            r.x.value() == if self.x.value() >= rhs.x.value() { self.x.value() } else { rhs.x.value() },
            r.y.value() == if self.y.value() >= rhs.y.value() { self.y.value() } else { rhs.y.value() },
    {
        Vec2 { x: self.x.maximum(rhs.x), y: self.y.maximum(rhs.y) }
    }
}

impl<S: Signed> Vec2<S> {
    /// The absolute value of each component.
    pub fn abs(&self) -> (r: Self)
        requires
            self.fits_neg(),
        ensures
            r.x.value() == if self.x.value() < 0 { -self.x.value() } else { self.x.value() },
            r.y.value() == if self.y.value() < 0 { -self.y.value() } else { self.y.value() },
    {
        Vec2 { x: self.x.abs(), y: self.y.abs() }
    }
}

impl<S: Num> core::ops::Add<Vec2<S>> for Vec2<S> {
    type Output = Vec2<S>;

    fn add(self, rhs: Vec2<S>) -> (r: Vec2<S>)
        ensures
            r == self.spec_add(rhs),
    {
        let r = Vec2 { x: self.x.plus(rhs.x), y: self.y.plus(rhs.y) };
        proof {
            r.lemma_canonical();
        }
        r
    }
}

impl<S: Num> vstd::std_specs::ops::AddSpecImpl<Vec2<S>> for Vec2<S> {
    open spec fn obeys_add_spec() -> bool {
        true
    }

    open spec fn add_req(self, rhs: Vec2<S>) -> bool {
        self.fits_add(rhs)
    }

    open spec fn add_spec(self, rhs: Vec2<S>) -> Vec2<S> {
        self.spec_add(rhs)
    }
}

impl<S: Num> core::ops::Sub<Vec2<S>> for Vec2<S> {
    type Output = Vec2<S>;

    fn sub(self, rhs: Vec2<S>) -> (r: Vec2<S>)
        ensures
            r == self.spec_sub(rhs),
    {
        let r = Vec2 { x: self.x.minus(rhs.x), y: self.y.minus(rhs.y) };
        proof {
            r.lemma_canonical();
        }
        r
    }
}

impl<S: Num> vstd::std_specs::ops::SubSpecImpl<Vec2<S>> for Vec2<S> {
    open spec fn obeys_sub_spec() -> bool {
        true
    }

    open spec fn sub_req(self, rhs: Vec2<S>) -> bool {
        self.fits_sub(rhs)
    }

    open spec fn sub_spec(self, rhs: Vec2<S>) -> Vec2<S> {
        self.spec_sub(rhs)
    }
}

impl<S: Num> core::ops::Mul<S> for Vec2<S> {
    type Output = Vec2<S>;

    fn mul(self, rhs: S) -> (r: Vec2<S>)
        ensures
            r == self.spec_scale(rhs),
    {
        let r = Vec2 { x: self.x.times(rhs), y: self.y.times(rhs) };
        proof {
            r.lemma_canonical();
        }
        r
    }
}

impl<S: Num> vstd::std_specs::ops::MulSpecImpl<S> for Vec2<S> {
    open spec fn obeys_mul_spec() -> bool {
        true
    }

    open spec fn mul_req(self, rhs: S) -> bool {
        self.fits_scale(rhs)
    }

    open spec fn mul_spec(self, rhs: S) -> Vec2<S> {
        self.spec_scale(rhs)
    }
}

impl<S: Num> core::ops::Div<S> for Vec2<S> {
    type Output = Vec2<S>;

    fn div(self, rhs: S) -> (r: Vec2<S>)
        ensures
            r == self.spec_div(rhs),
    {
        let r = Vec2 { x: self.x.quot(rhs), y: self.y.quot(rhs) };
        proof {
            r.lemma_canonical();
        }
        r
    }
}

impl<S: Num> vstd::std_specs::ops::DivSpecImpl<S> for Vec2<S> {
    open spec fn obeys_div_spec() -> bool {
        true
    }

    open spec fn div_req(self, rhs: S) -> bool {
        self.fits_div(rhs)
    }

    open spec fn div_spec(self, rhs: S) -> Vec2<S> {
        self.spec_div(rhs)
    }
}

impl<S: Num> core::ops::Rem<S> for Vec2<S> {
    type Output = Vec2<S>;

    fn rem(self, rhs: S) -> (r: Vec2<S>)
        ensures
            r == self.spec_rem(rhs),
    {
        let r = Vec2 { x: self.x.modulo(rhs), y: self.y.modulo(rhs) };
        proof {
            r.lemma_canonical();
        }
        r
    }
}

impl<S: Num> vstd::std_specs::ops::RemSpecImpl<S> for Vec2<S> {
    open spec fn obeys_rem_spec() -> bool {
        true
    }

    open spec fn rem_req(self, rhs: S) -> bool {
        self.fits_div(rhs)
    }

    open spec fn rem_spec(self, rhs: S) -> Vec2<S> {
        self.spec_rem(rhs)
    }
}

impl<S: Signed> core::ops::Neg for Vec2<S> {
    type Output = Vec2<S>;

    fn neg(self) -> (r: Vec2<S>)
        ensures
            r == self.spec_neg(),
    {
        let r = Vec2 { x: self.x.negate(), y: self.y.negate() };
        proof {
            r.lemma_canonical();
        }
        r
    }
}

impl<S: Signed> vstd::std_specs::ops::NegSpecImpl for Vec2<S> {
    open spec fn obeys_neg_spec() -> bool {
        true
    }

    open spec fn neg_req(self) -> bool {
        self.fits_neg()
    }

    open spec fn neg_spec(self) -> Vec2<S> {
        self.spec_neg()
    }
}

impl core::ops::Mul<Vec2<i32>> for i32 {
    type Output = Vec2<i32>;

    fn mul(self, rhs: Vec2<i32>) -> (r: Vec2<i32>)
        ensures
            r == (Vec2 { x: <i32 as Num>::from_int(self.value() * rhs.x.value()), y: <i32 as Num>::from_int(self.value() * rhs.y.value()) }),
    {
        let r = Vec2 { x: self.times(rhs.x), y: self.times(rhs.y) };
        proof {
            r.lemma_canonical();
        }
        r
    }
}

impl vstd::std_specs::ops::MulSpecImpl<Vec2<i32>> for i32 {
    open spec fn obeys_mul_spec() -> bool {
        true
    }

    open spec fn mul_req(self, rhs: Vec2<i32>) -> bool {
        <i32 as Num>::fits(self.value() * rhs.x.value()) &&
        <i32 as Num>::fits(self.value() * rhs.y.value())
    }

    open spec fn mul_spec(self, rhs: Vec2<i32>) -> Vec2<i32> {
        Vec2 { x: <i32 as Num>::from_int(self.value() * rhs.x.value()), y: <i32 as Num>::from_int(self.value() * rhs.y.value()) }
    }
}

impl core::ops::Div<Vec2<i32>> for i32 {
    type Output = Vec2<i32>;

    fn div(self, rhs: Vec2<i32>) -> (r: Vec2<i32>)
        ensures
            r == (Vec2 { x: <i32 as Num>::from_int(div_trunc(self.value(), rhs.x.value())), y: <i32 as Num>::from_int(div_trunc(self.value(), rhs.y.value())) }),
    {
        let r = Vec2 { x: self.quot(rhs.x), y: self.quot(rhs.y) };
        proof {
            r.lemma_canonical();
        }
        r
    }
}

impl vstd::std_specs::ops::DivSpecImpl<Vec2<i32>> for i32 {
    open spec fn obeys_div_spec() -> bool {
        true
    }

    open spec fn div_req(self, rhs: Vec2<i32>) -> bool {
        rhs.x.value() != 0 &&
        <i32 as Num>::fits(div_trunc(self.value(), rhs.x.value())) &&
        rhs.y.value() != 0 &&
        <i32 as Num>::fits(div_trunc(self.value(), rhs.y.value()))
    }

    open spec fn div_spec(self, rhs: Vec2<i32>) -> Vec2<i32> {
        Vec2 { x: <i32 as Num>::from_int(div_trunc(self.value(), rhs.x.value())), y: <i32 as Num>::from_int(div_trunc(self.value(), rhs.y.value())) }
    }
}

impl core::ops::Rem<Vec2<i32>> for i32 {
    type Output = Vec2<i32>;

    fn rem(self, rhs: Vec2<i32>) -> (r: Vec2<i32>)
        ensures
            r == (Vec2 { x: <i32 as Num>::from_int(rem_trunc(self.value(), rhs.x.value())), y: <i32 as Num>::from_int(rem_trunc(self.value(), rhs.y.value())) }),
    {
        let r = Vec2 { x: self.modulo(rhs.x), y: self.modulo(rhs.y) };
        proof {
            r.lemma_canonical();
        }
        r
    }
}

impl vstd::std_specs::ops::RemSpecImpl<Vec2<i32>> for i32 {
    open spec fn obeys_rem_spec() -> bool {
        true
    }

    open spec fn rem_req(self, rhs: Vec2<i32>) -> bool {
        rhs.x.value() != 0 &&
        <i32 as Num>::fits(div_trunc(self.value(), rhs.x.value())) &&
        rhs.y.value() != 0 &&
        <i32 as Num>::fits(div_trunc(self.value(), rhs.y.value()))
    }

    open spec fn rem_spec(self, rhs: Vec2<i32>) -> Vec2<i32> {
        Vec2 { x: <i32 as Num>::from_int(rem_trunc(self.value(), rhs.x.value())), y: <i32 as Num>::from_int(rem_trunc(self.value(), rhs.y.value())) }
    }
}

impl core::ops::Mul<Vec2<i64>> for i64 {
    type Output = Vec2<i64>;

    fn mul(self, rhs: Vec2<i64>) -> (r: Vec2<i64>)
        ensures
            r == (Vec2 { x: <i64 as Num>::from_int(self.value() * rhs.x.value()), y: <i64 as Num>::from_int(self.value() * rhs.y.value()) }),
    {
        let r = Vec2 { x: self.times(rhs.x), y: self.times(rhs.y) };
        proof {
            r.lemma_canonical();
        }
        r
    }
}

impl vstd::std_specs::ops::MulSpecImpl<Vec2<i64>> for i64 {
    open spec fn obeys_mul_spec() -> bool {
        true
    }

    open spec fn mul_req(self, rhs: Vec2<i64>) -> bool {
        <i64 as Num>::fits(self.value() * rhs.x.value()) &&
        <i64 as Num>::fits(self.value() * rhs.y.value())
    }

    open spec fn mul_spec(self, rhs: Vec2<i64>) -> Vec2<i64> {
        Vec2 { x: <i64 as Num>::from_int(self.value() * rhs.x.value()), y: <i64 as Num>::from_int(self.value() * rhs.y.value()) }
    }
}

impl core::ops::Div<Vec2<i64>> for i64 {
    type Output = Vec2<i64>;

    fn div(self, rhs: Vec2<i64>) -> (r: Vec2<i64>)
        ensures
            r == (Vec2 { x: <i64 as Num>::from_int(div_trunc(self.value(), rhs.x.value())), y: <i64 as Num>::from_int(div_trunc(self.value(), rhs.y.value())) }),
    {
        let r = Vec2 { x: self.quot(rhs.x), y: self.quot(rhs.y) };
        proof {
            r.lemma_canonical();
        }
        r
    }
}

impl vstd::std_specs::ops::DivSpecImpl<Vec2<i64>> for i64 {
    open spec fn obeys_div_spec() -> bool {
        true
    }

    open spec fn div_req(self, rhs: Vec2<i64>) -> bool {
        rhs.x.value() != 0 &&
        <i64 as Num>::fits(div_trunc(self.value(), rhs.x.value())) &&
        rhs.y.value() != 0 &&
        <i64 as Num>::fits(div_trunc(self.value(), rhs.y.value()))
    }

    open spec fn div_spec(self, rhs: Vec2<i64>) -> Vec2<i64> {
        Vec2 { x: <i64 as Num>::from_int(div_trunc(self.value(), rhs.x.value())), y: <i64 as Num>::from_int(div_trunc(self.value(), rhs.y.value())) }
    }
}

impl core::ops::Rem<Vec2<i64>> for i64 {
    type Output = Vec2<i64>;

    fn rem(self, rhs: Vec2<i64>) -> (r: Vec2<i64>)
        ensures
            r == (Vec2 { x: <i64 as Num>::from_int(rem_trunc(self.value(), rhs.x.value())), y: <i64 as Num>::from_int(rem_trunc(self.value(), rhs.y.value())) }),
    {
        let r = Vec2 { x: self.modulo(rhs.x), y: self.modulo(rhs.y) };
        proof {
            r.lemma_canonical();
        }
        r
    }
}

impl vstd::std_specs::ops::RemSpecImpl<Vec2<i64>> for i64 {
    open spec fn obeys_rem_spec() -> bool {
        true
    }

    open spec fn rem_req(self, rhs: Vec2<i64>) -> bool {
        rhs.x.value() != 0 &&
        <i64 as Num>::fits(div_trunc(self.value(), rhs.x.value())) &&
        rhs.y.value() != 0 &&
        <i64 as Num>::fits(div_trunc(self.value(), rhs.y.value()))
    }

    open spec fn rem_spec(self, rhs: Vec2<i64>) -> Vec2<i64> {
        Vec2 { x: <i64 as Num>::from_int(rem_trunc(self.value(), rhs.x.value())), y: <i64 as Num>::from_int(rem_trunc(self.value(), rhs.y.value())) }
    }
}

impl core::ops::Mul<Vec2<u32>> for u32 {
    type Output = Vec2<u32>;

    fn mul(self, rhs: Vec2<u32>) -> (r: Vec2<u32>)
        ensures
            r == (Vec2 { x: <u32 as Num>::from_int(self.value() * rhs.x.value()), y: <u32 as Num>::from_int(self.value() * rhs.y.value()) }),
    {
        let r = Vec2 { x: self.times(rhs.x), y: self.times(rhs.y) };
        proof {
            r.lemma_canonical();
        }
        r
    }
}

impl vstd::std_specs::ops::MulSpecImpl<Vec2<u32>> for u32 {
    open spec fn obeys_mul_spec() -> bool {
        true
    }

    open spec fn mul_req(self, rhs: Vec2<u32>) -> bool {
        <u32 as Num>::fits(self.value() * rhs.x.value()) &&
        <u32 as Num>::fits(self.value() * rhs.y.value())
    }

    open spec fn mul_spec(self, rhs: Vec2<u32>) -> Vec2<u32> {
        Vec2 { x: <u32 as Num>::from_int(self.value() * rhs.x.value()), y: <u32 as Num>::from_int(self.value() * rhs.y.value()) }
    }
}

impl core::ops::Div<Vec2<u32>> for u32 {
    type Output = Vec2<u32>;

    fn div(self, rhs: Vec2<u32>) -> (r: Vec2<u32>)
        ensures
            r == (Vec2 { x: <u32 as Num>::from_int(div_trunc(self.value(), rhs.x.value())), y: <u32 as Num>::from_int(div_trunc(self.value(), rhs.y.value())) }),
    {
        let r = Vec2 { x: self.quot(rhs.x), y: self.quot(rhs.y) };
        proof {
            r.lemma_canonical();
        }
        r
    }
}

impl vstd::std_specs::ops::DivSpecImpl<Vec2<u32>> for u32 {
    open spec fn obeys_div_spec() -> bool {
        true
    }

    open spec fn div_req(self, rhs: Vec2<u32>) -> bool {
        rhs.x.value() != 0 &&
        <u32 as Num>::fits(div_trunc(self.value(), rhs.x.value())) &&
        rhs.y.value() != 0 &&
        <u32 as Num>::fits(div_trunc(self.value(), rhs.y.value()))
    }

    open spec fn div_spec(self, rhs: Vec2<u32>) -> Vec2<u32> {
        Vec2 { x: <u32 as Num>::from_int(div_trunc(self.value(), rhs.x.value())), y: <u32 as Num>::from_int(div_trunc(self.value(), rhs.y.value())) }
    }
}

impl core::ops::Rem<Vec2<u32>> for u32 {
    type Output = Vec2<u32>;

    fn rem(self, rhs: Vec2<u32>) -> (r: Vec2<u32>)
        ensures
            r == (Vec2 { x: <u32 as Num>::from_int(rem_trunc(self.value(), rhs.x.value())), y: <u32 as Num>::from_int(rem_trunc(self.value(), rhs.y.value())) }),
    {
        let r = Vec2 { x: self.modulo(rhs.x), y: self.modulo(rhs.y) };
        proof {
            r.lemma_canonical();
        }
        r
    }
}

impl vstd::std_specs::ops::RemSpecImpl<Vec2<u32>> for u32 {
    open spec fn obeys_rem_spec() -> bool {
        true
    }

    open spec fn rem_req(self, rhs: Vec2<u32>) -> bool {
        rhs.x.value() != 0 &&
        <u32 as Num>::fits(div_trunc(self.value(), rhs.x.value())) &&
        rhs.y.value() != 0 &&
        <u32 as Num>::fits(div_trunc(self.value(), rhs.y.value()))
    }

    open spec fn rem_spec(self, rhs: Vec2<u32>) -> Vec2<u32> {
        Vec2 { x: <u32 as Num>::from_int(rem_trunc(self.value(), rhs.x.value())), y: <u32 as Num>::from_int(rem_trunc(self.value(), rhs.y.value())) }
    }
}

impl core::ops::Mul<Vec2<u64>> for u64 {
    type Output = Vec2<u64>;

    fn mul(self, rhs: Vec2<u64>) -> (r: Vec2<u64>)
        ensures
            r == (Vec2 { x: <u64 as Num>::from_int(self.value() * rhs.x.value()), y: <u64 as Num>::from_int(self.value() * rhs.y.value()) }),
    {
        let r = Vec2 { x: self.times(rhs.x), y: self.times(rhs.y) };
        proof {
            r.lemma_canonical();
        }
        r
    }
}

impl vstd::std_specs::ops::MulSpecImpl<Vec2<u64>> for u64 {
    open spec fn obeys_mul_spec() -> bool {
        true
    }

    open spec fn mul_req(self, rhs: Vec2<u64>) -> bool {
        <u64 as Num>::fits(self.value() * rhs.x.value()) &&
        <u64 as Num>::fits(self.value() * rhs.y.value())
    }

    open spec fn mul_spec(self, rhs: Vec2<u64>) -> Vec2<u64> {
        Vec2 { x: <u64 as Num>::from_int(self.value() * rhs.x.value()), y: <u64 as Num>::from_int(self.value() * rhs.y.value()) }
    }
}

impl core::ops::Div<Vec2<u64>> for u64 {
    type Output = Vec2<u64>;

    fn div(self, rhs: Vec2<u64>) -> (r: Vec2<u64>)
        ensures
            r == (Vec2 { x: <u64 as Num>::from_int(div_trunc(self.value(), rhs.x.value())), y: <u64 as Num>::from_int(div_trunc(self.value(), rhs.y.value())) }),
    {
        let r = Vec2 { x: self.quot(rhs.x), y: self.quot(rhs.y) };
        proof {
            r.lemma_canonical();
        }
        r
    }
}

impl vstd::std_specs::ops::DivSpecImpl<Vec2<u64>> for u64 {
    open spec fn obeys_div_spec() -> bool {
        true
    }

    open spec fn div_req(self, rhs: Vec2<u64>) -> bool {
        rhs.x.value() != 0 &&
        <u64 as Num>::fits(div_trunc(self.value(), rhs.x.value())) &&
        rhs.y.value() != 0 &&
        <u64 as Num>::fits(div_trunc(self.value(), rhs.y.value()))
    }

    open spec fn div_spec(self, rhs: Vec2<u64>) -> Vec2<u64> {
        Vec2 { x: <u64 as Num>::from_int(div_trunc(self.value(), rhs.x.value())), y: <u64 as Num>::from_int(div_trunc(self.value(), rhs.y.value())) }
    }
}

impl core::ops::Rem<Vec2<u64>> for u64 {
    type Output = Vec2<u64>;

    fn rem(self, rhs: Vec2<u64>) -> (r: Vec2<u64>)
        ensures
            r == (Vec2 { x: <u64 as Num>::from_int(rem_trunc(self.value(), rhs.x.value())), y: <u64 as Num>::from_int(rem_trunc(self.value(), rhs.y.value())) }),
    {
        let r = Vec2 { x: self.modulo(rhs.x), y: self.modulo(rhs.y) };
        proof {
            r.lemma_canonical();
        }
        r
    }
}

impl vstd::std_specs::ops::RemSpecImpl<Vec2<u64>> for u64 {
    open spec fn obeys_rem_spec() -> bool {
        true
    }

    open spec fn rem_req(self, rhs: Vec2<u64>) -> bool {
        rhs.x.value() != 0 &&
        <u64 as Num>::fits(div_trunc(self.value(), rhs.x.value())) &&
        rhs.y.value() != 0 &&
        <u64 as Num>::fits(div_trunc(self.value(), rhs.y.value()))
    }

    open spec fn rem_spec(self, rhs: Vec2<u64>) -> Vec2<u64> {
        Vec2 { x: <u64 as Num>::from_int(rem_trunc(self.value(), rhs.x.value())), y: <u64 as Num>::from_int(rem_trunc(self.value(), rhs.y.value())) }
    }
}

impl<S: Num> VectorSpace for Vec2<S> {
    type Scalar = S;
}

impl<S: Num> InnerSpace for Vec2<S> {
    open spec fn dot_spec(self, other: Self) -> int {
        self.x.value() * other.x.value() + self.y.value() * other.y.value()
    }

    open spec fn dot_fits(self, other: Self) -> bool {
        fits2::<S>(self.x.value() * other.x.value(), self.y.value() * other.y.value())
    }

    fn dot(self, other: Self) -> (r: S) {
        self.x.times(other.x).plus(self.y.times(other.y))
    }
}

impl<S: Num> MetricSpace for Vec2<S> {
    type Metric = S;

    open spec fn distance2_spec(self, other: Self) -> int {
        (other.x.value() - self.x.value()) * (other.x.value() - self.x.value())
        + (other.y.value() - self.y.value()) * (other.y.value() - self.y.value())
    }

    open spec fn distance2_fits(self, other: Self) -> bool {
        other.fits_sub(self) && fits2::<S>((other.x.value() - self.x.value()) * (other.x.value() - self.x.value()), (other.y.value() - self.y.value()) * (other.y.value() - self.y.value()))
    }

    fn distance2(self, other: Self) -> (r: S) {
        let d = other - self;
        proof {
            S::lemma_from_int(other.x.value() - self.x.value());
            S::lemma_from_int(other.y.value() - self.y.value());
        }
        d.magnitude2()
    }
}

impl<S: Num> Vector for Vec2<S> {
    type Element = S;

    open spec fn sum_spec(self) -> int {
        self.x.value() + self.y.value()
    }

    open spec fn sum_fits(self) -> bool {
        fits2::<S>(self.x.value(), self.y.value())
    }

    open spec fn product_spec(self) -> int {
        self.x.value() * self.y.value()
    }

    open spec fn product_fits(self) -> bool {
        S::fits(self.x.value() * self.y.value())
    }

    fn length() -> (r: usize)
        ensures
            r == 2,
    {
        2
    }

    fn from_value(scalar: S) -> (r: Self)
        ensures
            r.x == scalar,
            r.y == scalar,
    {
        Vec2 { x: scalar, y: scalar }
    }

    fn sum(self) -> (r: S) {
        self.x.plus(self.y)
    }

    fn product(self) -> (r: S) {
        self.x.times(self.y)
    }
}

impl<S: Copy> Vec2<S> {
    /// The vector whose components are the array's, in order.
    pub fn from_slice(slice: &[S; 2]) -> (r: Self)
        ensures
            r.x == slice@[0],
            r.y == slice@[1],
    {
        Vec2 { x: slice[0], y: slice[1] }
    }

    /// The vector of one more dimension whose last component is `z`.
    pub fn extend(self, z: S) -> (r: Vec3<S>)
        ensures
            r.x == self.x,
            r.y == self.y,
            r.z == z,
    {
        Vec3 { x: self.x, y: self.y, z }
    }

    /// The vector of one less dimension: the last component is dropped.
    pub fn truncate(self) -> (r: Vec1<S>)
        ensures
            r.x == self.x,
    {
        Vec1 { x: self.x }
    }
}

/// A vector of 3 scalars, laid out as `x, y, z`.
#[derive(Clone, Copy, Debug, PartialEq, Eq)]
pub struct Vec3<S> {
    pub x: S,
    pub y: S,
    pub z: S,
}

impl<S> Vec3<S> {
    pub fn new(x: S, y: S, z: S) -> (r: Vec3<S>)
        ensures
            r.x == x,
            r.y == y,
            r.z == z,
    {
        Vec3 { x, y, z }
    }
}

impl<S: Num> Vec3<S> {
    /// Each component is the scalar its value stands for.
    pub proof fn lemma_canonical(self)
        ensures
            S::from_int(self.x.value()) == self.x,
            S::fits(self.x.value()),
            S::from_int(self.y.value()) == self.y,
            S::fits(self.y.value()),
            S::from_int(self.z.value()) == self.z,
            S::fits(self.z.value()),
    {
        S::lemma_value(self.x, self.x);
        S::lemma_value(self.y, self.y);
        S::lemma_value(self.z, self.z);
    }

    /// The componentwise sum.
    pub open spec fn spec_add(self, rhs: Self) -> Vec3<S> {
        Vec3 { x: S::from_int(self.x.value() + rhs.x.value()), y: S::from_int(self.y.value() + rhs.y.value()), z: S::from_int(self.z.value() + rhs.z.value()) }
    }

    /// The componentwise difference.
    pub open spec fn spec_sub(self, rhs: Self) -> Vec3<S> {
        Vec3 { x: S::from_int(self.x.value() - rhs.x.value()), y: S::from_int(self.y.value() - rhs.y.value()), z: S::from_int(self.z.value() - rhs.z.value()) }
    }

    /// Each component multiplied by `s`.
    pub open spec fn spec_scale(self, s: S) -> Vec3<S> {
        Vec3 { x: S::from_int(self.x.value() * s.value()), y: S::from_int(self.y.value() * s.value()), z: S::from_int(self.z.value() * s.value()) }
    }

    /// Each component divided by `s`, rounded toward zero.
    pub open spec fn spec_div(self, s: S) -> Vec3<S> {
        Vec3 { x: S::from_int(div_trunc(self.x.value(), s.value())), y: S::from_int(div_trunc(self.y.value(), s.value())), z: S::from_int(div_trunc(self.z.value(), s.value())) }
    }

    /// The remainder of each component divided by `s`.
    pub open spec fn spec_rem(self, s: S) -> Vec3<S> {
        Vec3 { x: S::from_int(rem_trunc(self.x.value(), s.value())), y: S::from_int(rem_trunc(self.y.value(), s.value())), z: S::from_int(rem_trunc(self.z.value(), s.value())) }
    }

    /// Each component negated.
    pub open spec fn spec_neg(self) -> Vec3<S> {
        Vec3 { x: S::from_int(-self.x.value()), y: S::from_int(-self.y.value()), z: S::from_int(-self.z.value()) }
    }

    /// Whether each componentwise sum stays in range.
    pub open spec fn fits_add(self, rhs: Self) -> bool {
        S::fits(self.x.value() + rhs.x.value()) &&
        S::fits(self.y.value() + rhs.y.value()) &&
        S::fits(self.z.value() + rhs.z.value())
    }

    /// Whether each componentwise difference stays in range.
    pub open spec fn fits_sub(self, rhs: Self) -> bool {
        S::fits(self.x.value() - rhs.x.value()) &&
        S::fits(self.y.value() - rhs.y.value()) &&
        S::fits(self.z.value() - rhs.z.value())
    }

    /// Whether each component times `s` stays in range.
    pub open spec fn fits_scale(self, s: S) -> bool {
        S::fits(self.x.value() * s.value()) &&
        S::fits(self.y.value() * s.value()) &&
        S::fits(self.z.value() * s.value())
    }

    /// Whether `s` is not zero and each quotient by it stays in range.
    pub open spec fn fits_div(self, s: S) -> bool {
        s.value() != 0 &&
        S::fits(div_trunc(self.x.value(), s.value())) &&
        S::fits(div_trunc(self.y.value(), s.value())) &&
        S::fits(div_trunc(self.z.value(), s.value()))
    }

    /// Whether each negated component stays in range.
    pub open spec fn fits_neg(self) -> bool {
        S::fits(-self.x.value()) &&
        S::fits(-self.y.value()) &&
        S::fits(-self.z.value())
    }

    /// The vector whose components are all zero, as a value.
    pub open spec fn spec_zero() -> Self {
        Vec3 { x: S::ZERO, y: S::ZERO, z: S::ZERO }
    }

    /// Adding the zero vector leaves a vector unchanged, and so does
    /// multiplying it by one.
    pub proof fn lemma_add_zero_mul_one(v: Self)
        ensures
            v.fits_add(Self::spec_zero()),
            v.spec_add(Self::spec_zero()) == v,
            v.fits_scale(S::ONE),
            v.spec_scale(S::ONE) == v,
    {
        S::lemma_value(S::ZERO, S::ONE);
        v.lemma_canonical();
    }

    /// The vector whose components are all zero.
    pub fn zero() -> (r: Self)
        ensures
            r == Self::spec_zero(),
            r.x.value() == 0,
            r.y.value() == 0,
            r.z.value() == 0,
    {
        proof {
            S::lemma_value(S::ZERO, S::ZERO);
        }
        Vec3 { x: S::ZERO, y: S::ZERO, z: S::ZERO }
    }

    /// The unit vector along `x`.
    pub fn unit_x() -> (r: Self)
        ensures
            r == (Vec3 { x: S::ONE, y: S::ZERO, z: S::ZERO }),
            r.x.value() == 1,
            r.y.value() == 0,
            r.z.value() == 0,
    {
        proof {
            S::lemma_value(S::ZERO, S::ONE);
        }
        Vec3 { x: S::ONE, y: S::ZERO, z: S::ZERO }
    }

    /// The unit vector along `y`.
    pub fn unit_y() -> (r: Self)
        ensures
            r == (Vec3 { x: S::ZERO, y: S::ONE, z: S::ZERO }),
            r.x.value() == 0,
            r.y.value() == 1,
            r.z.value() == 0,
    {
        proof {
            S::lemma_value(S::ZERO, S::ONE);
        }
        Vec3 { x: S::ZERO, y: S::ONE, z: S::ZERO }
    }

    /// The unit vector along `z`.
    pub fn unit_z() -> (r: Self)
        ensures
            r == (Vec3 { x: S::ZERO, y: S::ZERO, z: S::ONE }),
            r.x.value() == 0,
            r.y.value() == 0,
            r.z.value() == 1,
    {
        proof {
            S::lemma_value(S::ZERO, S::ONE);
        }
        Vec3 { x: S::ZERO, y: S::ZERO, z: S::ONE }
    }

    /// The smaller of each pair of components.
    pub fn min_element_wise(self, rhs: Self) -> (r: Self)
        ensures
            r.x.value() == if self.x.value() <= rhs.x.value() { self.x.value() } else { rhs.x.value() },
            r.y.value() == if self.y.value() <= rhs.y.value() { self.y.value() } else { rhs.y.value() },
            r.z.value() == if self.z.value() <= rhs.z.value() { self.z.value() } else { rhs.z.value() },
    {
        Vec3 { x: self.x.minimum(rhs.x), y: self.y.minimum(rhs.y), z: self.z.minimum(rhs.z) }
    }

    /// The larger of each pair of components.
    pub fn max_element_wise(self, rhs: Self) -> (r: Self)
        ensures
            r.x.value() == if self.x.value() >= rhs.x.value() { self.x.value() } else { rhs.x.value() },
            r.y.value() == if self.y.value() >= rhs.y.value() { self.y.value() } else { rhs.y.value() },
            r.z.value() == if self.z.value() >= rhs.z.value() { self.z.value() } else { rhs.z.value() },
    {
        Vec3 { x: self.x.maximum(rhs.x), y: self.y.maximum(rhs.y), z: self.z.maximum(rhs.z) }
    }
}

impl<S: Signed> Vec3<S> {
    /// The absolute value of each component.
    pub fn abs(&self) -> (r: Self)
        requires
            self.fits_neg(),
        ensures
            r.x.value() == if self.x.value() < 0 { -self.x.value() } else { self.x.value() },
            r.y.value() == if self.y.value() < 0 { -self.y.value() } else { self.y.value() },
            r.z.value() == if self.z.value() < 0 { -self.z.value() } else { self.z.value() },
    {
        Vec3 { x: self.x.abs(), y: self.y.abs(), z: self.z.abs() }
    }
}

impl<S: Num> core::ops::Add<Vec3<S>> for Vec3<S> {
    type Output = Vec3<S>;

    fn add(self, rhs: Vec3<S>) -> (r: Vec3<S>)
        ensures
            r == self.spec_add(rhs),
    {
        let r = Vec3 { x: self.x.plus(rhs.x), y: self.y.plus(rhs.y), z: self.z.plus(rhs.z) };
        proof {
            r.lemma_canonical();
        }
        r
    }
}

impl<S: Num> vstd::std_specs::ops::AddSpecImpl<Vec3<S>> for Vec3<S> {
    open spec fn obeys_add_spec() -> bool {
        true
    }

    open spec fn add_req(self, rhs: Vec3<S>) -> bool {
        self.fits_add(rhs)
    }

    open spec fn add_spec(self, rhs: Vec3<S>) -> Vec3<S> {
        self.spec_add(rhs)
    }
}

impl<S: Num> core::ops::Sub<Vec3<S>> for Vec3<S> {
    type Output = Vec3<S>;

    fn sub(self, rhs: Vec3<S>) -> (r: Vec3<S>)
        ensures
            r == self.spec_sub(rhs),
    {
        let r = Vec3 { x: self.x.minus(rhs.x), y: self.y.minus(rhs.y), z: self.z.minus(rhs.z) };
        proof {
            r.lemma_canonical();
        }
        r
    }
}

impl<S: Num> vstd::std_specs::ops::SubSpecImpl<Vec3<S>> for Vec3<S> {
    open spec fn obeys_sub_spec() -> bool {
        true
    }

    open spec fn sub_req(self, rhs: Vec3<S>) -> bool {
        self.fits_sub(rhs)
    }

    open spec fn sub_spec(self, rhs: Vec3<S>) -> Vec3<S> {
        self.spec_sub(rhs)
    }
}

impl<S: Num> core::ops::Mul<S> for Vec3<S> {
    type Output = Vec3<S>;

    fn mul(self, rhs: S) -> (r: Vec3<S>)
        ensures
            r == self.spec_scale(rhs),
    {
        let r = Vec3 { x: self.x.times(rhs), y: self.y.times(rhs), z: self.z.times(rhs) };
        proof {
            r.lemma_canonical();
        }
        r
    }
}

impl<S: Num> vstd::std_specs::ops::MulSpecImpl<S> for Vec3<S> {
    open spec fn obeys_mul_spec() -> bool {
        true
    }

    open spec fn mul_req(self, rhs: S) -> bool {
        self.fits_scale(rhs)
    }

    open spec fn mul_spec(self, rhs: S) -> Vec3<S> {
        self.spec_scale(rhs)
    }
}

impl<S: Num> core::ops::Div<S> for Vec3<S> {
    type Output = Vec3<S>;

    fn div(self, rhs: S) -> (r: Vec3<S>)
        ensures
            r == self.spec_div(rhs),
    {
        let r = Vec3 { x: self.x.quot(rhs), y: self.y.quot(rhs), z: self.z.quot(rhs) };
        proof {
            r.lemma_canonical();
        }
        r
    }
}

impl<S: Num> vstd::std_specs::ops::DivSpecImpl<S> for Vec3<S> {
    open spec fn obeys_div_spec() -> bool {
        true
    }

    open spec fn div_req(self, rhs: S) -> bool {
        self.fits_div(rhs)
    }

    open spec fn div_spec(self, rhs: S) -> Vec3<S> {
        self.spec_div(rhs)
    }
}

impl<S: Num> core::ops::Rem<S> for Vec3<S> {
    type Output = Vec3<S>;

    fn rem(self, rhs: S) -> (r: Vec3<S>)
        ensures
            r == self.spec_rem(rhs),
    {
        let r = Vec3 { x: self.x.modulo(rhs), y: self.y.modulo(rhs), z: self.z.modulo(rhs) };
        proof {
            r.lemma_canonical();
        }
        r
    }
}

impl<S: Num> vstd::std_specs::ops::RemSpecImpl<S> for Vec3<S> {
    open spec fn obeys_rem_spec() -> bool {
        true
    }

    open spec fn rem_req(self, rhs: S) -> bool {
        self.fits_div(rhs)
    }

    open spec fn rem_spec(self, rhs: S) -> Vec3<S> {
        self.spec_rem(rhs)
    }
}

impl<S: Signed> core::ops::Neg for Vec3<S> {
    type Output = Vec3<S>;

    fn neg(self) -> (r: Vec3<S>)
        ensures
            r == self.spec_neg(),
    {
        let r = Vec3 { x: self.x.negate(), y: self.y.negate(), z: self.z.negate() };
        proof {
            r.lemma_canonical();
        }
        r
    }
}

impl<S: Signed> vstd::std_specs::ops::NegSpecImpl for Vec3<S> {
    open spec fn obeys_neg_spec() -> bool {
        true
    }

    open spec fn neg_req(self) -> bool {
        self.fits_neg()
    }

    open spec fn neg_spec(self) -> Vec3<S> {
        self.spec_neg()
    }
}

impl core::ops::Mul<Vec3<i32>> for i32 {
    type Output = Vec3<i32>;

    fn mul(self, rhs: Vec3<i32>) -> (r: Vec3<i32>)
        ensures
            r == (Vec3 { x: <i32 as Num>::from_int(self.value() * rhs.x.value()), y: <i32 as Num>::from_int(self.value() * rhs.y.value()), z: <i32 as Num>::from_int(self.value() * rhs.z.value()) }),
    {
        let r = Vec3 { x: self.times(rhs.x), y: self.times(rhs.y), z: self.times(rhs.z) };
        proof {
            r.lemma_canonical();
        }
        r
    }
}

impl vstd::std_specs::ops::MulSpecImpl<Vec3<i32>> for i32 {
    open spec fn obeys_mul_spec() -> bool {
        true
    }

    open spec fn mul_req(self, rhs: Vec3<i32>) -> bool {
        <i32 as Num>::fits(self.value() * rhs.x.value()) &&
        <i32 as Num>::fits(self.value() * rhs.y.value()) &&
        <i32 as Num>::fits(self.value() * rhs.z.value())
    }

    open spec fn mul_spec(self, rhs: Vec3<i32>) -> Vec3<i32> {
        Vec3 { x: <i32 as Num>::from_int(self.value() * rhs.x.value()), y: <i32 as Num>::from_int(self.value() * rhs.y.value()), z: <i32 as Num>::from_int(self.value() * rhs.z.value()) }
    }
}

impl core::ops::Div<Vec3<i32>> for i32 {
    type Output = Vec3<i32>;

    fn div(self, rhs: Vec3<i32>) -> (r: Vec3<i32>)
        ensures
            r == (Vec3 { x: <i32 as Num>::from_int(div_trunc(self.value(), rhs.x.value())), y: <i32 as Num>::from_int(div_trunc(self.value(), rhs.y.value())), z: <i32 as Num>::from_int(div_trunc(self.value(), rhs.z.value())) }),
    {
        let r = Vec3 { x: self.quot(rhs.x), y: self.quot(rhs.y), z: self.quot(rhs.z) };
        proof {
            r.lemma_canonical();
        }
        r
    }
}

impl vstd::std_specs::ops::DivSpecImpl<Vec3<i32>> for i32 {
    open spec fn obeys_div_spec() -> bool {
        true
    }

    open spec fn div_req(self, rhs: Vec3<i32>) -> bool {
        rhs.x.value() != 0 &&
        <i32 as Num>::fits(div_trunc(self.value(), rhs.x.value())) &&
        rhs.y.value() != 0 &&
        <i32 as Num>::fits(div_trunc(self.value(), rhs.y.value())) &&
        rhs.z.value() != 0 &&
        <i32 as Num>::fits(div_trunc(self.value(), rhs.z.value()))
    }

    open spec fn div_spec(self, rhs: Vec3<i32>) -> Vec3<i32> {
        Vec3 { x: <i32 as Num>::from_int(div_trunc(self.value(), rhs.x.value())), y: <i32 as Num>::from_int(div_trunc(self.value(), rhs.y.value())), z: <i32 as Num>::from_int(div_trunc(self.value(), rhs.z.value())) }
    }
}

impl core::ops::Rem<Vec3<i32>> for i32 {
    type Output = Vec3<i32>;

    fn rem(self, rhs: Vec3<i32>) -> (r: Vec3<i32>)
        ensures
            r == (Vec3 { x: <i32 as Num>::from_int(rem_trunc(self.value(), rhs.x.value())), y: <i32 as Num>::from_int(rem_trunc(self.value(), rhs.y.value())), z: <i32 as Num>::from_int(rem_trunc(self.value(), rhs.z.value())) }),
    {
        let r = Vec3 { x: self.modulo(rhs.x), y: self.modulo(rhs.y), z: self.modulo(rhs.z) };
        proof {
            r.lemma_canonical();
        }
        r
    }
}

impl vstd::std_specs::ops::RemSpecImpl<Vec3<i32>> for i32 {
    open spec fn obeys_rem_spec() -> bool {
        true
    }

    open spec fn rem_req(self, rhs: Vec3<i32>) -> bool {
        rhs.x.value() != 0 &&
        <i32 as Num>::fits(div_trunc(self.value(), rhs.x.value())) &&
        rhs.y.value() != 0 &&
        <i32 as Num>::fits(div_trunc(self.value(), rhs.y.value())) &&
        rhs.z.value() != 0 &&
        <i32 as Num>::fits(div_trunc(self.value(), rhs.z.value()))
    }

    open spec fn rem_spec(self, rhs: Vec3<i32>) -> Vec3<i32> {
        Vec3 { x: <i32 as Num>::from_int(rem_trunc(self.value(), rhs.x.value())), y: <i32 as Num>::from_int(rem_trunc(self.value(), rhs.y.value())), z: <i32 as Num>::from_int(rem_trunc(self.value(), rhs.z.value())) }
    }
}

impl core::ops::Mul<Vec3<i64>> for i64 {
    type Output = Vec3<i64>;

    fn mul(self, rhs: Vec3<i64>) -> (r: Vec3<i64>)
        ensures
            r == (Vec3 { x: <i64 as Num>::from_int(self.value() * rhs.x.value()), y: <i64 as Num>::from_int(self.value() * rhs.y.value()), z: <i64 as Num>::from_int(self.value() * rhs.z.value()) }),
    {
        let r = Vec3 { x: self.times(rhs.x), y: self.times(rhs.y), z: self.times(rhs.z) };
        proof {
            r.lemma_canonical();
        }
        r
    }
}

impl vstd::std_specs::ops::MulSpecImpl<Vec3<i64>> for i64 {
    open spec fn obeys_mul_spec() -> bool {
        true
    }

    open spec fn mul_req(self, rhs: Vec3<i64>) -> bool {
        <i64 as Num>::fits(self.value() * rhs.x.value()) &&
        <i64 as Num>::fits(self.value() * rhs.y.value()) &&
        <i64 as Num>::fits(self.value() * rhs.z.value())
    }

    open spec fn mul_spec(self, rhs: Vec3<i64>) -> Vec3<i64> {
        Vec3 { x: <i64 as Num>::from_int(self.value() * rhs.x.value()), y: <i64 as Num>::from_int(self.value() * rhs.y.value()), z: <i64 as Num>::from_int(self.value() * rhs.z.value()) }
    }
}

impl core::ops::Div<Vec3<i64>> for i64 {
    type Output = Vec3<i64>;

    fn div(self, rhs: Vec3<i64>) -> (r: Vec3<i64>)
        ensures
            r == (Vec3 { x: <i64 as Num>::from_int(div_trunc(self.value(), rhs.x.value())), y: <i64 as Num>::from_int(div_trunc(self.value(), rhs.y.value())), z: <i64 as Num>::from_int(div_trunc(self.value(), rhs.z.value())) }),
    {
        let r = Vec3 { x: self.quot(rhs.x), y: self.quot(rhs.y), z: self.quot(rhs.z) };
        proof {
            r.lemma_canonical();
        }
        r
    }
}

impl vstd::std_specs::ops::DivSpecImpl<Vec3<i64>> for i64 {
    open spec fn obeys_div_spec() -> bool {
        true
    }

    open spec fn div_req(self, rhs: Vec3<i64>) -> bool {
        rhs.x.value() != 0 &&
        <i64 as Num>::fits(div_trunc(self.value(), rhs.x.value())) &&
        rhs.y.value() != 0 &&
        <i64 as Num>::fits(div_trunc(self.value(), rhs.y.value())) &&
        rhs.z.value() != 0 &&
        <i64 as Num>::fits(div_trunc(self.value(), rhs.z.value()))
    }

    open spec fn div_spec(self, rhs: Vec3<i64>) -> Vec3<i64> {
        Vec3 { x: <i64 as Num>::from_int(div_trunc(self.value(), rhs.x.value())), y: <i64 as Num>::from_int(div_trunc(self.value(), rhs.y.value())), z: <i64 as Num>::from_int(div_trunc(self.value(), rhs.z.value())) }
    }
}

impl core::ops::Rem<Vec3<i64>> for i64 {
    type Output = Vec3<i64>;

    fn rem(self, rhs: Vec3<i64>) -> (r: Vec3<i64>)
        ensures
            r == (Vec3 { x: <i64 as Num>::from_int(rem_trunc(self.value(), rhs.x.value())), y: <i64 as Num>::from_int(rem_trunc(self.value(), rhs.y.value())), z: <i64 as Num>::from_int(rem_trunc(self.value(), rhs.z.value())) }),
    {
        let r = Vec3 { x: self.modulo(rhs.x), y: self.modulo(rhs.y), z: self.modulo(rhs.z) };
        proof {
            r.lemma_canonical();
        }
        r
    }
}

impl vstd::std_specs::ops::RemSpecImpl<Vec3<i64>> for i64 {
    open spec fn obeys_rem_spec() -> bool {
        true
    }

    open spec fn rem_req(self, rhs: Vec3<i64>) -> bool {
        rhs.x.value() != 0 &&
        <i64 as Num>::fits(div_trunc(self.value(), rhs.x.value())) &&
        rhs.y.value() != 0 &&
        <i64 as Num>::fits(div_trunc(self.value(), rhs.y.value())) &&
        rhs.z.value() != 0 &&
        <i64 as Num>::fits(div_trunc(self.value(), rhs.z.value()))
    }

    open spec fn rem_spec(self, rhs: Vec3<i64>) -> Vec3<i64> {
        Vec3 { x: <i64 as Num>::from_int(rem_trunc(self.value(), rhs.x.value())), y: <i64 as Num>::from_int(rem_trunc(self.value(), rhs.y.value())), z: <i64 as Num>::from_int(rem_trunc(self.value(), rhs.z.value())) }
    }
}

impl core::ops::Mul<Vec3<u32>> for u32 {
    type Output = Vec3<u32>;

    fn mul(self, rhs: Vec3<u32>) -> (r: Vec3<u32>)
        ensures
            r == (Vec3 { x: <u32 as Num>::from_int(self.value() * rhs.x.value()), y: <u32 as Num>::from_int(self.value() * rhs.y.value()), z: <u32 as Num>::from_int(self.value() * rhs.z.value()) }),
    {
        let r = Vec3 { x: self.times(rhs.x), y: self.times(rhs.y), z: self.times(rhs.z) };
        proof {
            r.lemma_canonical();
        }
        r
    }
}

impl vstd::std_specs::ops::MulSpecImpl<Vec3<u32>> for u32 {
    open spec fn obeys_mul_spec() -> bool {
        true
    }

    open spec fn mul_req(self, rhs: Vec3<u32>) -> bool {
        <u32 as Num>::fits(self.value() * rhs.x.value()) &&
        <u32 as Num>::fits(self.value() * rhs.y.value()) &&
        <u32 as Num>::fits(self.value() * rhs.z.value())
    }

    open spec fn mul_spec(self, rhs: Vec3<u32>) -> Vec3<u32> {
        Vec3 { x: <u32 as Num>::from_int(self.value() * rhs.x.value()), y: <u32 as Num>::from_int(self.value() * rhs.y.value()), z: <u32 as Num>::from_int(self.value() * rhs.z.value()) }
    }
}

impl core::ops::Div<Vec3<u32>> for u32 {
    type Output = Vec3<u32>;

    fn div(self, rhs: Vec3<u32>) -> (r: Vec3<u32>)
        ensures
            r == (Vec3 { x: <u32 as Num>::from_int(div_trunc(self.value(), rhs.x.value())), y: <u32 as Num>::from_int(div_trunc(self.value(), rhs.y.value())), z: <u32 as Num>::from_int(div_trunc(self.value(), rhs.z.value())) }),
    {
        let r = Vec3 { x: self.quot(rhs.x), y: self.quot(rhs.y), z: self.quot(rhs.z) };
        proof {
            r.lemma_canonical();
        }
        r
    }
}

impl vstd::std_specs::ops::DivSpecImpl<Vec3<u32>> for u32 {
    open spec fn obeys_div_spec() -> bool {
        true
    }

    open spec fn div_req(self, rhs: Vec3<u32>) -> bool {
        rhs.x.value() != 0 &&
        <u32 as Num>::fits(div_trunc(self.value(), rhs.x.value())) &&
        rhs.y.value() != 0 &&
        <u32 as Num>::fits(div_trunc(self.value(), rhs.y.value())) &&
        rhs.z.value() != 0 &&
        <u32 as Num>::fits(div_trunc(self.value(), rhs.z.value()))
    }

    open spec fn div_spec(self, rhs: Vec3<u32>) -> Vec3<u32> {
        Vec3 { x: <u32 as Num>::from_int(div_trunc(self.value(), rhs.x.value())), y: <u32 as Num>::from_int(div_trunc(self.value(), rhs.y.value())), z: <u32 as Num>::from_int(div_trunc(self.value(), rhs.z.value())) }
    }
}

impl core::ops::Rem<Vec3<u32>> for u32 {
    type Output = Vec3<u32>;

    fn rem(self, rhs: Vec3<u32>) -> (r: Vec3<u32>)
        ensures
            r == (Vec3 { x: <u32 as Num>::from_int(rem_trunc(self.value(), rhs.x.value())), y: <u32 as Num>::from_int(rem_trunc(self.value(), rhs.y.value())), z: <u32 as Num>::from_int(rem_trunc(self.value(), rhs.z.value())) }),
    {
        let r = Vec3 { x: self.modulo(rhs.x), y: self.modulo(rhs.y), z: self.modulo(rhs.z) };
        proof {
            r.lemma_canonical();
        }
        r
    }
}

impl vstd::std_specs::ops::RemSpecImpl<Vec3<u32>> for u32 {
    open spec fn obeys_rem_spec() -> bool {
        true
    }

    open spec fn rem_req(self, rhs: Vec3<u32>) -> bool {
        rhs.x.value() != 0 &&
        <u32 as Num>::fits(div_trunc(self.value(), rhs.x.value())) &&
        rhs.y.value() != 0 &&
        <u32 as Num>::fits(div_trunc(self.value(), rhs.y.value())) &&
        rhs.z.value() != 0 &&
        <u32 as Num>::fits(div_trunc(self.value(), rhs.z.value()))
    }

    open spec fn rem_spec(self, rhs: Vec3<u32>) -> Vec3<u32> {
        Vec3 { x: <u32 as Num>::from_int(rem_trunc(self.value(), rhs.x.value())), y: <u32 as Num>::from_int(rem_trunc(self.value(), rhs.y.value())), z: <u32 as Num>::from_int(rem_trunc(self.value(), rhs.z.value())) }
    }
}

impl core::ops::Mul<Vec3<u64>> for u64 {
    type Output = Vec3<u64>;

    fn mul(self, rhs: Vec3<u64>) -> (r: Vec3<u64>)
        ensures
            r == (Vec3 { x: <u64 as Num>::from_int(self.value() * rhs.x.value()), y: <u64 as Num>::from_int(self.value() * rhs.y.value()), z: <u64 as Num>::from_int(self.value() * rhs.z.value()) }),
    {
        let r = Vec3 { x: self.times(rhs.x), y: self.times(rhs.y), z: self.times(rhs.z) };
        proof {
            r.lemma_canonical();
        }
        r
    }
}

impl vstd::std_specs::ops::MulSpecImpl<Vec3<u64>> for u64 {
    open spec fn obeys_mul_spec() -> bool {
        true
    }

    open spec fn mul_req(self, rhs: Vec3<u64>) -> bool {
        <u64 as Num>::fits(self.value() * rhs.x.value()) &&
        <u64 as Num>::fits(self.value() * rhs.y.value()) &&
        <u64 as Num>::fits(self.value() * rhs.z.value())
    }

    open spec fn mul_spec(self, rhs: Vec3<u64>) -> Vec3<u64> {
        Vec3 { x: <u64 as Num>::from_int(self.value() * rhs.x.value()), y: <u64 as Num>::from_int(self.value() * rhs.y.value()), z: <u64 as Num>::from_int(self.value() * rhs.z.value()) }
    }
}

impl core::ops::Div<Vec3<u64>> for u64 {
    type Output = Vec3<u64>;

    fn div(self, rhs: Vec3<u64>) -> (r: Vec3<u64>)
        ensures
            r == (Vec3 { x: <u64 as Num>::from_int(div_trunc(self.value(), rhs.x.value())), y: <u64 as Num>::from_int(div_trunc(self.value(), rhs.y.value())), z: <u64 as Num>::from_int(div_trunc(self.value(), rhs.z.value())) }),
    {
        let r = Vec3 { x: self.quot(rhs.x), y: self.quot(rhs.y), z: self.quot(rhs.z) };
        proof {
            r.lemma_canonical();
        }
        r
    }
}

impl vstd::std_specs::ops::DivSpecImpl<Vec3<u64>> for u64 {
    open spec fn obeys_div_spec() -> bool {
        true
    }

    open spec fn div_req(self, rhs: Vec3<u64>) -> bool {
        rhs.x.value() != 0 &&
        <u64 as Num>::fits(div_trunc(self.value(), rhs.x.value())) &&
        rhs.y.value() != 0 &&
        <u64 as Num>::fits(div_trunc(self.value(), rhs.y.value())) &&
        rhs.z.value() != 0 &&
        <u64 as Num>::fits(div_trunc(self.value(), rhs.z.value()))
    }

    open spec fn div_spec(self, rhs: Vec3<u64>) -> Vec3<u64> {
        Vec3 { x: <u64 as Num>::from_int(div_trunc(self.value(), rhs.x.value())), y: <u64 as Num>::from_int(div_trunc(self.value(), rhs.y.value())), z: <u64 as Num>::from_int(div_trunc(self.value(), rhs.z.value())) }
    }
}

impl core::ops::Rem<Vec3<u64>> for u64 {
    type Output = Vec3<u64>;

    fn rem(self, rhs: Vec3<u64>) -> (r: Vec3<u64>)
        ensures
            r == (Vec3 { x: <u64 as Num>::from_int(rem_trunc(self.value(), rhs.x.value())), y: <u64 as Num>::from_int(rem_trunc(self.value(), rhs.y.value())), z: <u64 as Num>::from_int(rem_trunc(self.value(), rhs.z.value())) }),
    {
        let r = Vec3 { x: self.modulo(rhs.x), y: self.modulo(rhs.y), z: self.modulo(rhs.z) };
        proof {
            r.lemma_canonical();
        }
        r
    }
}

impl vstd::std_specs::ops::RemSpecImpl<Vec3<u64>> for u64 {
    open spec fn obeys_rem_spec() -> bool {
        true
    }

    open spec fn rem_req(self, rhs: Vec3<u64>) -> bool {
        rhs.x.value() != 0 &&
        <u64 as Num>::fits(div_trunc(self.value(), rhs.x.value())) &&
        rhs.y.value() != 0 &&
        <u64 as Num>::fits(div_trunc(self.value(), rhs.y.value())) &&
        rhs.z.value() != 0 &&
        <u64 as Num>::fits(div_trunc(self.value(), rhs.z.value()))
    }

    open spec fn rem_spec(self, rhs: Vec3<u64>) -> Vec3<u64> {
        Vec3 { x: <u64 as Num>::from_int(rem_trunc(self.value(), rhs.x.value())), y: <u64 as Num>::from_int(rem_trunc(self.value(), rhs.y.value())), z: <u64 as Num>::from_int(rem_trunc(self.value(), rhs.z.value())) }
    }
}

impl<S: Num> VectorSpace for Vec3<S> {
    type Scalar = S;
}

impl<S: Num> InnerSpace for Vec3<S> {
    open spec fn dot_spec(self, other: Self) -> int {
        self.x.value() * other.x.value() + self.y.value() * other.y.value() + self.z.value() * other.z.value()
    }

    open spec fn dot_fits(self, other: Self) -> bool {
        fits3::<S>(self.x.value() * other.x.value(), self.y.value() * other.y.value(), self.z.value() * other.z.value())
    }

    fn dot(self, other: Self) -> (r: S) {
        self.x.times(other.x).plus(self.y.times(other.y)).plus(self.z.times(other.z))
    }
}

impl<S: Num> MetricSpace for Vec3<S> {
    type Metric = S;

    open spec fn distance2_spec(self, other: Self) -> int {
        (other.x.value() - self.x.value()) * (other.x.value() - self.x.value())
        + (other.y.value() - self.y.value()) * (other.y.value() - self.y.value())
        + (other.z.value() - self.z.value()) * (other.z.value() - self.z.value())
    }

    open spec fn distance2_fits(self, other: Self) -> bool {
        other.fits_sub(self) && fits3::<S>((other.x.value() - self.x.value()) * (other.x.value() - self.x.value()), (other.y.value() - self.y.value()) * (other.y.value() - self.y.value()), (other.z.value() - self.z.value()) * (other.z.value() - self.z.value()))
    }

    fn distance2(self, other: Self) -> (r: S) {
        let d = other - self;
        proof {
            S::lemma_from_int(other.x.value() - self.x.value());
            S::lemma_from_int(other.y.value() - self.y.value());
            S::lemma_from_int(other.z.value() - self.z.value());
        }
        d.magnitude2()
    }
}

impl<S: Num> Vector for Vec3<S> {
    type Element = S;

    open spec fn sum_spec(self) -> int {
        self.x.value() + self.y.value() + self.z.value()
    }

    open spec fn sum_fits(self) -> bool {
        fits3::<S>(self.x.value(), self.y.value(), self.z.value())
    }

    open spec fn product_spec(self) -> int {
        self.x.value() * self.y.value() * self.z.value()
    }

    open spec fn product_fits(self) -> bool {
        S::fits(self.x.value() * self.y.value()) && S::fits(self.x.value() * self.y.value() * self.z.value())
    }

    fn length() -> (r: usize)
        ensures
            r == 3,
    {
        3
    }

    fn from_value(scalar: S) -> (r: Self)
        ensures
            r.x == scalar,
            r.y == scalar,
            r.z == scalar,
    {
        Vec3 { x: scalar, y: scalar, z: scalar }
    }

    fn sum(self) -> (r: S) {
        self.x.plus(self.y).plus(self.z)
    }

    fn product(self) -> (r: S) {
        self.x.times(self.y).times(self.z)
    }
}

impl<S: Copy> Vec3<S> {
    /// The vector whose components are the array's, in order.
    pub fn from_slice(slice: &[S; 3]) -> (r: Self)
        ensures
            r.x == slice@[0],
            r.y == slice@[1],
            r.z == slice@[2],
    {
        Vec3 { x: slice[0], y: slice[1], z: slice[2] }
    }

    /// The vector of one more dimension whose last component is `w`.
    pub fn extend(self, w: S) -> (r: Vec4<S>)
        ensures
            r.x == self.x,
            r.y == self.y,
            r.z == self.z,
            r.w == w,
    {
        Vec4 { x: self.x, y: self.y, z: self.z, w }
    }

    /// The vector of one less dimension: the last component is dropped.
    pub fn truncate(self) -> (r: Vec2<S>)
        ensures
            r.x == self.x,
            r.y == self.y,
    {
        Vec2 { x: self.x, y: self.y }
    }
}

/// A vector of 4 scalars, laid out as `x, y, z, w`.
#[derive(Clone, Copy, Debug, PartialEq, Eq)]
pub struct Vec4<S> {
    pub x: S,
    pub y: S,
    pub z: S,
    pub w: S,
}

impl<S> Vec4<S> {
    pub fn new(x: S, y: S, z: S, w: S) -> (r: Vec4<S>)
        ensures
            r.x == x,
            r.y == y,
            r.z == z,
            r.w == w,
    {
        Vec4 { x, y, z, w }
    }
}

impl<S: Num> Vec4<S> {
    /// Each component is the scalar its value stands for.
    pub proof fn lemma_canonical(self)
        ensures
            S::from_int(self.x.value()) == self.x,
            S::fits(self.x.value()),
            S::from_int(self.y.value()) == self.y,
            S::fits(self.y.value()),
            S::from_int(self.z.value()) == self.z,
            S::fits(self.z.value()),
            S::from_int(self.w.value()) == self.w,
            S::fits(self.w.value()),
    {
        S::lemma_value(self.x, self.x);
        S::lemma_value(self.y, self.y);
        S::lemma_value(self.z, self.z);
        S::lemma_value(self.w, self.w);
    }

    /// The componentwise sum.
    pub open spec fn spec_add(self, rhs: Self) -> Vec4<S> {
        Vec4 { x: S::from_int(self.x.value() + rhs.x.value()), y: S::from_int(self.y.value() + rhs.y.value()), z: S::from_int(self.z.value() + rhs.z.value()), w: S::from_int(self.w.value() + rhs.w.value()) }
    }

    /// The componentwise difference.
    pub open spec fn spec_sub(self, rhs: Self) -> Vec4<S> {
        Vec4 { x: S::from_int(self.x.value() - rhs.x.value()), y: S::from_int(self.y.value() - rhs.y.value()), z: S::from_int(self.z.value() - rhs.z.value()), w: S::from_int(self.w.value() - rhs.w.value()) }
    }

    /// Each component multiplied by `s`.
    pub open spec fn spec_scale(self, s: S) -> Vec4<S> {
        Vec4 { x: S::from_int(self.x.value() * s.value()), y: S::from_int(self.y.value() * s.value()), z: S::from_int(self.z.value() * s.value()), w: S::from_int(self.w.value() * s.value()) }
    }

    /// Each component divided by `s`, rounded toward zero.
    pub open spec fn spec_div(self, s: S) -> Vec4<S> {
        Vec4 { x: S::from_int(div_trunc(self.x.value(), s.value())), y: S::from_int(div_trunc(self.y.value(), s.value())), z: S::from_int(div_trunc(self.z.value(), s.value())), w: S::from_int(div_trunc(self.w.value(), s.value())) }
    }

    /// The remainder of each component divided by `s`.
    pub open spec fn spec_rem(self, s: S) -> Vec4<S> {
        Vec4 { x: S::from_int(rem_trunc(self.x.value(), s.value())), y: S::from_int(rem_trunc(self.y.value(), s.value())), z: S::from_int(rem_trunc(self.z.value(), s.value())), w: S::from_int(rem_trunc(self.w.value(), s.value())) }
    }

    /// Each component negated.
    pub open spec fn spec_neg(self) -> Vec4<S> {
        Vec4 { x: S::from_int(-self.x.value()), y: S::from_int(-self.y.value()), z: S::from_int(-self.z.value()), w: S::from_int(-self.w.value()) }
    }

    /// Whether each componentwise sum stays in range.
    pub open spec fn fits_add(self, rhs: Self) -> bool {
        S::fits(self.x.value() + rhs.x.value()) &&
        S::fits(self.y.value() + rhs.y.value()) &&
        S::fits(self.z.value() + rhs.z.value()) &&
        S::fits(self.w.value() + rhs.w.value())
    }

    /// Whether each componentwise difference stays in range.
    pub open spec fn fits_sub(self, rhs: Self) -> bool {
        S::fits(self.x.value() - rhs.x.value()) &&
        S::fits(self.y.value() - rhs.y.value()) &&
        S::fits(self.z.value() - rhs.z.value()) &&
        S::fits(self.w.value() - rhs.w.value())
    }

    /// Whether each component times `s` stays in range.
    pub open spec fn fits_scale(self, s: S) -> bool {
        S::fits(self.x.value() * s.value()) &&
        S::fits(self.y.value() * s.value()) &&
        S::fits(self.z.value() * s.value()) &&
        S::fits(self.w.value() * s.value())
    }

    /// Whether `s` is not zero and each quotient by it stays in range.
    pub open spec fn fits_div(self, s: S) -> bool {
        s.value() != 0 &&
        S::fits(div_trunc(self.x.value(), s.value())) &&
        S::fits(div_trunc(self.y.value(), s.value())) &&
        S::fits(div_trunc(self.z.value(), s.value())) &&
        S::fits(div_trunc(self.w.value(), s.value()))
    }

    /// Whether each negated component stays in range.
    pub open spec fn fits_neg(self) -> bool {
        S::fits(-self.x.value()) &&
        S::fits(-self.y.value()) &&
        S::fits(-self.z.value()) &&
        S::fits(-self.w.value())
    }

    /// The vector whose components are all zero, as a value.
    pub open spec fn spec_zero() -> Self {
        Vec4 { x: S::ZERO, y: S::ZERO, z: S::ZERO, w: S::ZERO }
    }

    /// Adding the zero vector leaves a vector unchanged, and so does
    /// multiplying it by one.
    pub proof fn lemma_add_zero_mul_one(v: Self)
        ensures
            v.fits_add(Self::spec_zero()),
            v.spec_add(Self::spec_zero()) == v,
            v.fits_scale(S::ONE),
            v.spec_scale(S::ONE) == v,
    {
        S::lemma_value(S::ZERO, S::ONE);
        v.lemma_canonical();
    }

    /// The vector whose components are all zero.
    pub fn zero() -> (r: Self)
        ensures
            r == Self::spec_zero(),
            r.x.value() == 0,
            r.y.value() == 0,
            r.z.value() == 0,
            r.w.value() == 0,
    {
        proof {
            S::lemma_value(S::ZERO, S::ZERO);
        }
        Vec4 { x: S::ZERO, y: S::ZERO, z: S::ZERO, w: S::ZERO }
    }

    /// The unit vector along `x`.
    pub fn unit_x() -> (r: Self)
        ensures
            r == (Vec4 { x: S::ONE, y: S::ZERO, z: S::ZERO, w: S::ZERO }),
            r.x.value() == 1,
            r.y.value() == 0,
            r.z.value() == 0,
            r.w.value() == 0,
    {
        proof {
            S::lemma_value(S::ZERO, S::ONE);
        }
        Vec4 { x: S::ONE, y: S::ZERO, z: S::ZERO, w: S::ZERO }
    }

    /// The unit vector along `y`.
    pub fn unit_y() -> (r: Self)
        ensures
            r == (Vec4 { x: S::ZERO, y: S::ONE, z: S::ZERO, w: S::ZERO }),
            r.x.value() == 0,
            r.y.value() == 1,
            r.z.value() == 0,
            r.w.value() == 0,
    {
        proof {
            S::lemma_value(S::ZERO, S::ONE);
        }
        Vec4 { x: S::ZERO, y: S::ONE, z: S::ZERO, w: S::ZERO }
    }

    /// The unit vector along `z`.
    pub fn unit_z() -> (r: Self)
        ensures
            r == (Vec4 { x: S::ZERO, y: S::ZERO, z: S::ONE, w: S::ZERO }),
            r.x.value() == 0,
            r.y.value() == 0,
            r.z.value() == 1,
            r.w.value() == 0,
    {
        proof {
            S::lemma_value(S::ZERO, S::ONE);
        }
        Vec4 { x: S::ZERO, y: S::ZERO, z: S::ONE, w: S::ZERO }
    }

    /// The unit vector along `w`.
    pub fn unit_w() -> (r: Self)
        ensures
            r == (Vec4 { x: S::ZERO, y: S::ZERO, z: S::ZERO, w: S::ONE }),
            r.x.value() == 0,
            r.y.value() == 0,
            r.z.value() == 0,
            r.w.value() == 1,
    {
        proof {
            S::lemma_value(S::ZERO, S::ONE);
        }
        Vec4 { x: S::ZERO, y: S::ZERO, z: S::ZERO, w: S::ONE }
    }

    /// The smaller of each pair of components.
    pub fn min_element_wise(self, rhs: Self) -> (r: Self)
        ensures
            r.x.value() == if self.x.value() <= rhs.x.value() { self.x.value() } else { rhs.x.value() },
            r.y.value() == if self.y.value() <= rhs.y.value() { self.y.value() } else { rhs.y.value() },
            r.z.value() == if self.z.value() <= rhs.z.value() { self.z.value() } else { rhs.z.value() },
            r.w.value() == if self.w.value() <= rhs.w.value() { self.w.value() } else { rhs.w.value() },
    {
        Vec4 { x: self.x.minimum(rhs.x), y: self.y.minimum(rhs.y), z: self.z.minimum(rhs.z), w: self.w.minimum(rhs.w) }
    }

    /// The larger of each pair of components.
    pub fn max_element_wise(self, rhs: Self) -> (r: Self)
        ensures
            r.x.value() == if self.x.value() >= rhs.x.value() { self.x.value() } else { rhs.x.value() },
            r.y.value() == if self.y.value() >= rhs.y.value() { self.y.value() } else { rhs.y.value() },
            r.z.value() == if self.z.value() >= rhs.z.value() { self.z.value() } else { rhs.z.value() },
            r.w.value() == if self.w.value() >= rhs.w.value() { self.w.value() } else { rhs.w.value() },
    {
        Vec4 { x: self.x.maximum(rhs.x), y: self.y.maximum(rhs.y), z: self.z.maximum(rhs.z), w: self.w.maximum(rhs.w) }
    }
}

impl<S: Signed> Vec4<S> {
    /// The absolute value of each component.
    pub fn abs(&self) -> (r: Self)
        requires
            self.fits_neg(),
        ensures
            r.x.value() == if self.x.value() < 0 { -self.x.value() } else { self.x.value() },
            r.y.value() == if self.y.value() < 0 { -self.y.value() } else { self.y.value() },
            r.z.value() == if self.z.value() < 0 { -self.z.value() } else { self.z.value() },
            r.w.value() == if self.w.value() < 0 { -self.w.value() } else { self.w.value() },
    {
        Vec4 { x: self.x.abs(), y: self.y.abs(), z: self.z.abs(), w: self.w.abs() }
    }
}

impl<S: Num> core::ops::Add<Vec4<S>> for Vec4<S> {
    type Output = Vec4<S>;

    fn add(self, rhs: Vec4<S>) -> (r: Vec4<S>)
        ensures
            r == self.spec_add(rhs),
    {
        let r = Vec4 { x: self.x.plus(rhs.x), y: self.y.plus(rhs.y), z: self.z.plus(rhs.z), w: self.w.plus(rhs.w) };
        proof {
            r.lemma_canonical();
        }
        r
    }
}

impl<S: Num> vstd::std_specs::ops::AddSpecImpl<Vec4<S>> for Vec4<S> {
    open spec fn obeys_add_spec() -> bool {
        true
    }

    open spec fn add_req(self, rhs: Vec4<S>) -> bool {
        self.fits_add(rhs)
    }

    open spec fn add_spec(self, rhs: Vec4<S>) -> Vec4<S> {
        self.spec_add(rhs)
    }
}

impl<S: Num> core::ops::Sub<Vec4<S>> for Vec4<S> {
    type Output = Vec4<S>;

    fn sub(self, rhs: Vec4<S>) -> (r: Vec4<S>)
        ensures
            r == self.spec_sub(rhs),
    {
        let r = Vec4 { x: self.x.minus(rhs.x), y: self.y.minus(rhs.y), z: self.z.minus(rhs.z), w: self.w.minus(rhs.w) };
        proof {
            r.lemma_canonical();
        }
        r
    }
}

impl<S: Num> vstd::std_specs::ops::SubSpecImpl<Vec4<S>> for Vec4<S> {
    open spec fn obeys_sub_spec() -> bool {
        true
    }

    open spec fn sub_req(self, rhs: Vec4<S>) -> bool {
        self.fits_sub(rhs)
    }

    open spec fn sub_spec(self, rhs: Vec4<S>) -> Vec4<S> {
        self.spec_sub(rhs)
    }
}

impl<S: Num> core::ops::Mul<S> for Vec4<S> {
    type Output = Vec4<S>;

    fn mul(self, rhs: S) -> (r: Vec4<S>)
        ensures
            r == self.spec_scale(rhs),
    {
        let r = Vec4 { x: self.x.times(rhs), y: self.y.times(rhs), z: self.z.times(rhs), w: self.w.times(rhs) };
        proof {
            r.lemma_canonical();
        }
        r
    }
}

impl<S: Num> vstd::std_specs::ops::MulSpecImpl<S> for Vec4<S> {
    open spec fn obeys_mul_spec() -> bool {
        true
    }

    open spec fn mul_req(self, rhs: S) -> bool {
        self.fits_scale(rhs)
    }

    open spec fn mul_spec(self, rhs: S) -> Vec4<S> {
        self.spec_scale(rhs)
    }
}

impl<S: Num> core::ops::Div<S> for Vec4<S> {
    type Output = Vec4<S>;

    fn div(self, rhs: S) -> (r: Vec4<S>)
        ensures
            r == self.spec_div(rhs),
    {
        let r = Vec4 { x: self.x.quot(rhs), y: self.y.quot(rhs), z: self.z.quot(rhs), w: self.w.quot(rhs) };
        proof {
            r.lemma_canonical();
        }
        r
    }
}

impl<S: Num> vstd::std_specs::ops::DivSpecImpl<S> for Vec4<S> {
    open spec fn obeys_div_spec() -> bool {
        true
    }

    open spec fn div_req(self, rhs: S) -> bool {
        self.fits_div(rhs)
    }

    open spec fn div_spec(self, rhs: S) -> Vec4<S> {
        self.spec_div(rhs)
    }
}

impl<S: Num> core::ops::Rem<S> for Vec4<S> {
    type Output = Vec4<S>;

    fn rem(self, rhs: S) -> (r: Vec4<S>)
        ensures
            r == self.spec_rem(rhs),
    {
        let r = Vec4 { x: self.x.modulo(rhs), y: self.y.modulo(rhs), z: self.z.modulo(rhs), w: self.w.modulo(rhs) };
        proof {
            r.lemma_canonical();
        }
        r
    }
}

impl<S: Num> vstd::std_specs::ops::RemSpecImpl<S> for Vec4<S> {
    open spec fn obeys_rem_spec() -> bool {
        true
    }

    open spec fn rem_req(self, rhs: S) -> bool {
        self.fits_div(rhs)
    }

    open spec fn rem_spec(self, rhs: S) -> Vec4<S> {
        self.spec_rem(rhs)
    }
}

impl<S: Signed> core::ops::Neg for Vec4<S> {
    type Output = Vec4<S>;

    fn neg(self) -> (r: Vec4<S>)
        ensures
            r == self.spec_neg(),
    {
        let r = Vec4 { x: self.x.negate(), y: self.y.negate(), z: self.z.negate(), w: self.w.negate() };
        proof {
            r.lemma_canonical();
        }
        r
    }
}

impl<S: Signed> vstd::std_specs::ops::NegSpecImpl for Vec4<S> {
    open spec fn obeys_neg_spec() -> bool {
        true
    }

    open spec fn neg_req(self) -> bool {
        self.fits_neg()
    }

    open spec fn neg_spec(self) -> Vec4<S> {
        self.spec_neg()
    }
}

impl core::ops::Mul<Vec4<i32>> for i32 {
    type Output = Vec4<i32>;

    fn mul(self, rhs: Vec4<i32>) -> (r: Vec4<i32>)
        ensures
            r == (Vec4 { x: <i32 as Num>::from_int(self.value() * rhs.x.value()), y: <i32 as Num>::from_int(self.value() * rhs.y.value()), z: <i32 as Num>::from_int(self.value() * rhs.z.value()), w: <i32 as Num>::from_int(self.value() * rhs.w.value()) }),
    {
        let r = Vec4 { x: self.times(rhs.x), y: self.times(rhs.y), z: self.times(rhs.z), w: self.times(rhs.w) };
        proof {
            r.lemma_canonical();
        }
        r
    }
}

impl vstd::std_specs::ops::MulSpecImpl<Vec4<i32>> for i32 {
    open spec fn obeys_mul_spec() -> bool {
        true
    }

    open spec fn mul_req(self, rhs: Vec4<i32>) -> bool {
        <i32 as Num>::fits(self.value() * rhs.x.value()) &&
        <i32 as Num>::fits(self.value() * rhs.y.value()) &&
        <i32 as Num>::fits(self.value() * rhs.z.value()) &&
        <i32 as Num>::fits(self.value() * rhs.w.value())
    }

    open spec fn mul_spec(self, rhs: Vec4<i32>) -> Vec4<i32> {
        Vec4 { x: <i32 as Num>::from_int(self.value() * rhs.x.value()), y: <i32 as Num>::from_int(self.value() * rhs.y.value()), z: <i32 as Num>::from_int(self.value() * rhs.z.value()), w: <i32 as Num>::from_int(self.value() * rhs.w.value()) }
    }
}

impl core::ops::Div<Vec4<i32>> for i32 {
    type Output = Vec4<i32>;

    fn div(self, rhs: Vec4<i32>) -> (r: Vec4<i32>)
        ensures
            r == (Vec4 { x: <i32 as Num>::from_int(div_trunc(self.value(), rhs.x.value())), y: <i32 as Num>::from_int(div_trunc(self.value(), rhs.y.value())), z: <i32 as Num>::from_int(div_trunc(self.value(), rhs.z.value())), w: <i32 as Num>::from_int(div_trunc(self.value(), rhs.w.value())) }),
    {
        let r = Vec4 { x: self.quot(rhs.x), y: self.quot(rhs.y), z: self.quot(rhs.z), w: self.quot(rhs.w) };
        proof {
            r.lemma_canonical();
        }
        r
    }
}

impl vstd::std_specs::ops::DivSpecImpl<Vec4<i32>> for i32 {
    open spec fn obeys_div_spec() -> bool {
        true
    }

    open spec fn div_req(self, rhs: Vec4<i32>) -> bool {
        rhs.x.value() != 0 &&
        <i32 as Num>::fits(div_trunc(self.value(), rhs.x.value())) &&
        rhs.y.value() != 0 &&
        <i32 as Num>::fits(div_trunc(self.value(), rhs.y.value())) &&
        rhs.z.value() != 0 &&
        <i32 as Num>::fits(div_trunc(self.value(), rhs.z.value())) &&
        rhs.w.value() != 0 &&
        <i32 as Num>::fits(div_trunc(self.value(), rhs.w.value()))
    }

    open spec fn div_spec(self, rhs: Vec4<i32>) -> Vec4<i32> {
        Vec4 { x: <i32 as Num>::from_int(div_trunc(self.value(), rhs.x.value())), y: <i32 as Num>::from_int(div_trunc(self.value(), rhs.y.value())), z: <i32 as Num>::from_int(div_trunc(self.value(), rhs.z.value())), w: <i32 as Num>::from_int(div_trunc(self.value(), rhs.w.value())) }
    }
}

impl core::ops::Rem<Vec4<i32>> for i32 {
    type Output = Vec4<i32>;

    fn rem(self, rhs: Vec4<i32>) -> (r: Vec4<i32>)
        ensures
            r == (Vec4 { x: <i32 as Num>::from_int(rem_trunc(self.value(), rhs.x.value())), y: <i32 as Num>::from_int(rem_trunc(self.value(), rhs.y.value())), z: <i32 as Num>::from_int(rem_trunc(self.value(), rhs.z.value())), w: <i32 as Num>::from_int(rem_trunc(self.value(), rhs.w.value())) }),
    {
        let r = Vec4 { x: self.modulo(rhs.x), y: self.modulo(rhs.y), z: self.modulo(rhs.z), w: self.modulo(rhs.w) };
        proof {
            r.lemma_canonical();
        }
        r
    }
}

impl vstd::std_specs::ops::RemSpecImpl<Vec4<i32>> for i32 {
    open spec fn obeys_rem_spec() -> bool {
        true
    }

    open spec fn rem_req(self, rhs: Vec4<i32>) -> bool {
        rhs.x.value() != 0 &&
        <i32 as Num>::fits(div_trunc(self.value(), rhs.x.value())) &&
        rhs.y.value() != 0 &&
        <i32 as Num>::fits(div_trunc(self.value(), rhs.y.value())) &&
        rhs.z.value() != 0 &&
        <i32 as Num>::fits(div_trunc(self.value(), rhs.z.value())) &&
        rhs.w.value() != 0 &&
        <i32 as Num>::fits(div_trunc(self.value(), rhs.w.value()))
    }

    open spec fn rem_spec(self, rhs: Vec4<i32>) -> Vec4<i32> {
        Vec4 { x: <i32 as Num>::from_int(rem_trunc(self.value(), rhs.x.value())), y: <i32 as Num>::from_int(rem_trunc(self.value(), rhs.y.value())), z: <i32 as Num>::from_int(rem_trunc(self.value(), rhs.z.value())), w: <i32 as Num>::from_int(rem_trunc(self.value(), rhs.w.value())) }
    }
}

impl core::ops::Mul<Vec4<i64>> for i64 {
    type Output = Vec4<i64>;

    fn mul(self, rhs: Vec4<i64>) -> (r: Vec4<i64>)
        ensures
            r == (Vec4 { x: <i64 as Num>::from_int(self.value() * rhs.x.value()), y: <i64 as Num>::from_int(self.value() * rhs.y.value()), z: <i64 as Num>::from_int(self.value() * rhs.z.value()), w: <i64 as Num>::from_int(self.value() * rhs.w.value()) }),
    {
        let r = Vec4 { x: self.times(rhs.x), y: self.times(rhs.y), z: self.times(rhs.z), w: self.times(rhs.w) };
        proof {
            r.lemma_canonical();
        }
        r
    }
}

impl vstd::std_specs::ops::MulSpecImpl<Vec4<i64>> for i64 {
    open spec fn obeys_mul_spec() -> bool {
        true
    }

    open spec fn mul_req(self, rhs: Vec4<i64>) -> bool {
        <i64 as Num>::fits(self.value() * rhs.x.value()) &&
        <i64 as Num>::fits(self.value() * rhs.y.value()) &&
        <i64 as Num>::fits(self.value() * rhs.z.value()) &&
        <i64 as Num>::fits(self.value() * rhs.w.value())
    }

    open spec fn mul_spec(self, rhs: Vec4<i64>) -> Vec4<i64> {
        Vec4 { x: <i64 as Num>::from_int(self.value() * rhs.x.value()), y: <i64 as Num>::from_int(self.value() * rhs.y.value()), z: <i64 as Num>::from_int(self.value() * rhs.z.value()), w: <i64 as Num>::from_int(self.value() * rhs.w.value()) }
    }
}

impl core::ops::Div<Vec4<i64>> for i64 {
    type Output = Vec4<i64>;

    fn div(self, rhs: Vec4<i64>) -> (r: Vec4<i64>)
        ensures
            r == (Vec4 { x: <i64 as Num>::from_int(div_trunc(self.value(), rhs.x.value())), y: <i64 as Num>::from_int(div_trunc(self.value(), rhs.y.value())), z: <i64 as Num>::from_int(div_trunc(self.value(), rhs.z.value())), w: <i64 as Num>::from_int(div_trunc(self.value(), rhs.w.value())) }),
    {
        let r = Vec4 { x: self.quot(rhs.x), y: self.quot(rhs.y), z: self.quot(rhs.z), w: self.quot(rhs.w) };
        proof {
            r.lemma_canonical();
        }
        r
    }
}

impl vstd::std_specs::ops::DivSpecImpl<Vec4<i64>> for i64 {
    open spec fn obeys_div_spec() -> bool {
        true
    }

    open spec fn div_req(self, rhs: Vec4<i64>) -> bool {
        rhs.x.value() != 0 &&
        <i64 as Num>::fits(div_trunc(self.value(), rhs.x.value())) &&
        rhs.y.value() != 0 &&
        <i64 as Num>::fits(div_trunc(self.value(), rhs.y.value())) &&
        rhs.z.value() != 0 &&
        <i64 as Num>::fits(div_trunc(self.value(), rhs.z.value())) &&
        rhs.w.value() != 0 &&
        <i64 as Num>::fits(div_trunc(self.value(), rhs.w.value()))
    }

    open spec fn div_spec(self, rhs: Vec4<i64>) -> Vec4<i64> {
        Vec4 { x: <i64 as Num>::from_int(div_trunc(self.value(), rhs.x.value())), y: <i64 as Num>::from_int(div_trunc(self.value(), rhs.y.value())), z: <i64 as Num>::from_int(div_trunc(self.value(), rhs.z.value())), w: <i64 as Num>::from_int(div_trunc(self.value(), rhs.w.value())) }
    }
}

impl core::ops::Rem<Vec4<i64>> for i64 {
    type Output = Vec4<i64>;

    fn rem(self, rhs: Vec4<i64>) -> (r: Vec4<i64>)
        ensures
            r == (Vec4 { x: <i64 as Num>::from_int(rem_trunc(self.value(), rhs.x.value())), y: <i64 as Num>::from_int(rem_trunc(self.value(), rhs.y.value())), z: <i64 as Num>::from_int(rem_trunc(self.value(), rhs.z.value())), w: <i64 as Num>::from_int(rem_trunc(self.value(), rhs.w.value())) }),
    {
        let r = Vec4 { x: self.modulo(rhs.x), y: self.modulo(rhs.y), z: self.modulo(rhs.z), w: self.modulo(rhs.w) };
        proof {
            r.lemma_canonical();
        }
        r
    }
}

impl vstd::std_specs::ops::RemSpecImpl<Vec4<i64>> for i64 {
    open spec fn obeys_rem_spec() -> bool {
        true
    }

    open spec fn rem_req(self, rhs: Vec4<i64>) -> bool {
        rhs.x.value() != 0 &&
        <i64 as Num>::fits(div_trunc(self.value(), rhs.x.value())) &&
        rhs.y.value() != 0 &&
        <i64 as Num>::fits(div_trunc(self.value(), rhs.y.value())) &&
        rhs.z.value() != 0 &&
        <i64 as Num>::fits(div_trunc(self.value(), rhs.z.value())) &&
        rhs.w.value() != 0 &&
        <i64 as Num>::fits(div_trunc(self.value(), rhs.w.value()))
    }

    open spec fn rem_spec(self, rhs: Vec4<i64>) -> Vec4<i64> {
        Vec4 { x: <i64 as Num>::from_int(rem_trunc(self.value(), rhs.x.value())), y: <i64 as Num>::from_int(rem_trunc(self.value(), rhs.y.value())), z: <i64 as Num>::from_int(rem_trunc(self.value(), rhs.z.value())), w: <i64 as Num>::from_int(rem_trunc(self.value(), rhs.w.value())) }
    }
}

impl core::ops::Mul<Vec4<u32>> for u32 {
    type Output = Vec4<u32>;

    fn mul(self, rhs: Vec4<u32>) -> (r: Vec4<u32>)
        ensures
            r == (Vec4 { x: <u32 as Num>::from_int(self.value() * rhs.x.value()), y: <u32 as Num>::from_int(self.value() * rhs.y.value()), z: <u32 as Num>::from_int(self.value() * rhs.z.value()), w: <u32 as Num>::from_int(self.value() * rhs.w.value()) }),
    {
        let r = Vec4 { x: self.times(rhs.x), y: self.times(rhs.y), z: self.times(rhs.z), w: self.times(rhs.w) };
        proof {
            r.lemma_canonical();
        }
        r
    }
}

impl vstd::std_specs::ops::MulSpecImpl<Vec4<u32>> for u32 {
    open spec fn obeys_mul_spec() -> bool {
        true
    }

    open spec fn mul_req(self, rhs: Vec4<u32>) -> bool {
        <u32 as Num>::fits(self.value() * rhs.x.value()) &&
        <u32 as Num>::fits(self.value() * rhs.y.value()) &&
        <u32 as Num>::fits(self.value() * rhs.z.value()) &&
        <u32 as Num>::fits(self.value() * rhs.w.value())
    }

    open spec fn mul_spec(self, rhs: Vec4<u32>) -> Vec4<u32> {
        Vec4 { x: <u32 as Num>::from_int(self.value() * rhs.x.value()), y: <u32 as Num>::from_int(self.value() * rhs.y.value()), z: <u32 as Num>::from_int(self.value() * rhs.z.value()), w: <u32 as Num>::from_int(self.value() * rhs.w.value()) }
    }
}

impl core::ops::Div<Vec4<u32>> for u32 {
    type Output = Vec4<u32>;

    fn div(self, rhs: Vec4<u32>) -> (r: Vec4<u32>)
        ensures
            r == (Vec4 { x: <u32 as Num>::from_int(div_trunc(self.value(), rhs.x.value())), y: <u32 as Num>::from_int(div_trunc(self.value(), rhs.y.value())), z: <u32 as Num>::from_int(div_trunc(self.value(), rhs.z.value())), w: <u32 as Num>::from_int(div_trunc(self.value(), rhs.w.value())) }),
    {
        let r = Vec4 { x: self.quot(rhs.x), y: self.quot(rhs.y), z: self.quot(rhs.z), w: self.quot(rhs.w) };
        proof {
            r.lemma_canonical();
        }
        r
    }
}

impl vstd::std_specs::ops::DivSpecImpl<Vec4<u32>> for u32 {
    open spec fn obeys_div_spec() -> bool {
        true
    }

    open spec fn div_req(self, rhs: Vec4<u32>) -> bool {
        rhs.x.value() != 0 &&
        <u32 as Num>::fits(div_trunc(self.value(), rhs.x.value())) &&
        rhs.y.value() != 0 &&
        <u32 as Num>::fits(div_trunc(self.value(), rhs.y.value())) &&
        rhs.z.value() != 0 &&
        <u32 as Num>::fits(div_trunc(self.value(), rhs.z.value())) &&
        rhs.w.value() != 0 &&
        <u32 as Num>::fits(div_trunc(self.value(), rhs.w.value()))
    }

    open spec fn div_spec(self, rhs: Vec4<u32>) -> Vec4<u32> {
        Vec4 { x: <u32 as Num>::from_int(div_trunc(self.value(), rhs.x.value())), y: <u32 as Num>::from_int(div_trunc(self.value(), rhs.y.value())), z: <u32 as Num>::from_int(div_trunc(self.value(), rhs.z.value())), w: <u32 as Num>::from_int(div_trunc(self.value(), rhs.w.value())) }
    }
}

impl core::ops::Rem<Vec4<u32>> for u32 {
    type Output = Vec4<u32>;

    fn rem(self, rhs: Vec4<u32>) -> (r: Vec4<u32>)
        ensures
            r == (Vec4 { x: <u32 as Num>::from_int(rem_trunc(self.value(), rhs.x.value())), y: <u32 as Num>::from_int(rem_trunc(self.value(), rhs.y.value())), z: <u32 as Num>::from_int(rem_trunc(self.value(), rhs.z.value())), w: <u32 as Num>::from_int(rem_trunc(self.value(), rhs.w.value())) }),
    {
        let r = Vec4 { x: self.modulo(rhs.x), y: self.modulo(rhs.y), z: self.modulo(rhs.z), w: self.modulo(rhs.w) };
        proof {
            r.lemma_canonical();
        }
        r
    }
}

impl vstd::std_specs::ops::RemSpecImpl<Vec4<u32>> for u32 {
    open spec fn obeys_rem_spec() -> bool {
        true
    }

    open spec fn rem_req(self, rhs: Vec4<u32>) -> bool {
        rhs.x.value() != 0 &&
        <u32 as Num>::fits(div_trunc(self.value(), rhs.x.value())) &&
        rhs.y.value() != 0 &&
        <u32 as Num>::fits(div_trunc(self.value(), rhs.y.value())) &&
        rhs.z.value() != 0 &&
        <u32 as Num>::fits(div_trunc(self.value(), rhs.z.value())) &&
        rhs.w.value() != 0 &&
        <u32 as Num>::fits(div_trunc(self.value(), rhs.w.value()))
    }

    open spec fn rem_spec(self, rhs: Vec4<u32>) -> Vec4<u32> {
        Vec4 { x: <u32 as Num>::from_int(rem_trunc(self.value(), rhs.x.value())), y: <u32 as Num>::from_int(rem_trunc(self.value(), rhs.y.value())), z: <u32 as Num>::from_int(rem_trunc(self.value(), rhs.z.value())), w: <u32 as Num>::from_int(rem_trunc(self.value(), rhs.w.value())) }
    }
}

impl core::ops::Mul<Vec4<u64>> for u64 {
    type Output = Vec4<u64>;

    fn mul(self, rhs: Vec4<u64>) -> (r: Vec4<u64>)
        ensures
            r == (Vec4 { x: <u64 as Num>::from_int(self.value() * rhs.x.value()), y: <u64 as Num>::from_int(self.value() * rhs.y.value()), z: <u64 as Num>::from_int(self.value() * rhs.z.value()), w: <u64 as Num>::from_int(self.value() * rhs.w.value()) }),
    {
        let r = Vec4 { x: self.times(rhs.x), y: self.times(rhs.y), z: self.times(rhs.z), w: self.times(rhs.w) };
        proof {
            r.lemma_canonical();
        }
        r
    }
}

impl vstd::std_specs::ops::MulSpecImpl<Vec4<u64>> for u64 {
    open spec fn obeys_mul_spec() -> bool {
        true
    }

    open spec fn mul_req(self, rhs: Vec4<u64>) -> bool {
        <u64 as Num>::fits(self.value() * rhs.x.value()) &&
        <u64 as Num>::fits(self.value() * rhs.y.value()) &&
        <u64 as Num>::fits(self.value() * rhs.z.value()) &&
        <u64 as Num>::fits(self.value() * rhs.w.value())
    }

    open spec fn mul_spec(self, rhs: Vec4<u64>) -> Vec4<u64> {
        Vec4 { x: <u64 as Num>::from_int(self.value() * rhs.x.value()), y: <u64 as Num>::from_int(self.value() * rhs.y.value()), z: <u64 as Num>::from_int(self.value() * rhs.z.value()), w: <u64 as Num>::from_int(self.value() * rhs.w.value()) }
    }
}

impl core::ops::Div<Vec4<u64>> for u64 {
    type Output = Vec4<u64>;

    fn div(self, rhs: Vec4<u64>) -> (r: Vec4<u64>)
        ensures
            r == (Vec4 { x: <u64 as Num>::from_int(div_trunc(self.value(), rhs.x.value())), y: <u64 as Num>::from_int(div_trunc(self.value(), rhs.y.value())), z: <u64 as Num>::from_int(div_trunc(self.value(), rhs.z.value())), w: <u64 as Num>::from_int(div_trunc(self.value(), rhs.w.value())) }),
    {
        let r = Vec4 { x: self.quot(rhs.x), y: self.quot(rhs.y), z: self.quot(rhs.z), w: self.quot(rhs.w) };
        proof {
            r.lemma_canonical();
        }
        r
    }
}

impl vstd::std_specs::ops::DivSpecImpl<Vec4<u64>> for u64 {
    open spec fn obeys_div_spec() -> bool {
        true
    }

    open spec fn div_req(self, rhs: Vec4<u64>) -> bool {
        rhs.x.value() != 0 &&
        <u64 as Num>::fits(div_trunc(self.value(), rhs.x.value())) &&
        rhs.y.value() != 0 &&
        <u64 as Num>::fits(div_trunc(self.value(), rhs.y.value())) &&
        rhs.z.value() != 0 &&
        <u64 as Num>::fits(div_trunc(self.value(), rhs.z.value())) &&
        rhs.w.value() != 0 &&
        <u64 as Num>::fits(div_trunc(self.value(), rhs.w.value()))
    }

    open spec fn div_spec(self, rhs: Vec4<u64>) -> Vec4<u64> {
        Vec4 { x: <u64 as Num>::from_int(div_trunc(self.value(), rhs.x.value())), y: <u64 as Num>::from_int(div_trunc(self.value(), rhs.y.value())), z: <u64 as Num>::from_int(div_trunc(self.value(), rhs.z.value())), w: <u64 as Num>::from_int(div_trunc(self.value(), rhs.w.value())) }
    }
}

impl core::ops::Rem<Vec4<u64>> for u64 {
    type Output = Vec4<u64>;

    fn rem(self, rhs: Vec4<u64>) -> (r: Vec4<u64>)
        ensures
            r == (Vec4 { x: <u64 as Num>::from_int(rem_trunc(self.value(), rhs.x.value())), y: <u64 as Num>::from_int(rem_trunc(self.value(), rhs.y.value())), z: <u64 as Num>::from_int(rem_trunc(self.value(), rhs.z.value())), w: <u64 as Num>::from_int(rem_trunc(self.value(), rhs.w.value())) }),
    {
        let r = Vec4 { x: self.modulo(rhs.x), y: self.modulo(rhs.y), z: self.modulo(rhs.z), w: self.modulo(rhs.w) };
        proof {
            r.lemma_canonical();
        }
        r
    }
}

impl vstd::std_specs::ops::RemSpecImpl<Vec4<u64>> for u64 {
    open spec fn obeys_rem_spec() -> bool {
        true
    }

    open spec fn rem_req(self, rhs: Vec4<u64>) -> bool {
        rhs.x.value() != 0 &&
        <u64 as Num>::fits(div_trunc(self.value(), rhs.x.value())) &&
        rhs.y.value() != 0 &&
        <u64 as Num>::fits(div_trunc(self.value(), rhs.y.value())) &&
        rhs.z.value() != 0 &&
        <u64 as Num>::fits(div_trunc(self.value(), rhs.z.value())) &&
        rhs.w.value() != 0 &&
        <u64 as Num>::fits(div_trunc(self.value(), rhs.w.value()))
    }

    open spec fn rem_spec(self, rhs: Vec4<u64>) -> Vec4<u64> {
        Vec4 { x: <u64 as Num>::from_int(rem_trunc(self.value(), rhs.x.value())), y: <u64 as Num>::from_int(rem_trunc(self.value(), rhs.y.value())), z: <u64 as Num>::from_int(rem_trunc(self.value(), rhs.z.value())), w: <u64 as Num>::from_int(rem_trunc(self.value(), rhs.w.value())) }
    }
}

impl<S: Num> VectorSpace for Vec4<S> {
    type Scalar = S;
}

impl<S: Num> InnerSpace for Vec4<S> {
    open spec fn dot_spec(self, other: Self) -> int {
        self.x.value() * other.x.value() + self.y.value() * other.y.value() + self.z.value() * other.z.value() + self.w.value() * other.w.value()
    }

    open spec fn dot_fits(self, other: Self) -> bool {
        fits4::<S>(self.x.value() * other.x.value(), self.y.value() * other.y.value(), self.z.value() * other.z.value(), self.w.value() * other.w.value())
    }

    fn dot(self, other: Self) -> (r: S) {
        self.x.times(other.x).plus(self.y.times(other.y)).plus(self.z.times(other.z)).plus(self.w.times(other.w))
    }
}

impl<S: Num> MetricSpace for Vec4<S> {
    type Metric = S;

    open spec fn distance2_spec(self, other: Self) -> int {
        (other.x.value() - self.x.value()) * (other.x.value() - self.x.value())
        + (other.y.value() - self.y.value()) * (other.y.value() - self.y.value())
        + (other.z.value() - self.z.value()) * (other.z.value() - self.z.value())
        + (other.w.value() - self.w.value()) * (other.w.value() - self.w.value())
    }

    open spec fn distance2_fits(self, other: Self) -> bool {
        other.fits_sub(self) && fits4::<S>((other.x.value() - self.x.value()) * (other.x.value() - self.x.value()), (other.y.value() - self.y.value()) * (other.y.value() - self.y.value()), (other.z.value() - self.z.value()) * (other.z.value() - self.z.value()), (other.w.value() - self.w.value()) * (other.w.value() - self.w.value()))
    }

    fn distance2(self, other: Self) -> (r: S) {
        let d = other - self;
        proof {
            S::lemma_from_int(other.x.value() - self.x.value());
            S::lemma_from_int(other.y.value() - self.y.value());
            S::lemma_from_int(other.z.value() - self.z.value());
            S::lemma_from_int(other.w.value() - self.w.value());
        }
        d.magnitude2()
    }
}

impl<S: Num> Vector for Vec4<S> {
    type Element = S;

    open spec fn sum_spec(self) -> int {
        self.x.value() + self.y.value() + self.z.value() + self.w.value()
    }

    open spec fn sum_fits(self) -> bool {
        fits4::<S>(self.x.value(), self.y.value(), self.z.value(), self.w.value())
    }

    open spec fn product_spec(self) -> int {
        self.x.value() * self.y.value() * self.z.value() * self.w.value()
    }

    open spec fn product_fits(self) -> bool {
        S::fits(self.x.value() * self.y.value()) && S::fits(self.x.value() * self.y.value() * self.z.value()) && S::fits(self.x.value() * self.y.value() * self.z.value() * self.w.value())
    }

    fn length() -> (r: usize)
        ensures
            r == 4,
    {
        4
    }

    fn from_value(scalar: S) -> (r: Self)
        ensures
            r.x == scalar,
            r.y == scalar,
            r.z == scalar,
            r.w == scalar,
    {
        Vec4 { x: scalar, y: scalar, z: scalar, w: scalar }
    }

    fn sum(self) -> (r: S) {
        self.x.plus(self.y).plus(self.z).plus(self.w)
    }

    fn product(self) -> (r: S) {
        self.x.times(self.y).times(self.z).times(self.w)
    }
}

impl<S: Copy> Vec4<S> {
    /// The vector whose components are the array's, in order.
    pub fn from_slice(slice: &[S; 4]) -> (r: Self)
        ensures
            r.x == slice@[0],
            r.y == slice@[1],
            r.z == slice@[2],
            r.w == slice@[3],
    {
        Vec4 { x: slice[0], y: slice[1], z: slice[2], w: slice[3] }
    }

    /// The vector of one less dimension: the last component is dropped.
    pub fn truncate(self) -> (r: Vec3<S>)
        ensures
            r.x == self.x,
            r.y == self.y,
            r.z == self.z,
    {
        Vec3 { x: self.x, y: self.y, z: self.z }
    }
}

impl<S: Num> Vec2<S> {
    /// Whether both products of `perp_dot` and their difference stay in range.
    pub open spec fn fits_perp_dot(self, other: Self) -> bool {
        fits_diff::<S>(self.x.value() * other.y.value(), self.y.value() * other.x.value())
    }

    /// The signed area spanned by the two vectors: `x * other.y - y * other.x`.
    pub fn perp_dot(self, other: Vec2<S>) -> (r: S)
        requires
            self.fits_perp_dot(other),
        ensures
            r.value() == self.x.value() * other.y.value() - self.y.value() * other.x.value(),
    {
        (self.x.times(other.y)).minus(self.y.times(other.x))
    }
}

impl<S: Num> Vec3<S> {
    /// The right-handed cross product, as integers.
    pub open spec fn spec_cross(self, other: Self) -> Vec3<S> {
        Vec3 {
            x: S::from_int(self.y.value() * other.z.value() - self.z.value() * other.y.value()),
            y: S::from_int(self.z.value() * other.x.value() - self.x.value() * other.z.value()),
            z: S::from_int(self.x.value() * other.y.value() - self.y.value() * other.x.value()),
        }
    }

    /// Whether every product and difference of the cross product stays in range.
    pub open spec fn fits_cross(self, other: Self) -> bool {
        &&& fits_diff::<S>(self.y.value() * other.z.value(), self.z.value() * other.y.value())
        &&& fits_diff::<S>(self.z.value() * other.x.value(), self.x.value() * other.z.value())
        &&& fits_diff::<S>(self.x.value() * other.y.value(), self.y.value() * other.x.value())
    }

    /// The right-handed cross product.
    pub fn cross(self, other: Vec3<S>) -> (r: Vec3<S>)
        requires
            self.fits_cross(other),
        ensures
            r == self.spec_cross(other),
    {
        let r = Vec3 {
            x: (self.y.times(other.z)).minus(self.z.times(other.y)),
            y: (self.z.times(other.x)).minus(self.x.times(other.z)),
            z: (self.x.times(other.y)).minus(self.y.times(other.x)),
        };
        proof {
            r.lemma_canonical();
        }
        r
    }

    /// The point that homogeneous coordinates stand for: `x`, `y` and `z`
    /// divided by `w`.
    pub fn from_homogeneous(v: Vec4<S>) -> (r: Vec3<S>)
        requires
            v.truncate_spec().fits_div(v.w),
        ensures
            r == (v.truncate_spec().spec_div(v.w)),
    {
        let r = Vec3 { x: v.x.quot(v.w), y: v.y.quot(v.w), z: v.z.quot(v.w) };
        proof {
            r.lemma_canonical();
        }
        r
    }

    /// The homogeneous coordinates of a point: `w` is one.
    pub fn to_homogeneous(self) -> (r: Vec4<S>)
        ensures
            r.x == self.x,
            r.y == self.y,
            r.z == self.z,
            r.w.value() == 1,
    {
        proof {
            S::lemma_value(S::ONE, S::ONE);
        }
        Vec4 { x: self.x, y: self.y, z: self.z, w: S::ONE }
    }
}

impl<S: Copy> Vec4<S> {
    /// The first three components.
    pub open spec fn truncate_spec(self) -> Vec3<S> {
        Vec3 { x: self.x, y: self.y, z: self.z }
    }

    /// The vector of the other three components once component `n` is dropped.
    pub fn truncate_n(&self, n: isize) -> (r: Vec3<S>)
        requires
            0 <= n < 4,
        ensures
            n == 0 ==> r == (Vec3 { x: self.y, y: self.z, z: self.w }),
            n == 1 ==> r == (Vec3 { x: self.x, y: self.z, z: self.w }),
            n == 2 ==> r == (Vec3 { x: self.x, y: self.y, z: self.w }),
            n == 3 ==> r == (Vec3 { x: self.x, y: self.y, z: self.z }),
    {
        if n == 0 {
            Vec3::new(self.y, self.z, self.w)
        } else if n == 1 {
            Vec3::new(self.x, self.z, self.w)
        } else if n == 2 {
            Vec3::new(self.x, self.y, self.w)
        } else {
            Vec3::new(self.x, self.y, self.z)
        }
    }
}

/// Componentwise operations, with another vector or with one scalar for every
/// component.
pub trait ElementWise<Rhs = Self>: Sized {
    /// The componentwise sum as a value.
    spec fn add_element_wise_spec(self, rhs: Rhs) -> Self;

    /// Whether every componentwise sum stays in range.
    spec fn add_element_wise_fits(self, rhs: Rhs) -> bool;

    /// The componentwise difference as a value.
    spec fn sub_element_wise_spec(self, rhs: Rhs) -> Self;

    /// Whether every componentwise difference stays in range.
    spec fn sub_element_wise_fits(self, rhs: Rhs) -> bool;

    /// The componentwise product as a value.
    spec fn mul_element_wise_spec(self, rhs: Rhs) -> Self;

    /// Whether every componentwise product stays in range.
    spec fn mul_element_wise_fits(self, rhs: Rhs) -> bool;

    /// The componentwise quotient, rounded toward zero, as a value.
    spec fn div_element_wise_spec(self, rhs: Rhs) -> Self;

    /// Whether every componentwise quotient stays in range and no divisor is zero.
    spec fn div_element_wise_fits(self, rhs: Rhs) -> bool;

    /// The componentwise remainder as a value.
    spec fn rem_element_wise_spec(self, rhs: Rhs) -> Self;

    /// Whether every componentwise remainder stays in range and no divisor is zero.
    spec fn rem_element_wise_fits(self, rhs: Rhs) -> bool;

    fn add_element_wise(self, rhs: Rhs) -> (r: Self)
        requires
            self.add_element_wise_fits(rhs),
        ensures
            r == self.add_element_wise_spec(rhs),
    ;

    fn sub_element_wise(self, rhs: Rhs) -> (r: Self)
        requires
            self.sub_element_wise_fits(rhs),
        ensures
            r == self.sub_element_wise_spec(rhs),
    ;

    fn mul_element_wise(self, rhs: Rhs) -> (r: Self)
        requires
            self.mul_element_wise_fits(rhs),
        ensures
            r == self.mul_element_wise_spec(rhs),
    ;

    fn div_element_wise(self, rhs: Rhs) -> (r: Self)
        requires
            self.div_element_wise_fits(rhs),
        ensures
            r == self.div_element_wise_spec(rhs),
    ;

    fn rem_element_wise(self, rhs: Rhs) -> (r: Self)
        requires
            self.rem_element_wise_fits(rhs),
        ensures
            r == self.rem_element_wise_spec(rhs),
    ;

    fn add_assign_element_wise(&mut self, rhs: Rhs)
        requires
            old(self).add_element_wise_fits(rhs),
        ensures
            *final(self) == old(self).add_element_wise_spec(rhs),
    ;

    fn sub_assign_element_wise(&mut self, rhs: Rhs)
        requires
            old(self).sub_element_wise_fits(rhs),
        ensures
            *final(self) == old(self).sub_element_wise_spec(rhs),
    ;

    fn mul_assign_element_wise(&mut self, rhs: Rhs)
        requires
            old(self).mul_element_wise_fits(rhs),
        ensures
            *final(self) == old(self).mul_element_wise_spec(rhs),
    ;

    fn div_assign_element_wise(&mut self, rhs: Rhs)
        requires
            old(self).div_element_wise_fits(rhs),
        ensures
            *final(self) == old(self).div_element_wise_spec(rhs),
    ;

    fn rem_assign_element_wise(&mut self, rhs: Rhs)
        requires
            old(self).rem_element_wise_fits(rhs),
        ensures
            *final(self) == old(self).rem_element_wise_spec(rhs),
    ;
}

impl<S: Num> ElementWise<Vec1<S>> for Vec1<S> {
    open spec fn add_element_wise_spec(self, rhs: Vec1<S>) -> Self {
        Vec1 { x: S::from_int(self.x.value() + rhs.x.value()) }
    }

    open spec fn add_element_wise_fits(self, rhs: Vec1<S>) -> bool {
        S::fits(self.x.value() + rhs.x.value())
    }

    open spec fn sub_element_wise_spec(self, rhs: Vec1<S>) -> Self {
        Vec1 { x: S::from_int(self.x.value() - rhs.x.value()) }
    }

    open spec fn sub_element_wise_fits(self, rhs: Vec1<S>) -> bool {
        S::fits(self.x.value() - rhs.x.value())
    }

    open spec fn mul_element_wise_spec(self, rhs: Vec1<S>) -> Self {
        Vec1 { x: S::from_int(self.x.value() * rhs.x.value()) }
    }

    open spec fn mul_element_wise_fits(self, rhs: Vec1<S>) -> bool {
        S::fits(self.x.value() * rhs.x.value())
    }

    open spec fn div_element_wise_spec(self, rhs: Vec1<S>) -> Self {
        Vec1 { x: S::from_int(div_trunc(self.x.value(), rhs.x.value())) }
    }

    open spec fn div_element_wise_fits(self, rhs: Vec1<S>) -> bool {
        rhs.x.value() != 0 && S::fits(div_trunc(self.x.value(), rhs.x.value()))
    }

    open spec fn rem_element_wise_spec(self, rhs: Vec1<S>) -> Self {
        Vec1 { x: S::from_int(rem_trunc(self.x.value(), rhs.x.value())) }
    }

    open spec fn rem_element_wise_fits(self, rhs: Vec1<S>) -> bool {
        rhs.x.value() != 0 && S::fits(div_trunc(self.x.value(), rhs.x.value()))
    }

    fn add_element_wise(self, rhs: Vec1<S>) -> (r: Self) {
        let r = Vec1 { x: self.x.plus(rhs.x) };
        proof {
            r.lemma_canonical();
        }
        r
    }

    fn sub_element_wise(self, rhs: Vec1<S>) -> (r: Self) {
        let r = Vec1 { x: self.x.minus(rhs.x) };
        proof {
            r.lemma_canonical();
        }
        r
    }

    fn mul_element_wise(self, rhs: Vec1<S>) -> (r: Self) {
        let r = Vec1 { x: self.x.times(rhs.x) };
        proof {
            r.lemma_canonical();
        }
        r
    }

    fn div_element_wise(self, rhs: Vec1<S>) -> (r: Self) {
        let r = Vec1 { x: self.x.quot(rhs.x) };
        proof {
            r.lemma_canonical();
        }
        r
    }

    fn rem_element_wise(self, rhs: Vec1<S>) -> (r: Self) {
        let r = Vec1 { x: self.x.modulo(rhs.x) };
        proof {
            r.lemma_canonical();
        }
        r
    }

    fn add_assign_element_wise(&mut self, rhs: Vec1<S>) {
        *self = <Self as ElementWise<Vec1<S>>>::add_element_wise(*self, rhs);
    }

    fn sub_assign_element_wise(&mut self, rhs: Vec1<S>) {
        *self = <Self as ElementWise<Vec1<S>>>::sub_element_wise(*self, rhs);
    }

    fn mul_assign_element_wise(&mut self, rhs: Vec1<S>) {
        *self = <Self as ElementWise<Vec1<S>>>::mul_element_wise(*self, rhs);
    }

    fn div_assign_element_wise(&mut self, rhs: Vec1<S>) {
        *self = <Self as ElementWise<Vec1<S>>>::div_element_wise(*self, rhs);
    }

    fn rem_assign_element_wise(&mut self, rhs: Vec1<S>) {
        *self = <Self as ElementWise<Vec1<S>>>::rem_element_wise(*self, rhs);
    }
}

impl<S: Num> ElementWise<S> for Vec1<S> {
    open spec fn add_element_wise_spec(self, rhs: S) -> Self {
        Vec1 { x: S::from_int(self.x.value() + rhs.value()) }
    }

    open spec fn add_element_wise_fits(self, rhs: S) -> bool {
        S::fits(self.x.value() + rhs.value())
    }

    open spec fn sub_element_wise_spec(self, rhs: S) -> Self {
        Vec1 { x: S::from_int(self.x.value() - rhs.value()) }
    }

    open spec fn sub_element_wise_fits(self, rhs: S) -> bool {
        S::fits(self.x.value() - rhs.value())
    }

    open spec fn mul_element_wise_spec(self, rhs: S) -> Self {
        Vec1 { x: S::from_int(self.x.value() * rhs.value()) }
    }

    open spec fn mul_element_wise_fits(self, rhs: S) -> bool {
        S::fits(self.x.value() * rhs.value())
    }

    open spec fn div_element_wise_spec(self, rhs: S) -> Self {
        Vec1 { x: S::from_int(div_trunc(self.x.value(), rhs.value())) }
    }

    open spec fn div_element_wise_fits(self, rhs: S) -> bool {
        rhs.value() != 0 && S::fits(div_trunc(self.x.value(), rhs.value()))
    }

    open spec fn rem_element_wise_spec(self, rhs: S) -> Self {
        Vec1 { x: S::from_int(rem_trunc(self.x.value(), rhs.value())) }
    }

    open spec fn rem_element_wise_fits(self, rhs: S) -> bool {
        rhs.value() != 0 && S::fits(div_trunc(self.x.value(), rhs.value()))
    }

    fn add_element_wise(self, rhs: S) -> (r: Self) {
        let r = Vec1 { x: self.x.plus(rhs) };
        proof {
            r.lemma_canonical();
        }
        r
    }

    fn sub_element_wise(self, rhs: S) -> (r: Self) {
        let r = Vec1 { x: self.x.minus(rhs) };
        proof {
            r.lemma_canonical();
        }
        r
    }

    fn mul_element_wise(self, rhs: S) -> (r: Self) {
        let r = Vec1 { x: self.x.times(rhs) };
        proof {
            r.lemma_canonical();
        }
        r
    }

    fn div_element_wise(self, rhs: S) -> (r: Self) {
        let r = Vec1 { x: self.x.quot(rhs) };
        proof {
            r.lemma_canonical();
        }
        r
    }

    fn rem_element_wise(self, rhs: S) -> (r: Self) {
        let r = Vec1 { x: self.x.modulo(rhs) };
        proof {
            r.lemma_canonical();
        }
        r
    }

    fn add_assign_element_wise(&mut self, rhs: S) {
        *self = <Self as ElementWise<S>>::add_element_wise(*self, rhs);
    }

    fn sub_assign_element_wise(&mut self, rhs: S) {
        *self = <Self as ElementWise<S>>::sub_element_wise(*self, rhs);
    }

    fn mul_assign_element_wise(&mut self, rhs: S) {
        *self = <Self as ElementWise<S>>::mul_element_wise(*self, rhs);
    }

    fn div_assign_element_wise(&mut self, rhs: S) {
        *self = <Self as ElementWise<S>>::div_element_wise(*self, rhs);
    }

    fn rem_assign_element_wise(&mut self, rhs: S) {
        *self = <Self as ElementWise<S>>::rem_element_wise(*self, rhs);
    }
}

impl<S: Num> ElementWise<Vec2<S>> for Vec2<S> {
    open spec fn add_element_wise_spec(self, rhs: Vec2<S>) -> Self {
        Vec2 { x: S::from_int(self.x.value() + rhs.x.value()), y: S::from_int(self.y.value() + rhs.y.value()) }
    }

    open spec fn add_element_wise_fits(self, rhs: Vec2<S>) -> bool {
        S::fits(self.x.value() + rhs.x.value()) && S::fits(self.y.value() + rhs.y.value())
    }

    open spec fn sub_element_wise_spec(self, rhs: Vec2<S>) -> Self {
        Vec2 { x: S::from_int(self.x.value() - rhs.x.value()), y: S::from_int(self.y.value() - rhs.y.value()) }
    }

    open spec fn sub_element_wise_fits(self, rhs: Vec2<S>) -> bool {
        S::fits(self.x.value() - rhs.x.value()) && S::fits(self.y.value() - rhs.y.value())
    }

    open spec fn mul_element_wise_spec(self, rhs: Vec2<S>) -> Self {
        Vec2 { x: S::from_int(self.x.value() * rhs.x.value()), y: S::from_int(self.y.value() * rhs.y.value()) }
    }

    open spec fn mul_element_wise_fits(self, rhs: Vec2<S>) -> bool {
        S::fits(self.x.value() * rhs.x.value()) && S::fits(self.y.value() * rhs.y.value())
    }

    open spec fn div_element_wise_spec(self, rhs: Vec2<S>) -> Self {
        Vec2 { x: S::from_int(div_trunc(self.x.value(), rhs.x.value())), y: S::from_int(div_trunc(self.y.value(), rhs.y.value())) }
    }

    open spec fn div_element_wise_fits(self, rhs: Vec2<S>) -> bool {
        rhs.x.value() != 0 && rhs.y.value() != 0 && S::fits(div_trunc(self.x.value(), rhs.x.value())) && S::fits(div_trunc(self.y.value(), rhs.y.value()))
    }

    open spec fn rem_element_wise_spec(self, rhs: Vec2<S>) -> Self {
        Vec2 { x: S::from_int(rem_trunc(self.x.value(), rhs.x.value())), y: S::from_int(rem_trunc(self.y.value(), rhs.y.value())) }
    }

    open spec fn rem_element_wise_fits(self, rhs: Vec2<S>) -> bool {
        rhs.x.value() != 0 && rhs.y.value() != 0 && S::fits(div_trunc(self.x.value(), rhs.x.value())) && S::fits(div_trunc(self.y.value(), rhs.y.value()))
    }

    fn add_element_wise(self, rhs: Vec2<S>) -> (r: Self) {
        let r = Vec2 { x: self.x.plus(rhs.x), y: self.y.plus(rhs.y) };
        proof {
            r.lemma_canonical();
        }
        r
    }

    fn sub_element_wise(self, rhs: Vec2<S>) -> (r: Self) {
        let r = Vec2 { x: self.x.minus(rhs.x), y: self.y.minus(rhs.y) };
        proof {
            r.lemma_canonical();
        }
        r
    }

    fn mul_element_wise(self, rhs: Vec2<S>) -> (r: Self) {
        let r = Vec2 { x: self.x.times(rhs.x), y: self.y.times(rhs.y) };
        proof {
            r.lemma_canonical();
        }
        r
    }

    fn div_element_wise(self, rhs: Vec2<S>) -> (r: Self) {
        let r = Vec2 { x: self.x.quot(rhs.x), y: self.y.quot(rhs.y) };
        proof {
            r.lemma_canonical();
        }
        r
    }

    fn rem_element_wise(self, rhs: Vec2<S>) -> (r: Self) {
        let r = Vec2 { x: self.x.modulo(rhs.x), y: self.y.modulo(rhs.y) };
        proof {
            r.lemma_canonical();
        }
        r
    }

    fn add_assign_element_wise(&mut self, rhs: Vec2<S>) {
        *self = <Self as ElementWise<Vec2<S>>>::add_element_wise(*self, rhs);
    }

    fn sub_assign_element_wise(&mut self, rhs: Vec2<S>) {
        *self = <Self as ElementWise<Vec2<S>>>::sub_element_wise(*self, rhs);
    }

    fn mul_assign_element_wise(&mut self, rhs: Vec2<S>) {
        *self = <Self as ElementWise<Vec2<S>>>::mul_element_wise(*self, rhs);
    }

    fn div_assign_element_wise(&mut self, rhs: Vec2<S>) {
        *self = <Self as ElementWise<Vec2<S>>>::div_element_wise(*self, rhs);
    }

    fn rem_assign_element_wise(&mut self, rhs: Vec2<S>) {
        *self = <Self as ElementWise<Vec2<S>>>::rem_element_wise(*self, rhs);
    }
}

impl<S: Num> ElementWise<S> for Vec2<S> {
    open spec fn add_element_wise_spec(self, rhs: S) -> Self {
        Vec2 { x: S::from_int(self.x.value() + rhs.value()), y: S::from_int(self.y.value() + rhs.value()) }
    }

    open spec fn add_element_wise_fits(self, rhs: S) -> bool {
        S::fits(self.x.value() + rhs.value()) && S::fits(self.y.value() + rhs.value())
    }

    open spec fn sub_element_wise_spec(self, rhs: S) -> Self {
        Vec2 { x: S::from_int(self.x.value() - rhs.value()), y: S::from_int(self.y.value() - rhs.value()) }
    }

    open spec fn sub_element_wise_fits(self, rhs: S) -> bool {
        S::fits(self.x.value() - rhs.value()) && S::fits(self.y.value() - rhs.value())
    }

    open spec fn mul_element_wise_spec(self, rhs: S) -> Self {
        Vec2 { x: S::from_int(self.x.value() * rhs.value()), y: S::from_int(self.y.value() * rhs.value()) }
    }

    open spec fn mul_element_wise_fits(self, rhs: S) -> bool {
        S::fits(self.x.value() * rhs.value()) && S::fits(self.y.value() * rhs.value())
    }

    open spec fn div_element_wise_spec(self, rhs: S) -> Self {
        Vec2 { x: S::from_int(div_trunc(self.x.value(), rhs.value())), y: S::from_int(div_trunc(self.y.value(), rhs.value())) }
    }

    open spec fn div_element_wise_fits(self, rhs: S) -> bool {
        rhs.value() != 0 && S::fits(div_trunc(self.x.value(), rhs.value())) && S::fits(div_trunc(self.y.value(), rhs.value()))
    }

    open spec fn rem_element_wise_spec(self, rhs: S) -> Self {
        Vec2 { x: S::from_int(rem_trunc(self.x.value(), rhs.value())), y: S::from_int(rem_trunc(self.y.value(), rhs.value())) }
    }

    open spec fn rem_element_wise_fits(self, rhs: S) -> bool {
        rhs.value() != 0 && S::fits(div_trunc(self.x.value(), rhs.value())) && S::fits(div_trunc(self.y.value(), rhs.value()))
    }

    fn add_element_wise(self, rhs: S) -> (r: Self) {
        let r = Vec2 { x: self.x.plus(rhs), y: self.y.plus(rhs) };
        proof {
            r.lemma_canonical();
        }
        r
    }

    fn sub_element_wise(self, rhs: S) -> (r: Self) {
        let r = Vec2 { x: self.x.minus(rhs), y: self.y.minus(rhs) };
        proof {
            r.lemma_canonical();
        }
        r
    }

    fn mul_element_wise(self, rhs: S) -> (r: Self) {
        let r = Vec2 { x: self.x.times(rhs), y: self.y.times(rhs) };
        proof {
            r.lemma_canonical();
        }
        r
    }

    fn div_element_wise(self, rhs: S) -> (r: Self) {
        let r = Vec2 { x: self.x.quot(rhs), y: self.y.quot(rhs) };
        proof {
            r.lemma_canonical();
        }
        r
    }

    fn rem_element_wise(self, rhs: S) -> (r: Self) {
        let r = Vec2 { x: self.x.modulo(rhs), y: self.y.modulo(rhs) };
        proof {
            r.lemma_canonical();
        }
        r
    }

    fn add_assign_element_wise(&mut self, rhs: S) {
        *self = <Self as ElementWise<S>>::add_element_wise(*self, rhs);
    }

    fn sub_assign_element_wise(&mut self, rhs: S) {
        *self = <Self as ElementWise<S>>::sub_element_wise(*self, rhs);
    }

    fn mul_assign_element_wise(&mut self, rhs: S) {
        *self = <Self as ElementWise<S>>::mul_element_wise(*self, rhs);
    }

    fn div_assign_element_wise(&mut self, rhs: S) {
        *self = <Self as ElementWise<S>>::div_element_wise(*self, rhs);
    }

    fn rem_assign_element_wise(&mut self, rhs: S) {
        *self = <Self as ElementWise<S>>::rem_element_wise(*self, rhs);
    }
}

impl<S: Num> ElementWise<Vec3<S>> for Vec3<S> {
    open spec fn add_element_wise_spec(self, rhs: Vec3<S>) -> Self {
        Vec3 { x: S::from_int(self.x.value() + rhs.x.value()), y: S::from_int(self.y.value() + rhs.y.value()), z: S::from_int(self.z.value() + rhs.z.value()) }
    }

    open spec fn add_element_wise_fits(self, rhs: Vec3<S>) -> bool {
        S::fits(self.x.value() + rhs.x.value()) && S::fits(self.y.value() + rhs.y.value()) && S::fits(self.z.value() + rhs.z.value())
    }

    open spec fn sub_element_wise_spec(self, rhs: Vec3<S>) -> Self {
        Vec3 { x: S::from_int(self.x.value() - rhs.x.value()), y: S::from_int(self.y.value() - rhs.y.value()), z: S::from_int(self.z.value() - rhs.z.value()) }
    }

    open spec fn sub_element_wise_fits(self, rhs: Vec3<S>) -> bool {
        S::fits(self.x.value() - rhs.x.value()) && S::fits(self.y.value() - rhs.y.value()) && S::fits(self.z.value() - rhs.z.value())
    }

    open spec fn mul_element_wise_spec(self, rhs: Vec3<S>) -> Self {
        Vec3 { x: S::from_int(self.x.value() * rhs.x.value()), y: S::from_int(self.y.value() * rhs.y.value()), z: S::from_int(self.z.value() * rhs.z.value()) }
    }

    open spec fn mul_element_wise_fits(self, rhs: Vec3<S>) -> bool {
        S::fits(self.x.value() * rhs.x.value()) && S::fits(self.y.value() * rhs.y.value()) && S::fits(self.z.value() * rhs.z.value())
    }

    open spec fn div_element_wise_spec(self, rhs: Vec3<S>) -> Self {
        Vec3 { x: S::from_int(div_trunc(self.x.value(), rhs.x.value())), y: S::from_int(div_trunc(self.y.value(), rhs.y.value())), z: S::from_int(div_trunc(self.z.value(), rhs.z.value())) }
    }

    open spec fn div_element_wise_fits(self, rhs: Vec3<S>) -> bool {
        rhs.x.value() != 0 && 
        rhs.y.value() != 0 && 
        rhs.z.value() != 0 && 
        S::fits(div_trunc(self.x.value(), rhs.x.value())) && 
        S::fits(div_trunc(self.y.value(), rhs.y.value())) && 
        S::fits(div_trunc(self.z.value(), rhs.z.value()))
    }

    open spec fn rem_element_wise_spec(self, rhs: Vec3<S>) -> Self {
        Vec3 { x: S::from_int(rem_trunc(self.x.value(), rhs.x.value())), y: S::from_int(rem_trunc(self.y.value(), rhs.y.value())), z: S::from_int(rem_trunc(self.z.value(), rhs.z.value())) }
    }

    open spec fn rem_element_wise_fits(self, rhs: Vec3<S>) -> bool {
        rhs.x.value() != 0 && 
        rhs.y.value() != 0 && 
        rhs.z.value() != 0 && 
        S::fits(div_trunc(self.x.value(), rhs.x.value())) && 
        S::fits(div_trunc(self.y.value(), rhs.y.value())) && 
        S::fits(div_trunc(self.z.value(), rhs.z.value()))
    }

    fn add_element_wise(self, rhs: Vec3<S>) -> (r: Self) {
        let r = Vec3 { x: self.x.plus(rhs.x), y: self.y.plus(rhs.y), z: self.z.plus(rhs.z) };
        proof {
            r.lemma_canonical();
        }
        r
    }

    fn sub_element_wise(self, rhs: Vec3<S>) -> (r: Self) {
        let r = Vec3 { x: self.x.minus(rhs.x), y: self.y.minus(rhs.y), z: self.z.minus(rhs.z) };
        proof {
            r.lemma_canonical();
        }
        r
    }

    fn mul_element_wise(self, rhs: Vec3<S>) -> (r: Self) {
        let r = Vec3 { x: self.x.times(rhs.x), y: self.y.times(rhs.y), z: self.z.times(rhs.z) };
        proof {
            r.lemma_canonical();
        }
        r
    }

    fn div_element_wise(self, rhs: Vec3<S>) -> (r: Self) {
        let r = Vec3 { x: self.x.quot(rhs.x), y: self.y.quot(rhs.y), z: self.z.quot(rhs.z) };
        proof {
            r.lemma_canonical();
        }
        r
    }

    fn rem_element_wise(self, rhs: Vec3<S>) -> (r: Self) {
        let r = Vec3 { x: self.x.modulo(rhs.x), y: self.y.modulo(rhs.y), z: self.z.modulo(rhs.z) };
        proof {
            r.lemma_canonical();
        }
        r
    }

    fn add_assign_element_wise(&mut self, rhs: Vec3<S>) {
        *self = <Self as ElementWise<Vec3<S>>>::add_element_wise(*self, rhs);
    }

    fn sub_assign_element_wise(&mut self, rhs: Vec3<S>) {
        *self = <Self as ElementWise<Vec3<S>>>::sub_element_wise(*self, rhs);
    }

    fn mul_assign_element_wise(&mut self, rhs: Vec3<S>) {
        *self = <Self as ElementWise<Vec3<S>>>::mul_element_wise(*self, rhs);
    }

    fn div_assign_element_wise(&mut self, rhs: Vec3<S>) {
        *self = <Self as ElementWise<Vec3<S>>>::div_element_wise(*self, rhs);
    }

    fn rem_assign_element_wise(&mut self, rhs: Vec3<S>) {
        *self = <Self as ElementWise<Vec3<S>>>::rem_element_wise(*self, rhs);
    }
}

impl<S: Num> ElementWise<S> for Vec3<S> {
    open spec fn add_element_wise_spec(self, rhs: S) -> Self {
        Vec3 { x: S::from_int(self.x.value() + rhs.value()), y: S::from_int(self.y.value() + rhs.value()), z: S::from_int(self.z.value() + rhs.value()) }
    }

    open spec fn add_element_wise_fits(self, rhs: S) -> bool {
        S::fits(self.x.value() + rhs.value()) && S::fits(self.y.value() + rhs.value()) && S::fits(self.z.value() + rhs.value())
    }

    open spec fn sub_element_wise_spec(self, rhs: S) -> Self {
        Vec3 { x: S::from_int(self.x.value() - rhs.value()), y: S::from_int(self.y.value() - rhs.value()), z: S::from_int(self.z.value() - rhs.value()) }
    }

    open spec fn sub_element_wise_fits(self, rhs: S) -> bool {
        S::fits(self.x.value() - rhs.value()) && S::fits(self.y.value() - rhs.value()) && S::fits(self.z.value() - rhs.value())
    }

    open spec fn mul_element_wise_spec(self, rhs: S) -> Self {
        Vec3 { x: S::from_int(self.x.value() * rhs.value()), y: S::from_int(self.y.value() * rhs.value()), z: S::from_int(self.z.value() * rhs.value()) }
    }

    open spec fn mul_element_wise_fits(self, rhs: S) -> bool {
        S::fits(self.x.value() * rhs.value()) && S::fits(self.y.value() * rhs.value()) && S::fits(self.z.value() * rhs.value())
    }

    open spec fn div_element_wise_spec(self, rhs: S) -> Self {
        Vec3 { x: S::from_int(div_trunc(self.x.value(), rhs.value())), y: S::from_int(div_trunc(self.y.value(), rhs.value())), z: S::from_int(div_trunc(self.z.value(), rhs.value())) }
    }

    open spec fn div_element_wise_fits(self, rhs: S) -> bool {
        rhs.value() != 0 && S::fits(div_trunc(self.x.value(), rhs.value())) && S::fits(div_trunc(self.y.value(), rhs.value())) && S::fits(div_trunc(self.z.value(), rhs.value()))
    }

    open spec fn rem_element_wise_spec(self, rhs: S) -> Self {
        Vec3 { x: S::from_int(rem_trunc(self.x.value(), rhs.value())), y: S::from_int(rem_trunc(self.y.value(), rhs.value())), z: S::from_int(rem_trunc(self.z.value(), rhs.value())) }
    }

    open spec fn rem_element_wise_fits(self, rhs: S) -> bool {
        rhs.value() != 0 && S::fits(div_trunc(self.x.value(), rhs.value())) && S::fits(div_trunc(self.y.value(), rhs.value())) && S::fits(div_trunc(self.z.value(), rhs.value()))
    }

    fn add_element_wise(self, rhs: S) -> (r: Self) {
        let r = Vec3 { x: self.x.plus(rhs), y: self.y.plus(rhs), z: self.z.plus(rhs) };
        proof {
            r.lemma_canonical();
        }
        r
    }

    fn sub_element_wise(self, rhs: S) -> (r: Self) {
        let r = Vec3 { x: self.x.minus(rhs), y: self.y.minus(rhs), z: self.z.minus(rhs) };
        proof {
            r.lemma_canonical();
        }
        r
    }

    fn mul_element_wise(self, rhs: S) -> (r: Self) {
        let r = Vec3 { x: self.x.times(rhs), y: self.y.times(rhs), z: self.z.times(rhs) };
        proof {
            r.lemma_canonical();
        }
        r
    }

    fn div_element_wise(self, rhs: S) -> (r: Self) {
        let r = Vec3 { x: self.x.quot(rhs), y: self.y.quot(rhs), z: self.z.quot(rhs) };
        proof {
            r.lemma_canonical();
        }
        r
    }

    fn rem_element_wise(self, rhs: S) -> (r: Self) {
        let r = Vec3 { x: self.x.modulo(rhs), y: self.y.modulo(rhs), z: self.z.modulo(rhs) };
        proof {
            r.lemma_canonical();
        }
        r
    }

    fn add_assign_element_wise(&mut self, rhs: S) {
        *self = <Self as ElementWise<S>>::add_element_wise(*self, rhs);
    }

    fn sub_assign_element_wise(&mut self, rhs: S) {
        *self = <Self as ElementWise<S>>::sub_element_wise(*self, rhs);
    }

    fn mul_assign_element_wise(&mut self, rhs: S) {
        *self = <Self as ElementWise<S>>::mul_element_wise(*self, rhs);
    }

    fn div_assign_element_wise(&mut self, rhs: S) {
        *self = <Self as ElementWise<S>>::div_element_wise(*self, rhs);
    }

    fn rem_assign_element_wise(&mut self, rhs: S) {
        *self = <Self as ElementWise<S>>::rem_element_wise(*self, rhs);
    }
}

impl<S: Num> ElementWise<Vec4<S>> for Vec4<S> {
    open spec fn add_element_wise_spec(self, rhs: Vec4<S>) -> Self {
        Vec4 { x: S::from_int(self.x.value() + rhs.x.value()), y: S::from_int(self.y.value() + rhs.y.value()), z: S::from_int(self.z.value() + rhs.z.value()), w: S::from_int(self.w.value() + rhs.w.value()) }
    }

    open spec fn add_element_wise_fits(self, rhs: Vec4<S>) -> bool {
        S::fits(self.x.value() + rhs.x.value()) && S::fits(self.y.value() + rhs.y.value()) && S::fits(self.z.value() + rhs.z.value()) && S::fits(self.w.value() + rhs.w.value())
    }

    open spec fn sub_element_wise_spec(self, rhs: Vec4<S>) -> Self {
        Vec4 { x: S::from_int(self.x.value() - rhs.x.value()), y: S::from_int(self.y.value() - rhs.y.value()), z: S::from_int(self.z.value() - rhs.z.value()), w: S::from_int(self.w.value() - rhs.w.value()) }
    }

    open spec fn sub_element_wise_fits(self, rhs: Vec4<S>) -> bool {
        S::fits(self.x.value() - rhs.x.value()) && S::fits(self.y.value() - rhs.y.value()) && S::fits(self.z.value() - rhs.z.value()) && S::fits(self.w.value() - rhs.w.value())
    }

    open spec fn mul_element_wise_spec(self, rhs: Vec4<S>) -> Self {
        Vec4 { x: S::from_int(self.x.value() * rhs.x.value()), y: S::from_int(self.y.value() * rhs.y.value()), z: S::from_int(self.z.value() * rhs.z.value()), w: S::from_int(self.w.value() * rhs.w.value()) }
    }

    open spec fn mul_element_wise_fits(self, rhs: Vec4<S>) -> bool {
        S::fits(self.x.value() * rhs.x.value()) && S::fits(self.y.value() * rhs.y.value()) && S::fits(self.z.value() * rhs.z.value()) && S::fits(self.w.value() * rhs.w.value())
    }

    open spec fn div_element_wise_spec(self, rhs: Vec4<S>) -> Self {
        Vec4 { x: S::from_int(div_trunc(self.x.value(), rhs.x.value())), y: S::from_int(div_trunc(self.y.value(), rhs.y.value())), z: S::from_int(div_trunc(self.z.value(), rhs.z.value())), w: S::from_int(div_trunc(self.w.value(), rhs.w.value())) }
    }

    open spec fn div_element_wise_fits(self, rhs: Vec4<S>) -> bool {
        rhs.x.value() != 0 && 
        rhs.y.value() != 0 && 
        rhs.z.value() != 0 && 
        rhs.w.value() != 0 && 
        S::fits(div_trunc(self.x.value(), rhs.x.value())) && 
        S::fits(div_trunc(self.y.value(), rhs.y.value())) && 
        S::fits(div_trunc(self.z.value(), rhs.z.value())) && 
        S::fits(div_trunc(self.w.value(), rhs.w.value()))
    }

    open spec fn rem_element_wise_spec(self, rhs: Vec4<S>) -> Self {
        Vec4 { x: S::from_int(rem_trunc(self.x.value(), rhs.x.value())), y: S::from_int(rem_trunc(self.y.value(), rhs.y.value())), z: S::from_int(rem_trunc(self.z.value(), rhs.z.value())), w: S::from_int(rem_trunc(self.w.value(), rhs.w.value())) }
    }

    open spec fn rem_element_wise_fits(self, rhs: Vec4<S>) -> bool {
        rhs.x.value() != 0 && 
        rhs.y.value() != 0 && 
        rhs.z.value() != 0 && 
        rhs.w.value() != 0 && 
        S::fits(div_trunc(self.x.value(), rhs.x.value())) && 
        S::fits(div_trunc(self.y.value(), rhs.y.value())) && 
        S::fits(div_trunc(self.z.value(), rhs.z.value())) && 
        S::fits(div_trunc(self.w.value(), rhs.w.value()))
    }

    fn add_element_wise(self, rhs: Vec4<S>) -> (r: Self) {
        let r = Vec4 { x: self.x.plus(rhs.x), y: self.y.plus(rhs.y), z: self.z.plus(rhs.z), w: self.w.plus(rhs.w) };
        proof {
            r.lemma_canonical();
        }
        r
    }

    fn sub_element_wise(self, rhs: Vec4<S>) -> (r: Self) {
        let r = Vec4 { x: self.x.minus(rhs.x), y: self.y.minus(rhs.y), z: self.z.minus(rhs.z), w: self.w.minus(rhs.w) };
        proof {
            r.lemma_canonical();
        }
        r
    }

    fn mul_element_wise(self, rhs: Vec4<S>) -> (r: Self) {
        let r = Vec4 { x: self.x.times(rhs.x), y: self.y.times(rhs.y), z: self.z.times(rhs.z), w: self.w.times(rhs.w) };
        proof {
            r.lemma_canonical();
        }
        r
    }

    fn div_element_wise(self, rhs: Vec4<S>) -> (r: Self) {
        let r = Vec4 { x: self.x.quot(rhs.x), y: self.y.quot(rhs.y), z: self.z.quot(rhs.z), w: self.w.quot(rhs.w) };
        proof {
            r.lemma_canonical();
        }
        r
    }

    fn rem_element_wise(self, rhs: Vec4<S>) -> (r: Self) {
        let r = Vec4 { x: self.x.modulo(rhs.x), y: self.y.modulo(rhs.y), z: self.z.modulo(rhs.z), w: self.w.modulo(rhs.w) };
        proof {
            r.lemma_canonical();
        }
        r
    }

    fn add_assign_element_wise(&mut self, rhs: Vec4<S>) {
        *self = <Self as ElementWise<Vec4<S>>>::add_element_wise(*self, rhs);
    }

    fn sub_assign_element_wise(&mut self, rhs: Vec4<S>) {
        *self = <Self as ElementWise<Vec4<S>>>::sub_element_wise(*self, rhs);
    }

    fn mul_assign_element_wise(&mut self, rhs: Vec4<S>) {
        *self = <Self as ElementWise<Vec4<S>>>::mul_element_wise(*self, rhs);
    }

    fn div_assign_element_wise(&mut self, rhs: Vec4<S>) {
        *self = <Self as ElementWise<Vec4<S>>>::div_element_wise(*self, rhs);
    }

    fn rem_assign_element_wise(&mut self, rhs: Vec4<S>) {
        *self = <Self as ElementWise<Vec4<S>>>::rem_element_wise(*self, rhs);
    }
}

impl<S: Num> ElementWise<S> for Vec4<S> {
    open spec fn add_element_wise_spec(self, rhs: S) -> Self {
        Vec4 { x: S::from_int(self.x.value() + rhs.value()), y: S::from_int(self.y.value() + rhs.value()), z: S::from_int(self.z.value() + rhs.value()), w: S::from_int(self.w.value() + rhs.value()) }
    }

    open spec fn add_element_wise_fits(self, rhs: S) -> bool {
        S::fits(self.x.value() + rhs.value()) && S::fits(self.y.value() + rhs.value()) && S::fits(self.z.value() + rhs.value()) && S::fits(self.w.value() + rhs.value())
    }

    open spec fn sub_element_wise_spec(self, rhs: S) -> Self {
        Vec4 { x: S::from_int(self.x.value() - rhs.value()), y: S::from_int(self.y.value() - rhs.value()), z: S::from_int(self.z.value() - rhs.value()), w: S::from_int(self.w.value() - rhs.value()) }
    }

    open spec fn sub_element_wise_fits(self, rhs: S) -> bool {
        S::fits(self.x.value() - rhs.value()) && S::fits(self.y.value() - rhs.value()) && S::fits(self.z.value() - rhs.value()) && S::fits(self.w.value() - rhs.value())
    }

    open spec fn mul_element_wise_spec(self, rhs: S) -> Self {
        Vec4 { x: S::from_int(self.x.value() * rhs.value()), y: S::from_int(self.y.value() * rhs.value()), z: S::from_int(self.z.value() * rhs.value()), w: S::from_int(self.w.value() * rhs.value()) }
    }

    open spec fn mul_element_wise_fits(self, rhs: S) -> bool {
        S::fits(self.x.value() * rhs.value()) && S::fits(self.y.value() * rhs.value()) && S::fits(self.z.value() * rhs.value()) && S::fits(self.w.value() * rhs.value())
    }

    open spec fn div_element_wise_spec(self, rhs: S) -> Self {
        Vec4 { x: S::from_int(div_trunc(self.x.value(), rhs.value())), y: S::from_int(div_trunc(self.y.value(), rhs.value())), z: S::from_int(div_trunc(self.z.value(), rhs.value())), w: S::from_int(div_trunc(self.w.value(), rhs.value())) }
    }

    open spec fn div_element_wise_fits(self, rhs: S) -> bool {
        rhs.value() != 0 && 
        S::fits(div_trunc(self.x.value(), rhs.value())) && 
        S::fits(div_trunc(self.y.value(), rhs.value())) && 
        S::fits(div_trunc(self.z.value(), rhs.value())) && 
        S::fits(div_trunc(self.w.value(), rhs.value()))
    }

    open spec fn rem_element_wise_spec(self, rhs: S) -> Self {
        Vec4 { x: S::from_int(rem_trunc(self.x.value(), rhs.value())), y: S::from_int(rem_trunc(self.y.value(), rhs.value())), z: S::from_int(rem_trunc(self.z.value(), rhs.value())), w: S::from_int(rem_trunc(self.w.value(), rhs.value())) }
    }

    open spec fn rem_element_wise_fits(self, rhs: S) -> bool {
        rhs.value() != 0 && 
        S::fits(div_trunc(self.x.value(), rhs.value())) && 
        S::fits(div_trunc(self.y.value(), rhs.value())) && 
        S::fits(div_trunc(self.z.value(), rhs.value())) && 
        S::fits(div_trunc(self.w.value(), rhs.value()))
    }

    fn add_element_wise(self, rhs: S) -> (r: Self) {
        let r = Vec4 { x: self.x.plus(rhs), y: self.y.plus(rhs), z: self.z.plus(rhs), w: self.w.plus(rhs) };
        proof {
            r.lemma_canonical();
        }
        r
    }

    fn sub_element_wise(self, rhs: S) -> (r: Self) {
        let r = Vec4 { x: self.x.minus(rhs), y: self.y.minus(rhs), z: self.z.minus(rhs), w: self.w.minus(rhs) };
        proof {
            r.lemma_canonical();
        }
        r
    }

    fn mul_element_wise(self, rhs: S) -> (r: Self) {
        let r = Vec4 { x: self.x.times(rhs), y: self.y.times(rhs), z: self.z.times(rhs), w: self.w.times(rhs) };
        proof {
            r.lemma_canonical();
        }
        r
    }

    fn div_element_wise(self, rhs: S) -> (r: Self) {
        let r = Vec4 { x: self.x.quot(rhs), y: self.y.quot(rhs), z: self.z.quot(rhs), w: self.w.quot(rhs) };
        proof {
            r.lemma_canonical();
        }
        r
    }

    fn rem_element_wise(self, rhs: S) -> (r: Self) {
        let r = Vec4 { x: self.x.modulo(rhs), y: self.y.modulo(rhs), z: self.z.modulo(rhs), w: self.w.modulo(rhs) };
        proof {
            r.lemma_canonical();
        }
        r
    }

    fn add_assign_element_wise(&mut self, rhs: S) {
        *self = <Self as ElementWise<S>>::add_element_wise(*self, rhs);
    }

    fn sub_assign_element_wise(&mut self, rhs: S) {
        *self = <Self as ElementWise<S>>::sub_element_wise(*self, rhs);
    }

    fn mul_assign_element_wise(&mut self, rhs: S) {
        *self = <Self as ElementWise<S>>::mul_element_wise(*self, rhs);
    }

    fn div_assign_element_wise(&mut self, rhs: S) {
        *self = <Self as ElementWise<S>>::div_element_wise(*self, rhs);
    }

    fn rem_assign_element_wise(&mut self, rhs: S) {
        *self = <Self as ElementWise<S>>::rem_element_wise(*self, rhs);
    }
}

impl<S: Copy> From<Vec1<S>> for [S; 1] {
    /// The components in order.
    fn from(v: Vec1<S>) -> (r: [S; 1])
        ensures
            r == [v.x],
    {
        [v.x]
    }
}

impl<S: Copy> vstd::std_specs::convert::FromSpecImpl<Vec1<S>> for [S; 1] {
    open spec fn obeys_from_spec() -> bool {
        true
    }

    open spec fn from_spec(v: Vec1<S>) -> [S; 1] {
        [v.x]
    }
}

impl<S: Copy> From<[S; 1]> for Vec1<S> {
    /// The vector whose components are the array's, in order.
    fn from(v: [S; 1]) -> (r: Vec1<S>)
        ensures
            r == (Vec1 { x: v@[0] }),
    {
        Vec1 { x: v[0] }
    }
}

impl<S: Copy> vstd::std_specs::convert::FromSpecImpl<[S; 1]> for Vec1<S> {
    open spec fn obeys_from_spec() -> bool {
        true
    }

    open spec fn from_spec(v: [S; 1]) -> Vec1<S> {
        Vec1 { x: v@[0] }
    }
}

impl<S: Copy> From<Vec1<S>> for (S,) {
    /// The components in order.
    fn from(v: Vec1<S>) -> (r: (S,))
        ensures
            r == (v.x,),
    {
        (v.x,)
    }
}

impl<S: Copy> vstd::std_specs::convert::FromSpecImpl<Vec1<S>> for (S,) {
    open spec fn obeys_from_spec() -> bool {
        true
    }

    open spec fn from_spec(v: Vec1<S>) -> (S,) {
        (v.x,)
    }
}

impl<S: Copy> From<(S,)> for Vec1<S> {
    /// The vector whose components are the tuple's, in order.
    fn from(t: (S,)) -> (r: Vec1<S>)
        ensures
            r == (Vec1 { x: t.0 }),
    {
        Vec1 { x: t.0 }
    }
}

impl<S: Copy> vstd::std_specs::convert::FromSpecImpl<(S,)> for Vec1<S> {
    open spec fn obeys_from_spec() -> bool {
        true
    }

    open spec fn from_spec(t: (S,)) -> Vec1<S> {
        Vec1 { x: t.0 }
    }
}

impl<S: Copy> From<Vec2<S>> for [S; 2] {
    /// The components in order.
    fn from(v: Vec2<S>) -> (r: [S; 2])
        ensures
            r == [v.x, v.y],
    {
        [v.x, v.y]
    }
}

impl<S: Copy> vstd::std_specs::convert::FromSpecImpl<Vec2<S>> for [S; 2] {
    open spec fn obeys_from_spec() -> bool {
        true
    }

    open spec fn from_spec(v: Vec2<S>) -> [S; 2] {
        [v.x, v.y]
    }
}

impl<S: Copy> From<[S; 2]> for Vec2<S> {
    /// The vector whose components are the array's, in order.
    fn from(v: [S; 2]) -> (r: Vec2<S>)
        ensures
            r == (Vec2 { x: v@[0], y: v@[1] }),
    {
        Vec2 { x: v[0], y: v[1] }
    }
}

impl<S: Copy> vstd::std_specs::convert::FromSpecImpl<[S; 2]> for Vec2<S> {
    open spec fn obeys_from_spec() -> bool {
        true
    }

    open spec fn from_spec(v: [S; 2]) -> Vec2<S> {
        Vec2 { x: v@[0], y: v@[1] }
    }
}

impl<S: Copy> From<Vec2<S>> for (S, S) {
    /// The components in order.
    fn from(v: Vec2<S>) -> (r: (S, S))
        ensures
            r == (v.x, v.y),
    {
        (v.x, v.y)
    }
}

impl<S: Copy> vstd::std_specs::convert::FromSpecImpl<Vec2<S>> for (S, S) {
    open spec fn obeys_from_spec() -> bool {
        true
    }

    open spec fn from_spec(v: Vec2<S>) -> (S, S) {
        (v.x, v.y)
    }
}

impl<S: Copy> From<(S, S)> for Vec2<S> {
    /// The vector whose components are the tuple's, in order.
    fn from(t: (S, S)) -> (r: Vec2<S>)
        ensures
            r == (Vec2 { x: t.0, y: t.1 }),
    {
        Vec2 { x: t.0, y: t.1 }
    }
}

impl<S: Copy> vstd::std_specs::convert::FromSpecImpl<(S, S)> for Vec2<S> {
    open spec fn obeys_from_spec() -> bool {
        true
    }

    open spec fn from_spec(t: (S, S)) -> Vec2<S> {
        Vec2 { x: t.0, y: t.1 }
    }
}

impl<S: Copy> From<Vec3<S>> for [S; 3] {
    /// The components in order.
    fn from(v: Vec3<S>) -> (r: [S; 3])
        ensures
            r == [v.x, v.y, v.z],
    {
        [v.x, v.y, v.z]
    }
}

impl<S: Copy> vstd::std_specs::convert::FromSpecImpl<Vec3<S>> for [S; 3] {
    open spec fn obeys_from_spec() -> bool {
        true
    }

    open spec fn from_spec(v: Vec3<S>) -> [S; 3] {
        [v.x, v.y, v.z]
    }
}

impl<S: Copy> From<[S; 3]> for Vec3<S> {
    /// The vector whose components are the array's, in order.
    fn from(v: [S; 3]) -> (r: Vec3<S>)
        ensures
            r == (Vec3 { x: v@[0], y: v@[1], z: v@[2] }),
    {
        Vec3 { x: v[0], y: v[1], z: v[2] }
    }
}

impl<S: Copy> vstd::std_specs::convert::FromSpecImpl<[S; 3]> for Vec3<S> {
    open spec fn obeys_from_spec() -> bool {
        true
    }

    open spec fn from_spec(v: [S; 3]) -> Vec3<S> {
        Vec3 { x: v@[0], y: v@[1], z: v@[2] }
    }
}

impl<S: Copy> From<Vec3<S>> for (S, S, S) {
    /// The components in order.
    fn from(v: Vec3<S>) -> (r: (S, S, S))
        ensures
            r == (v.x, v.y, v.z),
    {
        (v.x, v.y, v.z)
    }
}

impl<S: Copy> vstd::std_specs::convert::FromSpecImpl<Vec3<S>> for (S, S, S) {
    open spec fn obeys_from_spec() -> bool {
        true
    }

    open spec fn from_spec(v: Vec3<S>) -> (S, S, S) {
        (v.x, v.y, v.z)
    }
}

impl<S: Copy> From<(S, S, S)> for Vec3<S> {
    /// The vector whose components are the tuple's, in order.
    fn from(t: (S, S, S)) -> (r: Vec3<S>)
        ensures
            r == (Vec3 { x: t.0, y: t.1, z: t.2 }),
    {
        Vec3 { x: t.0, y: t.1, z: t.2 }
    }
}

impl<S: Copy> vstd::std_specs::convert::FromSpecImpl<(S, S, S)> for Vec3<S> {
    open spec fn obeys_from_spec() -> bool {
        true
    }

    open spec fn from_spec(t: (S, S, S)) -> Vec3<S> {
        Vec3 { x: t.0, y: t.1, z: t.2 }
    }
}

impl<S: Copy> From<Vec4<S>> for [S; 4] {
    /// The components in order.
    fn from(v: Vec4<S>) -> (r: [S; 4])
        ensures
            r == [v.x, v.y, v.z, v.w],
    {
        [v.x, v.y, v.z, v.w]
    }
}

impl<S: Copy> vstd::std_specs::convert::FromSpecImpl<Vec4<S>> for [S; 4] {
    open spec fn obeys_from_spec() -> bool {
        true
    }

    open spec fn from_spec(v: Vec4<S>) -> [S; 4] {
        [v.x, v.y, v.z, v.w]
    }
}

impl<S: Copy> From<[S; 4]> for Vec4<S> {
    /// The vector whose components are the array's, in order.
    fn from(v: [S; 4]) -> (r: Vec4<S>)
        ensures
            r == (Vec4 { x: v@[0], y: v@[1], z: v@[2], w: v@[3] }),
    {
        Vec4 { x: v[0], y: v[1], z: v[2], w: v[3] }
    }
}

impl<S: Copy> vstd::std_specs::convert::FromSpecImpl<[S; 4]> for Vec4<S> {
    open spec fn obeys_from_spec() -> bool {
        true
    }

    open spec fn from_spec(v: [S; 4]) -> Vec4<S> {
        Vec4 { x: v@[0], y: v@[1], z: v@[2], w: v@[3] }
    }
}

impl<S: Copy> From<Vec4<S>> for (S, S, S, S) {
    /// The components in order.
    fn from(v: Vec4<S>) -> (r: (S, S, S, S))
        ensures
            r == (v.x, v.y, v.z, v.w),
    {
        (v.x, v.y, v.z, v.w)
    }
}

impl<S: Copy> vstd::std_specs::convert::FromSpecImpl<Vec4<S>> for (S, S, S, S) {
    open spec fn obeys_from_spec() -> bool {
        true
    }

    open spec fn from_spec(v: Vec4<S>) -> (S, S, S, S) {
        (v.x, v.y, v.z, v.w)
    }
}

impl<S: Copy> From<(S, S, S, S)> for Vec4<S> {
    /// The vector whose components are the tuple's, in order.
    fn from(t: (S, S, S, S)) -> (r: Vec4<S>)
        ensures
            r == (Vec4 { x: t.0, y: t.1, z: t.2, w: t.3 }),
    {
        Vec4 { x: t.0, y: t.1, z: t.2, w: t.3 }
    }
}

impl<S: Copy> vstd::std_specs::convert::FromSpecImpl<(S, S, S, S)> for Vec4<S> {
    open spec fn obeys_from_spec() -> bool {
        true
    }

    open spec fn from_spec(t: (S, S, S, S)) -> Vec4<S> {
        Vec4 { x: t.0, y: t.1, z: t.2, w: t.3 }
    }
}

} // verus!
