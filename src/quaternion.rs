use vstd::prelude::*;
use crate::matrix::{Mat3, Mat4};
use crate::num::{div_trunc, lemma_from_int_value, rem_trunc, Num, Signed};
use crate::structure::{InnerSpace, MetricSpace, VectorSpace};
use crate::vector::Vec3;

verus! {

broadcast use lemma_from_int_value;

/// The Hamilton product of two quaternions given as `(s, x, y, z)`.
pub open spec fn hamilton(a: (int, int, int, int), b: (int, int, int, int)) -> (int, int, int, int) {
    (
        a.0 * b.0 - a.1 * b.1 - a.2 * b.2 - a.3 * b.3,
        a.0 * b.1 + a.1 * b.0 + a.2 * b.3 - a.3 * b.2,
        a.0 * b.2 + a.2 * b.0 + a.3 * b.1 - a.1 * b.3,
        a.0 * b.3 + a.3 * b.0 + a.1 * b.2 - a.2 * b.1,
    )
}

/// The Hamilton product is associative.
proof fn lemma_hamilton_associative(a: (int, int, int, int), b: (int, int, int, int), c: (int, int, int, int))
    ensures
        hamilton(hamilton(a, b), c) == hamilton(a, hamilton(b, c)),
{
    broadcast use vstd::arithmetic::mul::group_mul_is_distributive,
        vstd::arithmetic::mul::lemma_mul_is_associative;

}

/// Doubling one factor doubles the product.
proof fn lemma_doubled_products(s: int, x: int, y: int, z: int)
    by (nonlinear_arith)
    ensures
        (x + x) * x == 2 * x * x,
        (x + x) * y == 2 * x * y,
        (x + x) * z == 2 * x * z,
        (y + y) * y == 2 * y * y,
        (y + y) * z == 2 * y * z,
        (z + z) * z == 2 * z * z,
        (y + y) * s == 2 * y * s,
        (z + z) * s == 2 * z * s,
        (x + x) * s == 2 * x * s,
{
}

/// A quaternion `s + v.x i + v.y j + v.z k`: a scalar part and a vector part.
#[derive(Clone, Copy, Debug, PartialEq, Eq)]
pub struct Quat<S> {
    pub s: S,
    pub v: Vec3<S>,
}

impl<S> Quat<S> {
    /// The quaternion `w + xi i + yj j + zk k`.
    pub fn new(w: S, xi: S, yj: S, zk: S) -> (r: Quat<S>)
        ensures
            r.s == w,
            r.v.x == xi,
            r.v.y == yj,
            r.v.z == zk,
    {
        Quat::from_sv(w, Vec3::new(xi, yj, zk))
    }

    /// The quaternion with scalar part `s` and vector part `v`.
    pub fn from_sv(s: S, v: Vec3<S>) -> (r: Quat<S>)
        ensures
            r.s == s,
            r.v == v,
    {
        Quat { s, v }
    }
}

impl<S: Num> Quat<S> {
    /// Each part is the scalar its value stands for.
    pub proof fn lemma_canonical(self)
        ensures
            S::from_int(self.s.value()) == self.s,
            S::from_int(self.v.x.value()) == self.v.x,
            S::from_int(self.v.y.value()) == self.v.y,
            S::from_int(self.v.z.value()) == self.v.z,
    {
        S::lemma_value(self.s, self.s);
        self.v.lemma_canonical();
    }

    /// The quaternion whose parts stand for the four integers.
    pub open spec fn from_ints(s: int, x: int, y: int, z: int) -> Self {
        Quat { s: S::from_int(s), v: Vec3 { x: S::from_int(x), y: S::from_int(y), z: S::from_int(z) } }
    }

    /// The identity `1 + 0i + 0j + 0k`.
    pub open spec fn spec_identity() -> Self {
        Quat { s: S::ONE, v: Vec3::<S>::spec_zero() }
    }

    /// The conjugate: the vector part negated.
    pub open spec fn spec_conjugate(self) -> Self {
        Quat { s: self.s, v: self.v.spec_neg() }
    }

    /// The componentwise sum.
    pub open spec fn spec_add(self, rhs: Quat<S>) -> Self {
        Quat { s: S::from_int(self.s.value() + rhs.s.value()), v: self.v.spec_add(rhs.v) }
    }

    /// Whether each componentwise sum stays in range.
    pub open spec fn fits_add(self, rhs: Quat<S>) -> bool {
        S::fits(self.s.value() + rhs.s.value()) && self.v.fits_add(rhs.v)
    }

    /// The componentwise difference.
    pub open spec fn spec_sub(self, rhs: Quat<S>) -> Self {
        Quat { s: S::from_int(self.s.value() - rhs.s.value()), v: self.v.spec_sub(rhs.v) }
    }

    /// Whether each componentwise difference stays in range.
    pub open spec fn fits_sub(self, rhs: Quat<S>) -> bool {
        S::fits(self.s.value() - rhs.s.value()) && self.v.fits_sub(rhs.v)
    }

    /// Each part multiplied by `rhs`.
    pub open spec fn spec_scale(self, rhs: S) -> Self {
        Quat { s: S::from_int(self.s.value() * rhs.value()), v: self.v.spec_scale(rhs) }
    }

    /// Whether each part times `rhs` stays in range.
    pub open spec fn fits_scale(self, rhs: S) -> bool {
        S::fits(self.s.value() * rhs.value()) && self.v.fits_scale(rhs)
    }

    /// Each part divided by `rhs`, rounded toward zero.
    pub open spec fn spec_div(self, rhs: S) -> Self {
        Quat { s: S::from_int(div_trunc(self.s.value(), rhs.value())), v: self.v.spec_div(rhs) }
    }

    /// Whether `rhs` is not zero and each quotient stays in range.
    pub open spec fn fits_div(self, rhs: S) -> bool {
        rhs.value() != 0 && S::fits(div_trunc(self.s.value(), rhs.value())) && self.v.fits_div(rhs)
    }

    /// The remainder of each part divided by `rhs`.
    pub open spec fn spec_rem(self, rhs: S) -> Self {
        Quat { s: S::from_int(rem_trunc(self.s.value(), rhs.value())), v: self.v.spec_rem(rhs) }
    }

    /// Each part negated.
    pub open spec fn spec_neg(self) -> Self {
        Quat { s: S::from_int(-self.s.value()), v: self.v.spec_neg() }
    }

    /// Whether each negated part stays in range.
    pub open spec fn fits_neg(self) -> bool {
        S::fits(-self.s.value()) && self.v.fits_neg()
    }

    /// The Hamilton product.
    pub open spec fn spec_mul(self, rhs: Self) -> Self {
        let p = hamilton(
            (self.s.value(), self.v.x.value(), self.v.y.value(), self.v.z.value()),
            (rhs.s.value(), rhs.v.x.value(), rhs.v.y.value(), rhs.v.z.value()),
        );
        Self::from_ints(p.0, p.1, p.2, p.3)
    }

    /// Quaternion multiplication is associative.
    pub proof fn lemma_mul_associative(a: Self, b: Self, c: Self)
        requires
            a.fits_mul(b),
            b.fits_mul(c),
            a.spec_mul(b).fits_mul(c),
            a.fits_mul(b.spec_mul(c)),
        ensures
            a.spec_mul(b).spec_mul(c) == a.spec_mul(b.spec_mul(c)),
    {
        lemma_hamilton_associative(
            (a.s.value(), a.v.x.value(), a.v.y.value(), a.v.z.value()),
            (b.s.value(), b.v.x.value(), b.v.y.value(), b.v.z.value()),
            (c.s.value(), c.v.x.value(), c.v.y.value(), c.v.z.value()),
        );
    }

    /// Whether every product and partial sum of the Hamilton product stays in range.
    pub open spec fn fits_mul(self, rhs: Self) -> bool {
        let (s0, x0, y0, z0) = (self.s.value(), self.v.x.value(), self.v.y.value(), self.v.z.value());
        let (s1, x1, y1, z1) = (rhs.s.value(), rhs.v.x.value(), rhs.v.y.value(), rhs.v.z.value());
        &&& S::fits(s0 * s1) && S::fits(x0 * x1) && S::fits(y0 * y1) && S::fits(z0 * z1)
        &&& S::fits(s0 * s1 - x0 * x1) && S::fits(s0 * s1 - x0 * x1 - y0 * y1)
        &&& S::fits(s0 * s1 - x0 * x1 - y0 * y1 - z0 * z1)
        &&& S::fits(s0 * x1) && S::fits(x0 * s1) && S::fits(y0 * z1) && S::fits(z0 * y1)
        &&& S::fits(s0 * x1 + x0 * s1) && S::fits(s0 * x1 + x0 * s1 + y0 * z1)
        &&& S::fits(s0 * x1 + x0 * s1 + y0 * z1 - z0 * y1)
        &&& S::fits(s0 * y1) && S::fits(y0 * s1) && S::fits(z0 * x1) && S::fits(x0 * z1)
        &&& S::fits(s0 * y1 + y0 * s1) && S::fits(s0 * y1 + y0 * s1 + z0 * x1)
        &&& S::fits(s0 * y1 + y0 * s1 + z0 * x1 - x0 * z1)
        &&& S::fits(s0 * z1) && S::fits(z0 * s1) && S::fits(x0 * y1) && S::fits(y0 * x1)
        &&& S::fits(s0 * z1 + z0 * s1) && S::fits(s0 * z1 + z0 * s1 + x0 * y1)
        &&& S::fits(s0 * z1 + z0 * s1 + x0 * y1 - y0 * x1)
    }

    /// The vector `v` rotated by the quaternion:
    /// `v + 2 * (q.v x (q.v x v + s * v))`.
    pub open spec fn spec_rotate(self, v: Vec3<S>) -> Vec3<S> {
        let tmp = self.v.spec_cross(v).spec_add(v.spec_scale(self.s));
        self.v.spec_cross(tmp).spec_scale(S::from_int(2)).spec_add(v)
    }

    /// Whether every step of `spec_rotate` stays in range.
    pub open spec fn fits_rotate(self, v: Vec3<S>) -> bool {
        let tmp = self.v.spec_cross(v).spec_add(v.spec_scale(self.s));
        &&& S::fits(2)
        &&& self.v.fits_cross(v)
        &&& v.fits_scale(self.s)
        &&& self.v.spec_cross(v).fits_add(v.spec_scale(self.s))
        &&& self.v.fits_cross(tmp)
        &&& self.v.spec_cross(tmp).fits_scale(S::from_int(2))
        &&& self.v.spec_cross(tmp).spec_scale(S::from_int(2)).fits_add(v)
    }

    /// The entry at column `c`, row `r` of the rotation matrix of a unit
    /// quaternion.
    pub open spec fn rotation_entry(self, c: int, r: int) -> int {
        let (s, x, y, z) = (self.s.value(), self.v.x.value(), self.v.y.value(), self.v.z.value());
        if c == 0 {
            if r == 0 { 1 - 2 * y * y - 2 * z * z } else if r == 1 { 2 * x * y + 2 * z * s } else { 2 * x * z - 2 * y * s }
        } else if c == 1 {
            if r == 0 { 2 * x * y - 2 * z * s } else if r == 1 { 1 - 2 * x * x - 2 * z * z } else { 2 * y * z + 2 * x * s }
        } else {
            if r == 0 { 2 * x * z + 2 * y * s } else if r == 1 { 2 * y * z - 2 * x * s } else { 1 - 2 * x * x - 2 * y * y }
        }
    }

    /// Whether every step of building the rotation matrix stays in range.
    pub open spec fn fits_rotation(self) -> bool {
        let (s, x, y, z) = (self.s.value(), self.v.x.value(), self.v.y.value(), self.v.z.value());
        &&& S::fits(2 * x) && S::fits(2 * y) && S::fits(2 * z)
        &&& S::fits(2 * x * x) && S::fits(2 * x * y) && S::fits(2 * x * z)
        &&& S::fits(2 * y * y) && S::fits(2 * y * z) && S::fits(2 * z * z)
        &&& S::fits(2 * y * s) && S::fits(2 * z * s) && S::fits(2 * x * s)
        &&& S::fits(1 - 2 * y * y) && S::fits(1 - 2 * x * x)
        &&& S::fits(self.rotation_entry(0, 0)) && S::fits(self.rotation_entry(0, 1)) && S::fits(self.rotation_entry(0, 2))
        &&& S::fits(self.rotation_entry(1, 0)) && S::fits(self.rotation_entry(1, 1)) && S::fits(self.rotation_entry(1, 2))
        &&& S::fits(self.rotation_entry(2, 0)) && S::fits(self.rotation_entry(2, 1)) && S::fits(self.rotation_entry(2, 2))
    }

    /// The quaternion `0 + 0i + 0j + 0k`.
    pub fn zero() -> (r: Self)
        ensures
            r == (Quat { s: S::ZERO, v: Vec3::<S>::spec_zero() }),
    {
        Quat { s: S::ZERO, v: Vec3::zero() }
    }

    /// The identity quaternion `1 + 0i + 0j + 0k`.
    pub fn one() -> (r: Self)
        ensures
            r == Self::spec_identity(),
    {
        Quat { s: S::ONE, v: Vec3::zero() }
    }
}

impl<S: Signed> Quat<S> {
    /// The conjugate: the vector part negated.
    pub fn conjugate(self) -> (r: Quat<S>)
        requires
            self.v.fits_neg(),
        ensures
            r == self.spec_conjugate(),
    {
        Quat::from_sv(self.s, core::ops::Neg::neg(self.v))
    }

    /// The conjugate divided by the squared magnitude, each part rounded
    /// toward zero.
    pub fn invert(&self) -> (r: Quat<S>)
        requires
            self.v.fits_neg(),
            self.dot_fits(*self),
            self.dot_spec(*self) != 0,
            self.spec_conjugate().fits_div(S::from_int(self.dot_spec(*self))),
        ensures
            r == self.spec_conjugate().spec_div(S::from_int(self.dot_spec(*self))),
    {
        let m = self.magnitude2();
        proof {
            S::lemma_value(m, m);
        }
        self.conjugate() / m
    }

    /// A unit quaternion times its conjugate is the identity.
    pub proof fn lemma_mul_conjugate(q: Self)
        requires
            q.dot_spec(q) == 1,
        ensures
            q.v.fits_neg(),
            q.fits_mul(q.spec_conjugate()),
            q.spec_mul(q.spec_conjugate()) == Self::spec_identity(),
    {
        S::lemma_small_values();
        S::lemma_value(S::ZERO, S::ONE);
        S::lemma_value(S::ONE, S::ZERO);
        q.lemma_canonical();
        let (s, x, y, z) = (q.s.value(), q.v.x.value(), q.v.y.value(), q.v.z.value());
        assert(-1 <= s <= 1 && -1 <= x <= 1 && -1 <= y <= 1 && -1 <= z <= 1) by (nonlinear_arith)
            requires
                s * s + x * x + y * y + z * z == 1,
        {
        }
        let c = q.spec_conjugate();
        assert(c.v.x.value() == -x && c.v.y.value() == -y && c.v.z.value() == -z);
        assert(-1 <= s * s <= 1 && -1 <= x * x <= 1 && -1 <= y * y <= 1 && -1 <= z * z <= 1
            && -1 <= s * x <= 1 && -1 <= s * y <= 1 && -1 <= s * z <= 1 && -1 <= x * y <= 1
            && -1 <= x * z <= 1 && -1 <= y * z <= 1) by (nonlinear_arith)
            requires
                -1 <= s <= 1 && -1 <= x <= 1 && -1 <= y <= 1 && -1 <= z <= 1,
        {
        }
        assert(s * -x + x * s + y * -z - z * -y == 0 && s * -y + y * s + z * -x - x * -z == 0
            && s * -z + z * s + x * -y - y * -x == 0 && s * s - x * -x - y * -y - z * -z == 1)
            by (nonlinear_arith)
            requires
                s * s + x * x + y * y + z * z == 1,
        {
        }
    }
}

impl<S: Num> core::ops::Add<Quat<S>> for Quat<S> {
    type Output = Quat<S>;

    fn add(self, rhs: Quat<S>) -> (r: Quat<S>)
        ensures
            r == self.spec_add(rhs),
    {
        let r = Quat { s: self.s.plus(rhs.s), v: self.v + rhs.v };
        proof {
            S::lemma_value(r.s, r.s);
        }
        r
    }
}

impl<S: Num> vstd::std_specs::ops::AddSpecImpl<Quat<S>> for Quat<S> {
    open spec fn obeys_add_spec() -> bool {
        true
    }

    open spec fn add_req(self, rhs: Quat<S>) -> bool {
        self.fits_add(rhs)
    }

    open spec fn add_spec(self, rhs: Quat<S>) -> Quat<S> {
        self.spec_add(rhs)
    }
}

impl<S: Num> core::ops::Sub<Quat<S>> for Quat<S> {
    type Output = Quat<S>;

    fn sub(self, rhs: Quat<S>) -> (r: Quat<S>)
        ensures
            r == self.spec_sub(rhs),
    {
        let r = Quat { s: self.s.minus(rhs.s), v: self.v - rhs.v };
        proof {
            S::lemma_value(r.s, r.s);
        }
        r
    }
}

impl<S: Num> vstd::std_specs::ops::SubSpecImpl<Quat<S>> for Quat<S> {
    open spec fn obeys_sub_spec() -> bool {
        true
    }

    open spec fn sub_req(self, rhs: Quat<S>) -> bool {
        self.fits_sub(rhs)
    }

    open spec fn sub_spec(self, rhs: Quat<S>) -> Quat<S> {
        self.spec_sub(rhs)
    }
}

impl<S: Num> core::ops::Mul<S> for Quat<S> {
    type Output = Quat<S>;

    fn mul(self, rhs: S) -> (r: Quat<S>)
        ensures
            r == self.spec_scale(rhs),
    {
        let r = Quat { s: self.s.times(rhs), v: self.v * rhs };
        proof {
            S::lemma_value(r.s, r.s);
        }
        r
    }
}

impl<S: Num> vstd::std_specs::ops::MulSpecImpl<S> for Quat<S> {
    open spec fn obeys_mul_spec() -> bool {
        true
    }

    open spec fn mul_req(self, rhs: S) -> bool {
        self.fits_scale(rhs)
    }

    open spec fn mul_spec(self, rhs: S) -> Quat<S> {
        self.spec_scale(rhs)
    }
}

impl<S: Num> core::ops::Div<S> for Quat<S> {
    type Output = Quat<S>;

    fn div(self, rhs: S) -> (r: Quat<S>)
        ensures
            r == self.spec_div(rhs),
    {
        let r = Quat { s: self.s.quot(rhs), v: self.v / rhs };
        proof {
            S::lemma_value(r.s, r.s);
        }
        r
    }
}

impl<S: Num> vstd::std_specs::ops::DivSpecImpl<S> for Quat<S> {
    open spec fn obeys_div_spec() -> bool {
        true
    }

    open spec fn div_req(self, rhs: S) -> bool {
        self.fits_div(rhs)
    }

    open spec fn div_spec(self, rhs: S) -> Quat<S> {
        self.spec_div(rhs)
    }
}

impl<S: Num> core::ops::Rem<S> for Quat<S> {
    type Output = Quat<S>;

    fn rem(self, rhs: S) -> (r: Quat<S>)
        ensures
            r == self.spec_rem(rhs),
    {
        let r = Quat { s: self.s.modulo(rhs), v: self.v % rhs };
        proof {
            S::lemma_value(r.s, r.s);
        }
        r
    }
}

impl<S: Num> vstd::std_specs::ops::RemSpecImpl<S> for Quat<S> {
    open spec fn obeys_rem_spec() -> bool {
        true
    }

    open spec fn rem_req(self, rhs: S) -> bool {
        self.fits_div(rhs)
    }

    open spec fn rem_spec(self, rhs: S) -> Quat<S> {
        self.spec_rem(rhs)
    }
}

impl<S: Signed> core::ops::Neg for Quat<S> {
    type Output = Quat<S>;

    fn neg(self) -> (r: Quat<S>)
        ensures
            r == self.spec_neg(),
    {
        let r = Quat { s: self.s.negate(), v: core::ops::Neg::neg(self.v) };
        proof {
            S::lemma_value(r.s, r.s);
        }
        r
    }
}

impl<S: Signed> vstd::std_specs::ops::NegSpecImpl for Quat<S> {
    open spec fn obeys_neg_spec() -> bool {
        true
    }

    open spec fn neg_req(self) -> bool {
        self.fits_neg()
    }

    open spec fn neg_spec(self) -> Quat<S> {
        self.spec_neg()
    }
}

impl<S: Num> core::ops::Mul<Quat<S>> for Quat<S> {
    type Output = Quat<S>;

    fn mul(self, rhs: Quat<S>) -> (r: Quat<S>)
        ensures
            r == self.spec_mul(rhs),
    {
        let (a, b) = (self, rhs);
        let r = Quat::new(
            a.s.times(b.s).minus(a.v.x.times(b.v.x)).minus(a.v.y.times(b.v.y)).minus(a.v.z.times(b.v.z)),
            a.s.times(b.v.x).plus(a.v.x.times(b.s)).plus(a.v.y.times(b.v.z)).minus(a.v.z.times(b.v.y)),
            a.s.times(b.v.y).plus(a.v.y.times(b.s)).plus(a.v.z.times(b.v.x)).minus(a.v.x.times(b.v.z)),
            a.s.times(b.v.z).plus(a.v.z.times(b.s)).plus(a.v.x.times(b.v.y)).minus(a.v.y.times(b.v.x)),
        );
        proof {
            r.lemma_canonical();
        }
        r
    }
}

impl<S: Num> vstd::std_specs::ops::MulSpecImpl<Quat<S>> for Quat<S> {
    open spec fn obeys_mul_spec() -> bool {
        true
    }

    open spec fn mul_req(self, rhs: Quat<S>) -> bool {
        self.fits_mul(rhs)
    }

    open spec fn mul_spec(self, rhs: Quat<S>) -> Quat<S> {
        self.spec_mul(rhs)
    }
}

impl<S: Num> core::ops::Mul<Vec3<S>> for Quat<S> {
    type Output = Vec3<S>;

    fn mul(self, rhs: Vec3<S>) -> (r: Vec3<S>)
        ensures
            r == self.spec_rotate(rhs),
    {
        proof {
            S::lemma_value(S::ONE, S::ONE);
        }
        let two = S::ONE.plus(S::ONE);
        proof {
            S::lemma_value(two, S::ONE);
        }
        let tmp = self.v.cross(rhs) + (rhs * self.s);
        (self.v.cross(tmp) * two) + rhs
    }
}

impl<S: Num> vstd::std_specs::ops::MulSpecImpl<Vec3<S>> for Quat<S> {
    open spec fn obeys_mul_spec() -> bool {
        true
    }

    open spec fn mul_req(self, rhs: Vec3<S>) -> bool {
        self.fits_rotate(rhs)
    }

    open spec fn mul_spec(self, rhs: Vec3<S>) -> Vec3<S> {
        self.spec_rotate(rhs)
    }
}

impl<S: Num> VectorSpace for Quat<S> {
    type Scalar = S;
}

impl<S: Num> InnerSpace for Quat<S> {
    open spec fn dot_spec(self, other: Self) -> int {
        self.s.value() * other.s.value() + self.v.dot_spec(other.v)
    }

    open spec fn dot_fits(self, other: Self) -> bool {
        &&& S::fits(self.s.value() * other.s.value())
        &&& self.v.dot_fits(other.v)
        &&& S::fits(self.dot_spec(other))
    }

    fn dot(self, other: Self) -> (r: S) {
        self.s.times(other.s).plus(self.v.dot(other.v))
    }
}

impl<S: Num> MetricSpace for Quat<S> {
    type Metric = S;

    open spec fn distance2_spec(self, other: Self) -> int {
        let d = Quat::<S>::from_ints(
            other.s.value() - self.s.value(),
            other.v.x.value() - self.v.x.value(),
            other.v.y.value() - self.v.y.value(),
            other.v.z.value() - self.v.z.value(),
        );
        d.dot_spec(d)
    }

    open spec fn distance2_fits(self, other: Self) -> bool {
        let d = Quat::<S>::from_ints(
            other.s.value() - self.s.value(),
            other.v.x.value() - self.v.x.value(),
            other.v.y.value() - self.v.y.value(),
            other.v.z.value() - self.v.z.value(),
        );
        S::fits(other.s.value() - self.s.value()) && other.v.fits_sub(self.v) && d.dot_fits(d)
    }

    fn distance2(self, other: Self) -> (r: S) {
        let d = Quat { s: other.s.minus(self.s), v: other.v - self.v };
        d.magnitude2()
    }
}

impl<S: Num> Mat3<S> {
    /// The rotation matrix of a unit quaternion.
    pub fn from_quat(quat: Quat<S>) -> (r: Mat3<S>)
        requires
            quat.fits_rotation(),
        ensures
            r.x.x.value() == quat.rotation_entry(0, 0),
            r.x.y.value() == quat.rotation_entry(0, 1),
            r.x.z.value() == quat.rotation_entry(0, 2),
            r.y.x.value() == quat.rotation_entry(1, 0),
            r.y.y.value() == quat.rotation_entry(1, 1),
            r.y.z.value() == quat.rotation_entry(1, 2),
            r.z.x.value() == quat.rotation_entry(2, 0),
            r.z.y.value() == quat.rotation_entry(2, 1),
            r.z.z.value() == quat.rotation_entry(2, 2),
    {
        proof {
            S::lemma_value(S::ONE, S::ZERO);
            lemma_doubled_products(quat.s.value(), quat.v.x.value(), quat.v.y.value(), quat.v.z.value());
        }
        let x2 = quat.v.x.plus(quat.v.x);
        let y2 = quat.v.y.plus(quat.v.y);
        let z2 = quat.v.z.plus(quat.v.z);

        let xx2 = x2.times(quat.v.x);
        let xy2 = x2.times(quat.v.y);
        let xz2 = x2.times(quat.v.z);

        let yy2 = y2.times(quat.v.y);
        let yz2 = y2.times(quat.v.z);
        let zz2 = z2.times(quat.v.z);

        let sy2 = y2.times(quat.s);
        let sz2 = z2.times(quat.s);
        let sx2 = x2.times(quat.s);

        Mat3::new(
            S::ONE.minus(yy2).minus(zz2), xy2.plus(sz2), xz2.minus(sy2),
            xy2.minus(sz2), S::ONE.minus(xx2).minus(zz2), yz2.plus(sx2),
            xz2.plus(sy2), yz2.minus(sx2), S::ONE.minus(xx2).minus(yy2),
        )
    }
}

impl<S: Num> Mat4<S> {
    /// The homogeneous rotation matrix of a unit quaternion.
    pub fn from_quat(quat: Quat<S>) -> (r: Mat4<S>)
        requires
            quat.fits_rotation(),
        ensures
            r.x.x.value() == quat.rotation_entry(0, 0),
            r.x.y.value() == quat.rotation_entry(0, 1),
            r.x.z.value() == quat.rotation_entry(0, 2),
            r.y.x.value() == quat.rotation_entry(1, 0),
            r.y.y.value() == quat.rotation_entry(1, 1),
            r.y.z.value() == quat.rotation_entry(1, 2),
            r.z.x.value() == quat.rotation_entry(2, 0),
            r.z.y.value() == quat.rotation_entry(2, 1),
            r.z.z.value() == quat.rotation_entry(2, 2),
            r.x.w.value() == 0,
            r.y.w.value() == 0,
            r.z.w.value() == 0,
            r.w.x.value() == 0,
            r.w.y.value() == 0,
            r.w.z.value() == 0,
            r.w.w.value() == 1,
    {
        proof {
            S::lemma_value(S::ONE, S::ZERO);
            lemma_doubled_products(quat.s.value(), quat.v.x.value(), quat.v.y.value(), quat.v.z.value());
        }
        let x2 = quat.v.x.plus(quat.v.x);
        let y2 = quat.v.y.plus(quat.v.y);
        let z2 = quat.v.z.plus(quat.v.z);

        let xx2 = x2.times(quat.v.x);
        let xy2 = x2.times(quat.v.y);
        let xz2 = x2.times(quat.v.z);

        let yy2 = y2.times(quat.v.y);
        let yz2 = y2.times(quat.v.z);
        let zz2 = z2.times(quat.v.z);

        let sy2 = y2.times(quat.s);
        let sz2 = z2.times(quat.s);
        let sx2 = x2.times(quat.s);

        Mat4::new(
            S::ONE.minus(yy2).minus(zz2), xy2.plus(sz2), xz2.minus(sy2), S::ZERO,
            xy2.minus(sz2), S::ONE.minus(xx2).minus(zz2), yz2.plus(sx2), S::ZERO,
            xz2.plus(sy2), yz2.minus(sx2), S::ONE.minus(xx2).minus(yy2), S::ZERO,
            S::ZERO, S::ZERO, S::ZERO, S::ONE,
        )
    }
}

impl<S: Copy> From<Quat<S>> for (S, S, S, S) {
    /// The parts in the order `x, y, z, s`.
    fn from(q: Quat<S>) -> (r: (S, S, S, S))
        ensures
            r == (q.v.x, q.v.y, q.v.z, q.s),
    {
        let Quat { s, v: Vec3 { x, y, z } } = q;
        (x, y, z, s)
    }
}

impl<S: Copy> vstd::std_specs::convert::FromSpecImpl<Quat<S>> for (S, S, S, S) {
    open spec fn obeys_from_spec() -> bool {
        true
    }

    open spec fn from_spec(q: Quat<S>) -> (S, S, S, S) {
        (q.v.x, q.v.y, q.v.z, q.s)
    }
}

impl<S: Copy> From<Quat<S>> for [S; 4] {
    /// The parts in the order `x, y, z, s`.
    fn from(q: Quat<S>) -> (r: [S; 4])
        ensures
            r == [q.v.x, q.v.y, q.v.z, q.s],
    {
        [q.v.x, q.v.y, q.v.z, q.s]
    }
}

impl<S: Copy> vstd::std_specs::convert::FromSpecImpl<Quat<S>> for [S; 4] {
    open spec fn obeys_from_spec() -> bool {
        true
    }

    open spec fn from_spec(q: Quat<S>) -> [S; 4] {
        [q.v.x, q.v.y, q.v.z, q.s]
    }
}

impl<S: Copy> From<[S; 4]> for Quat<S> {
    /// The quaternion from parts in the order `x, y, z, s`.
    fn from(v: [S; 4]) -> (r: Quat<S>)
        ensures
            r == (Quat { s: v@[3], v: Vec3 { x: v@[0], y: v@[1], z: v@[2] } }),
    {
        Quat::new(v[3], v[0], v[1], v[2])
    }
}

impl<S: Copy> vstd::std_specs::convert::FromSpecImpl<[S; 4]> for Quat<S> {
    open spec fn obeys_from_spec() -> bool {
        true
    }

    open spec fn from_spec(v: [S; 4]) -> Quat<S> {
        Quat { s: v@[3], v: Vec3 { x: v@[0], y: v@[1], z: v@[2] } }
    }
}

} // verus!
