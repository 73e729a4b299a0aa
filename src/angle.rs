use vstd::prelude::*;
use crate::num::{div_trunc, rem_trunc, Num, Signed};

verus! {

/// An angle `m` brought into `[0, full)`.
pub open spec fn normalized(m: int, full: int) -> int {
    m % full
}

/// An angle `m` brought into `(-half, half]`, where `full` is twice `half`.
pub open spec fn normalized_signed(m: int, full: int, half: int) -> int {
    if half < m % full {
        m % full - full
    } else {
        m % full
    }
}

/// An angle in some unit, with the turns of that unit and normalisation.
pub trait Angle: Sized + Copy {
    type Unitless: Num;

    /// The measure of the angle in its unit.
    spec fn measure(self) -> int;

    /// The measure of a full turn.
    spec fn full_turn_spec() -> int;

    /// The measure of a half turn.
    spec fn half_turn_spec() -> int;

    /// A full turn is two half turns, and a half turn is positive.
    proof fn lemma_turns()
        ensures
            Self::half_turn_spec() > 0,
            Self::full_turn_spec() == 2 * Self::half_turn_spec(),
    ;

    fn full_turn() -> (r: Self)
        ensures
            r.measure() == Self::full_turn_spec(),
    ;

    fn half_turn() -> (r: Self)
        ensures
            r.measure() == Self::half_turn_spec(),
    ;

    /// The same angle in `[0, FULL_TURN)`.
    fn normalize(self) -> (r: Self)
        ensures
            r.measure() == normalized(self.measure(), Self::full_turn_spec()),
            0 <= r.measure() < Self::full_turn_spec(),
    ;

    /// The same angle in `(-HALF_TURN, HALF_TURN]`.
    fn normalize_signed(self) -> (r: Self)
        ensures
            r.measure() == normalized_signed(self.measure(), Self::full_turn_spec(), Self::half_turn_spec()),
            -Self::half_turn_spec() < r.measure() <= Self::half_turn_spec(),
    ;

    /// The angle half a turn away, normalised.
    fn opposite(self) -> (r: Self)
        ensures
            r.measure() == normalized(self.measure() + Self::half_turn_spec(), Self::full_turn_spec()),
    ;
}

/// Adding whole turns to an angle does not change its normalised value.
pub proof fn lemma_normalize_periodic<A: Angle>(a: A, k: int)
    ensures
        normalized(a.measure() + k * A::full_turn_spec(), A::full_turn_spec()) == normalized(
            a.measure(),
            A::full_turn_spec(),
        ),
{
    A::lemma_turns();
    vstd::arithmetic::mul::lemma_mul_is_commutative(k, A::full_turn_spec());
    vstd::arithmetic::div_mod::lemma_mod_multiples_vanish(k, a.measure(), A::full_turn_spec());
}

/// An angle in degrees.
#[derive(Clone, Copy, Debug, PartialEq, Eq)]
pub struct Deg<S>(pub S);

impl<S: Num> core::ops::Add<Deg<S>> for Deg<S> {
    type Output = Deg<S>;

    fn add(self, rhs: Deg<S>) -> (r: Deg<S>)
        ensures
            r == Deg(S::from_int(self.0.value() + rhs.0.value())),
    {
        let r = Deg(self.0.plus(rhs.0));
        proof {
            S::lemma_value(r.0, r.0);
        }
        r
    }
}

impl<S: Num> vstd::std_specs::ops::AddSpecImpl<Deg<S>> for Deg<S> {
    open spec fn obeys_add_spec() -> bool {
        true
    }

    open spec fn add_req(self, rhs: Deg<S>) -> bool {
        S::fits(self.0.value() + rhs.0.value())
    }

    open spec fn add_spec(self, rhs: Deg<S>) -> Deg<S> {
        Deg(S::from_int(self.0.value() + rhs.0.value()))
    }
}

impl<S: Num> core::ops::Sub<Deg<S>> for Deg<S> {
    type Output = Deg<S>;

    fn sub(self, rhs: Deg<S>) -> (r: Deg<S>)
        ensures
            r == Deg(S::from_int(self.0.value() - rhs.0.value())),
    {
        let r = Deg(self.0.minus(rhs.0));
        proof {
            S::lemma_value(r.0, r.0);
        }
        r
    }
}

impl<S: Num> vstd::std_specs::ops::SubSpecImpl<Deg<S>> for Deg<S> {
    open spec fn obeys_sub_spec() -> bool {
        true
    }

    open spec fn sub_req(self, rhs: Deg<S>) -> bool {
        S::fits(self.0.value() - rhs.0.value())
    }

    open spec fn sub_spec(self, rhs: Deg<S>) -> Deg<S> {
        Deg(S::from_int(self.0.value() - rhs.0.value()))
    }
}

impl<S: Num> core::ops::Mul<S> for Deg<S> {
    type Output = Deg<S>;

    fn mul(self, rhs: S) -> (r: Deg<S>)
        ensures
            r == Deg(S::from_int(self.0.value() * rhs.value())),
    {
        let r = Deg(self.0.times(rhs));
        proof {
            S::lemma_value(r.0, r.0);
        }
        r
    }
}

impl<S: Num> vstd::std_specs::ops::MulSpecImpl<S> for Deg<S> {
    open spec fn obeys_mul_spec() -> bool {
        true
    }

    open spec fn mul_req(self, rhs: S) -> bool {
        S::fits(self.0.value() * rhs.value())
    }

    open spec fn mul_spec(self, rhs: S) -> Deg<S> {
        Deg(S::from_int(self.0.value() * rhs.value()))
    }
}

impl<S: Num> core::ops::Div<S> for Deg<S> {
    type Output = Deg<S>;

    fn div(self, rhs: S) -> (r: Deg<S>)
        ensures
            r == Deg(S::from_int(div_trunc(self.0.value(), rhs.value()))),
    {
        let r = Deg(self.0.quot(rhs));
        proof {
            S::lemma_value(r.0, r.0);
        }
        r
    }
}

impl<S: Num> vstd::std_specs::ops::DivSpecImpl<S> for Deg<S> {
    open spec fn obeys_div_spec() -> bool {
        true
    }

    open spec fn div_req(self, rhs: S) -> bool {
        rhs.value() != 0 && S::fits(div_trunc(self.0.value(), rhs.value()))
    }

    open spec fn div_spec(self, rhs: S) -> Deg<S> {
        Deg(S::from_int(div_trunc(self.0.value(), rhs.value())))
    }
}

impl<S: Num> core::ops::Rem<Deg<S>> for Deg<S> {
    type Output = Deg<S>;

    fn rem(self, rhs: Deg<S>) -> (r: Deg<S>)
        ensures
            r == Deg(S::from_int(rem_trunc(self.0.value(), rhs.0.value()))),
    {
        let r = Deg(self.0.modulo(rhs.0));
        proof {
            S::lemma_value(r.0, r.0);
        }
        r
    }
}

impl<S: Num> vstd::std_specs::ops::RemSpecImpl<Deg<S>> for Deg<S> {
    open spec fn obeys_rem_spec() -> bool {
        true
    }

    open spec fn rem_req(self, rhs: Deg<S>) -> bool {
        rhs.0.value() != 0 && S::fits(div_trunc(self.0.value(), rhs.0.value()))
    }

    open spec fn rem_spec(self, rhs: Deg<S>) -> Deg<S> {
        Deg(S::from_int(rem_trunc(self.0.value(), rhs.0.value())))
    }
}

impl<S: Num> core::ops::Div<Deg<S>> for Deg<S> {
    type Output = S;

    fn div(self, rhs: Deg<S>) -> (r: S)
        ensures
            r == S::from_int(div_trunc(self.0.value(), rhs.0.value())),
    {
        let r = self.0.quot(rhs.0);
        proof {
            S::lemma_value(r, r);
        }
        r
    }
}

impl<S: Num> vstd::std_specs::ops::DivSpecImpl<Deg<S>> for Deg<S> {
    open spec fn obeys_div_spec() -> bool {
        true
    }

    open spec fn div_req(self, rhs: Deg<S>) -> bool {
        rhs.0.value() != 0 && S::fits(div_trunc(self.0.value(), rhs.0.value()))
    }

    open spec fn div_spec(self, rhs: Deg<S>) -> S {
        S::from_int(div_trunc(self.0.value(), rhs.0.value()))
    }
}

impl<S: Signed> core::ops::Neg for Deg<S> {
    type Output = Deg<S>;

    fn neg(self) -> (r: Deg<S>)
        ensures
            r == Deg(S::from_int(-self.0.value())),
    {
        let r = Deg(self.0.negate());
        proof {
            S::lemma_value(r.0, r.0);
        }
        r
    }
}

impl<S: Signed> vstd::std_specs::ops::NegSpecImpl for Deg<S> {
    open spec fn obeys_neg_spec() -> bool {
        true
    }

    open spec fn neg_req(self) -> bool {
        S::fits(-self.0.value())
    }

    open spec fn neg_spec(self) -> Deg<S> {
        Deg(S::from_int(-self.0.value()))
    }
}

impl<S: Num> Deg<S> {
    /// The zero angle.
    pub fn zero() -> (r: Self)
        ensures
            r.0.value() == 0,
    {
        proof {
            S::lemma_value(S::ZERO, S::ZERO);
        }
        Deg(S::ZERO)
    }
}

/// An angle in radians.
#[derive(Clone, Copy, Debug, PartialEq, Eq)]
pub struct Rad<S>(pub S);

impl<S: Num> core::ops::Add<Rad<S>> for Rad<S> {
    type Output = Rad<S>;

    fn add(self, rhs: Rad<S>) -> (r: Rad<S>)
        ensures
            r == Rad(S::from_int(self.0.value() + rhs.0.value())),
    {
        let r = Rad(self.0.plus(rhs.0));
        proof {
            S::lemma_value(r.0, r.0);
        }
        r
    }
}

impl<S: Num> vstd::std_specs::ops::AddSpecImpl<Rad<S>> for Rad<S> {
    open spec fn obeys_add_spec() -> bool {
        true
    }

    open spec fn add_req(self, rhs: Rad<S>) -> bool {
        S::fits(self.0.value() + rhs.0.value())
    }

    open spec fn add_spec(self, rhs: Rad<S>) -> Rad<S> {
        Rad(S::from_int(self.0.value() + rhs.0.value()))
    }
}

impl<S: Num> core::ops::Sub<Rad<S>> for Rad<S> {
    type Output = Rad<S>;

    fn sub(self, rhs: Rad<S>) -> (r: Rad<S>)
        ensures
            r == Rad(S::from_int(self.0.value() - rhs.0.value())),
    {
        let r = Rad(self.0.minus(rhs.0));
        proof {
            S::lemma_value(r.0, r.0);
        }
        r
    }
}

impl<S: Num> vstd::std_specs::ops::SubSpecImpl<Rad<S>> for Rad<S> {
    open spec fn obeys_sub_spec() -> bool {
        true
    }

    open spec fn sub_req(self, rhs: Rad<S>) -> bool {
        S::fits(self.0.value() - rhs.0.value())
    }

    open spec fn sub_spec(self, rhs: Rad<S>) -> Rad<S> {
        Rad(S::from_int(self.0.value() - rhs.0.value()))
    }
}

impl<S: Num> core::ops::Mul<S> for Rad<S> {
    type Output = Rad<S>;

    fn mul(self, rhs: S) -> (r: Rad<S>)
        ensures
            r == Rad(S::from_int(self.0.value() * rhs.value())),
    {
        let r = Rad(self.0.times(rhs));
        proof {
            S::lemma_value(r.0, r.0);
        }
        r
    }
}

impl<S: Num> vstd::std_specs::ops::MulSpecImpl<S> for Rad<S> {
    open spec fn obeys_mul_spec() -> bool {
        true
    }

    open spec fn mul_req(self, rhs: S) -> bool {
        S::fits(self.0.value() * rhs.value())
    }

    open spec fn mul_spec(self, rhs: S) -> Rad<S> {
        Rad(S::from_int(self.0.value() * rhs.value()))
    }
}

impl<S: Num> core::ops::Div<S> for Rad<S> {
    type Output = Rad<S>;

    fn div(self, rhs: S) -> (r: Rad<S>)
        ensures
            r == Rad(S::from_int(div_trunc(self.0.value(), rhs.value()))),
    {
        let r = Rad(self.0.quot(rhs));
        proof {
            S::lemma_value(r.0, r.0);
        }
        r
    }
}

impl<S: Num> vstd::std_specs::ops::DivSpecImpl<S> for Rad<S> {
    open spec fn obeys_div_spec() -> bool {
        true
    }

    open spec fn div_req(self, rhs: S) -> bool {
        rhs.value() != 0 && S::fits(div_trunc(self.0.value(), rhs.value()))
    }

    open spec fn div_spec(self, rhs: S) -> Rad<S> {
        Rad(S::from_int(div_trunc(self.0.value(), rhs.value())))
    }
}

impl<S: Num> core::ops::Rem<Rad<S>> for Rad<S> {
    type Output = Rad<S>;

    fn rem(self, rhs: Rad<S>) -> (r: Rad<S>)
        ensures
            r == Rad(S::from_int(rem_trunc(self.0.value(), rhs.0.value()))),
    {
        let r = Rad(self.0.modulo(rhs.0));
        proof {
            S::lemma_value(r.0, r.0);
        }
        r
    }
}

impl<S: Num> vstd::std_specs::ops::RemSpecImpl<Rad<S>> for Rad<S> {
    open spec fn obeys_rem_spec() -> bool {
        true
    }

    open spec fn rem_req(self, rhs: Rad<S>) -> bool {
        rhs.0.value() != 0 && S::fits(div_trunc(self.0.value(), rhs.0.value()))
    }

    open spec fn rem_spec(self, rhs: Rad<S>) -> Rad<S> {
        Rad(S::from_int(rem_trunc(self.0.value(), rhs.0.value())))
    }
}

impl<S: Num> core::ops::Div<Rad<S>> for Rad<S> {
    type Output = S;

    fn div(self, rhs: Rad<S>) -> (r: S)
        ensures
            r == S::from_int(div_trunc(self.0.value(), rhs.0.value())),
    {
        let r = self.0.quot(rhs.0);
        proof {
            S::lemma_value(r, r);
        }
        r
    }
}

impl<S: Num> vstd::std_specs::ops::DivSpecImpl<Rad<S>> for Rad<S> {
    open spec fn obeys_div_spec() -> bool {
        true
    }

    open spec fn div_req(self, rhs: Rad<S>) -> bool {
        rhs.0.value() != 0 && S::fits(div_trunc(self.0.value(), rhs.0.value()))
    }

    open spec fn div_spec(self, rhs: Rad<S>) -> S {
        S::from_int(div_trunc(self.0.value(), rhs.0.value()))
    }
}

impl<S: Signed> core::ops::Neg for Rad<S> {
    type Output = Rad<S>;

    fn neg(self) -> (r: Rad<S>)
        ensures
            r == Rad(S::from_int(-self.0.value())),
    {
        let r = Rad(self.0.negate());
        proof {
            S::lemma_value(r.0, r.0);
        }
        r
    }
}

impl<S: Signed> vstd::std_specs::ops::NegSpecImpl for Rad<S> {
    open spec fn obeys_neg_spec() -> bool {
        true
    }

    open spec fn neg_req(self) -> bool {
        S::fits(-self.0.value())
    }

    open spec fn neg_spec(self) -> Rad<S> {
        Rad(S::from_int(-self.0.value()))
    }
}

impl<S: Num> Rad<S> {
    /// The zero angle.
    pub fn zero() -> (r: Self)
        ensures
            r.0.value() == 0,
    {
        proof {
            S::lemma_value(S::ZERO, S::ZERO);
        }
        Rad(S::ZERO)
    }
}

impl Angle for Deg<i32> {
    type Unitless = i32;

    open spec fn measure(self) -> int {
        self.0 as int
    }

    open spec fn full_turn_spec() -> int {
        360
    }

    open spec fn half_turn_spec() -> int {
        180
    }

    proof fn lemma_turns() {
    }

    fn full_turn() -> (r: Self) {
        Deg(360)
    }

    fn half_turn() -> (r: Self) {
        Deg(180)
    }

    fn normalize(self) -> (r: Self) {
        let rem = self.0 % 360;
        if rem < 0 {
            Deg(rem + 360)
        } else {
            Deg(rem)
        }
    }

    fn normalize_signed(self) -> (r: Self) {
        let rem = self.normalize();
        if 180 < rem.0 {
            Deg(rem.0 - 360)
        } else {
            rem
        }
    }

    fn opposite(self) -> (r: Self) {
        // Normalising first keeps the sum in range; the result is the same.
        let n = self.normalize();
        proof {
            vstd::arithmetic::div_mod::lemma_add_mod_noop(self.0 as int, 180, 360);
        }
        Deg(n.0 + 180).normalize()
    }
}

impl Angle for Deg<i64> {
    type Unitless = i64;

    open spec fn measure(self) -> int {
        self.0 as int
    }

    open spec fn full_turn_spec() -> int {
        360
    }

    open spec fn half_turn_spec() -> int {
        180
    }

    proof fn lemma_turns() {
    }

    fn full_turn() -> (r: Self) {
        Deg(360)
    }

    fn half_turn() -> (r: Self) {
        Deg(180)
    }

    fn normalize(self) -> (r: Self) {
        let rem = self.0 % 360;
        if rem < 0 {
            Deg(rem + 360)
        } else {
            Deg(rem)
        }
    }

    fn normalize_signed(self) -> (r: Self) {
        let rem = self.normalize();
        if 180 < rem.0 {
            Deg(rem.0 - 360)
        } else {
            rem
        }
    }

    fn opposite(self) -> (r: Self) {
        // Normalising first keeps the sum in range; the result is the same.
        let n = self.normalize();
        proof {
            vstd::arithmetic::div_mod::lemma_add_mod_noop(self.0 as int, 180, 360);
        }
        Deg(n.0 + 180).normalize()
    }
}

} // verus!
