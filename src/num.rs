use vstd::prelude::*;

verus! {

/// Quotient of `a` by `b` rounded toward zero, as integer division does.
pub open spec fn div_trunc(a: int, b: int) -> int {
    if a >= 0 {
        a / b
    } else {
        -((-a) / b)
    }
}

/// Remainder that goes with `div_trunc`: it takes the sign of `a`.
pub open spec fn rem_trunc(a: int, b: int) -> int {
    if a >= 0 {
        a % b
    } else {
        -((-a) % b)
    }
}

/// Both integers fit, and so does their sum.
pub open spec fn fits2<S: Num>(p0: int, p1: int) -> bool {
    S::fits(p0) && S::fits(p1) && S::fits(p0 + p1)
}

/// Each integer fits, and so does each sum of them taken from the left.
pub open spec fn fits3<S: Num>(p0: int, p1: int, p2: int) -> bool {
    fits2::<S>(p0, p1) && S::fits(p2) && S::fits(p0 + p1 + p2)
}

/// Each integer fits, and so does each sum of them taken from the left.
pub open spec fn fits4<S: Num>(p0: int, p1: int, p2: int, p3: int) -> bool {
    fits3::<S>(p0, p1, p2) && S::fits(p3) && S::fits(p0 + p1 + p2 + p3)
}

/// Both integers fit, and so does their difference.
pub open spec fn fits_diff<S: Num>(p0: int, p1: int) -> bool {
    S::fits(p0) && S::fits(p1) && S::fits(p0 - p1)
}

/// A type with an additive identity.
pub trait Zero: Sized + Copy {
    const ZERO: Self;
}

/// A type with a multiplicative identity.
pub trait One: Sized + Copy {
    const ONE: Self;
}

/// A scalar of the library: an ordered ring whose values are integers in a
/// bounded range. `value` is the integer a scalar stands for, and every
/// operation is exact on integers as long as its result stays in range.
pub trait Num: Zero + One {
    /// The integer this scalar stands for.
    spec fn value(self) -> int;

    /// Whether `v` can be held by this scalar type.
    spec fn fits(v: int) -> bool;

    /// The scalar that stands for `v`, where `v` fits.
    spec fn from_int(v: int) -> Self;

    /// Scalars are determined by their values, and those are in range.
    proof fn lemma_value(a: Self, b: Self)
        ensures
            Self::fits(a.value()),
            a.value() == b.value() ==> a == b,
            Self::from_int(a.value()) == a,
            Self::ZERO.value() == 0,
            Self::ONE.value() == 1,
            Self::fits(0),
            Self::fits(1),
    ;

    proof fn lemma_from_int(v: int)
        requires
            Self::fits(v),
        ensures
            Self::from_int(v).value() == v,
    ;

    fn plus(self, rhs: Self) -> (r: Self)
        requires
            Self::fits(self.value() + rhs.value()),
        ensures
            r.value() == self.value() + rhs.value(),
    ;

    fn minus(self, rhs: Self) -> (r: Self)
        requires
            Self::fits(self.value() - rhs.value()),
        ensures
            r.value() == self.value() - rhs.value(),
    ;

    fn times(self, rhs: Self) -> (r: Self)
        requires
            Self::fits(self.value() * rhs.value()),
        ensures
            r.value() == self.value() * rhs.value(),
    ;

    /// Division rounded toward zero.
    fn quot(self, rhs: Self) -> (r: Self)
        requires
            rhs.value() != 0,
            Self::fits(div_trunc(self.value(), rhs.value())),
        ensures
            r.value() == div_trunc(self.value(), rhs.value()),
    ;

    /// Remainder of the division rounded toward zero.
    fn modulo(self, rhs: Self) -> (r: Self)
        requires
            rhs.value() != 0,
            Self::fits(div_trunc(self.value(), rhs.value())),
        ensures
            r.value() == rem_trunc(self.value(), rhs.value()),
    ;

    fn less_than(self, rhs: Self) -> (r: bool)
        ensures
            r == (self.value() < rhs.value()),
    ;

    fn minimum(self, rhs: Self) -> (r: Self)
        ensures
            r.value() == if self.value() <= rhs.value() { self.value() } else { rhs.value() },
    ;

    fn maximum(self, rhs: Self) -> (r: Self)
        ensures
            r.value() == if self.value() >= rhs.value() { self.value() } else { rhs.value() },
    ;
}

/// A scalar with negation.
pub trait Signed: Num {
    /// A signed scalar holds at least the integers from -128 to 127.
    proof fn lemma_small_values()
        ensures
            forall|v: int| -128 <= v <= 127 ==> #[trigger] Self::fits(v),
    ;

    fn negate(self) -> (r: Self)
        requires
            Self::fits(-self.value()),
        ensures
            r.value() == -self.value(),
    ;

    fn abs(self) -> (r: Self)
        requires
            Self::fits(-self.value()),
        ensures
            r.value() == if self.value() < 0 { -self.value() } else { self.value() },
    ;

    fn signum(self) -> (r: Self)
        ensures
            r.value() == if self.value() < 0 { -1 } else if self.value() > 0 { 1 } else { 0 },
    ;
}

/// Multiplying by one keeps a value, multiplying by zero gives zero.
pub proof fn lemma_unit_products<S: Num>(a: S)
    ensures
        S::fits(a.value()),
        a.value() * S::ONE.value() == a.value(),
        S::ONE.value() * a.value() == a.value(),
        a.value() * S::ZERO.value() == 0,
        S::ZERO.value() * a.value() == 0,
{
    S::lemma_value(a, S::ONE);
}

/// The scalar built from a value that fits has that value.
pub broadcast proof fn lemma_from_int_value<S: Num>(v: int)
    requires
        S::fits(v),
    ensures
        #[trigger] S::from_int(v).value() == v,
{
    S::lemma_from_int(v);
}

impl Zero for i32 {
    const ZERO: i32 = 0;
}

impl One for i32 {
    const ONE: i32 = 1;
}

impl Num for i32 {
    open spec fn value(self) -> int {
        self as int
    }

    open spec fn fits(v: int) -> bool {
        i32::MIN <= v <= i32::MAX
    }

    open spec fn from_int(v: int) -> i32 {
        v as i32
    }

    proof fn lemma_value(a: i32, b: i32) {
    }

    proof fn lemma_from_int(v: int) {
    }

    fn plus(self, rhs: i32) -> (r: i32) {
        self + rhs
    }

    fn minus(self, rhs: i32) -> (r: i32) {
        self - rhs
    }

    fn times(self, rhs: i32) -> (r: i32) {
        self * rhs
    }

    fn quot(self, rhs: i32) -> (r: i32) {
        proof {
            lemma_div_i32(self, rhs);
        }
        self / rhs
    }

    fn modulo(self, rhs: i32) -> (r: i32) {
        proof {
            lemma_div_i32(self, rhs);
        }
        self % rhs
    }

    fn less_than(self, rhs: i32) -> (r: bool) {
        self < rhs
    }

    fn minimum(self, rhs: i32) -> (r: i32) {
        if self <= rhs {
            self
        } else {
            rhs
        }
    }

    fn maximum(self, rhs: i32) -> (r: i32) {
        if self >= rhs {
            self
        } else {
            rhs
        }
    }
}

impl Zero for i64 {
    const ZERO: i64 = 0;
}

impl One for i64 {
    const ONE: i64 = 1;
}

impl Num for i64 {
    open spec fn value(self) -> int {
        self as int
    }

    open spec fn fits(v: int) -> bool {
        i64::MIN <= v <= i64::MAX
    }

    open spec fn from_int(v: int) -> i64 {
        v as i64
    }

    proof fn lemma_value(a: i64, b: i64) {
    }

    proof fn lemma_from_int(v: int) {
    }

    fn plus(self, rhs: i64) -> (r: i64) {
        self + rhs
    }

    fn minus(self, rhs: i64) -> (r: i64) {
        self - rhs
    }

    fn times(self, rhs: i64) -> (r: i64) {
        self * rhs
    }

    fn quot(self, rhs: i64) -> (r: i64) {
        proof {
            lemma_div_i64(self, rhs);
        }
        self / rhs
    }

    fn modulo(self, rhs: i64) -> (r: i64) {
        proof {
            lemma_div_i64(self, rhs);
        }
        self % rhs
    }

    fn less_than(self, rhs: i64) -> (r: bool) {
        self < rhs
    }

    fn minimum(self, rhs: i64) -> (r: i64) {
        if self <= rhs {
            self
        } else {
            rhs
        }
    }

    fn maximum(self, rhs: i64) -> (r: i64) {
        if self >= rhs {
            self
        } else {
            rhs
        }
    }
}

impl Zero for u32 {
    const ZERO: u32 = 0;
}

impl One for u32 {
    const ONE: u32 = 1;
}

impl Num for u32 {
    open spec fn value(self) -> int {
        self as int
    }

    open spec fn fits(v: int) -> bool {
        u32::MIN <= v <= u32::MAX
    }

    open spec fn from_int(v: int) -> u32 {
        v as u32
    }

    proof fn lemma_value(a: u32, b: u32) {
    }

    proof fn lemma_from_int(v: int) {
    }

    fn plus(self, rhs: u32) -> (r: u32) {
        self + rhs
    }

    fn minus(self, rhs: u32) -> (r: u32) {
        self - rhs
    }

    fn times(self, rhs: u32) -> (r: u32) {
        self * rhs
    }

    fn quot(self, rhs: u32) -> (r: u32) {
        self / rhs
    }

    fn modulo(self, rhs: u32) -> (r: u32) {
        self % rhs
    }

    fn less_than(self, rhs: u32) -> (r: bool) {
        self < rhs
    }

    fn minimum(self, rhs: u32) -> (r: u32) {
        if self <= rhs {
            self
        } else {
            rhs
        }
    }

    fn maximum(self, rhs: u32) -> (r: u32) {
        if self >= rhs {
            self
        } else {
            rhs
        }
    }
}

impl Zero for u64 {
    const ZERO: u64 = 0;
}

impl One for u64 {
    const ONE: u64 = 1;
}

impl Num for u64 {
    open spec fn value(self) -> int {
        self as int
    }

    open spec fn fits(v: int) -> bool {
        u64::MIN <= v <= u64::MAX
    }

    open spec fn from_int(v: int) -> u64 {
        v as u64
    }

    proof fn lemma_value(a: u64, b: u64) {
    }

    proof fn lemma_from_int(v: int) {
    }

    fn plus(self, rhs: u64) -> (r: u64) {
        self + rhs
    }

    fn minus(self, rhs: u64) -> (r: u64) {
        self - rhs
    }

    fn times(self, rhs: u64) -> (r: u64) {
        self * rhs
    }

    fn quot(self, rhs: u64) -> (r: u64) {
        self / rhs
    }

    fn modulo(self, rhs: u64) -> (r: u64) {
        self % rhs
    }

    fn less_than(self, rhs: u64) -> (r: bool) {
        self < rhs
    }

    fn minimum(self, rhs: u64) -> (r: u64) {
        if self <= rhs {
            self
        } else {
            rhs
        }
    }

    fn maximum(self, rhs: u64) -> (r: u64) {
        if self >= rhs {
            self
        } else {
            rhs
        }
    }
}

impl Signed for i32 {
    proof fn lemma_small_values() {
    }

    fn negate(self) -> (r: i32) {
        -self
    }

    fn abs(self) -> (r: i32) {
        if self < 0 {
            -self
        } else {
            self
        }
    }

    fn signum(self) -> (r: i32) {
        if self < 0 {
            -1
        } else if self > 0 {
            1
        } else {
            0
        }
    }
}

/// The one quotient of `i32` that overflows is the least value by `-1`.
proof fn lemma_div_i32(a: i32, b: i32)
    requires
        b != 0,
        <i32 as Num>::fits(div_trunc(a as int, b as int)),
    ensures
        !(a == i32::MIN && b == -1),
{
    if a == i32::MIN && b == -1 {
        assert(div_trunc(a as int, b as int) == -(a as int));
    }
}

impl Signed for i64 {
    proof fn lemma_small_values() {
    }

    fn negate(self) -> (r: i64) {
        -self
    }

    fn abs(self) -> (r: i64) {
        if self < 0 {
            -self
        } else {
            self
        }
    }

    fn signum(self) -> (r: i64) {
        if self < 0 {
            -1
        } else if self > 0 {
            1
        } else {
            0
        }
    }
}

/// The one quotient of `i64` that overflows is the least value by `-1`.
proof fn lemma_div_i64(a: i64, b: i64)
    requires
        b != 0,
        <i64 as Num>::fits(div_trunc(a as int, b as int)),
    ensures
        !(a == i64::MIN && b == -1),
{
    if a == i64::MIN && b == -1 {
        assert(div_trunc(a as int, b as int) == -(a as int));
    }
}

} // verus!
