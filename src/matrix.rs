use vstd::prelude::*;
use crate::num::{fits2, fits3, fits4, fits_diff, lemma_from_int_value, lemma_unit_products, Num, Signed};
use crate::structure::{InnerSpace, VectorSpace};
use crate::vector::{Vec2, Vec3, Vec4};

verus! {

/// A matrix: rows and columns, a transpose.
pub trait Matrix: VectorSpace {
    type Row;
    type Column;
    type Transpose;

    /// The number of rows and of columns.
    spec fn dimension() -> int;

    /// Row `r`, counted from zero.
    fn row(&self, r: usize) -> Self::Row
        requires
            r < Self::dimension(),
    ;

    /// Column `c`, counted from zero.
    fn column(&self, c: usize) -> Self::Column
        requires
            c < Self::dimension(),
    ;

    fn transpose(&self) -> Self::Transpose;
}

/// A square matrix: identity, diagonal, determinant and trace.
pub trait SquareMatrix: Matrix {
    type ColumnRow;

    /// The determinant as an integer.
    spec fn determinant_spec(&self) -> int;

    /// Whether every step of computing the determinant stays in range.
    spec fn determinant_fits(&self) -> bool;

    /// The trace as an integer.
    spec fn trace_spec(&self) -> int;

    /// Whether every partial sum of the trace stays in range.
    spec fn trace_fits(&self) -> bool;

    /// The identity matrix: one on the diagonal, zero elsewhere.
    fn identity() -> Self;

    /// The matrix with `value` on the diagonal and zero elsewhere.
    fn from_value(value: Self::Scalar) -> Self;

    /// The matrix with `diagonal` on the diagonal and zero elsewhere.
    fn from_diagonal(diagonal: Self::ColumnRow) -> Self;

    fn determinant(&self) -> (r: Self::Scalar)
        requires
            self.determinant_fits(),
        ensures
            r.value() == self.determinant_spec(),
    ;

    fn diagonal(&self) -> Self::ColumnRow;

    fn trace(&self) -> (r: Self::Scalar)
        requires
            self.trace_fits(),
        ensures
            r.value() == self.trace_spec(),
    ;
}

/// A 2x2 matrix stored by columns: `x` is the first column.
#[derive(Clone, Copy, Debug, PartialEq, Eq)]
pub struct Mat2<S> {
    pub x: Vec2<S>,
    pub y: Vec2<S>,
}

impl<S> Mat2<S> {
    /// The matrix from its entries, given column by column.
    pub fn new(
        c0r0: S, c0r1: S, c1r0: S, c1r1: S,
    ) -> (r: Mat2<S>)
        ensures
            r.x.x == c0r0,
            r.x.y == c0r1,
            r.y.x == c1r0,
            r.y.y == c1r1,
    {
        Mat2::from_cols(

            Vec2::new(c0r0, c0r1),
            Vec2::new(c1r0, c1r1),
        )
    }

    /// The matrix from its columns.
    pub fn from_cols(x: Vec2<S>, y: Vec2<S>) -> (r: Mat2<S>)
        ensures
            r.x == x,
            r.y == y,
    {
        Mat2 { x, y }
    }
}

impl<S: Num> Mat2<S> {
    /// Each entry is the scalar its value stands for.
    pub proof fn lemma_canonical(self)
        ensures
            S::from_int(self.x.x.value()) == self.x.x,
            S::from_int(self.x.y.value()) == self.x.y,
            S::from_int(self.y.x.value()) == self.y.x,
            S::from_int(self.y.y.value()) == self.y.y,
    {
        self.x.lemma_canonical();
        self.y.lemma_canonical();
    }

    /// Row `r`, counted from zero.
    pub open spec fn spec_row(self, r: int) -> Vec2<S> {
        if r == 0 {
            Vec2 { x: self.x.x, y: self.y.x }
        } else {
            Vec2 { x: self.x.y, y: self.y.y }
        }
    }

    /// Column `c`, counted from zero.
    pub open spec fn spec_column(self, c: int) -> Vec2<S> {
        if c == 0 {
            self.x
        } else {
            self.y
        }
    }

    /// The transpose: entry at column `c`, row `r` moves to column `r`, row `c`.
    pub open spec fn spec_transpose(self) -> Mat2<S> {
        Mat2 { x: Vec2 { x: self.x.x, y: self.y.x }, y: Vec2 { x: self.x.y, y: self.y.y } }
    }

    /// The identity matrix, as a value.
    pub open spec fn spec_identity() -> Mat2<S> {
        Mat2 { x: Vec2 { x: S::ONE, y: S::ZERO }, y: Vec2 { x: S::ZERO, y: S::ONE } }
    }

    /// The matrix product: the entry at column `c`, row `r` is row `r` of
    /// `self` dotted with column `c` of `rhs`.
    pub open spec fn spec_mul(self, rhs: Self) -> Mat2<S> {
        Mat2 { x: Vec2 { x: S::from_int(self.spec_row(0).dot_spec(rhs.x)), y: S::from_int(self.spec_row(1).dot_spec(rhs.x)) }, y: Vec2 { x: S::from_int(self.spec_row(0).dot_spec(rhs.y)), y: S::from_int(self.spec_row(1).dot_spec(rhs.y)) } }
    }

    /// Whether every dot product of `spec_mul` stays in range.
    pub open spec fn fits_mul(self, rhs: Self) -> bool {
        self.spec_row(0).dot_fits(rhs.x) &&
        self.spec_row(1).dot_fits(rhs.x) &&
        self.spec_row(0).dot_fits(rhs.y) &&
        self.spec_row(1).dot_fits(rhs.y)
    }

    /// The matrix applied to a vector: component `r` is row `r` dotted with `v`.
    pub open spec fn spec_mul_vec(self, v: Vec2<S>) -> Vec2<S> {
        Vec2 { x: S::from_int(self.spec_row(0).dot_spec(v)), y: S::from_int(self.spec_row(1).dot_spec(v)) }
    }

    /// Whether every dot product of `spec_mul_vec` stays in range.
    pub open spec fn fits_mul_vec(self, v: Vec2<S>) -> bool {
        self.spec_row(0).dot_fits(v) &&
        self.spec_row(1).dot_fits(v)
    }

    /// The matrix with every entry zero.
    pub fn zero() -> (r: Self)
        ensures
            r == (Mat2 { x: Vec2::<S>::spec_zero(), y: Vec2::<S>::spec_zero() }),
    {
        Mat2 { x: Vec2::zero(), y: Vec2::zero() }
    }

    /// The shear that adds `t` times the second coordinate to the first.
    pub fn from_translation(t: S) -> (r: Self)
        ensures
            r == (Mat2 { x: Vec2 { x: S::ONE, y: S::ZERO }, y: Vec2 { x: t, y: S::ONE } }),
    {
        Mat2::new(S::ONE, S::ZERO, t, S::ONE)
    }

    /// The scale by `value` along each axis.
    pub fn from_scale(value: S) -> (r: Self)
        ensures
            r == (Mat2 { x: Vec2 { x: value, y: S::ZERO }, y: Vec2 { x: S::ZERO, y: value } }),
    {
        Mat2::new(value, S::ZERO, S::ZERO, value)
    }

    /// The scale by a factor along each axis.
    pub fn from_nonuniform_scale(x: S, y: S) -> (r: Self)
        ensures
            r == (Mat2 { x: Vec2 { x: x, y: S::ZERO }, y: Vec2 { x: S::ZERO, y: y } }),
    {
        Mat2::new(x, S::ZERO, S::ZERO, y)
    }

    /// Multiplying by the identity, on either side, leaves a matrix unchanged.
    pub proof fn lemma_mul_identity(m: Self)
        ensures
            m.fits_mul(Self::spec_identity()),
            m.spec_mul(Self::spec_identity()) == m,
            Self::spec_identity().fits_mul(m),
            Self::spec_identity().spec_mul(m) == m,
    {
        S::lemma_value(S::ZERO, S::ONE);
        m.lemma_canonical();
        lemma_unit_products(m.x.x);
        lemma_unit_products(m.x.y);
        lemma_unit_products(m.y.x);
        lemma_unit_products(m.y.y);
    }

    /// Matrix multiplication is associative.
    pub proof fn lemma_mul_associative(a: Self, b: Self, c: Self)
        requires
            a.fits_mul(b),
            b.fits_mul(c),
            a.spec_mul(b).fits_mul(c),
            a.fits_mul(b.spec_mul(c)),
        ensures
            a.spec_mul(b).spec_mul(c) == a.spec_mul(b.spec_mul(c)),
    {
        broadcast use lemma_from_int_value;

        lemma_assoc_entry2(
            a.x.x.value(),
            a.y.x.value(),
            b.x.x.value(),
            b.x.y.value(),
            b.y.x.value(),
            b.y.y.value(),
            c.x.x.value(),
            c.x.y.value(),
        );
        lemma_assoc_entry2(
            a.x.y.value(),
            a.y.y.value(),
            b.x.x.value(),
            b.x.y.value(),
            b.y.x.value(),
            b.y.y.value(),
            c.x.x.value(),
            c.x.y.value(),
        );
        lemma_assoc_entry2(
            a.x.x.value(),
            a.y.x.value(),
            b.x.x.value(),
            b.x.y.value(),
            b.y.x.value(),
            b.y.y.value(),
            c.y.x.value(),
            c.y.y.value(),
        );
        lemma_assoc_entry2(
            a.x.y.value(),
            a.y.y.value(),
            b.x.x.value(),
            b.x.y.value(),
            b.y.x.value(),
            b.y.y.value(),
            c.y.x.value(),
            c.y.y.value(),
        );
    }

    /// Transposing twice gives back the matrix.
    pub proof fn lemma_transpose_transpose(m: Self)
        ensures
            m.spec_transpose().spec_transpose() == m,
    {
    }

    /// The identity has determinant one.
    pub proof fn lemma_determinant_identity()
        ensures
            Self::spec_identity().determinant_fits(),
            Self::spec_identity().determinant_spec() == 1,
    {
        S::lemma_value(S::ZERO, S::ONE);
    }

    /// A matrix with a row or a column of zeros has determinant zero.
    pub proof fn lemma_determinant_zero_line(m: Self, i: int)
        requires
            0 <= i < 2,
            m.spec_row(i) == Vec2::<S>::spec_zero() || m.spec_column(i) == Vec2::<S>::spec_zero(),
        ensures
            m.determinant_spec() == 0,
    {
        S::lemma_value(S::ZERO, S::ONE);
        lemma_det2_zero_line(m.x.x.value(), m.x.y.value(), m.y.x.value(), m.y.y.value());
    }
}

impl<S: Num> core::ops::Mul<Mat2<S>> for Mat2<S> {
    type Output = Mat2<S>;

    fn mul(self, rhs: Mat2<S>) -> (r: Mat2<S>)
        ensures
            r == self.spec_mul(rhs),
    {
        let r = Mat2::new(
            self.row(0).dot(rhs.column(0)),
            self.row(1).dot(rhs.column(0)),
            self.row(0).dot(rhs.column(1)),
            self.row(1).dot(rhs.column(1)),
        );
        proof {
            r.lemma_canonical();
        }
        r
    }
}

impl<S: Num> vstd::std_specs::ops::MulSpecImpl<Mat2<S>> for Mat2<S> {
    open spec fn obeys_mul_spec() -> bool {
        true
    }

    open spec fn mul_req(self, rhs: Mat2<S>) -> bool {
        self.fits_mul(rhs)
    }

    open spec fn mul_spec(self, rhs: Mat2<S>) -> Mat2<S> {
        self.spec_mul(rhs)
    }
}

impl<S: Num> core::ops::Mul<Vec2<S>> for Mat2<S> {
    type Output = Vec2<S>;

    fn mul(self, rhs: Vec2<S>) -> (r: Vec2<S>)
        ensures
            r == self.spec_mul_vec(rhs),
    {
        let r = Vec2::new(
            self.row(0).dot(rhs),
            self.row(1).dot(rhs),
        );
        proof {
            r.lemma_canonical();
        }
        r
    }
}

impl<S: Num> vstd::std_specs::ops::MulSpecImpl<Vec2<S>> for Mat2<S> {
    open spec fn obeys_mul_spec() -> bool {
        true
    }

    open spec fn mul_req(self, rhs: Vec2<S>) -> bool {
        self.fits_mul_vec(rhs)
    }

    open spec fn mul_spec(self, rhs: Vec2<S>) -> Vec2<S> {
        self.spec_mul_vec(rhs)
    }
}

impl<S: Num> core::ops::Add<Mat2<S>> for Mat2<S> {
    type Output = Mat2<S>;

    fn add(self, rhs: Mat2<S>) -> (r: Mat2<S>)
        ensures
            r == (Mat2 { x: self.x.spec_add(rhs.x), y: self.y.spec_add(rhs.y) }),
    {
        Mat2 { x: self.x + rhs.x, y: self.y + rhs.y }
    }
}

impl<S: Num> vstd::std_specs::ops::AddSpecImpl<Mat2<S>> for Mat2<S> {
    open spec fn obeys_add_spec() -> bool {
        true
    }

    open spec fn add_req(self, rhs: Mat2<S>) -> bool {
        self.x.fits_add(rhs.x) && self.y.fits_add(rhs.y)
    }

    open spec fn add_spec(self, rhs: Mat2<S>) -> Mat2<S> {
        Mat2 { x: self.x.spec_add(rhs.x), y: self.y.spec_add(rhs.y) }
    }
}

impl<S: Num> core::ops::Sub<Mat2<S>> for Mat2<S> {
    type Output = Mat2<S>;

    fn sub(self, rhs: Mat2<S>) -> (r: Mat2<S>)
        ensures
            r == (Mat2 { x: self.x.spec_sub(rhs.x), y: self.y.spec_sub(rhs.y) }),
    {
        Mat2 { x: self.x - rhs.x, y: self.y - rhs.y }
    }
}

impl<S: Num> vstd::std_specs::ops::SubSpecImpl<Mat2<S>> for Mat2<S> {
    open spec fn obeys_sub_spec() -> bool {
        true
    }

    open spec fn sub_req(self, rhs: Mat2<S>) -> bool {
        self.x.fits_sub(rhs.x) && self.y.fits_sub(rhs.y)
    }

    open spec fn sub_spec(self, rhs: Mat2<S>) -> Mat2<S> {
        Mat2 { x: self.x.spec_sub(rhs.x), y: self.y.spec_sub(rhs.y) }
    }
}

impl<S: Num> core::ops::Mul<S> for Mat2<S> {
    type Output = Mat2<S>;

    fn mul(self, rhs: S) -> (r: Mat2<S>)
        ensures
            r == (Mat2 { x: self.x.spec_scale(rhs), y: self.y.spec_scale(rhs) }),
    {
        Mat2 { x: self.x * rhs, y: self.y * rhs }
    }
}

impl<S: Num> vstd::std_specs::ops::MulSpecImpl<S> for Mat2<S> {
    open spec fn obeys_mul_spec() -> bool {
        true
    }

    open spec fn mul_req(self, rhs: S) -> bool {
        self.x.fits_scale(rhs) && self.y.fits_scale(rhs)
    }

    open spec fn mul_spec(self, rhs: S) -> Mat2<S> {
        Mat2 { x: self.x.spec_scale(rhs), y: self.y.spec_scale(rhs) }
    }
}

impl<S: Num> core::ops::Div<S> for Mat2<S> {
    type Output = Mat2<S>;

    fn div(self, rhs: S) -> (r: Mat2<S>)
        ensures
            r == (Mat2 { x: self.x.spec_div(rhs), y: self.y.spec_div(rhs) }),
    {
        Mat2 { x: self.x / rhs, y: self.y / rhs }
    }
}

impl<S: Num> vstd::std_specs::ops::DivSpecImpl<S> for Mat2<S> {
    open spec fn obeys_div_spec() -> bool {
        true
    }

    open spec fn div_req(self, rhs: S) -> bool {
        self.x.fits_div(rhs) && self.y.fits_div(rhs)
    }

    open spec fn div_spec(self, rhs: S) -> Mat2<S> {
        Mat2 { x: self.x.spec_div(rhs), y: self.y.spec_div(rhs) }
    }
}

impl<S: Num> core::ops::Rem<S> for Mat2<S> {
    type Output = Mat2<S>;

    fn rem(self, rhs: S) -> (r: Mat2<S>)
        ensures
            r == (Mat2 { x: self.x.spec_rem(rhs), y: self.y.spec_rem(rhs) }),
    {
        Mat2 { x: self.x % rhs, y: self.y % rhs }
    }
}

impl<S: Num> vstd::std_specs::ops::RemSpecImpl<S> for Mat2<S> {
    open spec fn obeys_rem_spec() -> bool {
        true
    }

    open spec fn rem_req(self, rhs: S) -> bool {
        self.x.fits_div(rhs) && self.y.fits_div(rhs)
    }

    open spec fn rem_spec(self, rhs: S) -> Mat2<S> {
        Mat2 { x: self.x.spec_rem(rhs), y: self.y.spec_rem(rhs) }
    }
}

impl<S: Signed> core::ops::Neg for Mat2<S> {
    type Output = Mat2<S>;

    fn neg(self) -> (r: Mat2<S>)
        ensures
            r == (Mat2 { x: self.x.spec_neg(), y: self.y.spec_neg() }),
    {
        Mat2 { x: core::ops::Neg::neg(self.x), y: core::ops::Neg::neg(self.y) }
    }
}

impl<S: Signed> vstd::std_specs::ops::NegSpecImpl for Mat2<S> {
    open spec fn obeys_neg_spec() -> bool {
        true
    }

    open spec fn neg_req(self) -> bool {
        self.x.fits_neg() && self.y.fits_neg()
    }

    open spec fn neg_spec(self) -> Mat2<S> {
        Mat2 { x: self.x.spec_neg(), y: self.y.spec_neg() }
    }
}

impl<S: Num> VectorSpace for Mat2<S> {
    type Scalar = S;
}

impl<S: Num> Matrix for Mat2<S> {
    type Row = Vec2<S>;
    type Column = Vec2<S>;
    type Transpose = Mat2<S>;

    open spec fn dimension() -> int {
        2
    }

    fn row(&self, r: usize) -> (v: Vec2<S>)
        ensures
            v == self.spec_row(r as int),
    {
        if r == 0 {
            Vec2::new(self.x.x, self.y.x)
        } else {
            Vec2::new(self.x.y, self.y.y)
        }
    }

    fn column(&self, c: usize) -> (v: Vec2<S>)
        ensures
            v == self.spec_column(c as int),
    {
        if c == 0 {
            self.x
        } else {
            self.y
        }
    }

    fn transpose(&self) -> (r: Mat2<S>)
        ensures
            r == self.spec_transpose(),
    {
        Mat2::new(
            self.x.x, self.y.x, self.x.y, self.y.y,
        )
    }
}

impl<S: Num> SquareMatrix for Mat2<S> {
    type ColumnRow = Vec2<S>;

    open spec fn determinant_spec(&self) -> int {
        self.x.x.value() * self.y.y.value() - self.x.y.value() * self.y.x.value()
    }

    open spec fn determinant_fits(&self) -> bool {
        fits_diff::<S>(self.x.x.value() * self.y.y.value(), self.x.y.value() * self.y.x.value())
    }

    open spec fn trace_spec(&self) -> int {
        self.x.x.value() + self.y.y.value()
    }

    open spec fn trace_fits(&self) -> bool {
        fits2::<S>(self.x.x.value(), self.y.y.value())
    }

    fn identity() -> (r: Self)
        ensures
            r == Self::spec_identity(),
    {
        Mat2::from_cols(Vec2::unit_x(), Vec2::unit_y())
    }

    fn from_value(value: S) -> (r: Self)
        ensures
            r == (Mat2 { x: Vec2 { x: value, y: S::ZERO }, y: Vec2 { x: S::ZERO, y: value } }),
    {
        Mat2::new(value, S::ZERO, S::ZERO, value)
    }

    fn from_diagonal(diagonal: Vec2<S>) -> (r: Self)
        ensures
            r == (Mat2 { x: Vec2 { x: diagonal.x, y: S::ZERO }, y: Vec2 { x: S::ZERO, y: diagonal.y } }),
    {
        Mat2::new(diagonal.x, S::ZERO, S::ZERO, diagonal.y)
    }

    fn determinant(&self) -> (r: S) {
        (self.x.x.times(self.y.y)).minus(self.x.y.times(self.y.x))
    }

    fn diagonal(&self) -> (r: Vec2<S>)
        ensures
            r == (Vec2 { x: self.x.x, y: self.y.y }),
    {
        Vec2::new(self.x.x, self.y.y)
    }

    fn trace(&self) -> (r: S) {
        self.x.x.plus(self.y.y)
    }
}

/// A 3x3 matrix stored by columns: `x` is the first column.
#[derive(Clone, Copy, Debug, PartialEq, Eq)]
pub struct Mat3<S> {
    pub x: Vec3<S>,
    pub y: Vec3<S>,
    pub z: Vec3<S>,
}

impl<S> Mat3<S> {
    /// The matrix from its entries, given column by column.
    pub fn new(
        c0r0: S, c0r1: S, c0r2: S, c1r0: S, c1r1: S, c1r2: S, c2r0: S, c2r1: S, c2r2: S,
    ) -> (r: Mat3<S>)
        ensures
            r.x.x == c0r0,
            r.x.y == c0r1,
            r.x.z == c0r2,
            r.y.x == c1r0,
            r.y.y == c1r1,
            r.y.z == c1r2,
            r.z.x == c2r0,
            r.z.y == c2r1,
            r.z.z == c2r2,
    {
        Mat3::from_cols(

            Vec3::new(c0r0, c0r1, c0r2),
            Vec3::new(c1r0, c1r1, c1r2),
            Vec3::new(c2r0, c2r1, c2r2),
        )
    }

    /// The matrix from its columns.
    pub fn from_cols(x: Vec3<S>, y: Vec3<S>, z: Vec3<S>) -> (r: Mat3<S>)
        ensures
            r.x == x,
            r.y == y,
            r.z == z,
    {
        Mat3 { x, y, z }
    }
}

impl<S: Num> Mat3<S> {
    /// Each entry is the scalar its value stands for.
    pub proof fn lemma_canonical(self)
        ensures
            S::from_int(self.x.x.value()) == self.x.x,
            S::from_int(self.x.y.value()) == self.x.y,
            S::from_int(self.x.z.value()) == self.x.z,
            S::from_int(self.y.x.value()) == self.y.x,
            S::from_int(self.y.y.value()) == self.y.y,
            S::from_int(self.y.z.value()) == self.y.z,
            S::from_int(self.z.x.value()) == self.z.x,
            S::from_int(self.z.y.value()) == self.z.y,
            S::from_int(self.z.z.value()) == self.z.z,
    {
        self.x.lemma_canonical();
        self.y.lemma_canonical();
        self.z.lemma_canonical();
    }

    /// Row `r`, counted from zero.
    pub open spec fn spec_row(self, r: int) -> Vec3<S> {
        if r == 0 {
            Vec3 { x: self.x.x, y: self.y.x, z: self.z.x }
        } else if r == 1 {
            Vec3 { x: self.x.y, y: self.y.y, z: self.z.y }
        } else {
            Vec3 { x: self.x.z, y: self.y.z, z: self.z.z }
        }
    }

    /// Column `c`, counted from zero.
    pub open spec fn spec_column(self, c: int) -> Vec3<S> {
        if c == 0 {
            self.x
        } else if c == 1 {
            self.y
        } else {
            self.z
        }
    }

    /// The transpose: entry at column `c`, row `r` moves to column `r`, row `c`.
    pub open spec fn spec_transpose(self) -> Mat3<S> {
        Mat3 { x: Vec3 { x: self.x.x, y: self.y.x, z: self.z.x }, y: Vec3 { x: self.x.y, y: self.y.y, z: self.z.y }, z: Vec3 { x: self.x.z, y: self.y.z, z: self.z.z } }
    }

    /// The identity matrix, as a value.
    pub open spec fn spec_identity() -> Mat3<S> {
        Mat3 { x: Vec3 { x: S::ONE, y: S::ZERO, z: S::ZERO }, y: Vec3 { x: S::ZERO, y: S::ONE, z: S::ZERO }, z: Vec3 { x: S::ZERO, y: S::ZERO, z: S::ONE } }
    }

    /// The matrix product: the entry at column `c`, row `r` is row `r` of
    /// `self` dotted with column `c` of `rhs`.
    pub open spec fn spec_mul(self, rhs: Self) -> Mat3<S> {
        Mat3 { x: Vec3 { x: S::from_int(self.spec_row(0).dot_spec(rhs.x)), y: S::from_int(self.spec_row(1).dot_spec(rhs.x)), z: S::from_int(self.spec_row(2).dot_spec(rhs.x)) }, y: Vec3 { x: S::from_int(self.spec_row(0).dot_spec(rhs.y)), y: S::from_int(self.spec_row(1).dot_spec(rhs.y)), z: S::from_int(self.spec_row(2).dot_spec(rhs.y)) }, z: Vec3 { x: S::from_int(self.spec_row(0).dot_spec(rhs.z)), y: S::from_int(self.spec_row(1).dot_spec(rhs.z)), z: S::from_int(self.spec_row(2).dot_spec(rhs.z)) } }
    }

    /// Whether every dot product of `spec_mul` stays in range.
    pub open spec fn fits_mul(self, rhs: Self) -> bool {
        self.spec_row(0).dot_fits(rhs.x) &&
        self.spec_row(1).dot_fits(rhs.x) &&
        self.spec_row(2).dot_fits(rhs.x) &&
        self.spec_row(0).dot_fits(rhs.y) &&
        self.spec_row(1).dot_fits(rhs.y) &&
        self.spec_row(2).dot_fits(rhs.y) &&
        self.spec_row(0).dot_fits(rhs.z) &&
        self.spec_row(1).dot_fits(rhs.z) &&
        self.spec_row(2).dot_fits(rhs.z)
    }

    /// The matrix applied to a vector: component `r` is row `r` dotted with `v`.
    pub open spec fn spec_mul_vec(self, v: Vec3<S>) -> Vec3<S> {
        Vec3 { x: S::from_int(self.spec_row(0).dot_spec(v)), y: S::from_int(self.spec_row(1).dot_spec(v)), z: S::from_int(self.spec_row(2).dot_spec(v)) }
    }

    /// Whether every dot product of `spec_mul_vec` stays in range.
    pub open spec fn fits_mul_vec(self, v: Vec3<S>) -> bool {
        self.spec_row(0).dot_fits(v) &&
        self.spec_row(1).dot_fits(v) &&
        self.spec_row(2).dot_fits(v)
    }

    /// The matrix with every entry zero.
    pub fn zero() -> (r: Self)
        ensures
            r == (Mat3 { x: Vec3::<S>::spec_zero(), y: Vec3::<S>::spec_zero(), z: Vec3::<S>::spec_zero() }),
    {
        Mat3 { x: Vec3::zero(), y: Vec3::zero(), z: Vec3::zero() }
    }

    /// The homogeneous translation by `v`: the identity with `v` in the
    /// last column.
    pub fn from_translation(v: Vec2<S>) -> (r: Self)
        ensures
            r == (Mat3 { x: Vec3 { x: S::ONE, y: S::ZERO, z: S::ZERO }, y: Vec3 { x: S::ZERO, y: S::ONE, z: S::ZERO }, z: Vec3 { x: v.x, y: v.y, z: S::ONE } }),
    {
        Mat3::new(S::ONE, S::ZERO, S::ZERO, S::ZERO, S::ONE, S::ZERO, v.x, v.y, S::ONE)
    }

    /// The scale by `value` along each axis.
    pub fn from_scale(value: S) -> (r: Self)
        ensures
            r == (Mat3 { x: Vec3 { x: value, y: S::ZERO, z: S::ZERO }, y: Vec3 { x: S::ZERO, y: value, z: S::ZERO }, z: Vec3 { x: S::ZERO, y: S::ZERO, z: value } }),
    {
        Mat3::new(value, S::ZERO, S::ZERO, S::ZERO, value, S::ZERO, S::ZERO, S::ZERO, value)
    }

    /// The scale by a factor along each axis.
    pub fn from_nonuniform_scale(x: S, y: S, z: S) -> (r: Self)
        ensures
            r == (Mat3 { x: Vec3 { x: x, y: S::ZERO, z: S::ZERO }, y: Vec3 { x: S::ZERO, y: y, z: S::ZERO }, z: Vec3 { x: S::ZERO, y: S::ZERO, z: z } }),
    {
        Mat3::new(x, S::ZERO, S::ZERO, S::ZERO, y, S::ZERO, S::ZERO, S::ZERO, z)
    }

    /// The three 2x2 minors along the first row.
    pub open spec fn minor_values(self) -> (int, int, int) {
        (
            self.y.y.value() * self.z.z.value() - self.y.z.value() * self.z.y.value(),
            self.x.y.value() * self.z.z.value() - self.x.z.value() * self.z.y.value(),
            self.x.y.value() * self.y.z.value() - self.x.z.value() * self.y.y.value(),
        )
    }

    /// Multiplying by the identity, on either side, leaves a matrix unchanged.
    pub proof fn lemma_mul_identity(m: Self)
        ensures
            m.fits_mul(Self::spec_identity()),
            m.spec_mul(Self::spec_identity()) == m,
            Self::spec_identity().fits_mul(m),
            Self::spec_identity().spec_mul(m) == m,
    {
        S::lemma_value(S::ZERO, S::ONE);
        m.lemma_canonical();
        lemma_unit_products(m.x.x);
        lemma_unit_products(m.x.y);
        lemma_unit_products(m.x.z);
        lemma_unit_products(m.y.x);
        lemma_unit_products(m.y.y);
        lemma_unit_products(m.y.z);
        lemma_unit_products(m.z.x);
        lemma_unit_products(m.z.y);
        lemma_unit_products(m.z.z);
    }

    /// Matrix multiplication is associative.
    pub proof fn lemma_mul_associative(a: Self, b: Self, c: Self)
        requires
            a.fits_mul(b),
            b.fits_mul(c),
            a.spec_mul(b).fits_mul(c),
            a.fits_mul(b.spec_mul(c)),
        ensures
            a.spec_mul(b).spec_mul(c) == a.spec_mul(b.spec_mul(c)),
    {
        broadcast use lemma_from_int_value;

        lemma_assoc_entry3(
            a.x.x.value(),
            a.y.x.value(),
            a.z.x.value(),
            b.x.x.value(),
            b.x.y.value(),
            b.x.z.value(),
            b.y.x.value(),
            b.y.y.value(),
            b.y.z.value(),
            b.z.x.value(),
            b.z.y.value(),
            b.z.z.value(),
            c.x.x.value(),
            c.x.y.value(),
            c.x.z.value(),
        );
        lemma_assoc_entry3(
            a.x.y.value(),
            a.y.y.value(),
            a.z.y.value(),
            b.x.x.value(),
            b.x.y.value(),
            b.x.z.value(),
            b.y.x.value(),
            b.y.y.value(),
            b.y.z.value(),
            b.z.x.value(),
            b.z.y.value(),
            b.z.z.value(),
            c.x.x.value(),
            c.x.y.value(),
            c.x.z.value(),
        );
        lemma_assoc_entry3(
            a.x.z.value(),
            a.y.z.value(),
            a.z.z.value(),
            b.x.x.value(),
            b.x.y.value(),
            b.x.z.value(),
            b.y.x.value(),
            b.y.y.value(),
            b.y.z.value(),
            b.z.x.value(),
            b.z.y.value(),
            b.z.z.value(),
            c.x.x.value(),
            c.x.y.value(),
            c.x.z.value(),
        );
        lemma_assoc_entry3(
            a.x.x.value(),
            a.y.x.value(),
            a.z.x.value(),
            b.x.x.value(),
            b.x.y.value(),
            b.x.z.value(),
            b.y.x.value(),
            b.y.y.value(),
            b.y.z.value(),
            b.z.x.value(),
            b.z.y.value(),
            b.z.z.value(),
            c.y.x.value(),
            c.y.y.value(),
            c.y.z.value(),
        );
        lemma_assoc_entry3(
            a.x.y.value(),
            a.y.y.value(),
            a.z.y.value(),
            b.x.x.value(),
            b.x.y.value(),
            b.x.z.value(),
            b.y.x.value(),
            b.y.y.value(),
            b.y.z.value(),
            b.z.x.value(),
            b.z.y.value(),
            b.z.z.value(),
            c.y.x.value(),
            c.y.y.value(),
            c.y.z.value(),
        );
        lemma_assoc_entry3(
            a.x.z.value(),
            a.y.z.value(),
            a.z.z.value(),
            b.x.x.value(),
            b.x.y.value(),
            b.x.z.value(),
            b.y.x.value(),
            b.y.y.value(),
            b.y.z.value(),
            b.z.x.value(),
            b.z.y.value(),
            b.z.z.value(),
            c.y.x.value(),
            c.y.y.value(),
            c.y.z.value(),
        );
        lemma_assoc_entry3(
            a.x.x.value(),
            a.y.x.value(),
            a.z.x.value(),
            b.x.x.value(),
            b.x.y.value(),
            b.x.z.value(),
            b.y.x.value(),
            b.y.y.value(),
            b.y.z.value(),
            b.z.x.value(),
            b.z.y.value(),
            b.z.z.value(),
            c.z.x.value(),
            c.z.y.value(),
            c.z.z.value(),
        );
        lemma_assoc_entry3(
            a.x.y.value(),
            a.y.y.value(),
            a.z.y.value(),
            b.x.x.value(),
            b.x.y.value(),
            b.x.z.value(),
            b.y.x.value(),
            b.y.y.value(),
            b.y.z.value(),
            b.z.x.value(),
            b.z.y.value(),
            b.z.z.value(),
            c.z.x.value(),
            c.z.y.value(),
            c.z.z.value(),
        );
        lemma_assoc_entry3(
            a.x.z.value(),
            a.y.z.value(),
            a.z.z.value(),
            b.x.x.value(),
            b.x.y.value(),
            b.x.z.value(),
            b.y.x.value(),
            b.y.y.value(),
            b.y.z.value(),
            b.z.x.value(),
            b.z.y.value(),
            b.z.z.value(),
            c.z.x.value(),
            c.z.y.value(),
            c.z.z.value(),
        );
    }

    /// Transposing twice gives back the matrix.
    pub proof fn lemma_transpose_transpose(m: Self)
        ensures
            m.spec_transpose().spec_transpose() == m,
    {
    }

    /// The identity has determinant one.
    pub proof fn lemma_determinant_identity()
        ensures
            Self::spec_identity().determinant_fits(),
            Self::spec_identity().determinant_spec() == 1,
    {
        S::lemma_value(S::ZERO, S::ONE);
    }

    /// A matrix with a row or a column of zeros has determinant zero.
    pub proof fn lemma_determinant_zero_line(m: Self, i: int)
        requires
            0 <= i < 3,
            m.spec_row(i) == Vec3::<S>::spec_zero() || m.spec_column(i) == Vec3::<S>::spec_zero(),
        ensures
            m.determinant_spec() == 0,
    {
        S::lemma_value(S::ZERO, S::ONE);
        lemma_det3_zero_line(
            m.x.x.value(),
            m.x.y.value(),
            m.x.z.value(),
            m.y.x.value(),
            m.y.y.value(),
            m.y.z.value(),
            m.z.x.value(),
            m.z.y.value(),
            m.z.z.value(),
        );
    }
}

impl<S: Num> core::ops::Mul<Mat3<S>> for Mat3<S> {
    type Output = Mat3<S>;

    fn mul(self, rhs: Mat3<S>) -> (r: Mat3<S>)
        ensures
            r == self.spec_mul(rhs),
    {
        let r = Mat3::new(
            self.row(0).dot(rhs.column(0)),
            self.row(1).dot(rhs.column(0)),
            self.row(2).dot(rhs.column(0)),
            self.row(0).dot(rhs.column(1)),
            self.row(1).dot(rhs.column(1)),
            self.row(2).dot(rhs.column(1)),
            self.row(0).dot(rhs.column(2)),
            self.row(1).dot(rhs.column(2)),
            self.row(2).dot(rhs.column(2)),
        );
        proof {
            r.lemma_canonical();
        }
        r
    }
}

impl<S: Num> vstd::std_specs::ops::MulSpecImpl<Mat3<S>> for Mat3<S> {
    open spec fn obeys_mul_spec() -> bool {
        true
    }

    open spec fn mul_req(self, rhs: Mat3<S>) -> bool {
        self.fits_mul(rhs)
    }

    open spec fn mul_spec(self, rhs: Mat3<S>) -> Mat3<S> {
        self.spec_mul(rhs)
    }
}

impl<S: Num> core::ops::Mul<Vec3<S>> for Mat3<S> {
    type Output = Vec3<S>;

    fn mul(self, rhs: Vec3<S>) -> (r: Vec3<S>)
        ensures
            r == self.spec_mul_vec(rhs),
    {
        let r = Vec3::new(
            self.row(0).dot(rhs),
            self.row(1).dot(rhs),
            self.row(2).dot(rhs),
        );
        proof {
            r.lemma_canonical();
        }
        r
    }
}

impl<S: Num> vstd::std_specs::ops::MulSpecImpl<Vec3<S>> for Mat3<S> {
    open spec fn obeys_mul_spec() -> bool {
        true
    }

    open spec fn mul_req(self, rhs: Vec3<S>) -> bool {
        self.fits_mul_vec(rhs)
    }

    open spec fn mul_spec(self, rhs: Vec3<S>) -> Vec3<S> {
        self.spec_mul_vec(rhs)
    }
}

impl<S: Num> core::ops::Add<Mat3<S>> for Mat3<S> {
    type Output = Mat3<S>;

    fn add(self, rhs: Mat3<S>) -> (r: Mat3<S>)
        ensures
            r == (Mat3 { x: self.x.spec_add(rhs.x), y: self.y.spec_add(rhs.y), z: self.z.spec_add(rhs.z) }),
    {
        Mat3 { x: self.x + rhs.x, y: self.y + rhs.y, z: self.z + rhs.z }
    }
}

impl<S: Num> vstd::std_specs::ops::AddSpecImpl<Mat3<S>> for Mat3<S> {
    open spec fn obeys_add_spec() -> bool {
        true
    }

    open spec fn add_req(self, rhs: Mat3<S>) -> bool {
        self.x.fits_add(rhs.x) && self.y.fits_add(rhs.y) && self.z.fits_add(rhs.z)
    }

    open spec fn add_spec(self, rhs: Mat3<S>) -> Mat3<S> {
        Mat3 { x: self.x.spec_add(rhs.x), y: self.y.spec_add(rhs.y), z: self.z.spec_add(rhs.z) }
    }
}

impl<S: Num> core::ops::Sub<Mat3<S>> for Mat3<S> {
    type Output = Mat3<S>;

    fn sub(self, rhs: Mat3<S>) -> (r: Mat3<S>)
        ensures
            r == (Mat3 { x: self.x.spec_sub(rhs.x), y: self.y.spec_sub(rhs.y), z: self.z.spec_sub(rhs.z) }),
    {
        Mat3 { x: self.x - rhs.x, y: self.y - rhs.y, z: self.z - rhs.z }
    }
}

impl<S: Num> vstd::std_specs::ops::SubSpecImpl<Mat3<S>> for Mat3<S> {
    open spec fn obeys_sub_spec() -> bool {
        true
    }

    open spec fn sub_req(self, rhs: Mat3<S>) -> bool {
        self.x.fits_sub(rhs.x) && self.y.fits_sub(rhs.y) && self.z.fits_sub(rhs.z)
    }

    open spec fn sub_spec(self, rhs: Mat3<S>) -> Mat3<S> {
        Mat3 { x: self.x.spec_sub(rhs.x), y: self.y.spec_sub(rhs.y), z: self.z.spec_sub(rhs.z) }
    }
}

impl<S: Num> core::ops::Mul<S> for Mat3<S> {
    type Output = Mat3<S>;

    fn mul(self, rhs: S) -> (r: Mat3<S>)
        ensures
            r == (Mat3 { x: self.x.spec_scale(rhs), y: self.y.spec_scale(rhs), z: self.z.spec_scale(rhs) }),
    {
        Mat3 { x: self.x * rhs, y: self.y * rhs, z: self.z * rhs }
    }
}

impl<S: Num> vstd::std_specs::ops::MulSpecImpl<S> for Mat3<S> {
    open spec fn obeys_mul_spec() -> bool {
        true
    }

    open spec fn mul_req(self, rhs: S) -> bool {
        self.x.fits_scale(rhs) && self.y.fits_scale(rhs) && self.z.fits_scale(rhs)
    }

    open spec fn mul_spec(self, rhs: S) -> Mat3<S> {
        Mat3 { x: self.x.spec_scale(rhs), y: self.y.spec_scale(rhs), z: self.z.spec_scale(rhs) }
    }
}

impl<S: Num> core::ops::Div<S> for Mat3<S> {
    type Output = Mat3<S>;

    fn div(self, rhs: S) -> (r: Mat3<S>)
        ensures
            r == (Mat3 { x: self.x.spec_div(rhs), y: self.y.spec_div(rhs), z: self.z.spec_div(rhs) }),
    {
        Mat3 { x: self.x / rhs, y: self.y / rhs, z: self.z / rhs }
    }
}

impl<S: Num> vstd::std_specs::ops::DivSpecImpl<S> for Mat3<S> {
    open spec fn obeys_div_spec() -> bool {
        true
    }

    open spec fn div_req(self, rhs: S) -> bool {
        self.x.fits_div(rhs) && self.y.fits_div(rhs) && self.z.fits_div(rhs)
    }

    open spec fn div_spec(self, rhs: S) -> Mat3<S> {
        Mat3 { x: self.x.spec_div(rhs), y: self.y.spec_div(rhs), z: self.z.spec_div(rhs) }
    }
}

impl<S: Num> core::ops::Rem<S> for Mat3<S> {
    type Output = Mat3<S>;

    fn rem(self, rhs: S) -> (r: Mat3<S>)
        ensures
            r == (Mat3 { x: self.x.spec_rem(rhs), y: self.y.spec_rem(rhs), z: self.z.spec_rem(rhs) }),
    {
        Mat3 { x: self.x % rhs, y: self.y % rhs, z: self.z % rhs }
    }
}

impl<S: Num> vstd::std_specs::ops::RemSpecImpl<S> for Mat3<S> {
    open spec fn obeys_rem_spec() -> bool {
        true
    }

    open spec fn rem_req(self, rhs: S) -> bool {
        self.x.fits_div(rhs) && self.y.fits_div(rhs) && self.z.fits_div(rhs)
    }

    open spec fn rem_spec(self, rhs: S) -> Mat3<S> {
        Mat3 { x: self.x.spec_rem(rhs), y: self.y.spec_rem(rhs), z: self.z.spec_rem(rhs) }
    }
}

impl<S: Signed> core::ops::Neg for Mat3<S> {
    type Output = Mat3<S>;

    fn neg(self) -> (r: Mat3<S>)
        ensures
            r == (Mat3 { x: self.x.spec_neg(), y: self.y.spec_neg(), z: self.z.spec_neg() }),
    {
        Mat3 { x: core::ops::Neg::neg(self.x), y: core::ops::Neg::neg(self.y), z: core::ops::Neg::neg(self.z) }
    }
}

impl<S: Signed> vstd::std_specs::ops::NegSpecImpl for Mat3<S> {
    open spec fn obeys_neg_spec() -> bool {
        true
    }

    open spec fn neg_req(self) -> bool {
        self.x.fits_neg() && self.y.fits_neg() && self.z.fits_neg()
    }

    open spec fn neg_spec(self) -> Mat3<S> {
        Mat3 { x: self.x.spec_neg(), y: self.y.spec_neg(), z: self.z.spec_neg() }
    }
}

impl<S: Num> VectorSpace for Mat3<S> {
    type Scalar = S;
}

impl<S: Num> Matrix for Mat3<S> {
    type Row = Vec3<S>;
    type Column = Vec3<S>;
    type Transpose = Mat3<S>;

    open spec fn dimension() -> int {
        3
    }

    fn row(&self, r: usize) -> (v: Vec3<S>)
        ensures
            v == self.spec_row(r as int),
    {
        if r == 0 {
            Vec3::new(self.x.x, self.y.x, self.z.x)
        } else if r == 1 {
            Vec3::new(self.x.y, self.y.y, self.z.y)
        } else {
            Vec3::new(self.x.z, self.y.z, self.z.z)
        }
    }

    fn column(&self, c: usize) -> (v: Vec3<S>)
        ensures
            v == self.spec_column(c as int),
    {
        if c == 0 {
            self.x
        } else if c == 1 {
            self.y
        } else {
            self.z
        }
    }

    fn transpose(&self) -> (r: Mat3<S>)
        ensures
            r == self.spec_transpose(),
    {
        Mat3::new(
            self.x.x, self.y.x, self.z.x, self.x.y, self.y.y, self.z.y, self.x.z, self.y.z, self.z.z,
        )
    }
}

impl<S: Num> SquareMatrix for Mat3<S> {
    type ColumnRow = Vec3<S>;

    open spec fn determinant_spec(&self) -> int {
        self.x.x.value() * self.minor_values().0 - self.y.x.value() * self.minor_values().1
            + self.z.x.value() * self.minor_values().2
    }

    open spec fn determinant_fits(&self) -> bool {
        &&& fits_diff::<S>(self.y.y.value() * self.z.z.value(), self.y.z.value() * self.z.y.value())
        &&& fits_diff::<S>(self.x.y.value() * self.z.z.value(), self.x.z.value() * self.z.y.value())
        &&& fits_diff::<S>(self.x.y.value() * self.y.z.value(), self.x.z.value() * self.y.y.value())
        &&& S::fits(self.x.x.value() * self.minor_values().0)
        &&& S::fits(self.y.x.value() * self.minor_values().1)
        &&& S::fits(self.z.x.value() * self.minor_values().2)
        &&& S::fits(self.x.x.value() * self.minor_values().0 - self.y.x.value() * self.minor_values().1)
        &&& S::fits(self.determinant_spec())
    }

    open spec fn trace_spec(&self) -> int {
        self.x.x.value() + self.y.y.value() + self.z.z.value()
    }

    open spec fn trace_fits(&self) -> bool {
        fits3::<S>(self.x.x.value(), self.y.y.value(), self.z.z.value())
    }

    fn identity() -> (r: Self)
        ensures
            r == Self::spec_identity(),
    {
        Mat3::from_cols(Vec3::unit_x(), Vec3::unit_y(), Vec3::unit_z())
    }

    fn from_value(value: S) -> (r: Self)
        ensures
            r == (Mat3 { x: Vec3 { x: value, y: S::ZERO, z: S::ZERO }, y: Vec3 { x: S::ZERO, y: value, z: S::ZERO }, z: Vec3 { x: S::ZERO, y: S::ZERO, z: value } }),
    {
        Mat3::new(value, S::ZERO, S::ZERO, S::ZERO, value, S::ZERO, S::ZERO, S::ZERO, value)
    }

    fn from_diagonal(diagonal: Vec3<S>) -> (r: Self)
        ensures
            r == (Mat3 { x: Vec3 { x: diagonal.x, y: S::ZERO, z: S::ZERO }, y: Vec3 { x: S::ZERO, y: diagonal.y, z: S::ZERO }, z: Vec3 { x: S::ZERO, y: S::ZERO, z: diagonal.z } }),
    {
        Mat3::new(diagonal.x, S::ZERO, S::ZERO, S::ZERO, diagonal.y, S::ZERO, S::ZERO, S::ZERO, diagonal.z)
    }

    fn determinant(&self) -> (r: S) {
        let da = (self.y.y.times(self.z.z)).minus(self.y.z.times(self.z.y));
        let db = (self.x.y.times(self.z.z)).minus(self.x.z.times(self.z.y));
        let dc = (self.x.y.times(self.y.z)).minus(self.x.z.times(self.y.y));
        ((self.x.x.times(da)).minus(self.y.x.times(db))).plus(self.z.x.times(dc))
    }

    fn diagonal(&self) -> (r: Vec3<S>)
        ensures
            r == (Vec3 { x: self.x.x, y: self.y.y, z: self.z.z }),
    {
        Vec3::new(self.x.x, self.y.y, self.z.z)
    }

    fn trace(&self) -> (r: S) {
        self.x.x.plus(self.y.y).plus(self.z.z)
    }
}

/// A 4x4 matrix stored by columns: `x` is the first column.
#[derive(Clone, Copy, Debug, PartialEq, Eq)]
pub struct Mat4<S> {
    pub x: Vec4<S>,
    pub y: Vec4<S>,
    pub z: Vec4<S>,
    pub w: Vec4<S>,
}

impl<S> Mat4<S> {
    /// The matrix from its entries, given column by column.
    pub fn new(
        c0r0: S, c0r1: S, c0r2: S, c0r3: S, c1r0: S, c1r1: S, c1r2: S, c1r3: S, c2r0: S, c2r1: S, c2r2: S, c2r3: S, c3r0: S, c3r1: S, c3r2: S, c3r3: S,
    ) -> (r: Mat4<S>)
        ensures
            r.x.x == c0r0,
            r.x.y == c0r1,
            r.x.z == c0r2,
            r.x.w == c0r3,
            r.y.x == c1r0,
            r.y.y == c1r1,
            r.y.z == c1r2,
            r.y.w == c1r3,
            r.z.x == c2r0,
            r.z.y == c2r1,
            r.z.z == c2r2,
            r.z.w == c2r3,
            r.w.x == c3r0,
            r.w.y == c3r1,
            r.w.z == c3r2,
            r.w.w == c3r3,
    {
        Mat4::from_cols(

            Vec4::new(c0r0, c0r1, c0r2, c0r3),
            Vec4::new(c1r0, c1r1, c1r2, c1r3),
            Vec4::new(c2r0, c2r1, c2r2, c2r3),
            Vec4::new(c3r0, c3r1, c3r2, c3r3),
        )
    }

    /// The matrix from its columns.
    pub fn from_cols(x: Vec4<S>, y: Vec4<S>, z: Vec4<S>, w: Vec4<S>) -> (r: Mat4<S>)
        ensures
            r.x == x,
            r.y == y,
            r.z == z,
            r.w == w,
    {
        Mat4 { x, y, z, w }
    }
}

impl<S: Num> Mat4<S> {
    /// Each entry is the scalar its value stands for.
    pub proof fn lemma_canonical(self)
        ensures
            S::from_int(self.x.x.value()) == self.x.x,
            S::from_int(self.x.y.value()) == self.x.y,
            S::from_int(self.x.z.value()) == self.x.z,
            S::from_int(self.x.w.value()) == self.x.w,
            S::from_int(self.y.x.value()) == self.y.x,
            S::from_int(self.y.y.value()) == self.y.y,
            S::from_int(self.y.z.value()) == self.y.z,
            S::from_int(self.y.w.value()) == self.y.w,
            S::from_int(self.z.x.value()) == self.z.x,
            S::from_int(self.z.y.value()) == self.z.y,
            S::from_int(self.z.z.value()) == self.z.z,
            S::from_int(self.z.w.value()) == self.z.w,
            S::from_int(self.w.x.value()) == self.w.x,
            S::from_int(self.w.y.value()) == self.w.y,
            S::from_int(self.w.z.value()) == self.w.z,
            S::from_int(self.w.w.value()) == self.w.w,
    {
        self.x.lemma_canonical();
        self.y.lemma_canonical();
        self.z.lemma_canonical();
        self.w.lemma_canonical();
    }

    /// Row `r`, counted from zero.
    pub open spec fn spec_row(self, r: int) -> Vec4<S> {
        if r == 0 {
            Vec4 { x: self.x.x, y: self.y.x, z: self.z.x, w: self.w.x }
        } else if r == 1 {
            Vec4 { x: self.x.y, y: self.y.y, z: self.z.y, w: self.w.y }
        } else if r == 2 {
            Vec4 { x: self.x.z, y: self.y.z, z: self.z.z, w: self.w.z }
        } else {
            Vec4 { x: self.x.w, y: self.y.w, z: self.z.w, w: self.w.w }
        }
    }

    /// Column `c`, counted from zero.
    pub open spec fn spec_column(self, c: int) -> Vec4<S> {
        if c == 0 {
            self.x
        } else if c == 1 {
            self.y
        } else if c == 2 {
            self.z
        } else {
            self.w
        }
    }

    /// The transpose: entry at column `c`, row `r` moves to column `r`, row `c`.
    pub open spec fn spec_transpose(self) -> Mat4<S> {
        Mat4 { x: Vec4 { x: self.x.x, y: self.y.x, z: self.z.x, w: self.w.x }, y: Vec4 { x: self.x.y, y: self.y.y, z: self.z.y, w: self.w.y }, z: Vec4 { x: self.x.z, y: self.y.z, z: self.z.z, w: self.w.z }, w: Vec4 { x: self.x.w, y: self.y.w, z: self.z.w, w: self.w.w } }
    }

    /// The identity matrix, as a value.
    pub open spec fn spec_identity() -> Mat4<S> {
        Mat4 { x: Vec4 { x: S::ONE, y: S::ZERO, z: S::ZERO, w: S::ZERO }, y: Vec4 { x: S::ZERO, y: S::ONE, z: S::ZERO, w: S::ZERO }, z: Vec4 { x: S::ZERO, y: S::ZERO, z: S::ONE, w: S::ZERO }, w: Vec4 { x: S::ZERO, y: S::ZERO, z: S::ZERO, w: S::ONE } }
    }

    /// The matrix product: the entry at column `c`, row `r` is row `r` of
    /// `self` dotted with column `c` of `rhs`.
    pub open spec fn spec_mul(self, rhs: Self) -> Mat4<S> {
        Mat4 { x: Vec4 { x: S::from_int(self.spec_row(0).dot_spec(rhs.x)), y: S::from_int(self.spec_row(1).dot_spec(rhs.x)), z: S::from_int(self.spec_row(2).dot_spec(rhs.x)), w: S::from_int(self.spec_row(3).dot_spec(rhs.x)) }, y: Vec4 { x: S::from_int(self.spec_row(0).dot_spec(rhs.y)), y: S::from_int(self.spec_row(1).dot_spec(rhs.y)), z: S::from_int(self.spec_row(2).dot_spec(rhs.y)), w: S::from_int(self.spec_row(3).dot_spec(rhs.y)) }, z: Vec4 { x: S::from_int(self.spec_row(0).dot_spec(rhs.z)), y: S::from_int(self.spec_row(1).dot_spec(rhs.z)), z: S::from_int(self.spec_row(2).dot_spec(rhs.z)), w: S::from_int(self.spec_row(3).dot_spec(rhs.z)) }, w: Vec4 { x: S::from_int(self.spec_row(0).dot_spec(rhs.w)), y: S::from_int(self.spec_row(1).dot_spec(rhs.w)), z: S::from_int(self.spec_row(2).dot_spec(rhs.w)), w: S::from_int(self.spec_row(3).dot_spec(rhs.w)) } }
    }

    /// Whether every dot product of `spec_mul` stays in range.
    pub open spec fn fits_mul(self, rhs: Self) -> bool {
        self.spec_row(0).dot_fits(rhs.x) &&
        self.spec_row(1).dot_fits(rhs.x) &&
        self.spec_row(2).dot_fits(rhs.x) &&
        self.spec_row(3).dot_fits(rhs.x) &&
        self.spec_row(0).dot_fits(rhs.y) &&
        self.spec_row(1).dot_fits(rhs.y) &&
        self.spec_row(2).dot_fits(rhs.y) &&
        self.spec_row(3).dot_fits(rhs.y) &&
        self.spec_row(0).dot_fits(rhs.z) &&
        self.spec_row(1).dot_fits(rhs.z) &&
        self.spec_row(2).dot_fits(rhs.z) &&
        self.spec_row(3).dot_fits(rhs.z) &&
        self.spec_row(0).dot_fits(rhs.w) &&
        self.spec_row(1).dot_fits(rhs.w) &&
        self.spec_row(2).dot_fits(rhs.w) &&
        self.spec_row(3).dot_fits(rhs.w)
    }

    /// The matrix applied to a vector: component `r` is row `r` dotted with `v`.
    pub open spec fn spec_mul_vec(self, v: Vec4<S>) -> Vec4<S> {
        Vec4 { x: S::from_int(self.spec_row(0).dot_spec(v)), y: S::from_int(self.spec_row(1).dot_spec(v)), z: S::from_int(self.spec_row(2).dot_spec(v)), w: S::from_int(self.spec_row(3).dot_spec(v)) }
    }

    /// Whether every dot product of `spec_mul_vec` stays in range.
    pub open spec fn fits_mul_vec(self, v: Vec4<S>) -> bool {
        self.spec_row(0).dot_fits(v) &&
        self.spec_row(1).dot_fits(v) &&
        self.spec_row(2).dot_fits(v) &&
        self.spec_row(3).dot_fits(v)
    }

    /// The matrix with every entry zero.
    pub fn zero() -> (r: Self)
        ensures
            r == (Mat4 { x: Vec4::<S>::spec_zero(), y: Vec4::<S>::spec_zero(), z: Vec4::<S>::spec_zero(), w: Vec4::<S>::spec_zero() }),
    {
        Mat4 { x: Vec4::zero(), y: Vec4::zero(), z: Vec4::zero(), w: Vec4::zero() }
    }

    /// The homogeneous translation by `v`: the identity with `v` in the
    /// last column.
    pub fn from_translation(v: Vec3<S>) -> (r: Self)
        ensures
            r == (Mat4 { x: Vec4 { x: S::ONE, y: S::ZERO, z: S::ZERO, w: S::ZERO }, y: Vec4 { x: S::ZERO, y: S::ONE, z: S::ZERO, w: S::ZERO }, z: Vec4 { x: S::ZERO, y: S::ZERO, z: S::ONE, w: S::ZERO }, w: Vec4 { x: v.x, y: v.y, z: v.z, w: S::ONE } }),
    {
        Mat4::new(S::ONE, S::ZERO, S::ZERO, S::ZERO, S::ZERO, S::ONE, S::ZERO, S::ZERO, S::ZERO, S::ZERO, S::ONE, S::ZERO, v.x, v.y, v.z, S::ONE)
    }

    /// The homogeneous scale by `value` along each axis.
    pub fn from_scale(value: S) -> (r: Self)
        ensures
            r == (Mat4 { x: Vec4 { x: value, y: S::ZERO, z: S::ZERO, w: S::ZERO }, y: Vec4 { x: S::ZERO, y: value, z: S::ZERO, w: S::ZERO }, z: Vec4 { x: S::ZERO, y: S::ZERO, z: value, w: S::ZERO }, w: Vec4 { x: S::ZERO, y: S::ZERO, z: S::ZERO, w: S::ONE } }),
    {
        Mat4::new(value, S::ZERO, S::ZERO, S::ZERO, S::ZERO, value, S::ZERO, S::ZERO, S::ZERO, S::ZERO, value, S::ZERO, S::ZERO, S::ZERO, S::ZERO, S::ONE)
    }

    /// The homogeneous scale by `x`, `y` and `z` along the axes.
    pub fn from_nonuniform_scale(x: S, y: S, z: S) -> (r: Self)
        ensures
            r == (Mat4 { x: Vec4 { x: x, y: S::ZERO, z: S::ZERO, w: S::ZERO }, y: Vec4 { x: S::ZERO, y: y, z: S::ZERO, w: S::ZERO }, z: Vec4 { x: S::ZERO, y: S::ZERO, z: z, w: S::ZERO }, w: Vec4 { x: S::ZERO, y: S::ZERO, z: S::ZERO, w: S::ONE } }),
    {
        Mat4::new(x, S::ZERO, S::ZERO, S::ZERO, S::ZERO, y, S::ZERO, S::ZERO, S::ZERO, S::ZERO, z, S::ZERO, S::ZERO, S::ZERO, S::ZERO, S::ONE)
    }

    /// The 3x3 minor that leaves out the first row and column `x`,
    /// transposed.
    pub open spec fn minor_x(self) -> Mat3<S> {
        Mat3 { x: Vec3 { x: self.y.y, y: self.z.y, z: self.w.y }, y: Vec3 { x: self.y.z, y: self.z.z, z: self.w.z }, z: Vec3 { x: self.y.w, y: self.z.w, z: self.w.w } }
    }

    /// The 3x3 minor that leaves out the first row and column `y`,
    /// transposed.
    pub open spec fn minor_y(self) -> Mat3<S> {
        Mat3 { x: Vec3 { x: self.x.y, y: self.z.y, z: self.w.y }, y: Vec3 { x: self.x.z, y: self.z.z, z: self.w.z }, z: Vec3 { x: self.x.w, y: self.z.w, z: self.w.w } }
    }

    /// The 3x3 minor that leaves out the first row and column `z`,
    /// transposed.
    pub open spec fn minor_z(self) -> Mat3<S> {
        Mat3 { x: Vec3 { x: self.x.y, y: self.y.y, z: self.w.y }, y: Vec3 { x: self.x.z, y: self.y.z, z: self.w.z }, z: Vec3 { x: self.x.w, y: self.y.w, z: self.w.w } }
    }

    /// The 3x3 minor that leaves out the first row and column `w`,
    /// transposed.
    pub open spec fn minor_w(self) -> Mat3<S> {
        Mat3 { x: Vec3 { x: self.x.y, y: self.y.y, z: self.z.y }, y: Vec3 { x: self.x.z, y: self.y.z, z: self.z.z }, z: Vec3 { x: self.x.w, y: self.y.w, z: self.z.w } }
    }

    /// Multiplying by the identity, on either side, leaves a matrix unchanged.
    pub proof fn lemma_mul_identity(m: Self)
        ensures
            m.fits_mul(Self::spec_identity()),
            m.spec_mul(Self::spec_identity()) == m,
            Self::spec_identity().fits_mul(m),
            Self::spec_identity().spec_mul(m) == m,
    {
        S::lemma_value(S::ZERO, S::ONE);
        m.lemma_canonical();
        lemma_unit_products(m.x.x);
        lemma_unit_products(m.x.y);
        lemma_unit_products(m.x.z);
        lemma_unit_products(m.x.w);
        lemma_unit_products(m.y.x);
        lemma_unit_products(m.y.y);
        lemma_unit_products(m.y.z);
        lemma_unit_products(m.y.w);
        lemma_unit_products(m.z.x);
        lemma_unit_products(m.z.y);
        lemma_unit_products(m.z.z);
        lemma_unit_products(m.z.w);
        lemma_unit_products(m.w.x);
        lemma_unit_products(m.w.y);
        lemma_unit_products(m.w.z);
        lemma_unit_products(m.w.w);
    }

    /// Matrix multiplication is associative.
    pub proof fn lemma_mul_associative(a: Self, b: Self, c: Self)
        requires
            a.fits_mul(b),
            b.fits_mul(c),
            a.spec_mul(b).fits_mul(c),
            a.fits_mul(b.spec_mul(c)),
        ensures
            a.spec_mul(b).spec_mul(c) == a.spec_mul(b.spec_mul(c)),
    {
        broadcast use lemma_from_int_value;

        lemma_assoc_entry4(
            a.x.x.value(),
            a.y.x.value(),
            a.z.x.value(),
            a.w.x.value(),
            b.x.x.value(),
            b.x.y.value(),
            b.x.z.value(),
            b.x.w.value(),
            b.y.x.value(),
            b.y.y.value(),
            b.y.z.value(),
            b.y.w.value(),
            b.z.x.value(),
            b.z.y.value(),
            b.z.z.value(),
            b.z.w.value(),
            b.w.x.value(),
            b.w.y.value(),
            b.w.z.value(),
            b.w.w.value(),
            c.x.x.value(),
            c.x.y.value(),
            c.x.z.value(),
            c.x.w.value(),
        );
        lemma_assoc_entry4(
            a.x.y.value(),
            a.y.y.value(),
            a.z.y.value(),
            a.w.y.value(),
            b.x.x.value(),
            b.x.y.value(),
            b.x.z.value(),
            b.x.w.value(),
            b.y.x.value(),
            b.y.y.value(),
            b.y.z.value(),
            b.y.w.value(),
            b.z.x.value(),
            b.z.y.value(),
            b.z.z.value(),
            b.z.w.value(),
            b.w.x.value(),
            b.w.y.value(),
            b.w.z.value(),
            b.w.w.value(),
            c.x.x.value(),
            c.x.y.value(),
            c.x.z.value(),
            c.x.w.value(),
        );
        lemma_assoc_entry4(
            a.x.z.value(),
            a.y.z.value(),
            a.z.z.value(),
            a.w.z.value(),
            b.x.x.value(),
            b.x.y.value(),
            b.x.z.value(),
            b.x.w.value(),
            b.y.x.value(),
            b.y.y.value(),
            b.y.z.value(),
            b.y.w.value(),
            b.z.x.value(),
            b.z.y.value(),
            b.z.z.value(),
            b.z.w.value(),
            b.w.x.value(),
            b.w.y.value(),
            b.w.z.value(),
            b.w.w.value(),
            c.x.x.value(),
            c.x.y.value(),
            c.x.z.value(),
            c.x.w.value(),
        );
        lemma_assoc_entry4(
            a.x.w.value(),
            a.y.w.value(),
            a.z.w.value(),
            a.w.w.value(),
            b.x.x.value(),
            b.x.y.value(),
            b.x.z.value(),
            b.x.w.value(),
            b.y.x.value(),
            b.y.y.value(),
            b.y.z.value(),
            b.y.w.value(),
            b.z.x.value(),
            b.z.y.value(),
            b.z.z.value(),
            b.z.w.value(),
            b.w.x.value(),
            b.w.y.value(),
            b.w.z.value(),
            b.w.w.value(),
            c.x.x.value(),
            c.x.y.value(),
            c.x.z.value(),
            c.x.w.value(),
        );
        lemma_assoc_entry4(
            a.x.x.value(),
            a.y.x.value(),
            a.z.x.value(),
            a.w.x.value(),
            b.x.x.value(),
            b.x.y.value(),
            b.x.z.value(),
            b.x.w.value(),
            b.y.x.value(),
            b.y.y.value(),
            b.y.z.value(),
            b.y.w.value(),
            b.z.x.value(),
            b.z.y.value(),
            b.z.z.value(),
            b.z.w.value(),
            b.w.x.value(),
            b.w.y.value(),
            b.w.z.value(),
            b.w.w.value(),
            c.y.x.value(),
            c.y.y.value(),
            c.y.z.value(),
            c.y.w.value(),
        );
        lemma_assoc_entry4(
            a.x.y.value(),
            a.y.y.value(),
            a.z.y.value(),
            a.w.y.value(),
            b.x.x.value(),
            b.x.y.value(),
            b.x.z.value(),
            b.x.w.value(),
            b.y.x.value(),
            b.y.y.value(),
            b.y.z.value(),
            b.y.w.value(),
            b.z.x.value(),
            b.z.y.value(),
            b.z.z.value(),
            b.z.w.value(),
            b.w.x.value(),
            b.w.y.value(),
            b.w.z.value(),
            b.w.w.value(),
            c.y.x.value(),
            c.y.y.value(),
            c.y.z.value(),
            c.y.w.value(),
        );
        lemma_assoc_entry4(
            a.x.z.value(),
            a.y.z.value(),
            a.z.z.value(),
            a.w.z.value(),
            b.x.x.value(),
            b.x.y.value(),
            b.x.z.value(),
            b.x.w.value(),
            b.y.x.value(),
            b.y.y.value(),
            b.y.z.value(),
            b.y.w.value(),
            b.z.x.value(),
            b.z.y.value(),
            b.z.z.value(),
            b.z.w.value(),
            b.w.x.value(),
            b.w.y.value(),
            b.w.z.value(),
            b.w.w.value(),
            c.y.x.value(),
            c.y.y.value(),
            c.y.z.value(),
            c.y.w.value(),
        );
        lemma_assoc_entry4(
            a.x.w.value(),
            a.y.w.value(),
            a.z.w.value(),
            a.w.w.value(),
            b.x.x.value(),
            b.x.y.value(),
            b.x.z.value(),
            b.x.w.value(),
            b.y.x.value(),
            b.y.y.value(),
            b.y.z.value(),
            b.y.w.value(),
            b.z.x.value(),
            b.z.y.value(),
            b.z.z.value(),
            b.z.w.value(),
            b.w.x.value(),
            b.w.y.value(),
            b.w.z.value(),
            b.w.w.value(),
            c.y.x.value(),
            c.y.y.value(),
            c.y.z.value(),
            c.y.w.value(),
        );
        lemma_assoc_entry4(
            a.x.x.value(),
            a.y.x.value(),
            a.z.x.value(),
            a.w.x.value(),
            b.x.x.value(),
            b.x.y.value(),
            b.x.z.value(),
            b.x.w.value(),
            b.y.x.value(),
            b.y.y.value(),
            b.y.z.value(),
            b.y.w.value(),
            b.z.x.value(),
            b.z.y.value(),
            b.z.z.value(),
            b.z.w.value(),
            b.w.x.value(),
            b.w.y.value(),
            b.w.z.value(),
            b.w.w.value(),
            c.z.x.value(),
            c.z.y.value(),
            c.z.z.value(),
            c.z.w.value(),
        );
        lemma_assoc_entry4(
            a.x.y.value(),
            a.y.y.value(),
            a.z.y.value(),
            a.w.y.value(),
            b.x.x.value(),
            b.x.y.value(),
            b.x.z.value(),
            b.x.w.value(),
            b.y.x.value(),
            b.y.y.value(),
            b.y.z.value(),
            b.y.w.value(),
            b.z.x.value(),
            b.z.y.value(),
            b.z.z.value(),
            b.z.w.value(),
            b.w.x.value(),
            b.w.y.value(),
            b.w.z.value(),
            b.w.w.value(),
            c.z.x.value(),
            c.z.y.value(),
            c.z.z.value(),
            c.z.w.value(),
        );
        lemma_assoc_entry4(
            a.x.z.value(),
            a.y.z.value(),
            a.z.z.value(),
            a.w.z.value(),
            b.x.x.value(),
            b.x.y.value(),
            b.x.z.value(),
            b.x.w.value(),
            b.y.x.value(),
            b.y.y.value(),
            b.y.z.value(),
            b.y.w.value(),
            b.z.x.value(),
            b.z.y.value(),
            b.z.z.value(),
            b.z.w.value(),
            b.w.x.value(),
            b.w.y.value(),
            b.w.z.value(),
            b.w.w.value(),
            c.z.x.value(),
            c.z.y.value(),
            c.z.z.value(),
            c.z.w.value(),
        );
        lemma_assoc_entry4(
            a.x.w.value(),
            a.y.w.value(),
            a.z.w.value(),
            a.w.w.value(),
            b.x.x.value(),
            b.x.y.value(),
            b.x.z.value(),
            b.x.w.value(),
            b.y.x.value(),
            b.y.y.value(),
            b.y.z.value(),
            b.y.w.value(),
            b.z.x.value(),
            b.z.y.value(),
            b.z.z.value(),
            b.z.w.value(),
            b.w.x.value(),
            b.w.y.value(),
            b.w.z.value(),
            b.w.w.value(),
            c.z.x.value(),
            c.z.y.value(),
            c.z.z.value(),
            c.z.w.value(),
        );
        lemma_assoc_entry4(
            a.x.x.value(),
            a.y.x.value(),
            a.z.x.value(),
            a.w.x.value(),
            b.x.x.value(),
            b.x.y.value(),
            b.x.z.value(),
            b.x.w.value(),
            b.y.x.value(),
            b.y.y.value(),
            b.y.z.value(),
            b.y.w.value(),
            b.z.x.value(),
            b.z.y.value(),
            b.z.z.value(),
            b.z.w.value(),
            b.w.x.value(),
            b.w.y.value(),
            b.w.z.value(),
            b.w.w.value(),
            c.w.x.value(),
            c.w.y.value(),
            c.w.z.value(),
            c.w.w.value(),
        );
        lemma_assoc_entry4(
            a.x.y.value(),
            a.y.y.value(),
            a.z.y.value(),
            a.w.y.value(),
            b.x.x.value(),
            b.x.y.value(),
            b.x.z.value(),
            b.x.w.value(),
            b.y.x.value(),
            b.y.y.value(),
            b.y.z.value(),
            b.y.w.value(),
            b.z.x.value(),
            b.z.y.value(),
            b.z.z.value(),
            b.z.w.value(),
            b.w.x.value(),
            b.w.y.value(),
            b.w.z.value(),
            b.w.w.value(),
            c.w.x.value(),
            c.w.y.value(),
            c.w.z.value(),
            c.w.w.value(),
        );
        lemma_assoc_entry4(
            a.x.z.value(),
            a.y.z.value(),
            a.z.z.value(),
            a.w.z.value(),
            b.x.x.value(),
            b.x.y.value(),
            b.x.z.value(),
            b.x.w.value(),
            b.y.x.value(),
            b.y.y.value(),
            b.y.z.value(),
            b.y.w.value(),
            b.z.x.value(),
            b.z.y.value(),
            b.z.z.value(),
            b.z.w.value(),
            b.w.x.value(),
            b.w.y.value(),
            b.w.z.value(),
            b.w.w.value(),
            c.w.x.value(),
            c.w.y.value(),
            c.w.z.value(),
            c.w.w.value(),
        );
        lemma_assoc_entry4(
            a.x.w.value(),
            a.y.w.value(),
            a.z.w.value(),
            a.w.w.value(),
            b.x.x.value(),
            b.x.y.value(),
            b.x.z.value(),
            b.x.w.value(),
            b.y.x.value(),
            b.y.y.value(),
            b.y.z.value(),
            b.y.w.value(),
            b.z.x.value(),
            b.z.y.value(),
            b.z.z.value(),
            b.z.w.value(),
            b.w.x.value(),
            b.w.y.value(),
            b.w.z.value(),
            b.w.w.value(),
            c.w.x.value(),
            c.w.y.value(),
            c.w.z.value(),
            c.w.w.value(),
        );
    }

    /// Transposing twice gives back the matrix.
    pub proof fn lemma_transpose_transpose(m: Self)
        ensures
            m.spec_transpose().spec_transpose() == m,
    {
    }

    /// The identity has determinant one.
    pub proof fn lemma_determinant_identity()
        ensures
            Self::spec_identity().determinant_fits(),
            Self::spec_identity().determinant_spec() == 1,
    {
        S::lemma_value(S::ZERO, S::ONE);
    }

    /// A matrix with a row or a column of zeros has determinant zero.
    pub proof fn lemma_determinant_zero_line(m: Self, i: int)
        requires
            0 <= i < 4,
            m.spec_row(i) == Vec4::<S>::spec_zero() || m.spec_column(i) == Vec4::<S>::spec_zero(),
        ensures
            m.determinant_spec() == 0,
    {
        S::lemma_value(S::ZERO, S::ONE);
        m.lemma_zero_line_minors(i);
    }
}

impl<S: Num> core::ops::Mul<Mat4<S>> for Mat4<S> {
    type Output = Mat4<S>;

    fn mul(self, rhs: Mat4<S>) -> (r: Mat4<S>)
        ensures
            r == self.spec_mul(rhs),
    {
        let r = Mat4::new(
            self.row(0).dot(rhs.column(0)),
            self.row(1).dot(rhs.column(0)),
            self.row(2).dot(rhs.column(0)),
            self.row(3).dot(rhs.column(0)),
            self.row(0).dot(rhs.column(1)),
            self.row(1).dot(rhs.column(1)),
            self.row(2).dot(rhs.column(1)),
            self.row(3).dot(rhs.column(1)),
            self.row(0).dot(rhs.column(2)),
            self.row(1).dot(rhs.column(2)),
            self.row(2).dot(rhs.column(2)),
            self.row(3).dot(rhs.column(2)),
            self.row(0).dot(rhs.column(3)),
            self.row(1).dot(rhs.column(3)),
            self.row(2).dot(rhs.column(3)),
            self.row(3).dot(rhs.column(3)),
        );
        proof {
            r.lemma_canonical();
        }
        r
    }
}

impl<S: Num> vstd::std_specs::ops::MulSpecImpl<Mat4<S>> for Mat4<S> {
    open spec fn obeys_mul_spec() -> bool {
        true
    }

    open spec fn mul_req(self, rhs: Mat4<S>) -> bool {
        self.fits_mul(rhs)
    }

    open spec fn mul_spec(self, rhs: Mat4<S>) -> Mat4<S> {
        self.spec_mul(rhs)
    }
}

impl<S: Num> core::ops::Mul<Vec4<S>> for Mat4<S> {
    type Output = Vec4<S>;

    fn mul(self, rhs: Vec4<S>) -> (r: Vec4<S>)
        ensures
            r == self.spec_mul_vec(rhs),
    {
        let r = Vec4::new(
            self.row(0).dot(rhs),
            self.row(1).dot(rhs),
            self.row(2).dot(rhs),
            self.row(3).dot(rhs),
        );
        proof {
            r.lemma_canonical();
        }
        r
    }
}

impl<S: Num> vstd::std_specs::ops::MulSpecImpl<Vec4<S>> for Mat4<S> {
    open spec fn obeys_mul_spec() -> bool {
        true
    }

    open spec fn mul_req(self, rhs: Vec4<S>) -> bool {
        self.fits_mul_vec(rhs)
    }

    open spec fn mul_spec(self, rhs: Vec4<S>) -> Vec4<S> {
        self.spec_mul_vec(rhs)
    }
}

impl<S: Num> core::ops::Add<Mat4<S>> for Mat4<S> {
    type Output = Mat4<S>;

    fn add(self, rhs: Mat4<S>) -> (r: Mat4<S>)
        ensures
            r == (Mat4 { x: self.x.spec_add(rhs.x), y: self.y.spec_add(rhs.y), z: self.z.spec_add(rhs.z), w: self.w.spec_add(rhs.w) }),
    {
        Mat4 { x: self.x + rhs.x, y: self.y + rhs.y, z: self.z + rhs.z, w: self.w + rhs.w }
    }
}

impl<S: Num> vstd::std_specs::ops::AddSpecImpl<Mat4<S>> for Mat4<S> {
    open spec fn obeys_add_spec() -> bool {
        true
    }

    open spec fn add_req(self, rhs: Mat4<S>) -> bool {
        self.x.fits_add(rhs.x) && self.y.fits_add(rhs.y) && self.z.fits_add(rhs.z) && self.w.fits_add(rhs.w)
    }

    open spec fn add_spec(self, rhs: Mat4<S>) -> Mat4<S> {
        Mat4 { x: self.x.spec_add(rhs.x), y: self.y.spec_add(rhs.y), z: self.z.spec_add(rhs.z), w: self.w.spec_add(rhs.w) }
    }
}

impl<S: Num> core::ops::Sub<Mat4<S>> for Mat4<S> {
    type Output = Mat4<S>;

    fn sub(self, rhs: Mat4<S>) -> (r: Mat4<S>)
        ensures
            r == (Mat4 { x: self.x.spec_sub(rhs.x), y: self.y.spec_sub(rhs.y), z: self.z.spec_sub(rhs.z), w: self.w.spec_sub(rhs.w) }),
    {
        Mat4 { x: self.x - rhs.x, y: self.y - rhs.y, z: self.z - rhs.z, w: self.w - rhs.w }
    }
}

impl<S: Num> vstd::std_specs::ops::SubSpecImpl<Mat4<S>> for Mat4<S> {
    open spec fn obeys_sub_spec() -> bool {
        true
    }

    open spec fn sub_req(self, rhs: Mat4<S>) -> bool {
        self.x.fits_sub(rhs.x) && self.y.fits_sub(rhs.y) && self.z.fits_sub(rhs.z) && self.w.fits_sub(rhs.w)
    }

    open spec fn sub_spec(self, rhs: Mat4<S>) -> Mat4<S> {
        Mat4 { x: self.x.spec_sub(rhs.x), y: self.y.spec_sub(rhs.y), z: self.z.spec_sub(rhs.z), w: self.w.spec_sub(rhs.w) }
    }
}

impl<S: Num> core::ops::Mul<S> for Mat4<S> {
    type Output = Mat4<S>;

    fn mul(self, rhs: S) -> (r: Mat4<S>)
        ensures
            r == (Mat4 { x: self.x.spec_scale(rhs), y: self.y.spec_scale(rhs), z: self.z.spec_scale(rhs), w: self.w.spec_scale(rhs) }),
    {
        Mat4 { x: self.x * rhs, y: self.y * rhs, z: self.z * rhs, w: self.w * rhs }
    }
}

impl<S: Num> vstd::std_specs::ops::MulSpecImpl<S> for Mat4<S> {
    open spec fn obeys_mul_spec() -> bool {
        true
    }

    open spec fn mul_req(self, rhs: S) -> bool {
        self.x.fits_scale(rhs) && self.y.fits_scale(rhs) && self.z.fits_scale(rhs) && self.w.fits_scale(rhs)
    }

    open spec fn mul_spec(self, rhs: S) -> Mat4<S> {
        Mat4 { x: self.x.spec_scale(rhs), y: self.y.spec_scale(rhs), z: self.z.spec_scale(rhs), w: self.w.spec_scale(rhs) }
    }
}

impl<S: Num> core::ops::Div<S> for Mat4<S> {
    type Output = Mat4<S>;

    fn div(self, rhs: S) -> (r: Mat4<S>)
        ensures
            r == (Mat4 { x: self.x.spec_div(rhs), y: self.y.spec_div(rhs), z: self.z.spec_div(rhs), w: self.w.spec_div(rhs) }),
    {
        Mat4 { x: self.x / rhs, y: self.y / rhs, z: self.z / rhs, w: self.w / rhs }
    }
}

impl<S: Num> vstd::std_specs::ops::DivSpecImpl<S> for Mat4<S> {
    open spec fn obeys_div_spec() -> bool {
        true
    }

    open spec fn div_req(self, rhs: S) -> bool {
        self.x.fits_div(rhs) && self.y.fits_div(rhs) && self.z.fits_div(rhs) && self.w.fits_div(rhs)
    }

    open spec fn div_spec(self, rhs: S) -> Mat4<S> {
        Mat4 { x: self.x.spec_div(rhs), y: self.y.spec_div(rhs), z: self.z.spec_div(rhs), w: self.w.spec_div(rhs) }
    }
}

impl<S: Num> core::ops::Rem<S> for Mat4<S> {
    type Output = Mat4<S>;

    fn rem(self, rhs: S) -> (r: Mat4<S>)
        ensures
            r == (Mat4 { x: self.x.spec_rem(rhs), y: self.y.spec_rem(rhs), z: self.z.spec_rem(rhs), w: self.w.spec_rem(rhs) }),
    {
        Mat4 { x: self.x % rhs, y: self.y % rhs, z: self.z % rhs, w: self.w % rhs }
    }
}

impl<S: Num> vstd::std_specs::ops::RemSpecImpl<S> for Mat4<S> {
    open spec fn obeys_rem_spec() -> bool {
        true
    }

    open spec fn rem_req(self, rhs: S) -> bool {
        self.x.fits_div(rhs) && self.y.fits_div(rhs) && self.z.fits_div(rhs) && self.w.fits_div(rhs)
    }

    open spec fn rem_spec(self, rhs: S) -> Mat4<S> {
        Mat4 { x: self.x.spec_rem(rhs), y: self.y.spec_rem(rhs), z: self.z.spec_rem(rhs), w: self.w.spec_rem(rhs) }
    }
}

impl<S: Signed> core::ops::Neg for Mat4<S> {
    type Output = Mat4<S>;

    fn neg(self) -> (r: Mat4<S>)
        ensures
            r == (Mat4 { x: self.x.spec_neg(), y: self.y.spec_neg(), z: self.z.spec_neg(), w: self.w.spec_neg() }),
    {
        Mat4 { x: core::ops::Neg::neg(self.x), y: core::ops::Neg::neg(self.y), z: core::ops::Neg::neg(self.z), w: core::ops::Neg::neg(self.w) }
    }
}

impl<S: Signed> vstd::std_specs::ops::NegSpecImpl for Mat4<S> {
    open spec fn obeys_neg_spec() -> bool {
        true
    }

    open spec fn neg_req(self) -> bool {
        self.x.fits_neg() && self.y.fits_neg() && self.z.fits_neg() && self.w.fits_neg()
    }

    open spec fn neg_spec(self) -> Mat4<S> {
        Mat4 { x: self.x.spec_neg(), y: self.y.spec_neg(), z: self.z.spec_neg(), w: self.w.spec_neg() }
    }
}

impl<S: Num> VectorSpace for Mat4<S> {
    type Scalar = S;
}

impl<S: Num> Matrix for Mat4<S> {
    type Row = Vec4<S>;
    type Column = Vec4<S>;
    type Transpose = Mat4<S>;

    open spec fn dimension() -> int {
        4
    }

    fn row(&self, r: usize) -> (v: Vec4<S>)
        ensures
            v == self.spec_row(r as int),
    {
        if r == 0 {
            Vec4::new(self.x.x, self.y.x, self.z.x, self.w.x)
        } else if r == 1 {
            Vec4::new(self.x.y, self.y.y, self.z.y, self.w.y)
        } else if r == 2 {
            Vec4::new(self.x.z, self.y.z, self.z.z, self.w.z)
        } else {
            Vec4::new(self.x.w, self.y.w, self.z.w, self.w.w)
        }
    }

    fn column(&self, c: usize) -> (v: Vec4<S>)
        ensures
            v == self.spec_column(c as int),
    {
        if c == 0 {
            self.x
        } else if c == 1 {
            self.y
        } else if c == 2 {
            self.z
        } else {
            self.w
        }
    }

    fn transpose(&self) -> (r: Mat4<S>)
        ensures
            r == self.spec_transpose(),
    {
        Mat4::new(
            self.x.x, self.y.x, self.z.x, self.w.x, self.x.y, self.y.y, self.z.y, self.w.y, self.x.z, self.y.z, self.z.z, self.w.z, self.x.w, self.y.w, self.z.w, self.w.w,
        )
    }
}

impl<S: Num> SquareMatrix for Mat4<S> {
    type ColumnRow = Vec4<S>;

    open spec fn determinant_spec(&self) -> int {
        self.x.x.value() * self.minor_x().determinant_spec() - self.y.x.value() * self.minor_y().determinant_spec()
            + self.z.x.value() * self.minor_z().determinant_spec() - self.w.x.value() * self.minor_w().determinant_spec()
    }

    open spec fn determinant_fits(&self) -> bool {
        &&& self.minor_x().determinant_fits()
        &&& self.minor_y().determinant_fits()
        &&& self.minor_z().determinant_fits()
        &&& self.minor_w().determinant_fits()
        &&& S::fits(self.x.x.value() * self.minor_x().determinant_spec())
        &&& S::fits(self.y.x.value() * self.minor_y().determinant_spec())
        &&& S::fits(self.z.x.value() * self.minor_z().determinant_spec())
        &&& S::fits(self.w.x.value() * self.minor_w().determinant_spec())
        &&& S::fits(self.x.x.value() * self.minor_x().determinant_spec() - self.y.x.value() * self.minor_y().determinant_spec())
        &&& S::fits(self.x.x.value() * self.minor_x().determinant_spec() - self.y.x.value() * self.minor_y().determinant_spec()
            + self.z.x.value() * self.minor_z().determinant_spec())
        &&& S::fits(self.determinant_spec())
    }

    open spec fn trace_spec(&self) -> int {
        self.x.x.value() + self.y.y.value() + self.z.z.value() + self.w.w.value()
    }

    open spec fn trace_fits(&self) -> bool {
        fits4::<S>(self.x.x.value(), self.y.y.value(), self.z.z.value(), self.w.w.value())
    }

    fn identity() -> (r: Self)
        ensures
            r == Self::spec_identity(),
    {
        Mat4::from_cols(Vec4::unit_x(), Vec4::unit_y(), Vec4::unit_z(), Vec4::unit_w())
    }

    fn from_value(value: S) -> (r: Self)
        ensures
            r == (Mat4 { x: Vec4 { x: value, y: S::ZERO, z: S::ZERO, w: S::ZERO }, y: Vec4 { x: S::ZERO, y: value, z: S::ZERO, w: S::ZERO }, z: Vec4 { x: S::ZERO, y: S::ZERO, z: value, w: S::ZERO }, w: Vec4 { x: S::ZERO, y: S::ZERO, z: S::ZERO, w: value } }),
    {
        Mat4::new(value, S::ZERO, S::ZERO, S::ZERO, S::ZERO, value, S::ZERO, S::ZERO, S::ZERO, S::ZERO, value, S::ZERO, S::ZERO, S::ZERO, S::ZERO, value)
    }

    fn from_diagonal(diagonal: Vec4<S>) -> (r: Self)
        ensures
            r == (Mat4 { x: Vec4 { x: diagonal.x, y: S::ZERO, z: S::ZERO, w: S::ZERO }, y: Vec4 { x: S::ZERO, y: diagonal.y, z: S::ZERO, w: S::ZERO }, z: Vec4 { x: S::ZERO, y: S::ZERO, z: diagonal.z, w: S::ZERO }, w: Vec4 { x: S::ZERO, y: S::ZERO, z: S::ZERO, w: diagonal.w } }),
    {
        Mat4::new(diagonal.x, S::ZERO, S::ZERO, S::ZERO, S::ZERO, diagonal.y, S::ZERO, S::ZERO, S::ZERO, S::ZERO, diagonal.z, S::ZERO, S::ZERO, S::ZERO, S::ZERO, diagonal.w)
    }

    fn determinant(&self) -> (r: S) {
        let mx = Mat3::new(
            self.y.y, self.z.y, self.w.y,
            self.y.z, self.z.z, self.w.z,
            self.y.w, self.z.w, self.w.w,
        );
        let my = Mat3::new(
            self.x.y, self.z.y, self.w.y,
            self.x.z, self.z.z, self.w.z,
            self.x.w, self.z.w, self.w.w,
        );
        let mz = Mat3::new(
            self.x.y, self.y.y, self.w.y,
            self.x.z, self.y.z, self.w.z,
            self.x.w, self.y.w, self.w.w,
        );
        let mw = Mat3::new(
            self.x.y, self.y.y, self.z.y,
            self.x.z, self.y.z, self.z.z,
            self.x.w, self.y.w, self.z.w,
        );
        proof {
            assert(mx == self.minor_x());
            assert(my == self.minor_y());
            assert(mz == self.minor_z());
            assert(mw == self.minor_w());
        }
        (((self.x.x.times(mx.determinant())).minus(self.y.x.times(my.determinant()))).plus(
            self.z.x.times(mz.determinant()),
        )).minus(self.w.x.times(mw.determinant()))
    }

    fn diagonal(&self) -> (r: Vec4<S>)
        ensures
            r == (Vec4 { x: self.x.x, y: self.y.y, z: self.z.z, w: self.w.w }),
    {
        Vec4::new(self.x.x, self.y.y, self.z.z, self.w.w)
    }

    fn trace(&self) -> (r: S) {
        self.x.x.plus(self.y.y).plus(self.z.z).plus(self.w.w)
    }
}

/// A 2x2 determinant with a row or a column of zeros is zero.
proof fn lemma_det2_zero_line(xx: int, xy: int, yx: int, yy: int)
    by (nonlinear_arith)
    requires
        (xx == 0 && yx == 0) || (xy == 0 && yy == 0) || (xx == 0 && xy == 0) || (yx == 0 && yy == 0),
    ensures
        xx * yy - xy * yx == 0,
{
}

/// A 3x3 determinant, expanded along the first row, with a row or a column
/// of zeros is zero.
proof fn lemma_det3_zero_line(xx: int, xy: int, xz: int, yx: int, yy: int, yz: int, zx: int, zy: int, zz: int)
    by (nonlinear_arith)
    requires
        (xx == 0 && yx == 0 && zx == 0) || (xy == 0 && yy == 0 && zy == 0) || (xz == 0 && yz == 0 && zz == 0)
            || (xx == 0 && xy == 0 && xz == 0) || (yx == 0 && yy == 0 && yz == 0) || (zx == 0 && zy == 0
            && zz == 0),
    ensures
        xx * (yy * zz - yz * zy) - yx * (xy * zz - xz * zy) + zx * (xy * yz - xz * yy) == 0,
{
}

/// A sum of four products, each with a zero factor, is zero.
proof fn lemma_four_terms_zero(a: int, da: int, b: int, db: int, c: int, dc: int, d: int, dd: int)
    by (nonlinear_arith)
    requires
        a == 0 || da == 0,
        b == 0 || db == 0,
        c == 0 || dc == 0,
        d == 0 || dd == 0,
    ensures
        a * da - b * db + c * dc - d * dd == 0,
{
}

impl<S: Num> Mat4<S> {
    /// With a row or a column of zeros, each term of the expansion along the
    /// first row has a zero factor.
    proof fn lemma_zero_line_minors(self, i: int)
        requires
            0 <= i < 4,
            self.spec_row(i) == Vec4::<S>::spec_zero() || self.spec_column(i) == Vec4::<S>::spec_zero(),
        ensures
            self.determinant_spec() == 0,
    {
        S::lemma_value(S::ZERO, S::ONE);
        if self.spec_row(i) == Vec4::<S>::spec_zero() {
            if i > 0 {
                Mat3::lemma_determinant_zero_line(self.minor_x(), i - 1);
                Mat3::lemma_determinant_zero_line(self.minor_y(), i - 1);
                Mat3::lemma_determinant_zero_line(self.minor_z(), i - 1);
                Mat3::lemma_determinant_zero_line(self.minor_w(), i - 1);
            }
        } else {
            if i != 0 {
                Mat3::lemma_determinant_zero_line(self.minor_x(), if i == 1 { 0 } else if i == 2 { 1 } else { 2 });
            }
            if i != 1 {
                Mat3::lemma_determinant_zero_line(self.minor_y(), if i == 0 { 0 } else if i == 2 { 1 } else { 2 });
            }
            if i != 2 {
                Mat3::lemma_determinant_zero_line(self.minor_z(), if i == 0 { 0 } else if i == 1 { 1 } else { 2 });
            }
            if i != 3 {
                Mat3::lemma_determinant_zero_line(self.minor_w(), if i == 0 { 0 } else if i == 1 { 1 } else { 2 });
            }
        }
        lemma_four_terms_zero(
            self.x.x.value(),
            self.minor_x().determinant_spec(),
            self.y.x.value(),
            self.minor_y().determinant_spec(),
            self.z.x.value(),
            self.minor_z().determinant_spec(),
            self.w.x.value(),
            self.minor_w().determinant_spec(),
        );
    }
}

/// Summing products in either order gives the same result: row `a` times
/// (`b` times column `c`) equals (row `a` times `b`) times column `c`, where
/// `bkl` is entry `l` of column `k`.
proof fn lemma_assoc_entry2(a0: int, a1: int, b00: int, b01: int, b10: int, b11: int, c0: int, c1: int)
    ensures
        (a0 * b00 + a1 * b01) * c0 + (a0 * b10 + a1 * b11) * c1
            == a0 * (b00 * c0 + b10 * c1) + a1 * (b01 * c0 + b11 * c1),
{
    broadcast use vstd::arithmetic::mul::lemma_mul_is_distributive_add,
        vstd::arithmetic::mul::lemma_mul_is_distributive_add_other_way,
        vstd::arithmetic::mul::lemma_mul_is_associative;

}

/// Summing products in either order gives the same result: row `a` times
/// (`b` times column `c`) equals (row `a` times `b`) times column `c`, where
/// `bkl` is entry `l` of column `k`.
proof fn lemma_assoc_entry3(a0: int, a1: int, a2: int, b00: int, b01: int, b02: int, b10: int, b11: int, b12: int, b20: int, b21: int, b22: int, c0: int, c1: int, c2: int)
    ensures
        (a0 * b00 + a1 * b01 + a2 * b02) * c0 + (a0 * b10 + a1 * b11 + a2 * b12) * c1 + (a0 * b20 + a1 * b21 + a2 * b22) * c2
            == a0 * (b00 * c0 + b10 * c1 + b20 * c2) + a1 * (b01 * c0 + b11 * c1 + b21 * c2) + a2 * (b02 * c0 + b12 * c1 + b22 * c2),
{
    broadcast use vstd::arithmetic::mul::lemma_mul_is_distributive_add,
        vstd::arithmetic::mul::lemma_mul_is_distributive_add_other_way,
        vstd::arithmetic::mul::lemma_mul_is_associative;

}

/// Summing products in either order gives the same result: row `a` times
/// (`b` times column `c`) equals (row `a` times `b`) times column `c`, where
/// `bkl` is entry `l` of column `k`.
proof fn lemma_assoc_entry4(a0: int, a1: int, a2: int, a3: int, b00: int, b01: int, b02: int, b03: int, b10: int, b11: int, b12: int, b13: int, b20: int, b21: int, b22: int, b23: int, b30: int, b31: int, b32: int, b33: int, c0: int, c1: int, c2: int, c3: int)
    ensures
        (a0 * b00 + a1 * b01 + a2 * b02 + a3 * b03) * c0 + (a0 * b10 + a1 * b11 + a2 * b12 + a3 * b13) * c1 + (a0 * b20 + a1 * b21 + a2 * b22 + a3 * b23) * c2 + (a0 * b30 + a1 * b31 + a2 * b32 + a3 * b33) * c3
            == a0 * (b00 * c0 + b10 * c1 + b20 * c2 + b30 * c3) + a1 * (b01 * c0 + b11 * c1 + b21 * c2 + b31 * c3) + a2 * (b02 * c0 + b12 * c1 + b22 * c2 + b32 * c3) + a3 * (b03 * c0 + b13 * c1 + b23 * c2 + b33 * c3),
{
    broadcast use vstd::arithmetic::mul::lemma_mul_is_distributive_add,
        vstd::arithmetic::mul::lemma_mul_is_distributive_add_other_way,
        vstd::arithmetic::mul::lemma_mul_is_associative;

}

} // verus!
