use linalg::{Mat2, Mat3, Mat4, Matrix, SquareMatrix, Vec2, Vec3, Vec4};

#[test]
fn mat2_times_identity_is_unchanged() {
    let m = Mat2::<i64>::new(1, 2, 3, 4);
    assert_eq!(m * Mat2::identity(), m);
    assert_eq!(Mat2::identity() * m, m);
}

#[test]
fn mat3_times_identity_is_unchanged() {
    let m = Mat3::<i64>::new(1, 2, 3, 4, 5, 6, 7, 8, 10);
    assert_eq!(m * Mat3::identity(), m);
    assert_eq!(Mat3::identity() * m, m);
}

#[test]
fn mat4_times_identity_is_unchanged() {
    let m = Mat4::<i64>::new(2, 0, 1, 3, 1, 3, 0, 2, 4, 1, 2, 0, 0, 2, 5, 1);
    assert_eq!(m * Mat4::identity(), m);
    assert_eq!(Mat4::identity() * m, m);
}

#[test]
fn mat2_product_is_rows_by_columns() {
    let a = Mat2::<i64>::new(1, 2, 3, 4);
    let b = Mat2::<i64>::new(5, 6, 7, 8);
    // a has rows (1, 3) and (2, 4); b has columns (5, 6) and (7, 8).
    assert_eq!(a * b, Mat2::new(23, 34, 31, 46));
}

#[test]
fn mat3_product_column_is_matrix_times_column() {
    let a = Mat3::<i64>::new(1, 2, 3, 4, 5, 6, 7, 8, 10);
    let b = Mat3::<i64>::new(1, 0, 2, 0, 1, 0, 3, 0, 1);
    let p = a * b;
    assert_eq!(p.column(0), a * b.column(0));
    assert_eq!(p.column(2), a * b.column(2));
}

#[test]
fn transpose_twice_is_unchanged() {
    let m2 = Mat2::<i32>::new(1, 2, 3, 4);
    assert_eq!(m2.transpose(), Mat2::new(1, 3, 2, 4));
    assert_eq!(m2.transpose().transpose(), m2);
    let m3 = Mat3::<i32>::new(1, 2, 3, 4, 5, 6, 7, 8, 9);
    assert_eq!(m3.transpose().transpose(), m3);
    let m4 = Mat4::<i32>::new(1, 2, 3, 4, 5, 6, 7, 8, 9, 10, 11, 12, 13, 14, 15, 16);
    assert_eq!(m4.transpose().row(1), m4.column(1));
    assert_eq!(m4.transpose().transpose(), m4);
}

#[test]
fn identity_determinants_are_one() {
    assert_eq!(Mat2::<i64>::identity().determinant(), 1);
    assert_eq!(Mat3::<i64>::identity().determinant(), 1);
    assert_eq!(Mat4::<i64>::identity().determinant(), 1);
}

#[test]
fn determinant_values() {
    assert_eq!(Mat2::<i64>::new(1, 2, 3, 4).determinant(), -2);
    assert_eq!(Mat3::<i64>::new(1, 2, 3, 4, 5, 6, 7, 8, 10).determinant(), -3);
    assert_eq!(Mat4::<i64>::new(2, 0, 1, 3, 1, 3, 0, 2, 4, 1, 2, 0, 0, 2, 5, 1).determinant(), 198);
    assert_eq!(Mat4::<i64>::from_diagonal(Vec4::new(2, 3, 4, 5)).determinant(), 120);
}

#[test]
fn zero_row_or_column_gives_zero_determinant() {
    // second row zero
    assert_eq!(Mat3::<i64>::new(1, 0, 3, 4, 0, 6, 7, 0, 9).determinant(), 0);
    // third column zero
    assert_eq!(Mat3::<i64>::new(1, 2, 3, 4, 5, 6, 0, 0, 0).determinant(), 0);
    assert_eq!(Mat2::<i64>::new(0, 2, 0, 4).determinant(), 0);
    assert_eq!(Mat4::<i64>::new(2, 0, 1, 3, 1, 0, 0, 2, 4, 0, 2, 0, 0, 0, 5, 1).determinant(), 0);
}

#[test]
fn rows_columns_diagonal_trace() {
    let m = Mat3::<i64>::new(1, 2, 3, 4, 5, 6, 7, 8, 9);
    assert_eq!(m.row(0), Vec3::new(1, 4, 7));
    assert_eq!(m.column(2), Vec3::new(7, 8, 9));
    assert_eq!(m.diagonal(), Vec3::new(1, 5, 9));
    assert_eq!(m.trace(), 15);
}

#[test]
fn constructors() {
    assert_eq!(Mat2::<i64>::from_translation(5), Mat2::new(1, 0, 5, 1));
    assert_eq!(
        Mat4::<i64>::from_translation(Vec3::new(1, 2, 3)) * Vec4::new(1, 1, 1, 1),
        Vec4::new(2, 3, 4, 1)
    );
    assert_eq!(
        Mat3::<i64>::from_translation(Vec2::new(7, 8)) * Vec3::new(1, 1, 1),
        Vec3::new(8, 9, 1)
    );
    assert_eq!(Mat3::<i64>::from_scale(3) * Vec3::new(1, 2, 3), Vec3::new(3, 6, 9));
    assert_eq!(Mat4::<i64>::from_scale(3) * Vec4::new(1, 2, 3, 1), Vec4::new(3, 6, 9, 1));
    assert_eq!(
        Mat4::<i64>::from_nonuniform_scale(2, 3, 4) * Vec4::new(1, 1, 1, 1),
        Vec4::new(2, 3, 4, 1)
    );
    assert_eq!(Mat2::<i64>::from_nonuniform_scale(2, 3), Mat2::new(2, 0, 0, 3));
    assert_eq!(Mat3::<i64>::from_value(4), Mat3::from_scale(4));
    assert_eq!(Mat2::<i64>::from_cols(Vec2::new(1, 2), Vec2::new(3, 4)), Mat2::new(1, 2, 3, 4));
    assert_eq!(Mat4::<i64>::zero().trace(), 0);
}

#[test]
fn matrix_sums_and_scaling() {
    let a = Mat2::<i64>::new(1, 2, 3, 4);
    let b = Mat2::<i64>::new(4, 3, 2, 1);
    assert_eq!(a + b, Mat2::new(5, 5, 5, 5));
    assert_eq!(a - b, Mat2::new(-3, -1, 1, 3));
    assert_eq!(a * 2, Mat2::new(2, 4, 6, 8));
    assert_eq!(-a, Mat2::new(-1, -2, -3, -4));
    assert_eq!(Mat2::<i64>::new(4, -6, 8, 7) / 2, Mat2::new(2, -3, 4, 3));
    assert_eq!(Mat2::<i64>::new(4, -7, 8, 7) % 2, Mat2::new(0, -1, 0, 1));
}

#[test]
fn matrix_product_is_associative_not_commutative() {
    let a = Mat3::<i64>::new(1, 2, 3, 4, 5, 6, 7, 8, 10);
    let b = Mat3::<i64>::new(2, 0, 1, 1, 3, 0, 0, 1, 1);
    let c = Mat3::<i64>::new(1, 1, 0, 0, 2, 1, 3, 0, 1);
    assert_eq!((a * b) * c, a * (b * c));
    assert_ne!(a * b, b * a);
}
