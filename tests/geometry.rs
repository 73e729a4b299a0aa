use linalg::{Angle, Deg, ElementWise, Euler, InnerSpace, Mat3, Mat4, MetricSpace, Quat, SquareMatrix, Vec1, Vec2, Vec3, Vec4, Vector};

#[test]
fn adding_zero_and_scaling_by_one_keep_a_vector() {
    let v = Vec3::<i64>::new(-4, 9, 17);
    assert_eq!(v + Vec3::zero(), v);
    assert_eq!(v * 1, v);
    let w = Vec4::<i32>::new(1, -2, 3, -4);
    assert_eq!(w + Vec4::zero(), w);
    assert_eq!(w * 1, w);
}

#[test]
fn cross_of_x_and_y_is_z() {
    let r = Vec3::<i64>::new(1, 0, 0).cross(Vec3::new(0, 1, 0));
    assert_eq!(r, Vec3::new(0, 0, 1));
    assert_eq!(Vec3::<i64>::new(0, 1, 0).cross(Vec3::new(1, 0, 0)), Vec3::new(0, 0, -1));
    assert_eq!(Vec3::<i64>::new(2, 3, 4).cross(Vec3::new(5, 6, 7)), Vec3::new(-3, 6, -3));
}

#[test]
fn dot_perp_dot_and_distance() {
    assert_eq!(Vec3::<i64>::new(1, 2, 3).dot(Vec3::new(4, 5, 6)), 32);
    assert_eq!(Vec2::<i64>::new(1, 2).perp_dot(Vec2::new(3, 4)), -2);
    assert_eq!(Vec2::<i64>::new(1, 1).distance2(Vec2::new(4, 5)), 25);
    assert_eq!(Vec4::<i64>::new(1, 2, 3, 4).magnitude2(), 30);
    assert_eq!(Vec1::<i64>::new(3).dot(Vec1::new(-2)), -6);
}

#[test]
fn sums_products_and_lengths() {
    let v = Vec4::<i64>::new(1, 2, 3, 4);
    assert_eq!(v.sum(), 10);
    assert_eq!(v.product(), 24);
    assert_eq!(Vec4::<i64>::length(), 4);
    assert_eq!(Vec2::<i64>::from_value(7), Vec2::new(7, 7));
}

#[test]
fn dimension_changes() {
    assert_eq!(Vec1::<i64>::new(1).extend(2), Vec2::new(1, 2));
    assert_eq!(Vec2::<i64>::new(1, 2).extend(3), Vec3::new(1, 2, 3));
    assert_eq!(Vec3::<i64>::new(1, 2, 3).extend(4), Vec4::new(1, 2, 3, 4));
    assert_eq!(Vec4::<i64>::new(1, 2, 3, 4).truncate(), Vec3::new(1, 2, 3));
    assert_eq!(Vec3::<i64>::new(1, 2, 3).truncate(), Vec2::new(1, 2));
    assert_eq!(Vec2::<i64>::new(1, 2).truncate(), Vec1::new(1));
    let v = Vec4::<i64>::new(1, 2, 3, 4);
    assert_eq!(v.truncate_n(0), Vec3::new(2, 3, 4));
    assert_eq!(v.truncate_n(1), Vec3::new(1, 3, 4));
    assert_eq!(v.truncate_n(2), Vec3::new(1, 2, 4));
    assert_eq!(v.truncate_n(3), Vec3::new(1, 2, 3));
}

#[test]
fn homogeneous_coordinates() {
    assert_eq!(Vec3::<i64>::new(1, 2, 3).to_homogeneous(), Vec4::new(1, 2, 3, 1));
    assert_eq!(Vec3::from_homogeneous(Vec4::<i64>::new(4, 6, 8, 2)), Vec3::new(2, 3, 4));
}

#[test]
fn slices_and_element_wise() {
    assert_eq!(Vec3::from_slice(&[1i64, 2, 3]), Vec3::new(1, 2, 3));
    assert_eq!(Vec4::from_slice(&[1i64, 2, 3, 4]), Vec4::new(1, 2, 3, 4));
    let a = Vec2::<i64>::new(1, 5);
    let b = Vec2::<i64>::new(3, 2);
    assert_eq!(a.min_element_wise(b), Vec2::new(1, 2));
    assert_eq!(a.max_element_wise(b), Vec2::new(3, 5));
    assert_eq!(a.mul_element_wise(b), Vec2::new(3, 10));
    assert_eq!(a.add_element_wise(10i64), Vec2::new(11, 15));
    assert_eq!(a.div_element_wise(b), Vec2::new(0, 2));
    let mut c = a;
    c.rem_assign_element_wise(Vec2::new(2, 3));
    assert_eq!(c, Vec2::new(1, 2));
    c.sub_assign_element_wise(1i64);
    assert_eq!(c, Vec2::new(0, 1));
    assert_eq!(Vec3::<i64>::unit_y(), Vec3::new(0, 1, 0));
}

#[test]
fn integer_division_rounds_toward_zero() {
    assert_eq!(Vec2::<i64>::new(-7, 7) / 2, Vec2::new(-3, 3));
    assert_eq!(Vec2::<i64>::new(-7, 7) % 2, Vec2::new(-1, 1));
    assert_eq!(-Vec2::<i64>::new(-7, 7), Vec2::new(7, -7));
    assert_eq!(7i64 % Vec2::<i64>::new(2, 4), Vec2::new(1, 3));
}

#[test]
fn normalize_ignores_whole_turns() {
    assert_eq!(Deg(30i64 + 3 * 360).normalize(), Deg(30i64).normalize());
    assert_eq!(Deg(30i64 - 2 * 360).normalize(), Deg(30));
    assert_eq!(Deg(-90i32).normalize(), Deg(270));
    assert_eq!(Deg(720i32).normalize(), Deg(0));
    assert_eq!(Deg(360i64).normalize(), Deg(0));
}

#[test]
fn normalize_signed_is_in_half_open_range() {
    assert_eq!(Deg(270i64).normalize_signed(), Deg(-90));
    assert_eq!(Deg(180i64).normalize_signed(), Deg(180));
    assert_eq!(Deg(-180i64).normalize_signed(), Deg(180));
    assert_eq!(Deg(181i32).normalize_signed(), Deg(-179));
    for a in -800i64..800 {
        let r = Deg(a).normalize_signed().0;
        assert!(-180 < r && r <= 180);
    }
}

#[test]
fn opposite_angles() {
    assert_eq!(Deg(90i64).opposite(), Deg(270));
    assert_eq!(Deg(270i64).opposite(), Deg(90));
    assert_eq!(Deg(i64::MAX).opposite(), Deg((i64::MAX % 360 + 180) % 360));
    assert_eq!(Deg::<i64>::full_turn(), Deg(360));
    assert_eq!(Deg::<i32>::half_turn(), Deg(180));
}

#[test]
fn angle_arithmetic() {
    assert_eq!(Deg(30i64) + Deg(60), Deg(90));
    assert_eq!(Deg(30i64) - Deg(60), Deg(-30));
    assert_eq!(Deg(30i64) * 3, Deg(90));
    assert_eq!(Deg(90i64) / 2, Deg(45));
    assert_eq!(Deg(90i64) / Deg(30), 3);
    assert_eq!(Deg(370i64) % Deg(360), Deg(10));
    assert_eq!(-Deg(45i64), Deg(-45));
}

#[test]
fn unit_quaternion_times_conjugate_is_identity() {
    for q in [
        Quat::<i64>::new(1, 0, 0, 0),
        Quat::new(0, 1, 0, 0),
        Quat::new(0, 0, -1, 0),
        Quat::new(0, 0, 0, 1),
        Quat::new(-1, 0, 0, 0),
    ] {
        assert_eq!(q * q.conjugate(), Quat::one());
    }
}

#[test]
fn quaternion_product_is_not_commutative() {
    let i = Quat::<i64>::new(0, 1, 0, 0);
    let j = Quat::<i64>::new(0, 0, 1, 0);
    assert_eq!(i * j, Quat::new(0, 0, 0, 1));
    assert_eq!(j * i, Quat::new(0, 0, 0, -1));
    assert_eq!(i * i, Quat::new(-1, 0, 0, 0));
}

#[test]
fn quaternion_rotates_vectors() {
    // half a turn about z
    let q = Quat::<i64>::new(0, 0, 0, 1);
    assert_eq!(q * Vec3::new(1, 0, 0), Vec3::new(-1, 0, 0));
    assert_eq!(q * Vec3::new(0, 0, 5), Vec3::new(0, 0, 5));
    assert_eq!(Mat3::from_quat(q), Mat3::new(-1, 0, 0, 0, -1, 0, 0, 0, 1));
    assert_eq!(Mat3::from_quat(q) * Vec3::new(1, 2, 3), q * Vec3::new(1, 2, 3));
    assert_eq!(Mat4::from_quat(Quat::<i64>::one()), Mat4::<i64>::identity());
}

#[test]
fn quaternion_inverse_dot_and_parts() {
    let q = Quat::<i64>::new(0, 1, 0, 0);
    assert_eq!(q.invert(), Quat::new(0, -1, 0, 0));
    assert_eq!(Quat::<i64>::new(2, 0, 0, 0).invert(), Quat::new(0, 0, 0, 0));
    assert_eq!(Quat::<i64>::new(1, 2, 3, 4).dot(Quat::new(5, 6, 7, 8)), 70);
    assert_eq!(Quat::<i64>::new(1, 2, 3, 4).distance2(Quat::new(2, 2, 2, 2)), 6);
    assert_eq!(Quat::from_sv(1i64, Vec3::new(2, 3, 4)), Quat::new(1, 2, 3, 4));
    assert_eq!(Quat::<i64>::new(1, 2, 3, 4) + Quat::new(1, 1, 1, 1), Quat::new(2, 3, 4, 5));
    assert_eq!(-Quat::<i64>::new(1, 2, 3, 4), Quat::new(-1, -2, -3, -4) * 1);
    assert_eq!(Quat::<i64>::zero(), Quat::new(0, 0, 0, 0));
}

#[test]
fn euler_holds_three_angles() {
    let e = Euler::new(Deg(10i64), Deg(20), Deg(30));
    assert_eq!(e.x, Deg(10));
    assert_eq!(e.y, Deg(20));
    assert_eq!(e.z, Deg(30));
}

#[test]
fn unsigned_scalars() {
    let v = Vec3::<u32>::new(7, 8, 9);
    assert_eq!(v / 2, Vec3::new(3, 4, 4));
    assert_eq!(v - Vec3::new(7, 0, 1), Vec3::new(0, 8, 8));
    assert_eq!(v.dot(Vec3::new(1, 1, 1)), 24);
    assert_eq!(Vec2::<u64>::new(3, 4).magnitude2(), 25);
}

#[test]
fn array_and_tuple_conversions() {
    let v = Vec3::<i64>::new(1, 2, 3);
    let a: [i64; 3] = v.into();
    assert_eq!(a, [1, 2, 3]);
    let t: (i64, i64, i64) = v.into();
    assert_eq!(t, (1, 2, 3));
    assert_eq!(Vec4::from([1i64, 2, 3, 4]), Vec4::new(1, 2, 3, 4));
    assert_eq!(Vec2::from((5i32, 6)), Vec2::new(5, 6));
    let one: (i64,) = Vec1::new(9i64).into();
    assert_eq!(one, (9,));
    let q = Quat::<i64>::new(1, 2, 3, 4);
    let parts: (i64, i64, i64, i64) = q.into();
    assert_eq!(parts, (2, 3, 4, 1));
    let arr: [i64; 4] = q.into();
    assert_eq!(arr, [2, 3, 4, 1]);
    assert_eq!(Quat::from([2i64, 3, 4, 1]), q);
}

#[test]
fn quaternion_product_is_associative() {
    let a = Quat::<i64>::new(1, 2, 3, 4);
    let b = Quat::<i64>::new(-2, 0, 1, 5);
    let c = Quat::<i64>::new(3, -1, 2, 0);
    assert_eq!((a * b) * c, a * (b * c));
    assert_ne!(a * b, b * a);
}

#[test]
fn absolute_values() {
    assert_eq!(Vec3::<i64>::new(-1, 2, -3).abs(), Vec3::new(1, 2, 3));
    assert_eq!(Vec1::<i32>::new(-7).abs(), Vec1::new(7));
}
