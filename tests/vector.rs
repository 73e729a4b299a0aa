use linalg::{Vec1, Vec2, Vec3, Vec4};

#[test]
fn test_zero() {
    let v = Vec1::<i32>::zero();
    assert_eq!(v.x, 0);
}

#[test]
fn test_constructor() {
    let v = Vec1::<i64>::new(5);
    assert_eq!(v.x, 5);
}

#[test]
fn test_add() {
    let v = Vec1::<i64>::new(3) + Vec1::<i64>::new(5);
    assert_eq!(v.x, 8);
}

#[test]
fn test_sub() {
    let v = Vec1::<i64>::new(3) - Vec1::<i64>::new(5);
    assert_eq!(v.x, -2);
}

#[test]
fn test_mul() {
    let a = Vec1::<i64>::new(3) * 2;
    assert_eq!(a.x, 6);
    let b = 2i64 * Vec1::<i64>::new(3);
    assert_eq!(b.x, 6);
}

#[test]
fn test_div() {
    let a = Vec1::<i64>::new(4) / 2;
    assert_eq!(a.x, 2);
    let b = 4i64 / Vec1::<i64>::new(2);
    assert_eq!(b.x, 2);
}

#[test]
fn vector_test_zero() {
    let v = Vec2::<i32>::zero();
    assert_eq!(v.x, 0);
    assert_eq!(v.y, 0);
}

#[test]
fn vector_test_constructor() {
    let v = Vec2::<i64>::new(5, 3);
    assert_eq!(v.x, 5);
    assert_eq!(v.y, 3);
}

#[test]
fn vector_test_add() {
    let v = Vec2::<i64>::new(3, 4) + Vec2::<i64>::new(5, 6);
    assert_eq!(v.x, 8);
    assert_eq!(v.y, 10);
}

#[test]
fn vector_test_sub() {
    let v = Vec2::<i64>::new(3, 4) - Vec2::<i64>::new(5, 1);
    assert_eq!(v.x, -2);
    assert_eq!(v.y, 3);
}

#[test]
fn vector_test_mul() {
    let a = Vec2::<i64>::new(3, 4) * 2;
    assert_eq!(a.x, 6);
    assert_eq!(a.y, 8);
    let b = 2i64 * Vec2::<i64>::new(3, 4);
    assert_eq!(b.x, 6);
    assert_eq!(b.y, 8);
}

#[test]
fn vector_test_div() {
    let a = Vec2::<i64>::new(4, 6) / 2;
    assert_eq!(a.x, 2);
    assert_eq!(a.y, 3);
    let b = 4i64 / Vec2::<i64>::new(2, 1);
    assert_eq!(b.x, 2);
    assert_eq!(b.y, 4);
}

#[test]
fn vec3_test_zero() {
    let v = Vec3::<i32>::zero();
    assert_eq!(v.x, 0);
    assert_eq!(v.y, 0);
    assert_eq!(v.z, 0);
}

#[test]
fn vec3_test_constructor() {
    let v = Vec3::<i64>::new(5, 3, 1);
    assert_eq!(v.x, 5);
    assert_eq!(v.y, 3);
    assert_eq!(v.z, 1);
}

#[test]
fn vec3_test_add() {
    let v = Vec3::<i64>::new(3, 4, 1) + Vec3::<i64>::new(5, 6, 2);
    assert_eq!(v.x, 8);
    assert_eq!(v.y, 10);
    assert_eq!(v.z, 3);
}

#[test]
fn vec3_test_sub() {
    let v = Vec3::<i64>::new(3, 4, 7) - Vec3::<i64>::new(5, 1, 2);
    assert_eq!(v.x, -2);
    assert_eq!(v.y, 3);
    assert_eq!(v.z, 5);
}

#[test]
fn vec3_test_mul() {
    let a = Vec3::<i64>::new(3, 4, 1) * 2;
    assert_eq!(a.x, 6);
    assert_eq!(a.y, 8);
    assert_eq!(a.z, 2);
    let b = 2i64 * Vec3::<i64>::new(3, 4, 1);
    assert_eq!(b.x, 6);
    assert_eq!(b.y, 8);
    assert_eq!(b.z, 2);
}

#[test]
fn vec3_test_div() {
    let a = Vec3::<i64>::new(4, 6, 2) / 2;
    assert_eq!(a.x, 2);
    assert_eq!(a.y, 3);
    assert_eq!(a.z, 1);
    let b = 4i64 / Vec3::<i64>::new(2, 1, 4);
    assert_eq!(b.x, 2);
    assert_eq!(b.y, 4);
    assert_eq!(b.z, 1);
}

#[test]
fn vec4_test_zero() {
    let v = Vec4::<i32>::zero();
    assert_eq!(v.x, 0);
    assert_eq!(v.y, 0);
    assert_eq!(v.z, 0);
    assert_eq!(v.w, 0);
}

#[test]
fn vec4_test_constructor() {
    let v = Vec4::<i64>::new(5, 3, 1, 2);
    assert_eq!(v.x, 5);
    assert_eq!(v.y, 3);
    assert_eq!(v.z, 1);
    assert_eq!(v.w, 2);
}

#[test]
fn vec4_test_add() {
    let v = Vec4::<i64>::new(3, 4, 1, 1) + Vec4::<i64>::new(5, 6, 2, 6);
    assert_eq!(v.x, 8);
    assert_eq!(v.y, 10);
    assert_eq!(v.z, 3);
    assert_eq!(v.w, 7);
}

#[test]
fn vec4_test_sub() {
    let v = Vec4::<i64>::new(3, 4, 7, 5) - Vec4::<i64>::new(5, 1, 2, 4);
    assert_eq!(v.x, -2);
    assert_eq!(v.y, 3);
    assert_eq!(v.z, 5);
    assert_eq!(v.w, 1);
}

#[test]
fn vec4_test_mul() {
    let a = Vec4::<i64>::new(3, 4, 1, 2) * 2;
    assert_eq!(a.x, 6);
    assert_eq!(a.y, 8);
    assert_eq!(a.z, 2);
    assert_eq!(a.w, 4);
    let b = 2i64 * Vec4::<i64>::new(3, 4, 1, 2);
    assert_eq!(b.x, 6);
    assert_eq!(b.y, 8);
    assert_eq!(b.z, 2);
    assert_eq!(b.w, 4);
}
