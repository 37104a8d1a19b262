use pbrust::vector3::Vector3;

#[test]
fn same_vectors_are_equal() {
    let v1 = Vector3::new(1, 2, 3);
    let v2 = Vector3::new(1, 2, 3);

    assert_eq!(v1, v2);
}

#[test]
fn different_vectors_are_not_equal() {
    let v1 = Vector3::new(1, 2, 3);
    let v2 = Vector3::new(-3, 0, 5);

    assert_ne!(v1, v2);
}

#[test]
fn new_sets_components() {
    let v = Vector3::new(7, -8, 9);

    assert_eq!(7, v.x);
    assert_eq!(-8, v.y);
    assert_eq!(9, v.z);
}

#[test]
fn neg() {
    let v = Vector3::new(-1, 2, -3);
    let expected = Vector3::new(1, -2, 3);

    assert_eq!(expected, v.neg());
}

#[test]
fn add_vectors() {
    let v1 = Vector3::new(1, 2, 3);
    let v2 = Vector3::new(-3, 0, 5);
    let expected = Vector3::new(-2, 2, 8);

    assert_eq!(expected, v1.add(v2));
}

#[test]
fn add_assign_vectors() {
    let mut v1 = Vector3::new(1, 2, 3);
    let v2 = Vector3::new(-3, 0, 5);
    let expected = v1.add(v2);

    v1.add_assign(v2);

    assert_eq!(expected, v1);
}

#[test]
fn sub_vectors() {
    let v1 = Vector3::new(1, 2, 3);
    let v2 = Vector3::new(-3, 0, 5);
    let expected = Vector3::new(4, 2, -2);

    assert_eq!(expected, v1.sub(v2));
}

#[test]
fn sub_assign_vectors() {
    let mut v1 = Vector3::new(1, 2, 3);
    let v2 = Vector3::new(-3, 0, 5);
    let expected = Vector3::new(4, 2, -2);

    v1.sub_assign(v2);

    assert_eq!(expected, v1);
}

#[test]
fn mul_vector_and_scalar() {
    let v = Vector3::new(1, 2, 3);
    let expected = Vector3::new(-2, -4, -6);

    assert_eq!(expected, v.mul(-2));
}

#[test]
fn mul_assign_vector_and_scalar() {
    let mut v = Vector3::new(1, 2, 3);
    let expected = v.mul(-2);

    v.mul_assign(-2);

    assert_eq!(expected, v);
}

#[test]
fn div_vector_and_scalar() {
    let v = Vector3::new(-2, -4, -6);
    let expected = Vector3::new(1, 2, 3);

    assert_eq!(expected, v.div(-2));
}

#[test]
fn div_assign_vector_and_scalar() {
    let mut v = Vector3::new(-2, -4, -6);
    let expected = v.div(-2);

    v.div_assign(-2);

    assert_eq!(expected, v);
}

#[test]
fn div_rounds_toward_zero() {
    let v = Vector3::new(-7, 7, 5);

    assert_eq!(Vector3::new(-3, 3, 2), v.div(2));
    assert_eq!(Vector3::new(3, -3, -2), v.div(-2));
}

#[test]
fn dot_product() {
    let v1 = Vector3::new(1, -2, -3);
    let v2 = Vector3::new(2, 4, -6);
    let expected = 1 * 2 + -2 * 4 + -3 * -6;

    assert_eq!(expected, v1.dot(v2));
}

#[test]
fn cross_product() {
    let v1 = Vector3::new(1, -2, -3);
    let v2 = Vector3::new(2, 4, -6);
    let expected = Vector3::new(-2 * -6 - -3 * 4, -3 * 2 - 1 * -6, 1 * 4 - -2 * 2);

    assert_eq!(expected, v1.cross(v2));
}

#[test]
fn abs_of_vector() {
    let v = Vector3::new(-1, 2, -3);
    let expected = Vector3::new(1, 2, 3);

    assert_eq!(expected, v.abs());
    assert_eq!(expected, expected.abs());
}

#[test]
fn abs_dot_is_abs_of_dot() {
    let v1 = Vector3::new(1, 2, 3);
    let v2 = Vector3::new(-1, -2, -3);

    assert_eq!(-14, v1.dot(v2));
    assert_eq!(14, v1.abs_dot(v2));
    assert_eq!(14, v1.abs_dot(v1));
}

#[test]
fn checked_dot_in_range() {
    let v1 = Vector3::new(1, -2, -3);
    let v2 = Vector3::new(2, 4, -6);

    assert_eq!(Some(12), v1.checked_dot(v2));
}

#[test]
fn checked_dot_overflowing_product() {
    let v1 = Vector3::new(i64::MAX, 0, 0);
    let v2 = Vector3::new(2, 0, 0);

    assert_eq!(None, v1.checked_dot(v2));
}

#[test]
fn checked_dot_overflowing_sum() {
    let v1 = Vector3::new(i64::MAX, i64::MAX, 0);
    let v2 = Vector3::new(1, 1, 0);

    assert_eq!(None, v1.checked_dot(v2));
}

#[test]
fn add_commutes() {
    let u = Vector3::new(4, -5, 6);
    let v = Vector3::new(-1, 9, 2);

    assert_eq!(u.add(v), v.add(u));
}

#[test]
fn add_associates() {
    let u = Vector3::new(4, -5, 6);
    let v = Vector3::new(-1, 9, 2);
    let w = Vector3::new(7, 0, -8);

    assert_eq!(u.add(v).add(w), u.add(v.add(w)));
}

#[test]
fn add_zero_is_identity() {
    let u = Vector3::new(4, -5, 6);

    assert_eq!(u, u.add(Vector3::new(0, 0, 0)));
}

#[test]
fn add_negation_gives_zero() {
    let u = Vector3::new(4, -5, 6);

    assert_eq!(Vector3::new(0, 0, 0), u.add(u.neg()));
}

#[test]
fn sub_is_add_of_negation() {
    let u = Vector3::new(4, -5, 6);
    let v = Vector3::new(-1, 9, 2);

    assert_eq!(u.sub(v), u.add(v.neg()));
}

#[test]
fn scalar_mul_distributes_over_add() {
    let u = Vector3::new(4, -5, 6);
    let v = Vector3::new(-1, 9, 2);
    let s = -3;

    assert_eq!(u.add(v).mul(s), u.mul(s).add(v.mul(s)));
}

#[test]
fn mul_then_div_by_scalar_restores() {
    let u = Vector3::new(4, -5, 6);
    let s = -7;

    assert_eq!(u, u.mul(s).div(s));
}

#[test]
fn dot_is_symmetric() {
    let u = Vector3::new(4, -5, 6);
    let v = Vector3::new(-1, 9, 2);

    assert_eq!(u.dot(v), v.dot(u));
}

#[test]
fn dot_distributes_over_add() {
    let u = Vector3::new(4, -5, 6);
    let v = Vector3::new(-1, 9, 2);
    let w = Vector3::new(7, 0, -8);

    assert_eq!(u.add(v).dot(w), u.dot(w) + v.dot(w));
}

#[test]
fn dot_of_self_is_sum_of_squares() {
    let u = Vector3::new(4, -5, 6);

    assert_eq!(4 * 4 + 5 * 5 + 6 * 6, u.dot(u));
}

#[test]
fn cross_is_antisymmetric() {
    let u = Vector3::new(4, -5, 6);
    let v = Vector3::new(-1, 9, 2);

    assert_eq!(u.cross(v), v.cross(u).neg());
}

#[test]
fn cross_of_self_is_zero() {
    let u = Vector3::new(4, -5, 6);

    assert_eq!(Vector3::new(0, 0, 0), u.cross(u));
}

#[test]
fn cross_is_orthogonal_to_operands() {
    let u = Vector3::new(4, -5, 6);
    let v = Vector3::new(-1, 9, 2);
    let c = u.cross(v);

    assert_eq!(0, c.dot(u));
    assert_eq!(0, c.dot(v));
}
