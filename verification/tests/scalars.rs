use tnua_rapier2d::scalar::{checked_scale, checked_sum, raw_product, whole, ONE};
use tnua_rapier2d::vector::{Vector2, Vector3};

#[test]
fn whole_counts_units() {
    assert_eq!(ONE, 65536);
    assert_eq!(whole(0), 0);
    assert_eq!(whole(3), 3 * 65536);
    assert_eq!(whole(-7), -7 * 65536);
    assert_eq!(whole(i32::MAX), (i32::MAX as i64) * 65536);
    assert_eq!(whole(i32::MIN), (i32::MIN as i64) * 65536);
}

#[test]
fn product_of_ten_and_two_is_twenty() {
    assert_eq!(checked_scale(whole(10), whole(2)), Some(whole(20)));
}

#[test]
fn product_with_a_half_halves() {
    assert_eq!(checked_scale(ONE / 2, whole(9)), Some(whole(9) / 2));
    assert_eq!(checked_scale(whole(9), ONE / 2), Some(4 * ONE + ONE / 2));
}

#[test]
fn product_rounds_toward_zero() {
    // 3/65536 times 1/2 is 1.5/65536
    assert_eq!(checked_scale(3, ONE / 2), Some(1));
    assert_eq!(checked_scale(-3, ONE / 2), Some(-1));
    assert_eq!(checked_scale(3, -(ONE / 2)), Some(-1));
    assert_eq!(checked_scale(-3, -(ONE / 2)), Some(1));
    assert_eq!(checked_scale(1, 1), Some(0));
    assert_eq!(checked_scale(-1, 1), Some(0));
}

#[test]
fn product_out_of_range_is_none() {
    assert_eq!(checked_scale(i64::MAX, whole(2)), None);
    assert_eq!(checked_scale(i64::MIN, whole(2)), None);
    assert_eq!(checked_scale(i64::MIN, -ONE), None);
    assert_eq!(checked_scale(i64::MAX, ONE), Some(i64::MAX));
    assert_eq!(checked_scale(i64::MIN, ONE), Some(i64::MIN));
    assert_eq!(checked_scale(i64::MAX, -ONE), Some(-i64::MAX));
}

#[test]
fn raw_product_is_exact() {
    assert_eq!(raw_product(i64::MIN, i64::MIN), 1i128 << 126);
    assert_eq!(raw_product(i64::MAX, i64::MIN), -(i64::MAX as i128) * (1i128 << 63));
    assert_eq!(raw_product(-3, 5), -15);
}

#[test]
fn sums_are_checked() {
    assert_eq!(checked_sum(1, 2), Some(3));
    assert_eq!(checked_sum(-5, 2), Some(-3));
    assert_eq!(checked_sum(i64::MAX, 1), None);
    assert_eq!(checked_sum(i64::MIN, -1), None);
    assert_eq!(checked_sum(i64::MAX, i64::MIN), Some(-1));
    assert_eq!(checked_sum(i64::MAX, 0), Some(i64::MAX));
}

#[test]
fn vectors_are_laid_into_space() {
    let planar = Vector2 { x: 3, y: -4 };
    assert_eq!(planar.extend(9), Vector3 { x: 3, y: -4, z: 9 });
    assert!(Vector2 { x: 0, y: 0 }.is_zero());
    assert!(!Vector2 { x: 0, y: 1 }.is_zero());
    assert!(Vector3 { x: 0, y: 0, z: 0 }.is_zero());
    assert!(!Vector3 { x: 0, y: 0, z: -1 }.is_zero());
}
