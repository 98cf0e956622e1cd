use spaceform::base::vector::{abs_lane, Vector};
use spaceform::base::{nearly_equal, shuffle_args};
use spaceform::{is_shuffle_arg, shuffle_mask};

#[test]
fn mod_getters() {
    let vec = Vector::new(1f32, 2f32, 3f32, 4f32);

    assert_eq!(vec.x(), 1f32);
    assert_eq!(vec.y(), 2f32);
    assert_eq!(vec.z(), 3f32);
    assert_eq!(vec.w(), 4f32);
}

#[test]
fn mod_setters() {
    let mut vec = Vector::default();

    vec.set_x(1f32);
    vec.set_y(2f32);
    vec.set_z(3f32);
    vec.set_w(4f32);

    assert_eq!(vec, Vector::new(1f32, 2f32, 3f32, 4f32));
}

#[test]
fn mod_add() {
    let vec = Vector::new(1f32, 2f32, 3f32, 4f32);

    assert_eq!(vec + vec, Vector::new(2f32, 4f32, 6f32, 8f32));
}

#[test]
fn mod_subtract() {
    let vec = Vector::new(1f32, 2f32, 3f32, 4f32);

    assert_eq!(vec - vec, Vector::default());
    assert_eq!(-vec, Vector::new(-1f32, -2f32, -3f32, -4f32))
}

#[test]
fn mod_multiply() {
    let vec = Vector::new(1f32, 2f32, 3f32, 4f32);

    assert_eq!(vec * 2f32, Vector::new(2f32, 4f32, 6f32, 8f32));
    assert_eq!(vec * vec, Vector::new(1f32, 4f32, 9f32, 16f32));
}

#[test]
fn mod_divide() {
    let vec = Vector::new(2f32, 4f32, 6f32, 8f32);

    assert_eq!(vec / 2f32, Vector::new(1f32, 2f32, 3f32, 4f32));
    assert_eq!(vec / vec, Vector::new(1f32, 1f32, 1f32, 1f32));
}

#[test]
fn mod_equality() {
    let vec1 = Vector::new(1f32, 2f32, 3f32, 4f32);
    let vec2 = Vector::new(1f32, 2f32, 3f32, 4f32);

    assert_eq!(vec1, vec2);
}

#[test]
fn index() {
    let vec = Vector::new(1f32, 2f32, 3f32, 4f32);

    assert_eq!(vec.get(0), vec.x());
    assert_eq!(vec.get(1), vec.y());
    assert_eq!(vec.get(2), vec.z());
    assert_eq!(vec.get(3), vec.w());
}

#[test]
fn mod_shuffle() {
    let vec = Vector::new(1f32, 2f32, 3f32, 4f32);

    assert_eq!(vec.shuffle::<0, 0, 0, 0>(), Vector::new(1f32, 1f32, 1f32, 1f32));
    assert_eq!(vec.shuffle::<1, 2, 3, 0>(), Vector::new(2f32, 3f32, 4f32, 1f32));
    assert_eq!(vec.shuffle::<3, 3, 3, 3>(), Vector::new(4f32, 4f32, 4f32, 4f32));
}

#[test]
fn shuffle_merge() {
    let vec1 = Vector::new(1f32, 2f32, 3f32, 4f32);
    let vec2 = Vector::new(4f32, 3f32, 2f32, 1f32);

    assert_eq!(
        Vector::shuffle_merge::<0, 0, 0, 0>(vec1, vec2),
        Vector::new(1f32, 1f32, 4f32, 4f32)
    );
}

#[test]
fn mod_abs() {
    let vec = Vector::new(-1f32, 2f32, -3f32, 4f32);

    assert_eq!(vec.abs(), Vector::new(1f32, 2f32, 3f32, 4f32));
}

#[test]
fn mod_horizontal_sum() {
    let vec = Vector::new(-1f32, 2f32, -3f32, 4f32);
    assert_eq!(vec.hsum(), 2f32);

    let vec = Vector::new(1f32, 2f32, 3f32, 0f32);
    assert_eq!(vec.hsum(), 6f32);
}

#[test]
fn mod_length() {
    let vec = Vector::new(1f32, 2f32, 3f32, 4f32);
    assert_eq!(vec.length_square(), 30f32);

    let vec = Vector::new(3f32, 4f32, 0f32, 0f32);
    assert_eq!(vec.length_square().sqrt(), 5f32);
}

#[test]
fn mod_cross_product() {
    let vec1 = Vector::new(1f32, 0f32, 0f32, 0f32);
    let vec2 = Vector::new(0f32, 1f32, 0f32, 0f32);

    assert_eq!(Vector::cross(vec1, vec2), Vector::new(0f32, 0f32, 1f32, 0f32));
}

#[test]
fn mod_min_and_max() {
    let vec1 = Vector::new(1f32, 2f32, 3f32, 4f32);
    let vec2 = Vector::new(4f32, 3f32, 2f32, 1f32);

    assert_eq!(Vector::min(vec1, vec2), Vector::new(1f32, 2f32, 2f32, 1f32));
    assert_eq!(Vector::max(vec1, vec2), Vector::new(4f32, 3f32, 3f32, 4f32));
}

#[test]
fn shuffle_every_lane_from_every_lane() {
    let vec = Vector::new(10i64, 20, 30, 40);

    assert_eq!(vec.shuffle::<3, 2, 1, 0>(), Vector::new(40, 30, 20, 10));
    assert_eq!(vec.shuffle::<2, 3, 0, 1>(), Vector::new(30, 40, 10, 20));
    assert_eq!(vec.shuffle::<1, 0, 3, 2>(), Vector::new(20, 10, 40, 30));
    assert_eq!(vec.shuffle::<0, 2, 1, 3>(), Vector::new(10, 30, 20, 40));
}

#[test]
fn shuffle_identity_changes_nothing() {
    let vec = Vector::new(1.5f32, -2.25f32, 0f32, 7f32);
    assert_eq!(vec.shuffle::<0, 1, 2, 3>(), vec);

    let vec = Vector::new(-5i64, 6, 7, -8);
    assert_eq!(vec.shuffle::<0, 1, 2, 3>(), vec);
}

#[test]
fn shuffle_merge_takes_two_lanes_from_each() {
    let a = Vector::new(1i64, 2, 3, 4);
    let b = Vector::new(5i64, 6, 7, 8);

    assert_eq!(Vector::shuffle_merge::<0, 1, 2, 3>(a, b), Vector::new(1, 2, 7, 8));
    assert_eq!(Vector::shuffle_merge::<3, 2, 1, 0>(a, b), Vector::new(4, 3, 6, 5));
    assert_eq!(Vector::shuffle_merge::<1, 3, 0, 2>(a, b), Vector::new(2, 4, 5, 7));
}

#[test]
fn setters_leave_the_other_lanes() {
    let mut vec = Vector::new(1i64, 2, 3, 4);
    vec.set_y(20);
    assert_eq!(vec, Vector::new(1, 20, 3, 4));
    vec.set_w(40);
    assert_eq!(vec, Vector::new(1, 20, 3, 40));
    vec.set_x(10);
    assert_eq!(vec, Vector::new(10, 20, 3, 40));
    vec.set_z(30);
    assert_eq!(vec, Vector::new(10, 20, 30, 40));
}

#[test]
fn sum_with_itself_is_the_double() {
    let vec = Vector::new(1.5f32, -2f32, 1e20f32, 0.1f32);
    assert_eq!(vec + vec, vec * 2f32);
    assert_eq!(vec - vec, Vector::default());

    let vec = Vector::new(7i64, -9, 0, 123456789);
    assert_eq!(vec + vec, vec * 2);
    assert_eq!(vec - vec, Vector::default());
}

#[test]
fn dot_commutes_and_cross_anticommutes() {
    let a = Vector::new(1f32, -2f32, 3.5f32, 4f32);
    let b = Vector::new(0.5f32, 6f32, -7f32, 8f32);
    assert_eq!(Vector::dot(a, b), Vector::dot(b, a));
    assert_eq!(Vector::dot(a, b), 0.5 - 12.0 - 24.5 + 32.0);
    assert_eq!(Vector::cross(a, b), -Vector::cross(b, a));

    let a = Vector::new(1i64, -2, 3, 4);
    let b = Vector::new(5i64, 6, -7, 8);
    assert_eq!(Vector::dot(a, b), 5 - 12 - 21 + 32);
    assert_eq!(Vector::dot(a, b), Vector::dot(b, a));
    assert_eq!(Vector::cross(a, b), Vector::new(14 - 18, 15 + 7, 6 + 10, 0));
    assert_eq!(Vector::cross(a, b), -Vector::cross(b, a));
}

#[test]
fn division_by_a_zero_lane_is_not_an_error() {
    let vec = Vector::new(1f32, -1f32, 0f32, 2f32) / Vector::new(0f32, 0f32, 0f32, 4f32);
    assert_eq!(vec.x(), f32::INFINITY);
    assert_eq!(vec.y(), f32::NEG_INFINITY);
    assert!(vec.z().is_nan());
    assert_eq!(vec.w(), 0.5f32);
}

#[test]
fn adjacent_lanes() {
    let a = Vector::new(1i64, 2, 30, 40);
    let b = Vector::new(5i64, 7, 100, 1);

    assert_eq!(Vector::adj_add(a, b), Vector::new(3, 70, 12, 101));
    assert_eq!(Vector::adj_sub(a, b), Vector::new(-1, -10, -2, 99));
    assert_eq!(Vector::add_sub(a, b), Vector::new(-4, 9, -70, 41));
}

#[test]
fn lerp_runs_from_the_first_to_the_second() {
    let from = Vector::new(1f32, 2f32, 3f32, 4f32);
    let to = Vector::new(5f32, 0f32, -3f32, 4f32);

    assert_eq!(Vector::lerp(from, to, 0f32), from);
    assert_eq!(Vector::lerp(from, to, 1f32), to);
    assert_eq!(Vector::lerp(from, to, 0.5f32), Vector::new(3f32, 1f32, 0f32, 4f32));
    assert_eq!(Vector::lerp(from, to, 2f32), Vector::new(9f32, -2f32, -9f32, 4f32));
}

#[test]
fn clamp_holds_each_lane_between_the_bounds() {
    let lo = Vector::new(0i64, 0, 0, 0);
    let hi = Vector::new(10i64, 10, 10, 10);

    assert_eq!(Vector::clamp(Vector::new(-5, 5, 15, 10), lo, hi), Vector::new(0, 5, 10, 10));
}

#[test]
fn absolute_values() {
    assert_eq!(Vector::new(-7i64, 0, 7, -1).abs(), Vector::new(7, 0, 7, 1));
    assert_eq!(abs_lane(-2.5f32), 2.5f32);
    assert_eq!(abs_lane(2.5f32), 2.5f32);
}

#[test]
fn nearly_equal_is_strict_in_epsilon() {
    assert!(nearly_equal(1f32, 1.00001f32, 0.0001f32));
    assert!(nearly_equal(1.00001f32, 1f32, 0.0001f32));
    assert!(!nearly_equal(1f32, 1.1f32, 0.0001f32));
    assert!(nearly_equal(10i64, 12, 3));
    assert!(!nearly_equal(10i64, 13, 3));
    assert!(!nearly_equal(13i64, 10, 3));
}

#[test]
fn shuffle_arguments() {
    assert!(is_shuffle_arg(0, 1, 2, 3));
    assert!(is_shuffle_arg(3, 3, 3, 3));
    assert!(!is_shuffle_arg(4, 0, 0, 0));
    assert!(!is_shuffle_arg(0, 4, 0, 0));
    assert!(!is_shuffle_arg(0, 0, 4, 0));
    assert!(!is_shuffle_arg(0, 0, 0, 4));
    assert_eq!(shuffle_args(0, 1, 2, 3), 1);
}

#[test]
fn shuffle_masks() {
    assert_eq!(shuffle_mask(0, 0, 0, 0), 0);
    assert_eq!(shuffle_mask(3, 2, 1, 0), 228);
    assert_eq!(shuffle_mask(0, 1, 2, 3), 27);
    assert_eq!(shuffle_mask(3, 3, 3, 3), 255);
    assert_eq!(shuffle_mask(1, 0, 0, 0), 64);
    assert_eq!(shuffle_mask(0, 1, 0, 0), 16);
    assert_eq!(shuffle_mask(0, 0, 1, 0), 4);
    assert_eq!(shuffle_mask(0, 0, 0, 1), 1);
}

#[test]
fn equality_is_that_of_the_lanes() {
    let vec = Vector::new(1f32, 2f32, 3f32, 4f32);
    assert!(vec == vec);
    assert!(vec != Vector::new(1f32, 2f32, 3f32, 4.0000005f32));
    assert!(vec != Vector::new(0f32, 2f32, 3f32, 4f32));
    assert!(Vector::new(0f32, 0f32, 0f32, 0f32) == Vector::new(-0f32, 0f32, -0f32, 0f32));

    let nan = Vector::new(f32::NAN, 0f32, 0f32, 0f32);
    assert!(nan != nan);

    assert!(Vector::new(1i64, 2, 3, 4) == Vector::new(1, 2, 3, 4));
    assert!(Vector::new(1i64, 2, 3, 4) != Vector::new(1, 2, 3, 5));
}
