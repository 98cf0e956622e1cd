use spaceform::base::{Matrix, Quaternion, Vector};
use spaceform::coordinate_system::{Axis, AxisMapping};
use spaceform::{Direction, HalfAngles, Normal, Point, Rotation, RotationOrder, Transform};

#[test]
fn translation() {
    let point = Point::new(0f32, 0f32, 0f32);

    assert_eq!(
        point * Transform::translate(Direction::new(5f32, 5f32, 5f32)),
        Point::new(5f32, 5f32, 5f32)
    );
    assert_eq!(
        point * Transform::translate(Direction::new(5f32, 5f32, 5f32)).inverse(),
        Point::new(-5f32, -5f32, -5f32)
    );
}

#[test]
fn scale() {
    let point = Point::new(1f32, 1f32, 1f32);

    assert_eq!(
        point * Transform::scale(Direction::new(5f32, 5f32, 5f32)),
        Point::new(5f32, 5f32, 5f32)
    );
    assert_eq!(
        point * Transform::scale(Direction::new(5f32, 5f32, 5f32)).inverse(),
        Point::new(1f32 / 5f32, 1f32 / 5f32, 1f32 / 5f32)
    );
}

#[test]
fn translation_leaves_directions_alone() {
    let t = Transform::translate(Direction::new(5i64, 6, 7));

    assert_eq!(Direction::new(1i64, 2, 3) * t, Direction::new(1, 2, 3));
    assert_eq!(Point::new(1i64, 2, 3) * t, Point::new(6, 8, 10));
    assert_eq!(t.matrix * t.inverse, Matrix::identity());
}

#[test]
fn scale_keeps_matrix_and_inverse_together() {
    let t = Transform::scale(Direction::new(2f32, 4f32, 8f32));

    assert_eq!(
        t.matrix,
        Matrix::rows([
            [2f32, 0f32, 0f32, 0f32],
            [0f32, 4f32, 0f32, 0f32],
            [0f32, 0f32, 8f32, 0f32],
            [0f32, 0f32, 0f32, 1f32],
        ])
    );
    assert_eq!(
        t.inverse,
        Matrix::rows([
            [0.5f32, 0f32, 0f32, 0f32],
            [0f32, 0.25f32, 0f32, 0f32],
            [0f32, 0f32, 0.125f32, 0f32],
            [0f32, 0f32, 0f32, 1f32],
        ])
    );
    assert_eq!(t.matrix * t.inverse, Matrix::identity());
}

#[test]
fn inverse_exchanges_the_halves() {
    let t = Transform::translate(Direction::new(1i64, 2, 3));
    let back = t.inverse();

    assert_eq!(back.matrix, t.inverse);
    assert_eq!(back.inverse, t.matrix);
    assert_eq!(back.inverse().matrix, t.matrix);
    assert_eq!(back.inverse().inverse, t.inverse);
}

#[test]
fn composition_reverses_the_inverses() {
    let a = Transform::translate(Direction::new(1f32, 2f32, 3f32));
    let b = Transform::scale(Direction::new(2f32, 2f32, 4f32));
    let ab = a * b;

    assert_eq!(ab.matrix, a.matrix * b.matrix);
    assert_eq!(ab.inverse, b.inverse * a.inverse);
    assert_eq!(ab.matrix * ab.inverse, Matrix::identity());

    let point = Point::new(1f32, 1f32, 1f32);
    assert_eq!(point * ab, Point::new(4f32, 6f32, 16f32));
    assert_eq!(point * ab, (point * a) * b);
    assert_eq!(point * ab * ab.inverse(), point);

    let mut c = a;
    c *= b;
    assert_eq!(c.matrix, ab.matrix);
    assert_eq!(c.inverse, ab.inverse);
}

#[test]
fn identity_transform() {
    let t = Transform::<i64>::identity();

    assert_eq!(t.matrix, Matrix::identity());
    assert_eq!(t.inverse, Matrix::identity());
    assert_eq!(Transform::<i64>::default().matrix, Matrix::identity());
    assert_eq!(Point::new(1i64, 2, 3) * t, Point::new(1, 2, 3));
}

#[test]
fn rotation_by_the_identity_quaternion() {
    let t = Transform::rotate(Rotation(Quaternion::<f32>::default()));

    assert_eq!(t.matrix, Matrix::identity());
    assert_eq!(t.inverse, Matrix::identity());
}

#[test]
fn half_turn_about_z() {
    let t = Transform::rotate(Rotation(Quaternion::new(0i64, 0, 1, 0)));

    assert_eq!(
        t.matrix,
        Matrix::rows([[-1, 0, 0, 0], [0, -1, 0, 0], [0, 0, 1, 0], [0, 0, 0, 1]])
    );
    assert_eq!(Point::new(1i64, 2, 3) * t, Point::new(-1, -2, 3));
}

#[test]
fn rotation_matrix_entries() {
    let t = Transform::rotate(Rotation(Quaternion::new(1i64, 2, 3, 4)));

    assert_eq!(
        t.matrix,
        Matrix::rows([[-25, 28, -10, 0], [-20, -19, 20, 0], [22, 4, -9, 0], [0, 0, 0, 1]])
    );
    assert_eq!(t.inverse, t.matrix.transpose());
}

#[test]
fn quarter_turn_about_z() {
    let h = std::f32::consts::FRAC_1_SQRT_2;
    let t = Transform::rotate(Rotation(Quaternion::new(0f32, 0f32, h, h)));
    let moved = Direction::new(1f32, 0f32, 0f32) * t;

    assert!((moved.x() - 0f32).abs() < 1e-6);
    assert!((moved.y() - 1f32).abs() < 1e-6);
    assert_eq!(moved.z(), 0f32);
    let product = t.matrix * t.inverse;
    for i in 0..4 {
        for j in 0..4 {
            let expected = if i == j { 1f32 } else { 0f32 };
            assert!((product.get_row(i).get(j) - expected).abs() < 1e-6);
        }
    }
}

#[test]
fn normals_go_by_the_inverse_transpose() {
    let t = Transform::scale(Direction::new(2f32, 4f32, 8f32));

    assert_eq!(Normal::new(1f32, 1f32, 1f32) * t, Normal::new(0.5f32, 0.25f32, 0.125f32));
    assert_eq!(Direction::new(1f32, 1f32, 1f32) * t, Direction::new(2f32, 4f32, 8f32));
}

#[test]
fn normal_in_hemisphere() {
    let normal = Normal::new(0i64, 0, 1);

    assert_eq!(normal.in_hemisphere(Direction::new(1, 1, 1)), normal);
    assert_eq!(normal.in_hemisphere(Direction::new(1, 1, 0)), normal);
    assert_eq!(normal.in_hemisphere(Direction::new(1, 1, -1)), Normal::new(0, 0, -1));
    assert_eq!(
        Normal::new(0f32, 2f32, 0f32).in_hemisphere(Direction::new(0f32, -1f32, 0f32)),
        Normal::new(0f32, -2f32, 0f32)
    );
}

#[test]
fn points_and_directions() {
    let p = Point::new(1i64, 2, 3);
    let q = Point::new(10i64, 20, 30);
    let d = Direction::new(1i64, 1, 1);

    assert_eq!(p.0, Vector::new(1, 2, 3, 1));
    assert_eq!(d.0, Vector::new(1, 1, 1, 0));
    assert_eq!(Point::<i64>::default().0, Vector::new(0, 0, 0, 1));
    assert_eq!(Direction::<i64>::default().0, Vector::new(0, 0, 0, 0));
    assert_eq!(Normal::<i64>::default().0, Vector::new(0, 0, 0, 0));
    assert_eq!(p + d, Point::new(2, 3, 4));
    assert_eq!(p - d, Point::new(0, 1, 2));
    assert_eq!(q - p, Direction::new(9, 18, 27));
    assert_eq!(d + d, Direction::new(2, 2, 2));
    assert_eq!(d - d, Direction::new(0, 0, 0));
    assert_eq!(-d, Direction::new(-1, -1, -1));
    assert_eq!(d * 3, Direction::new(3, 3, 3));
    assert_eq!(Direction::new(9i64, 6, 3) / 3, Direction::new(3, 2, 1));
    assert_eq!(Direction::dot(d, Direction::new(1, 2, 3)), 6);
    assert_eq!(d.length_square(), 3);
    assert_eq!(
        Direction::cross(Direction::new(1, 0, 0), Direction::new(0, 1, 0)),
        Direction::new(0, 0, 1)
    );
    assert_eq!(p.shuffle::<2, 1, 0>(), Point::new(3, 2, 1));
    assert_eq!(Direction::new(1i64, 2, 3).shuffle::<1, 2, 0>(), Direction::new(2, 3, 1));
    assert_eq!(Normal::new(1i64, 2, 3).shuffle::<0, 0, 0>(), Normal::new(1, 1, 1));
    assert_eq!(Direction::from(Normal::new(1i64, 2, 3)), Direction::new(1, 2, 3));
    assert_eq!((p.x(), p.y(), p.z()), (1, 2, 3));

    let mut r = p;
    r += d;
    r.set_x(7);
    assert_eq!(r, Point::new(7, 3, 4));
    r -= d;
    assert_eq!(r, Point::new(6, 2, 3));
    let mut e = d;
    e *= 4;
    e.set_z(8);
    e /= 2;
    e += d;
    e -= Direction::new(0, 0, 1);
    assert_eq!(e, Direction::new(3, 3, 4));
}

#[test]
fn interpolated_points() {
    let from = Point::new(0f32, 0f32, 0f32);
    let to = Point::new(2f32, 4f32, 8f32);

    assert_eq!(Point::lerp(from, to, 0f32), from);
    assert_eq!(Point::lerp(from, to, 1f32), to);
    assert_eq!(Point::lerp(from, to, 0.25f32), Point::new(0.5f32, 1f32, 2f32));
    assert_eq!(
        Direction::lerp(Direction::new(0f32, 0f32, 0f32), Direction::new(2f32, 4f32, 8f32), 0.5f32),
        Direction::new(1f32, 2f32, 4f32)
    );
}

#[test]
fn axes() {
    assert_eq!(Direction::<i64>::from(Axis::PosX), Direction::new(1, 0, 0));
    assert_eq!(Direction::<i64>::from(Axis::NegX), Direction::new(-1, 0, 0));
    assert_eq!(Direction::<i64>::from(Axis::PosY), Direction::new(0, 1, 0));
    assert_eq!(Direction::<i64>::from(Axis::NegY), Direction::new(0, -1, 0));
    assert_eq!(Direction::<i64>::from(Axis::PosZ), Direction::new(0, 0, 1));
    assert_eq!(Direction::<i64>::from(Axis::NegZ), Direction::new(0, 0, -1));
    let d: Direction<f32> = Axis::NegY.into();
    assert_eq!(d, Direction::new(0f32, -1f32, 0f32));
}

fn mapping() -> AxisMapping {
    AxisMapping { right: Axis::PosX, forward: Axis::PosZ, up: Axis::PosY }
}

#[test]
fn euler_without_angles_is_the_identity() {
    let half = HalfAngles {
        sin_pitch: 0f32,
        cos_pitch: 1f32,
        sin_yaw: 0f32,
        cos_yaw: 1f32,
        sin_roll: 0f32,
        cos_roll: 1f32,
    };

    let r = Rotation::euler(half, RotationOrder::PYR, mapping());
    assert_eq!(r, Rotation(Quaternion::default()));
}

#[test]
fn euler_multiplies_in_the_given_order() {
    let half = HalfAngles {
        sin_pitch: 2i64,
        cos_pitch: 3,
        sin_yaw: 5,
        cos_yaw: 7,
        sin_roll: 11,
        cos_roll: 13,
    };
    let pitch = Quaternion::new(2i64, 0, 0, 3);
    let yaw = Quaternion::new(0i64, 5, 0, 7);
    let roll = Quaternion::new(0i64, 0, 11, 13);

    assert_eq!(Rotation::euler(half, RotationOrder::PYR, mapping()).0, pitch * yaw * roll);
    assert_eq!(Rotation::euler(half, RotationOrder::PRY, mapping()).0, pitch * roll * yaw);
    assert_eq!(Rotation::euler(half, RotationOrder::RPY, mapping()).0, roll * pitch * yaw);
    assert_eq!(Rotation::euler(half, RotationOrder::RYP, mapping()).0, roll * yaw * pitch);
    assert_eq!(Rotation::euler(half, RotationOrder::YPR, mapping()).0, yaw * pitch * roll);
    assert_eq!(Rotation::euler(half, RotationOrder::YRP, mapping()).0, yaw * roll * pitch);
    assert_eq!(
        Rotation::euler(half, RotationOrder::PYR, mapping()).0,
        Quaternion::new(347, 41, 361, 163)
    );
    assert_ne!(
        Rotation::euler(half, RotationOrder::PYR, mapping()),
        Rotation::euler(half, RotationOrder::RYP, mapping())
    );
}

#[test]
fn euler_follows_the_axis_mapping() {
    let half = HalfAngles {
        sin_pitch: 2i64,
        cos_pitch: 3,
        sin_yaw: 0,
        cos_yaw: 1,
        sin_roll: 0,
        cos_roll: 1,
    };
    let turned = AxisMapping { right: Axis::NegZ, forward: Axis::PosX, up: Axis::PosY };

    assert_eq!(
        Rotation::euler(half, RotationOrder::YPR, turned).0,
        Quaternion::new(0, 0, -2, 3)
    );
}
