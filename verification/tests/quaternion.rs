use spaceform::base::{Quaternion, Slerp};

#[test]
fn mul() {
    let q = Quaternion::new(1f32, 2f32, 3f32, 4f32);

    assert_eq!(q * q, Quaternion::new(8f32, 16f32, 24f32, 2f32));
}

#[test]
fn hamilton_product_keeps_its_order() {
    let p = Quaternion::new(1i64, 2, 3, 4);
    let q = Quaternion::new(5i64, 6, 7, 8);

    assert_eq!(p * q, Quaternion::new(24, 48, 48, -6));
    assert_eq!(q * p, Quaternion::new(32, 32, 56, -6));
}

#[test]
fn units_multiply_as_hamilton_wrote() {
    let i = Quaternion::new(1i64, 0, 0, 0);
    let j = Quaternion::new(0i64, 1, 0, 0);
    let k = Quaternion::new(0i64, 0, 1, 0);
    let minus_one = Quaternion::new(0i64, 0, 0, -1);

    assert_eq!(i * i, minus_one);
    assert_eq!(j * j, minus_one);
    assert_eq!(k * k, minus_one);
    assert_eq!(i * j, k);
    assert_eq!(j * k, i);
    assert_eq!(k * i, j);
    assert_eq!(i * j * k, minus_one);
    assert_eq!(Quaternion::<i64>::default() * k, k);
}

#[test]
fn default_is_the_identity_rotation() {
    assert_eq!(Quaternion::<f32>::default(), Quaternion::new(0f32, 0f32, 0f32, 1f32));
}

#[test]
fn parts() {
    let mut q = Quaternion::new(1i64, 2, 3, 4);
    assert_eq!((q.x(), q.y(), q.z(), q.w()), (1, 2, 3, 4));

    q.set_x(10);
    q.set_y(20);
    q.set_z(30);
    q.set_w(40);
    assert_eq!(q, Quaternion::new(10, 20, 30, 40));
}

#[test]
fn sums_and_scalars() {
    let p = Quaternion::new(1f32, 2f32, 3f32, 4f32);
    let q = Quaternion::new(0.5f32, 0.5f32, 0.5f32, 0.5f32);

    assert_eq!(p + q, Quaternion::new(1.5f32, 2.5f32, 3.5f32, 4.5f32));
    assert_eq!(p - q, Quaternion::new(0.5f32, 1.5f32, 2.5f32, 3.5f32));
    assert_eq!(p * 2f32, Quaternion::new(2f32, 4f32, 6f32, 8f32));
    assert_eq!(p / 2f32, Quaternion::new(0.5f32, 1f32, 1.5f32, 2f32));
    assert_eq!(Quaternion::dot(p, q), 5f32);

    let mut r = p;
    r += q;
    assert_eq!(r, p + q);
    r -= q;
    assert_eq!(r, p);
    r *= 2f32;
    assert_eq!(r, p * 2f32);
    r /= 2f32;
    assert_eq!(r, p);
    r *= q;
    assert_eq!(r, p * q);
}

fn normalize(q: Quaternion<f32>) -> Quaternion<f32> {
    q / Quaternion::dot(q, q).sqrt()
}

fn slerp(from: Quaternion<f32>, to: Quaternion<f32>, t: f32) -> Quaternion<f32> {
    assert!(from.is_unit());
    assert!(to.is_unit());
    match Quaternion::slerp_start(from, to, t) {
        Slerp::Linear(blend) => normalize(blend),
        Slerp::Spherical { cos, perp } => {
            let dtheta = cos.acos() * t;
            Quaternion::slerp_along(from, normalize(perp), dtheta.cos(), dtheta.sin())
        }
    }
}

fn close(a: Quaternion<f32>, b: Quaternion<f32>) -> bool {
    (a.x() - b.x()).abs() < 1e-6
        && (a.y() - b.y()).abs() < 1e-6
        && (a.z() - b.z()).abs() < 1e-6
        && (a.w() - b.w()).abs() < 1e-6
}

#[test]
fn unit_quaternions() {
    assert!(Quaternion::<f32>::default().is_unit());
    assert!(Quaternion::new(0.5f32, 0.5f32, 0.5f32, 0.5f32).is_unit());
    assert!(Quaternion::new(0.6f32, 0f32, 0.8f32, 0f32).is_unit());
    assert!(Quaternion::new(1.00004f32, 0f32, 0f32, 0f32).is_unit());
    assert!(!Quaternion::new(1.0001f32, 0f32, 0f32, 0f32).is_unit());
    assert!(!Quaternion::new(1f32, 2f32, 3f32, 4f32).is_unit());
    assert!(!Quaternion::new(0f32, 0f32, 0f32, 0f32).is_unit());
}

#[test]
fn slerp_switches_at_the_threshold() {
    let from = Quaternion::new(0f32, 0f32, 0f32, 1f32);

    let near = Quaternion::new(0.6f32, 0f32, 0f32, 0.8f32);
    assert_eq!(
        Quaternion::slerp_start(from, near, 0.5f32),
        Slerp::Spherical { cos: 0.8f32, perp: Quaternion::new(0.6f32, 0f32, 0f32, 0f32) }
    );

    let at = Quaternion::new(0f32, 0f32, 0f32, 0.9995f32);
    assert!(matches!(Quaternion::slerp_start(from, at, 0.5f32), Slerp::Spherical { .. }));

    let over = Quaternion::new(0f32, 0f32, 0f32, 0.9996f32);
    assert_eq!(
        Quaternion::slerp_start(from, over, 0.5f32),
        Slerp::Linear(Quaternion::new(0f32, 0f32, 0f32, 0.5f32 + 0.9996f32 * 0.5f32))
    );

    assert_eq!(
        Quaternion::slerp_start(Quaternion::new(1i64, 2, 3, 4), Quaternion::new(1i64, 0, 0, 1), 3),
        Slerp::Linear(Quaternion::new(1, -4, -6, -5))
    );
    assert_eq!(
        Quaternion::slerp_start(Quaternion::new(1i64, 2, 3, 4), Quaternion::new(1i64, 0, 0, -1), 3),
        Slerp::Spherical { cos: -3, perp: Quaternion::new(4, 6, 9, 11) }
    );
}

#[test]
fn slerp_along_the_great_circle() {
    assert_eq!(
        Quaternion::slerp_along(
            Quaternion::new(1i64, 2, 3, 4),
            Quaternion::new(5i64, 6, 7, 8),
            10,
            100
        ),
        Quaternion::new(510, 620, 730, 840)
    );
}

#[test]
fn slerp_between_equal_ends_stays_there() {
    let q = Quaternion::new(0.5f32, 0.5f32, 0.5f32, 0.5f32);
    for t in [0f32, 0.25f32, 0.5f32, 1f32, 3f32] {
        assert!(close(slerp(q, q, t), q));
    }
}

#[test]
fn slerp_reaches_both_ends() {
    let h = std::f32::consts::FRAC_1_SQRT_2;
    let q = Quaternion::new(0f32, 0f32, 0f32, 1f32);
    let q2 = Quaternion::new(0f32, 0f32, h, h);

    assert!(close(slerp(q, q2, 0f32), q));
    assert!(close(slerp(q, q2, 1f32), q2));

    let eighth = std::f32::consts::FRAC_PI_8;
    assert!(close(slerp(q, q2, 0.5f32), Quaternion::new(0f32, 0f32, eighth.sin(), eighth.cos())));

    let near = normalize(Quaternion::new(0f32, 0f32, 0.01f32, 1f32));
    assert!(close(slerp(q, near, 0f32), q));
    assert!(close(slerp(q, near, 1f32), near));
}
