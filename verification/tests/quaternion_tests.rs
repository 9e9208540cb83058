use quaternions::quaternion::Quaternion;
use quaternions::rational::Scalar;
use quaternions::sqrt::isqrt;
use quaternions::vec3::Vec3;

fn sc(n: i128, d: i128) -> Scalar {
    Scalar::new(n, d)
}

/// The scalar `s` denotes exactly the rational `n / d`.
fn denotes(s: &Scalar, n: i128, d: i128) -> bool {
    s.num() * d == n * s.den()
}

fn to_f64(s: &Scalar) -> f64 {
    s.num() as f64 / s.den() as f64
}

#[test]
fn scalar_new_and_accessors() {
    let s = sc(3, 4);
    assert_eq!(s.num(), 3);
    assert_eq!(s.den(), 4);
}

#[test]
fn scalar_times_exact_and_zero_shortcut() {
    let p = sc(2, 3).times(&sc(4, 5));
    assert_eq!(p.num(), 8);
    assert_eq!(p.den(), 15);
    let z = sc(0, 7).times(&sc(3, 5));
    assert_eq!(z.num(), 0);
    assert_eq!(z.den(), 1);
}

#[test]
fn isqrt_exact_values() {
    assert_eq!(isqrt(0), 0);
    assert_eq!(isqrt(1), 1);
    assert_eq!(isqrt(24), 4);
    assert_eq!(isqrt(25), 5);
    assert_eq!(isqrt(26), 5);
    assert_eq!(isqrt((1u128 << 126) - 1), (1u128 << 63) - 1);
}

#[test]
fn vec3_build_defaults_and_exact_magnitude() {
    let v = Vec3::init().x(sc(5, 1)).build();
    assert!(denotes(&v.x(), 5, 1));
    assert!(denotes(&v.y(), 0, 1));
    assert!(denotes(&v.z(), 0, 1));
    // magnitude of (5, 0, 0) is exactly 5: 5 * 16384 over 16384
    assert!(denotes(&v.magnitude(), 5, 1));
    let w = Vec3::init().x(sc(1, 1)).y(sc(2, 1)).z(sc(2, 1)).build();
    assert!(denotes(&w.magnitude(), 3, 1));
}

#[test]
fn vec3_magnitude_approximates_irrational_root() {
    let v = Vec3::init().x(sc(1, 1)).y(sc(1, 1)).z(sc(1, 1)).build();
    let m = to_f64(&v.magnitude());
    assert!((m - 3f64.sqrt()).abs() < 1e-3);
}

#[test]
fn non_unit_axis_norm_is_still_computed_from_raw_components() {
    // axis (2, 0, 0), half-angle cosine 3/5 and sine 4/5, unnormalised:
    // w = 3/5, x = 2 * 4/5 = 8/5, norm squared = 9/25 + 64/25 = 73/25.
    let q = Quaternion::init_by_axis_angle()
        .x(sc(2, 1))
        .angle(sc(3, 5), sc(4, 5))
        .normalized(false)
        .build();
    assert!(denotes(&q.w(), 3, 5));
    assert!(denotes(&q.x(), 8, 5));
    assert!(denotes(&q.y(), 0, 1));
    assert!(denotes(&q.z(), 0, 1));
    assert!(denotes(&q.norm_sq(), 73, 25));
}

#[test]
fn zero_angle_gives_identity_quaternion_and_identity_rotation() {
    // default angle is zero: half-angle cosine 1, sine 0
    let q = Quaternion::init_by_axis_angle().x(sc(1, 1)).build();
    assert!(denotes(&q.w(), 1, 1));
    assert!(denotes(&q.x(), 0, 1));
    assert!(denotes(&q.y(), 0, 1));
    assert!(denotes(&q.z(), 0, 1));
    let v = Vec3::init().x(sc(1, 1)).y(sc(2, 1)).z(sc(3, 1)).build();
    let r = v.rotate(q);
    assert!(denotes(&r.x(), 1, 1));
    assert!(denotes(&r.y(), 2, 1));
    assert!(denotes(&r.z(), 3, 1));
}

#[test]
fn unit_quaternion_times_inverse_is_identity() {
    // q = (1, 1, 1, 1) / 2 is an exact unit quaternion.
    let q = Quaternion::init_by_wxyz()
        .w(sc(1, 2))
        .x(sc(1, 2))
        .y(sc(1, 2))
        .z(sc(1, 2))
        .build();
    assert!(denotes(&q.norm_sq(), 1, 1));
    let m = q.mul(q.inverse());
    assert!(denotes(&m.w(), 1, 1));
    assert!(denotes(&m.x(), 0, 1));
    assert!(denotes(&m.y(), 0, 1));
    assert!(denotes(&m.z(), 0, 1));
}

#[test]
fn conjugate_twice_returns_the_components_exactly() {
    let q = Quaternion::init_by_wxyz()
        .w(sc(1, 1))
        .x(sc(-2, 1))
        .y(sc(3, 1))
        .z(sc(-4, 1))
        .build();
    let c = q.conjugate();
    assert!(denotes(&c.w(), 1, 1));
    assert!(denotes(&c.x(), 2, 1));
    let cc = c.conjugate();
    assert_eq!(cc.w().num(), q.w().num());
    assert_eq!(cc.x().num(), q.x().num());
    assert_eq!(cc.y().num(), q.y().num());
    assert_eq!(cc.z().num(), q.z().num());
    assert_eq!(cc.w().den(), q.w().den());
}

#[test]
fn normalized_build_produces_near_unit_components_and_keeps_raw_norm() {
    // (3, 4, 0, 0) has norm 5; the normalised components are the floor
    // divisions by the exact root at scale 16384.
    let q = Quaternion::init_by_wxyz()
        .w(sc(3, 1))
        .x(sc(4, 1))
        .normalized(true)
        .build();
    let w = q.w();
    let x = q.x();
    assert_eq!(w.num(), 9830); // floor(3 * 16384 / 5)
    assert_eq!(x.num(), 13107); // floor(4 * 16384 / 5)
    assert_eq!(w.den(), 16384);
    // the stored norm is the squared norm of the raw components
    assert!(denotes(&q.norm_sq(), 25, 1));
    // the recomputed norm of the stored components is 1 within tolerance
    let nw = to_f64(&w);
    let nx = to_f64(&x);
    assert!((nw * nw + nx * nx - 1.0).abs() < 1e-3);
}

#[test]
fn normalize_divides_by_stored_root_and_carries_norm() {
    let q = Quaternion::init_by_wxyz().w(sc(3, 1)).x(sc(4, 1)).build();
    let n = q.normalize();
    assert_eq!(n.w().num(), 9830);
    assert_eq!(n.x().num(), 13107);
    assert_eq!(n.w().den(), 16384);
    // the stored norm of the result is carried over, not recomputed
    assert!(denotes(&n.norm_sq(), 25, 1));
}

#[test]
fn conjugate_recomputes_norm_while_inverse_carries_it() {
    let q = Quaternion::init_by_wxyz()
        .w(sc(3, 1))
        .x(sc(4, 1))
        .normalized(true)
        .build();
    // inverse: stored norm carried over from q (still the raw 25)
    assert!(denotes(&q.inverse().norm_sq(), 25, 1));
    // conjugate: norm recomputed fresh from the normalised components
    let c = q.conjugate();
    assert_eq!(c.norm_sq().num(), 9830 * 9830 + 13107 * 13107);
    assert_eq!(c.norm_sq().den(), 16384 * 16384);
}

#[test]
fn as_vec3_projects_and_recomputes_magnitude() {
    let q = Quaternion::init_by_wxyz()
        .w(sc(1, 1))
        .x(sc(2, 1))
        .y(sc(3, 1))
        .z(sc(4, 1))
        .build();
    let v = q.as_vec3();
    assert!(denotes(&v.x(), 2, 1));
    assert!(denotes(&v.y(), 3, 1));
    assert!(denotes(&v.z(), 4, 1));
    // magnitude is freshly computed from (2, 3, 4), w discarded
    assert!((to_f64(&v.magnitude()) - 29f64.sqrt()).abs() < 1e-3);
}

#[test]
fn rotation_round_trip_is_exact_for_an_exact_unit_quaternion() {
    let q = Quaternion::init_by_wxyz()
        .w(sc(1, 2))
        .x(sc(1, 2))
        .y(sc(1, 2))
        .z(sc(1, 2))
        .build();
    let v = Vec3::init().x(sc(2, 1)).y(sc(3, 1)).z(sc(4, 1)).build();
    let r1 = v.rotate(q);
    let r2 = r1.rotate(q.inverse());
    // exactly the original components, as rationals
    assert_eq!(r2.x().num() * v.x().den(), v.x().num() * r2.x().den());
    assert_eq!(r2.y().num() * v.y().den(), v.y().num() * r2.y().den());
    assert_eq!(r2.z().num() * v.z().den(), v.z().num() * r2.z().den());
}

#[test]
fn rotate_carries_the_magnitude_over_exactly() {
    let v = Vec3::init().x(sc(3, 1)).build();
    // a deliberately non-unit quaternion: the carried magnitude is then
    // stale by design, still equal to the input's
    let q = Quaternion::init_by_wxyz().w(sc(2, 1)).build();
    let r = v.rotate(q);
    assert_eq!(r.magnitude().num(), v.magnitude().num());
    assert_eq!(r.magnitude().den(), v.magnitude().den());
    assert!(denotes(&r.magnitude(), 3, 1));
    // while the components were scaled by the squared norm 4
    assert!(denotes(&r.x(), 12, 1));
}

#[test]
fn demo_scenario_rotates_toward_negative_z() {
    // vector (2, 0, 0) rotated 45 degrees about +Y lands near
    // (sqrt(2), 0, -sqrt(2))
    let half = std::f64::consts::PI / 8.0;
    let den: i128 = 8192;
    let cos_half = Scalar::new((half.cos() * den as f64).round() as i128, den);
    let sin_half = Scalar::new((half.sin() * den as f64).round() as i128, den);
    let q = Quaternion::init_by_axis_angle()
        .y(sc(1, 1))
        .angle(cos_half, sin_half)
        .normalized(true)
        .build();
    let v = Vec3::init().x(sc(2, 1)).build();
    let r = v.rotate(q);
    assert!((to_f64(&r.x()) - 1.4142).abs() < 5e-3);
    assert!(to_f64(&r.y()).abs() < 5e-3);
    assert!((to_f64(&r.z()) + 1.4142).abs() < 5e-3);
    // the magnitude is carried over: exactly 2
    assert!(denotes(&r.magnitude(), 2, 1));
    let line = format!(
        "X: {:.4}, Y: {:.4}, Z: {:.4}",
        to_f64(&r.x()),
        to_f64(&r.y()),
        to_f64(&r.z())
    );
    assert!(line.starts_with("X: 1.41"));
}
