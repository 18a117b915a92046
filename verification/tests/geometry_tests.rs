use raycast::rat::Rat;
use raycast::ray::Ray;
use raycast::sphere::hit_sphere;
use raycast::sqrt::isqrt;
use raycast::vec3::Vec3;

#[test]
fn rat_add_exact() {
    let a = Rat::new(1, 2);
    let b = Rat::new(1, 3);
    let c = a.add(&b);
    assert_eq!(c.n, 5);
    assert_eq!(c.d, 6);
}

#[test]
fn rat_sub_exact() {
    let a = Rat::new(1, 2);
    let b = Rat::new(1, 3);
    let c = a.sub(&b);
    assert_eq!(c.n, 1);
    assert_eq!(c.d, 6);
}

#[test]
fn rat_mul_exact() {
    let a = Rat::new(2, 3);
    let b = Rat::new(3, 4);
    let c = a.mul(&b);
    assert_eq!(c.n, 6);
    assert_eq!(c.d, 12);
}

#[test]
fn rat_div_keeps_denominator_positive() {
    let a = Rat::new(1, 2);
    let b = Rat::new(-2, 3);
    let c = a.div(&b);
    assert_eq!(c.n, -3);
    assert_eq!(c.d, 4);
}

#[test]
fn vec_add_and_sub() {
    let a = Vec3::new(1, 2, 3, 2);
    let b = Vec3::new(1, 0, -1, 3);
    let s = a.add(&b);
    assert_eq!((s.x, s.y, s.z, s.d), (5, 6, 7, 6));
    let d = a.sub(&b);
    assert_eq!((d.x, d.y, d.z, d.d), (1, 6, 11, 6));
}

#[test]
fn vec_scale_and_dot() {
    let a = Vec3::new(1, 2, 3, 1);
    let q = Rat::new(2, 5);
    let s = a.scale(&q);
    assert_eq!((s.x, s.y, s.z, s.d), (2, 4, 6, 5));
    let b = Vec3::new(4, -1, 2, 1);
    let dp = a.dot(&b);
    assert_eq!(dp.n, 4 - 2 + 6);
    assert_eq!(dp.d, 1);
}

#[test]
fn vec_div_scalar() {
    let a = Vec3::new(2, 4, 6, 1);
    let q = Rat::new(2, 1);
    let d = a.div_scalar(&q);
    assert_eq!((d.x, d.y, d.z, d.d), (2, 4, 6, 2));
}

#[test]
fn vec_length_sq() {
    let v = Vec3::new(3, 4, 0, 2);
    let q = v.length_sq();
    assert_eq!(q.n, 25);
    assert_eq!(q.d, 4);
}

#[test]
fn vec_norm_floor() {
    let v = Vec3::new(3, 4, 0, 2);
    let n = v.norm_floor();
    assert_eq!(n.n, 5);
    assert_eq!(n.d, 2);
    let w = Vec3::new(1, 1, 1, 1);
    let m = w.norm_floor();
    assert_eq!(m.n, 1);
}

#[test]
fn isqrt_floor_values() {
    assert_eq!(isqrt(0), 0);
    assert_eq!(isqrt(1), 1);
    assert_eq!(isqrt(3), 1);
    assert_eq!(isqrt(4), 2);
    assert_eq!(isqrt(33858), 184);
    let big: u128 = (1u128 << 33) - 1;
    assert_eq!(isqrt(big * big), big);
}

#[test]
fn ray_accessors() {
    let r = Ray::new(Vec3::new(1, 2, 3, 1), Vec3::new(0, 0, -1, 1));
    let o = r.origin();
    let d = r.direction();
    assert_eq!((o.x, o.y, o.z, o.d), (1, 2, 3, 1));
    assert_eq!((d.x, d.y, d.z, d.d), (0, 0, -1, 1));
}

#[test]
fn ray_at_point() {
    let r = Ray::new(Vec3::new(1, 2, 3, 1), Vec3::new(1, 0, -1, 1));
    let p = r.at(&Rat::new(2, 1));
    assert_eq!((p.x, p.y, p.z, p.d), (3, 2, 1, 1));
}

#[test]
fn hit_straight_at_center() {
    let center = Vec3::new(0, 0, -1, 1);
    let radius = Rat::new(1, 2);
    let ray = Ray::new(Vec3::new(0, 0, 0, 1), Vec3::new(0, 0, -1, 1));
    assert!(hit_sphere(&center, &radius, &ray));
}

#[test]
fn miss_parallel_ray() {
    let center = Vec3::new(0, 0, -1, 1);
    let radius = Rat::new(1, 2);
    let ray = Ray::new(Vec3::new(0, 0, 0, 1), Vec3::new(1, 0, 0, 1));
    assert!(!hit_sphere(&center, &radius, &ray));
}

#[test]
fn tangent_ray_is_a_miss() {
    // Origin (0, 1/2, 0), direction (0, 0, -1): grazes the sphere at
    // (0, 1/2, -1), with the discriminant exactly zero.
    let center = Vec3::new(0, 0, -1, 1);
    let radius = Rat::new(1, 2);
    let ray = Ray::new(Vec3::new(0, 1, 0, 2), Vec3::new(0, 0, -1, 1));
    assert!(!hit_sphere(&center, &radius, &ray));
}
