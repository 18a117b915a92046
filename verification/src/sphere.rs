//! Spheres and the ray-sphere intersection test. A ray hits a sphere
//! exactly when the quadratic discriminant `b*b - 4*a*c` is strictly
//! positive; a tangent ray, whose discriminant is zero, counts as a miss.
//!
//! The magnitude caps below are generous for the fixed scene and the rays
//! the camera produces; they keep every intermediate product of the exact
//! discriminant computation within an `i128`.

use vstd::prelude::*;

use crate::frac::{
    frac_eq, frac_mul, frac_pos, frac_sub, fvec_dot, fvec_sub, Frac, FVec,
};
use crate::rat::Rat;
use crate::ray::Ray;
use crate::vec3::Vec3;

verus! {

/// Cap on the components of a scene point (a ray origin or sphere center).
pub open spec fn point_ok(v: FVec) -> bool {
    &&& -4096 <= v.x <= 4096
    &&& -4096 <= v.y <= 4096
    &&& -4096 <= v.z <= 4096
    &&& 0 < v.d <= 256
}

/// Cap on a sphere radius.
pub open spec fn radius_ok(a: Frac) -> bool {
    &&& -15 <= a.n <= 15
    &&& 0 < a.d <= 15
}

/// Cap on the components of a ray direction.
pub open spec fn dir_ok(v: FVec) -> bool {
    &&& -0x1_0000_0000 <= v.x <= 0x1_0000_0000
    &&& -0x1_0000_0000 <= v.y <= 0x1_0000_0000
    &&& -0x1_0000_0000 <= v.z <= 0x1_0000_0000
    &&& 0 < v.d <= 0x4000_0000
}

/// The discriminant of the ray-sphere intersection quadratic:
/// with `oc = origin - center`, `a = dir . dir`, `b = 2 (oc . dir)` and
/// `c = oc . oc - radius^2`, this is `b*b - 4*a*c`.
pub open spec fn hit_discriminant(center: FVec, radius: Frac, origin: FVec, dir: FVec) -> Frac {
    let oc = fvec_sub(origin, center);
    let a = fvec_dot(dir, dir);
    let b = frac_mul(Frac { n: 2, d: 1 }, fvec_dot(oc, dir));
    let c = frac_sub(fvec_dot(oc, oc), frac_mul(radius, radius));
    frac_sub(frac_mul(b, b), frac_mul(Frac { n: 4, d: 1 }, frac_mul(a, c)))
}

/// The ray hits the sphere: the discriminant is strictly positive.
pub open spec fn spec_hit(center: FVec, radius: Frac, origin: FVec, dir: FVec) -> bool {
    frac_pos(hit_discriminant(center, radius, origin, dir))
}

/// A sphere of the scene.
#[derive(Clone, Copy, Debug)]
pub struct Sphere {
    pub center: Vec3,
    pub radius: Rat,
}

impl Sphere {
    pub open spec fn wf(self) -> bool {
        &&& self.center.wf()
        &&& self.radius.wf()
        &&& point_ok(self.center@)
        &&& radius_ok(self.radius@)
    }
}

/// A ray tangent to the sphere, with discriminant exactly zero, is a miss.
pub proof fn lemma_tangent_misses(center: FVec, radius: Frac, origin: FVec, dir: FVec)
    requires
        frac_eq(hit_discriminant(center, radius, origin, dir), Frac { n: 0, d: 1 }),
    ensures
        !spec_hit(center, radius, origin, dir),
{
    let disc = hit_discriminant(center, radius, origin, dir);
    assert(disc.n == 0);
}

/// Whether the ray hits the sphere with the given center and radius.
pub fn hit_sphere(center: &Vec3, radius: &Rat, ray: &Ray) -> (r: bool)
    requires
        center.wf(),
        radius.wf(),
        ray.wf(),
        point_ok(center@),
        radius_ok(radius@),
        point_ok(ray.origin@),
        dir_ok(ray.direction@),
    ensures
        r == spec_hit(center@, radius@, ray.origin@, ray.direction@),
{
    let o = ray.origin;
    let v = ray.direction;
    proof {
        assert(-0x40_0000 <= o.x * center.d - center.x * o.d <= 0x40_0000
            && -0x40_0000 <= o.y * center.d - center.y * o.d <= 0x40_0000
            && -0x40_0000 <= o.z * center.d - center.z * o.d <= 0x40_0000
            && -0x20_0000 <= o.x * center.d <= 0x20_0000
            && -0x20_0000 <= center.x * o.d <= 0x20_0000
            && -0x20_0000 <= o.y * center.d <= 0x20_0000
            && -0x20_0000 <= center.y * o.d <= 0x20_0000
            && -0x20_0000 <= o.z * center.d <= 0x20_0000
            && -0x20_0000 <= center.z * o.d <= 0x20_0000
            && 0 < o.d * center.d <= 0x1_0000)
            by (nonlinear_arith)
            requires
                point_ok(o@),
                point_ok(center@),
        ;
    }
    let p1: i128 = o.x * center.d - center.x * o.d;
    let p2: i128 = o.y * center.d - center.y * o.d;
    let p3: i128 = o.z * center.d - center.z * o.d;
    let dno: i128 = o.d * center.d;
    proof {
        assert(0 <= v.x * v.x + v.y * v.y + v.z * v.z < 0x4_0000_0000_0000_0000
            && 0 <= v.x * v.x <= 0x1_0000_0000_0000_0000
            && 0 <= v.y * v.y <= 0x1_0000_0000_0000_0000
            && 0 <= v.z * v.z <= 0x1_0000_0000_0000_0000)
            by (nonlinear_arith)
            requires
                dir_ok(v@),
        ;
        assert(-0xC0_0000_0000_0000 <= p1 * v.x + p2 * v.y + p3 * v.z <= 0xC0_0000_0000_0000
            && -0x40_0000_0000_0000 <= p1 * v.x <= 0x40_0000_0000_0000
            && -0x40_0000_0000_0000 <= p2 * v.y <= 0x40_0000_0000_0000
            && -0x40_0000_0000_0000 <= p3 * v.z <= 0x40_0000_0000_0000)
            by (nonlinear_arith)
            requires
                -0x40_0000 <= p1 <= 0x40_0000,
                -0x40_0000 <= p2 <= 0x40_0000,
                -0x40_0000 <= p3 <= 0x40_0000,
                dir_ok(v@),
        ;
        assert(0 <= p1 * p1 + p2 * p2 + p3 * p3 <= 0x3000_0000_0000
            && 0 <= p1 * p1 <= 0x1000_0000_0000
            && 0 <= p2 * p2 <= 0x1000_0000_0000
            && 0 <= p3 * p3 <= 0x1000_0000_0000)
            by (nonlinear_arith)
            requires
                -0x40_0000 <= p1 <= 0x40_0000,
                -0x40_0000 <= p2 <= 0x40_0000,
                -0x40_0000 <= p3 <= 0x40_0000,
        ;
    }
    let q: i128 = v.x * v.x + v.y * v.y + v.z * v.z;
    let p: i128 = p1 * v.x + p2 * v.y + p3 * v.z;
    let rr: i128 = p1 * p1 + p2 * p2 + p3 * p3;
    proof {
        assert(0 < radius.d * radius.d <= 225 && 0 <= radius.n * radius.n <= 225
            && 0 < dno * dno <= 0x1_0000_0000)
            by (nonlinear_arith)
            requires
                radius_ok(radius@),
                0 < dno <= 0x1_0000,
        ;
    }
    let rd2: i128 = radius.d * radius.d;
    let rn2: i128 = radius.n * radius.n;
    let dno2: i128 = dno * dno;
    proof {
        assert(-0x800_0000_0000_0000 <= rr * rd2 - rn2 * dno2 <= 0x800_0000_0000_0000
            && 0 <= rr * rd2 <= 0x400_0000_0000_0000
            && 0 <= rn2 * dno2 <= 0x400_0000_0000_0000)
            by (nonlinear_arith)
            requires
                0 <= rr <= 0x3000_0000_0000,
                0 <= rd2 <= 225,
                0 <= rn2 <= 225,
                0 < dno2 <= 0x1_0000_0000,
        ;
    }
    let cc: i128 = rr * rd2 - rn2 * dno2;
    proof {
        assert(0 <= p * p <= 0x9000_0000_0000_0000_0000_0000_0000) by (nonlinear_arith)
            requires
                -0xC0_0000_0000_0000 <= p <= 0xC0_0000_0000_0000,
        ;
        assert(0 <= (p * p) * rd2 <= 0x7FFF_0000_0000_0000_0000_0000_0000_0000)
            by (nonlinear_arith)
            requires
                0 <= p * p <= 0x9000_0000_0000_0000_0000_0000_0000,
                0 <= rd2 <= 225,
        ;
        if cc >= 0 {
            vstd::arithmetic::mul::lemma_mul_upper_bound(
                q as int,
                0x4_0000_0000_0000_0000,
                cc as int,
                0x800_0000_0000_0000,
            );
            vstd::arithmetic::mul::lemma_mul_nonnegative(q as int, cc as int);
            assert(0 <= q * cc <= 0x4_0000_0000_0000_0000 * 0x800_0000_0000_0000);
        } else {
            vstd::arithmetic::mul::lemma_mul_upper_bound(
                q as int,
                0x4_0000_0000_0000_0000,
                -(cc as int),
                0x800_0000_0000_0000,
            );
            vstd::arithmetic::mul::lemma_mul_nonnegative(q as int, -(cc as int));
            assert(0 <= q * -(cc as int) <= 0x4_0000_0000_0000_0000 * 0x800_0000_0000_0000);
            assert(q * cc == -(q * -(cc as int))) by (nonlinear_arith);
        }
        assert(-0x2000_0000_0000_0000_0000_0000_0000_0000
            <= q * cc <= 0x2000_0000_0000_0000_0000_0000_0000_0000);
    }
    let lhs: i128 = (p * p) * rd2;
    let rhs: i128 = q * cc;
    proof {
        let oc = fvec_sub(o@, center@);
        assert(oc.x == p1 && oc.y == p2 && oc.z == p3 && oc.d == dno);
        let af = fvec_dot(v@, v@);
        let bf = frac_mul(Frac { n: 2, d: 1 }, fvec_dot(oc, v@));
        let cf = frac_sub(fvec_dot(oc, oc), frac_mul(radius@, radius@));
        assert(af.n == q && af.d == v@.d * v@.d);
        assert(bf.n == 2 * p && bf.d == 1 * (dno * v@.d));
        assert(cf.n == cc && cf.d == dno2 * rd2);
        let disc = hit_discriminant(center@, radius@, o@, v@);
        let dn = disc.n;
        let dd = disc.d;
        assert(dn == (2 * p) * (2 * p) * ((v@.d * v@.d) * (dno2 * rd2))
            - 4 * (q * cc) * ((1 * (dno * v@.d)) * (1 * (dno * v@.d))));
        assert(dd == (1 * (dno * v@.d)) * (1 * (dno * v@.d)) * ((v@.d * v@.d) * (dno2 * rd2)));
        let vd = v@.d;
        assert(dd > 0) by (nonlinear_arith)
            requires
                dd == (1 * (dno * vd)) * (1 * (dno * vd)) * ((vd * vd) * ((dno * dno) * (rd2 as int))),
                dno > 0,
                vd > 0,
                rd2 > 0,
        ;
        assert(dn == 4 * ((dno * dno) * (vd * vd)) * ((p * p) * (rd2 as int) - q * (cc as int)))
            by (nonlinear_arith)
            requires
                dn == (2 * (p as int)) * (2 * (p as int)) * ((vd * vd) * ((dno * dno) * (rd2 as int)))
                    - 4 * ((q as int) * (cc as int)) * ((1 * (dno * vd)) * (1 * (dno * vd))),
        ;
        assert((dn > 0) <==> (p * p) * (rd2 as int) > q * (cc as int)) by (nonlinear_arith)
            requires
                dn == 4 * ((dno * dno) * (vd * vd)) * ((p * p) * (rd2 as int) - q * (cc as int)),
                dno > 0,
                vd > 0,
        ;
        assert((dn * dd > 0) <==> dn > 0) by (nonlinear_arith)
            requires
                dd > 0,
        ;
        assert(frac_pos(disc) <==> lhs > rhs);
    }
    lhs > rhs
}

} // verus!
