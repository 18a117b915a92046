//! Shading: a ray that hits a sphere of the scene is solid red; a ray that
//! misses is colored by a vertical gradient from white to sky blue, driven
//! by the y component of the unit direction.

use vstd::prelude::*;

use crate::frac::{frac_eq, frac_lt, Frac, FVec};
use crate::rat::Rat;
use crate::ray::Ray;
use crate::sphere::{dir_ok, hit_sphere, point_ok, spec_hit, Sphere};
use crate::sqrt::{isqrt, lemma_sqrt_floor_pos, sqrt_floor};
use crate::vec3::{norm_num_sq, Vec3};

verus! {

/// The flat hit color, solid red `(1, 0, 0)`.
pub open spec fn spec_red() -> FVec {
    FVec { x: 1, y: 0, z: 0, d: 1 }
}

/// The gradient parameter `t = (unit_direction.y + 1) / 2`, with the unit
/// direction's y taken as `v.y / s` for `s = sqrt_floor(x*x + y*y + z*z)`,
/// the floor square root of the squared numerator norm.
pub open spec fn grad_t(v: FVec) -> Frac {
    let s = sqrt_floor(norm_num_sq(v));
    Frac { n: v.y + s, d: 2 * s }
}

/// The gradient color `(1-t)*white + t*skyblue` in closed form over
/// `s = sqrt_floor(x*x + y*y + z*z)`: white is `(1,1,1)`, sky blue is
/// `(0.5, 0.7, 1.0)`.
pub open spec fn grad_color(v: FVec) -> FVec {
    let s = sqrt_floor(norm_num_sq(v));
    FVec { x: 15 * s - 5 * v.y, y: 17 * s - 3 * v.y, z: 20 * s, d: 20 * s }
}

/// Linear interpolation `(1-t)*a + t*b` over rationals.
pub open spec fn lerp(t: Frac, a: Frac, b: Frac) -> Frac {
    crate::frac::frac_add(
        crate::frac::frac_mul(crate::frac::frac_sub(Frac { n: 1, d: 1 }, t), a),
        crate::frac::frac_mul(t, b),
    )
}

/// Some sphere of the scene is hit by the ray.
pub open spec fn spec_any_hit(scene: Seq<Sphere>, origin: FVec, dir: FVec) -> bool {
    exists|k: int|
        0 <= k < scene.len() && spec_hit(scene[k].center@, scene[k].radius@, origin, dir)
}

/// The color of a ray: red on a hit, the gradient otherwise.
pub open spec fn spec_ray_color(scene: Seq<Sphere>, origin: FVec, dir: FVec) -> FVec {
    if spec_any_hit(scene, origin, dir) {
        spec_red()
    } else {
        grad_color(dir)
    }
}

/// One gradient channel in closed form equals the interpolation between
/// white and a sky channel `skn/10`: for `t = (y+s)/(2s)`,
/// `(10s - 10y + skn*(y+s)) / (20s) == (1-t)*1 + t*(skn/10)`.
pub proof fn lemma_lerp_channel(y: int, s: int, skn: int)
    by (nonlinear_arith)
    requires
        s >= 1,
    ensures
        frac_eq(
            Frac { n: 10 * s - 10 * y + skn * (y + s), d: 20 * s },
            lerp(Frac { n: y + s, d: 2 * s }, Frac { n: 1, d: 1 }, Frac { n: skn, d: 10 }),
        ),
{
}

/// The closed-form gradient color is exactly `(1-t)*white + t*skyblue`
/// for `t = grad_t`, channel by channel, with sky blue `(5/10, 7/10, 10/10)`.
pub proof fn lemma_grad_is_lerp(v: FVec)
    requires
        norm_num_sq(v) >= 1,
    ensures
        frac_eq(grad_color(v).fx(), lerp(grad_t(v), Frac { n: 1, d: 1 }, Frac { n: 5, d: 10 })),
        frac_eq(grad_color(v).fy(), lerp(grad_t(v), Frac { n: 1, d: 1 }, Frac { n: 7, d: 10 })),
        frac_eq(grad_color(v).fz(), lerp(grad_t(v), Frac { n: 1, d: 1 }, Frac { n: 10, d: 10 })),
{
    lemma_sqrt_floor_pos(norm_num_sq(v));
    let s = sqrt_floor(norm_num_sq(v));
    let y = v.y;
    lemma_lerp_channel(y, s, 5);
    lemma_lerp_channel(y, s, 7);
    lemma_lerp_channel(y, s, 10);
    assert(grad_color(v).fx() == (Frac { n: 10 * s - 10 * y + 5 * (y + s), d: 20 * s }));
    assert(grad_color(v).fy() == (Frac { n: 10 * s - 10 * y + 7 * (y + s), d: 20 * s }));
    assert(grad_color(v).fz() == (Frac { n: 10 * s - 10 * y + 10 * (y + s), d: 20 * s }));
}

/// The gradient parameter sits on the same side of one half as the sign of
/// the direction's y component: above for upward rays, below for downward
/// rays, and exactly one half on the horizon.
pub proof fn lemma_gradient_t_sign(v: FVec)
    requires
        norm_num_sq(v) >= 1,
    ensures
        v.y > 0 ==> frac_lt(Frac { n: 1, d: 2 }, grad_t(v)),
        v.y < 0 ==> frac_lt(grad_t(v), Frac { n: 1, d: 2 }),
        v.y == 0 ==> frac_eq(grad_t(v), Frac { n: 1, d: 2 }),
{
    lemma_sqrt_floor_pos(norm_num_sq(v));
}

/// The scene's one sphere: center `(0, 0, -1)`, radius one half.
pub fn default_scene() -> (s: Vec<Sphere>)
    ensures
        s@.len() == 1,
        s@[0].center@ == (FVec { x: 0, y: 0, z: -1, d: 1 }),
        s@[0].radius@ == (Frac { n: 1, d: 2 }),
        s@[0].wf(),
{
    let mut s: Vec<Sphere> = Vec::new();
    s.push(Sphere { center: Vec3::new(0, 0, -1, 1), radius: Rat::new(1, 2) });
    s
}

/// The color of a ray against a scene of spheres: solid red when any
/// sphere is hit, the white-to-sky-blue gradient otherwise. The direction
/// must not be the zero vector.
pub fn ray_color(r: &Ray, scene: &Vec<Sphere>) -> (c: Vec3)
    requires
        r.wf(),
        point_ok(r.origin@),
        dir_ok(r.direction@),
        !(r.direction@.x == 0 && r.direction@.y == 0 && r.direction@.z == 0),
        forall|k: int| 0 <= k < scene@.len() ==> (#[trigger] scene@[k]).wf(),
    ensures
        c.wf(),
        c@ == spec_ray_color(scene@, r.origin@, r.direction@),
        -0x80_0000_0000 <= c@.x <= 0x80_0000_0000,
        -0x80_0000_0000 <= c@.y <= 0x80_0000_0000,
        -0x80_0000_0000 <= c@.z <= 0x80_0000_0000,
        0 < c@.d <= 0x80_0000_0000,
{
    let v = r.direction;
    let mut idx: usize = 0;
    let mut hit = false;
    while idx < scene.len()
        invariant
            0 <= idx <= scene@.len(),
            hit == exists|k: int|
                0 <= k < idx && spec_hit(
                    scene@[k].center@,
                    scene@[k].radius@,
                    r.origin@,
                    r.direction@,
                ),
            r.wf(),
            point_ok(r.origin@),
            dir_ok(r.direction@),
            forall|k: int| 0 <= k < scene@.len() ==> (#[trigger] scene@[k]).wf(),
        decreases scene@.len() - idx,
    {
        let s = scene[idx];
        if hit_sphere(&s.center, &s.radius, r) {
            hit = true;
        }
        idx = idx + 1;
    }
    assert(hit == spec_any_hit(scene@, r.origin@, r.direction@));
    if hit {
        Vec3::new(1, 0, 0, 1)
    } else {
        proof {
            assert(0 <= v@.x * v@.x + v@.y * v@.y + v@.z * v@.z < 0x4_0000_0000_0000_0000
                && 0 <= v@.x * v@.x <= 0x1_0000_0000_0000_0000
                && 0 <= v@.y * v@.y <= 0x1_0000_0000_0000_0000
                && 0 <= v@.z * v@.z <= 0x1_0000_0000_0000_0000
                && (v@.x != 0 ==> v@.x * v@.x >= 1)
                && (v@.y != 0 ==> v@.y * v@.y >= 1)
                && (v@.z != 0 ==> v@.z * v@.z >= 1))
                by (nonlinear_arith)
                requires
                    dir_ok(v@),
            ;
        }
        let q: i128 = v.x * v.x + v.y * v.y + v.z * v.z;
        assert(q >= 1);
        let s: u128 = isqrt(q as u128);
        let sn: i128 = s as i128;
        proof {
            lemma_sqrt_floor_pos(q as int);
            assert(sn <= 0x2_0000_0000) by (nonlinear_arith)
                requires
                    sn >= 0,
                    (sn as int) * (sn as int) <= q as int,
                    q < 0x4_0000_0000_0000_0000,
            ;
        }
        Vec3 { x: 15 * sn - 5 * v.y, y: 17 * sn - 3 * v.y, z: 20 * sn, d: 20 * sn }
    }
}

} // verus!
