//! The pinhole camera: the viewport geometry derived from the fixed
//! configuration (aspect ratio 16:9, viewport height 2, focal length 1,
//! eye at the origin), and the ray through a given pixel.

use vstd::prelude::*;

use crate::frac::{frac_mul, fvec_add, fvec_eq, fvec_scale, fvec_sub, Frac, FVec};
use crate::rat::Rat;
use crate::ray::Ray;
use crate::sphere::{dir_ok, point_ok};
use crate::vec3::Vec3;

verus! {

/// The eye point, `(0, 0, 0)`.
pub open spec fn spec_origin() -> FVec {
    FVec { x: 0, y: 0, z: 0, d: 1 }
}

/// `viewport_width = aspect_ratio * viewport_height = (16/9) * 2`.
pub open spec fn spec_viewport_width() -> Frac {
    frac_mul(Frac { n: 16, d: 9 }, Frac { n: 2, d: 1 })
}

/// The horizontal viewport span, `(viewport_width, 0, 0)`.
pub open spec fn spec_horizontal() -> FVec {
    FVec { x: spec_viewport_width().n, y: 0, z: 0, d: spec_viewport_width().d }
}

/// The vertical viewport span, `(0, viewport_height, 0)`.
pub open spec fn spec_vertical() -> FVec {
    FVec { x: 0, y: 2, z: 0, d: 1 }
}

/// The lower-left viewport corner by its defining derivation:
/// `origin - horizontal/2 - vertical/2 - (0, 0, focal_length)`.
pub open spec fn spec_lower_left_derived() -> FVec {
    fvec_sub(
        fvec_sub(
            fvec_sub(spec_origin(), fvec_scale(Frac { n: 1, d: 2 }, spec_horizontal())),
            fvec_scale(Frac { n: 1, d: 2 }, spec_vertical()),
        ),
        FVec { x: 0, y: 0, z: 1, d: 1 },
    )
}

/// The lower-left corner in lowest terms, `(-16/9, -1, -1)`.
pub open spec fn spec_lower_left() -> FVec {
    FVec { x: -16, y: -9, z: -9, d: 9 }
}

/// The divisor of the vertical pixel coordinate: `height - 1`, except that
/// a single-row image uses 1, which sends its only row to `v = 0`.
pub open spec fn spec_hm(h: int) -> int {
    if h == 1 {
        1
    } else {
        h - 1
    }
}

/// The direction of the ray through pixel `(i, j)`:
/// `lower_left_corner + u*horizontal + v*vertical - origin` with
/// `u = i/(w-1)` and `v = j/(h-1)`.
pub open spec fn spec_pixel_dir(i: int, j: int, w: int, h: int) -> FVec {
    fvec_sub(
        fvec_add(
            fvec_add(
                spec_lower_left(),
                fvec_scale(Frac { n: i, d: w - 1 }, spec_horizontal()),
            ),
            fvec_scale(Frac { n: j, d: spec_hm(h) }, spec_vertical()),
        ),
        spec_origin(),
    )
}

/// The pixel direction built on the lowest-terms lower-left corner is,
/// as a rational vector, the same as the one built directly on the
/// derived corner `origin - horizontal/2 - vertical/2 - (0,0,focal)`.
pub proof fn lemma_pixel_dir_from_derivation(i: int, j: int, w: int, h: int)
    by (nonlinear_arith)
    requires
        2 <= w,
        1 <= h,
    ensures
        fvec_eq(
            spec_pixel_dir(i, j, w, h),
            fvec_sub(
                fvec_add(
                    fvec_add(
                        spec_lower_left_derived(),
                        fvec_scale(Frac { n: i, d: w - 1 }, spec_horizontal()),
                    ),
                    fvec_scale(Frac { n: j, d: spec_hm(h) }, spec_vertical()),
                ),
                spec_origin(),
            ),
        ),
{
}

/// The derived image height under the fixed 16:9 aspect ratio.
pub open spec fn spec_image_height(w: int) -> int {
    (w * 9) / 16
}

/// The image height that goes with a given width: `floor(w * 9 / 16)`.
pub fn image_height(w: u32) -> (h: u32)
    requires
        2 <= w <= 4096,
    ensures
        h == spec_image_height(w as int),
        1 <= h <= 2304,
{
    let h: u32 = (w * 9) / 16;
    proof {
        vstd::arithmetic::div_mod::lemma_div_is_ordered(18, w as int * 9, 16);
        vstd::arithmetic::div_mod::lemma_div_is_ordered(w as int * 9, 36864, 16);
    }
    h
}

/// The camera's viewing geometry.
#[derive(Clone, Copy, Debug)]
pub struct Camera {
    pub origin: Vec3,
    pub horizontal: Vec3,
    pub vertical: Vec3,
    pub lower_left_corner: Vec3,
}

impl Camera {
    /// The fields hold the fixed configuration's geometry, each in lowest
    /// terms.
    pub open spec fn wf(self) -> bool {
        &&& self.origin@ == spec_origin()
        &&& self.horizontal@ == spec_horizontal()
        &&& self.vertical@ == spec_vertical()
        &&& self.lower_left_corner@ == spec_lower_left()
    }

    /// Build the camera from the fixed configuration. The stored lower-left
    /// corner is the derived one, reduced to lowest terms.
    pub fn new() -> (c: Camera)
        ensures
            c.wf(),
            fvec_eq(c.lower_left_corner@, spec_lower_left_derived()),
    {
        let aspect = Rat::new(16, 9);
        let viewport_height = Rat::new(2, 1);
        let viewport_width = aspect.mul(&viewport_height);
        let origin = Vec3::new(0, 0, 0, 1);
        let horizontal = Vec3::new(viewport_width.num(), 0, 0, viewport_width.den());
        let vertical = Vec3::new(0, 2, 0, 1);
        let half = Rat::new(1, 2);
        let horz_half = horizontal.scale(&half);
        let vert_half = vertical.scale(&half);
        let focal_vec = Vec3::new(0, 0, 1, 1);
        let derived = origin.sub(&horz_half).sub(&vert_half).sub(&focal_vec);
        let lower_left_corner = Vec3::new(-16, -9, -9, 9);
        proof {
            assert(derived@ == spec_lower_left_derived());
            assert(fvec_eq(lower_left_corner@, derived@));
        }
        Camera { origin, horizontal, vertical, lower_left_corner }
    }

    /// The ray from the eye through pixel `(i, j)` of a `w` by `h` image.
    pub fn pixel_ray(&self, i: u32, j: u32, w: u32, h: u32) -> (r: Ray)
        requires
            self.wf(),
            2 <= w <= 4096,
            1 <= h <= 2304,
            i < w,
            j < h,
        ensures
            r.wf(),
            r.origin@ == spec_origin(),
            r.direction@ == spec_pixel_dir(i as int, j as int, w as int, h as int),
            point_ok(r.origin@),
            dir_ok(r.direction@),
            r.direction@.z < 0,
    {
        let wm: u32 = w - 1;
        let hm: u32 = if h == 1 {
            1
        } else {
            h - 1
        };
        let u = Rat::new(i as i128, wm as i128);
        let v = Rat::new(j as i128, hm as i128);
        let hh = self.horizontal.scale(&u);
        let vv = self.vertical.scale(&v);
        let d1 = self.lower_left_corner.add(&hh);
        proof {
            assert(d1@.x == -16 * (9 * (wm as int)) + (i as int * 32) * 9);
            assert(d1@.y == -81 * (wm as int));
            assert(d1@.z == -81 * (wm as int));
            assert(d1@.d == 81 * (wm as int));
            assert(-0x1_0000_0000 <= d1@.x * (hm as int) <= 0x1_0000_0000) by (nonlinear_arith)
                requires
                    -589680 <= d1@.x <= 589680,
                    1 <= hm <= 2303,
            ;
            assert(-0x4000_0000 <= d1@.y * (hm as int) < 0 && d1@.y * (hm as int) <= -81)
                by (nonlinear_arith)
                requires
                    d1@.y == -81 * (wm as int),
                    1 <= wm <= 4095,
                    1 <= hm <= 2303,
            ;
            assert(0 <= (j as int * 2) * (81 * (wm as int)) <= 0x1_0000_0000)
                by (nonlinear_arith)
                requires
                    0 <= j <= 2303,
                    1 <= wm <= 4095,
            ;
            assert(0 < d1@.d * (hm as int) <= 0x4000_0000) by (nonlinear_arith)
                requires
                    d1@.d == 81 * (wm as int),
                    1 <= wm <= 4095,
                    1 <= hm <= 2303,
            ;
        }
        let d2 = d1.add(&vv);
        let dir = d2.sub(&self.origin);
        let r = Ray::new(self.origin, dir);
        proof {
            assert(r.direction@ == spec_pixel_dir(i as int, j as int, w as int, h as int));
        }
        r
    }
}

} // verus!
