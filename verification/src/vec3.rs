//! Executable exact rational 3-vectors: three `i128` numerators over one
//! shared positive denominator. The same type serves as point, direction
//! and color, as the three are one triple with different roles.

use vstd::prelude::*;

use crate::frac::{
    frac_eq, fvec_add, fvec_dot, fvec_scale, fvec_sub, Frac, FVec,
};
use crate::rat::Rat;
use crate::sqrt::{isqrt, is_sqrt_floor, sqrt_floor};

verus! {

/// Magnitude cap on operands of the arithmetic methods, chosen so that the
/// cross products of two capped vectors always fit in an `i128`.
pub open spec fn vec_in_range(v: FVec) -> bool {
    &&& -0x1000_0000_0000_0000 <= v.x <= 0x1000_0000_0000_0000
    &&& -0x1000_0000_0000_0000 <= v.y <= 0x1000_0000_0000_0000
    &&& -0x1000_0000_0000_0000 <= v.z <= 0x1000_0000_0000_0000
    &&& 0 < v.d <= 0x1000_0000_0000_0000
}

/// Tighter cap under which the squared norm stays below `2^70`, the domain
/// of the integer square root.
pub open spec fn vec_norm_range(v: FVec) -> bool {
    &&& -0x1_0000_0000 <= v.x <= 0x1_0000_0000
    &&& -0x1_0000_0000 <= v.y <= 0x1_0000_0000
    &&& -0x1_0000_0000 <= v.z <= 0x1_0000_0000
    &&& 0 < v.d <= 0x1_0000_0000
}

/// The squared numerator sum `x*x + y*y + z*z` of a vector; the squared
/// Euclidean norm of the vector is this over `d*d`.
pub open spec fn norm_num_sq(v: FVec) -> int {
    v.x * v.x + v.y * v.y + v.z * v.z
}

/// An exact rational 3-vector; the denominator is kept strictly positive.
#[derive(Clone, Copy, Debug)]
pub struct Vec3 {
    pub x: i128,
    pub y: i128,
    pub z: i128,
    pub d: i128,
}

impl View for Vec3 {
    type V = FVec;

    open spec fn view(&self) -> FVec {
        FVec { x: self.x as int, y: self.y as int, z: self.z as int, d: self.d as int }
    }
}

impl Vec3 {
    pub open spec fn wf(self) -> bool {
        self.d > 0
    }

    pub fn new(x: i128, y: i128, z: i128, d: i128) -> (r: Vec3)
        requires
            d > 0,
        ensures
            r.wf(),
            r@ == (FVec { x: x as int, y: y as int, z: z as int, d: d as int }),
    {
        Vec3 { x, y, z, d }
    }

    pub fn add(&self, o: &Vec3) -> (r: Vec3)
        requires
            self.wf(),
            o.wf(),
            vec_in_range(self@),
            vec_in_range(o@),
        ensures
            r.wf(),
            r@ == fvec_add(self@, o@),
    {
        proof {
            assert(-0x2000_0000_0000_0000_0000_0000_0000_0000
                <= self.x * o.d + o.x * self.d <= 0x2000_0000_0000_0000_0000_0000_0000_0000
                && -0x2000_0000_0000_0000_0000_0000_0000_0000
                <= self.y * o.d + o.y * self.d <= 0x2000_0000_0000_0000_0000_0000_0000_0000
                && -0x2000_0000_0000_0000_0000_0000_0000_0000
                <= self.z * o.d + o.z * self.d <= 0x2000_0000_0000_0000_0000_0000_0000_0000
                && -0x1000_0000_0000_0000_0000_0000_0000_0000
                <= self.x * o.d <= 0x1000_0000_0000_0000_0000_0000_0000_0000
                && -0x1000_0000_0000_0000_0000_0000_0000_0000
                <= o.x * self.d <= 0x1000_0000_0000_0000_0000_0000_0000_0000
                && -0x1000_0000_0000_0000_0000_0000_0000_0000
                <= self.y * o.d <= 0x1000_0000_0000_0000_0000_0000_0000_0000
                && -0x1000_0000_0000_0000_0000_0000_0000_0000
                <= o.y * self.d <= 0x1000_0000_0000_0000_0000_0000_0000_0000
                && -0x1000_0000_0000_0000_0000_0000_0000_0000
                <= self.z * o.d <= 0x1000_0000_0000_0000_0000_0000_0000_0000
                && -0x1000_0000_0000_0000_0000_0000_0000_0000
                <= o.z * self.d <= 0x1000_0000_0000_0000_0000_0000_0000_0000
                && 0 < self.d * o.d <= 0x1000_0000_0000_0000_0000_0000_0000_0000)
                by (nonlinear_arith)
                requires
                    vec_in_range(self@),
                    vec_in_range(o@),
            ;
        }
        Vec3 {
            x: self.x * o.d + o.x * self.d,
            y: self.y * o.d + o.y * self.d,
            z: self.z * o.d + o.z * self.d,
            d: self.d * o.d,
        }
    }

    pub fn sub(&self, o: &Vec3) -> (r: Vec3)
        requires
            self.wf(),
            o.wf(),
            vec_in_range(self@),
            vec_in_range(o@),
        ensures
            r.wf(),
            r@ == fvec_sub(self@, o@),
    {
        proof {
            assert(-0x2000_0000_0000_0000_0000_0000_0000_0000
                <= self.x * o.d - o.x * self.d <= 0x2000_0000_0000_0000_0000_0000_0000_0000
                && -0x2000_0000_0000_0000_0000_0000_0000_0000
                <= self.y * o.d - o.y * self.d <= 0x2000_0000_0000_0000_0000_0000_0000_0000
                && -0x2000_0000_0000_0000_0000_0000_0000_0000
                <= self.z * o.d - o.z * self.d <= 0x2000_0000_0000_0000_0000_0000_0000_0000
                && -0x1000_0000_0000_0000_0000_0000_0000_0000
                <= self.x * o.d <= 0x1000_0000_0000_0000_0000_0000_0000_0000
                && -0x1000_0000_0000_0000_0000_0000_0000_0000
                <= o.x * self.d <= 0x1000_0000_0000_0000_0000_0000_0000_0000
                && -0x1000_0000_0000_0000_0000_0000_0000_0000
                <= self.y * o.d <= 0x1000_0000_0000_0000_0000_0000_0000_0000
                && -0x1000_0000_0000_0000_0000_0000_0000_0000
                <= o.y * self.d <= 0x1000_0000_0000_0000_0000_0000_0000_0000
                && -0x1000_0000_0000_0000_0000_0000_0000_0000
                <= self.z * o.d <= 0x1000_0000_0000_0000_0000_0000_0000_0000
                && -0x1000_0000_0000_0000_0000_0000_0000_0000
                <= o.z * self.d <= 0x1000_0000_0000_0000_0000_0000_0000_0000
                && 0 < self.d * o.d <= 0x1000_0000_0000_0000_0000_0000_0000_0000)
                by (nonlinear_arith)
                requires
                    vec_in_range(self@),
                    vec_in_range(o@),
            ;
        }
        Vec3 {
            x: self.x * o.d - o.x * self.d,
            y: self.y * o.d - o.y * self.d,
            z: self.z * o.d - o.z * self.d,
            d: self.d * o.d,
        }
    }

    /// Scalar multiplication: `q * self`.
    pub fn scale(&self, q: &Rat) -> (r: Vec3)
        requires
            self.wf(),
            q.wf(),
            vec_in_range(self@),
            crate::rat::rat_in_range(q@),
        ensures
            r.wf(),
            r@ == fvec_scale(q@, self@),
    {
        proof {
            assert(-0x1000_0000_0000_0000_0000_0000_0000_0000
                <= q.n * self.x <= 0x1000_0000_0000_0000_0000_0000_0000_0000
                && -0x1000_0000_0000_0000_0000_0000_0000_0000
                <= q.n * self.y <= 0x1000_0000_0000_0000_0000_0000_0000_0000
                && -0x1000_0000_0000_0000_0000_0000_0000_0000
                <= q.n * self.z <= 0x1000_0000_0000_0000_0000_0000_0000_0000
                && 0 < q.d * self.d <= 0x1000_0000_0000_0000_0000_0000_0000_0000)
                by (nonlinear_arith)
                requires
                    vec_in_range(self@),
                    crate::rat::rat_in_range(q@),
            ;
        }
        Vec3 { x: q.n * self.x, y: q.n * self.y, z: q.n * self.z, d: q.d * self.d }
    }

    /// Scalar division: `self / q`, for nonzero `q`.
    pub fn div_scalar(&self, q: &Rat) -> (r: Vec3)
        requires
            self.wf(),
            q.wf(),
            q@.n != 0,
            vec_in_range(self@),
            crate::rat::rat_in_range(q@),
        ensures
            r.wf(),
            frac_eq(r@.fx(), Frac { n: self@.x * q@.d, d: self@.d * q@.n }),
            frac_eq(r@.fy(), Frac { n: self@.y * q@.d, d: self@.d * q@.n }),
            frac_eq(r@.fz(), Frac { n: self@.z * q@.d, d: self@.d * q@.n }),
    {
        proof {
            assert(-0x1000_0000_0000_0000_0000_0000_0000_0000
                <= q.d * self.x <= 0x1000_0000_0000_0000_0000_0000_0000_0000
                && -0x1000_0000_0000_0000_0000_0000_0000_0000
                <= q.d * self.y <= 0x1000_0000_0000_0000_0000_0000_0000_0000
                && -0x1000_0000_0000_0000_0000_0000_0000_0000
                <= q.d * self.z <= 0x1000_0000_0000_0000_0000_0000_0000_0000
                && -0x1000_0000_0000_0000_0000_0000_0000_0000
                <= self.d * q.n <= 0x1000_0000_0000_0000_0000_0000_0000_0000
                && (q.n > 0 ==> self.d * q.n > 0)
                && (q.n < 0 ==> self.d * q.n < 0))
                by (nonlinear_arith)
                requires
                    vec_in_range(self@),
                    crate::rat::rat_in_range(q@),
            ;
        }
        let nx: i128 = q.d * self.x;
        let ny: i128 = q.d * self.y;
        let nz: i128 = q.d * self.z;
        let dd: i128 = self.d * q.n;
        let r = if dd < 0 {
            Vec3 { x: -nx, y: -ny, z: -nz, d: -dd }
        } else {
            Vec3 { x: nx, y: ny, z: nz, d: dd }
        };
        proof {
            assert(r@.x * (self@.d * q@.n) == (self@.x * q@.d) * r@.d
                && r@.y * (self@.d * q@.n) == (self@.y * q@.d) * r@.d
                && r@.z * (self@.d * q@.n) == (self@.z * q@.d) * r@.d)
                by (nonlinear_arith)
                requires
                    r@.x == -(q@.d * self@.x) && r@.y == -(q@.d * self@.y)
                        && r@.z == -(q@.d * self@.z) && r@.d == -(self@.d * q@.n)
                    || r@.x == q@.d * self@.x && r@.y == q@.d * self@.y
                        && r@.z == q@.d * self@.z && r@.d == self@.d * q@.n,
            ;
        }
        r
    }

    /// Dot product, as a single exact fraction.
    pub fn dot(&self, o: &Vec3) -> (r: Rat)
        requires
            self.wf(),
            o.wf(),
            vec_in_range(self@),
            vec_in_range(o@),
        ensures
            r.wf(),
            r@ == fvec_dot(self@, o@),
    {
        proof {
            assert(-0x3000_0000_0000_0000_0000_0000_0000_0000
                <= self.x * o.x + self.y * o.y + self.z * o.z
                    <= 0x3000_0000_0000_0000_0000_0000_0000_0000
                && -0x1000_0000_0000_0000_0000_0000_0000_0000
                <= self.x * o.x <= 0x1000_0000_0000_0000_0000_0000_0000_0000
                && -0x1000_0000_0000_0000_0000_0000_0000_0000
                <= self.y * o.y <= 0x1000_0000_0000_0000_0000_0000_0000_0000
                && -0x1000_0000_0000_0000_0000_0000_0000_0000
                <= self.z * o.z <= 0x1000_0000_0000_0000_0000_0000_0000_0000
                && 0 < self.d * o.d <= 0x1000_0000_0000_0000_0000_0000_0000_0000)
                by (nonlinear_arith)
                requires
                    vec_in_range(self@),
                    vec_in_range(o@),
            ;
        }
        Rat { n: self.x * o.x + self.y * o.y + self.z * o.z, d: self.d * o.d }
    }

    /// The squared Euclidean norm, exact.
    pub fn length_sq(&self) -> (r: Rat)
        requires
            self.wf(),
            vec_in_range(self@),
        ensures
            r.wf(),
            r@ == fvec_dot(self@, self@),
    {
        self.dot(self)
    }

    /// The Euclidean norm, rounded down at the granularity of the vector's
    /// own denominator: the result is `sqrt_floor(x*x + y*y + z*z) / d`.
    pub fn norm_floor(&self) -> (r: Rat)
        requires
            self.wf(),
            vec_norm_range(self@),
        ensures
            r.wf(),
            r@ == (Frac { n: sqrt_floor(norm_num_sq(self@)), d: self@.d }),
            is_sqrt_floor(norm_num_sq(self@), r@.n),
    {
        proof {
            assert(0 <= self.x * self.x + self.y * self.y + self.z * self.z
                < 0x40_0000_0000_0000_0000
                && 0 <= self.x * self.x && 0 <= self.y * self.y && 0 <= self.z * self.z
                && self.x * self.x <= 0x1_0000_0000_0000_0000
                && self.y * self.y <= 0x1_0000_0000_0000_0000
                && self.z * self.z <= 0x1_0000_0000_0000_0000)
                by (nonlinear_arith)
                requires
                    vec_norm_range(self@),
            ;
        }
        let q: i128 = self.x * self.x + self.y * self.y + self.z * self.z;
        let s: u128 = isqrt(q as u128);
        Rat { n: s as i128, d: self.d }
    }
}

} // verus!
