//! Rays: an origin point and a direction vector, with the parametric
//! evaluation `at(t) = origin + t * direction`.

use vstd::prelude::*;

use crate::frac::{fvec_add, fvec_scale, Frac, FVec};
use crate::rat::Rat;
use crate::vec3::Vec3;

verus! {

/// Cap under which `at` can scale and add without leaving the range of the
/// vector arithmetic.
pub open spec fn vec_at_range(v: FVec) -> bool {
    &&& -0x1000_0000 <= v.x <= 0x1000_0000
    &&& -0x1000_0000 <= v.y <= 0x1000_0000
    &&& -0x1000_0000 <= v.z <= 0x1000_0000
    &&& 0 < v.d <= 0x1000_0000
}

pub open spec fn rat_at_range(a: Frac) -> bool {
    &&& -0x1000_0000 <= a.n <= 0x1000_0000
    &&& 0 < a.d <= 0x1000_0000
}

/// A ray through `origin` with direction `direction`. Rays are immutable
/// values; both fields are read through plain accessors.
#[derive(Clone, Copy, Debug)]
pub struct Ray {
    pub origin: Vec3,
    pub direction: Vec3,
}

impl Ray {
    pub open spec fn wf(self) -> bool {
        self.origin.wf() && self.direction.wf()
    }

    pub fn new(origin: Vec3, direction: Vec3) -> (r: Ray)
        ensures
            r.origin == origin,
            r.direction == direction,
    {
        Ray { origin, direction }
    }

    pub fn origin(&self) -> (r: Vec3)
        ensures
            r == self.origin,
    {
        self.origin
    }

    pub fn direction(&self) -> (r: Vec3)
        ensures
            r == self.direction,
    {
        self.direction
    }

    /// The point `origin + t * direction`.
    pub fn at(&self, t: &Rat) -> (r: Vec3)
        requires
            self.wf(),
            t.wf(),
            vec_at_range(self.origin@),
            vec_at_range(self.direction@),
            rat_at_range(t@),
        ensures
            r.wf(),
            r@ == fvec_add(self.origin@, fvec_scale(t@, self.direction@)),
    {
        proof {
            assert(-0x1000_0000_0000_0000 <= t@.n * self.direction@.x <= 0x1000_0000_0000_0000
                && -0x1000_0000_0000_0000 <= t@.n * self.direction@.y <= 0x1000_0000_0000_0000
                && -0x1000_0000_0000_0000 <= t@.n * self.direction@.z <= 0x1000_0000_0000_0000
                && 0 < t@.d * self.direction@.d <= 0x1000_0000_0000_0000)
                by (nonlinear_arith)
                requires
                    vec_at_range(self.direction@),
                    rat_at_range(t@),
            ;
        }
        let scaled = self.direction.scale(t);
        self.origin.add(&scaled)
    }
}

} // verus!
