//! The mathematical model: exact rational numbers as pairs of integers,
//! and rational 3-vectors as three numerators over one shared denominator.
//! All contracts of the executable kernel are stated over these.

use vstd::prelude::*;

verus! {

/// A rational number `n / d`. Well-formed values keep `d > 0`; fractions
/// are not reduced, so equality is cross-multiplication, not field equality.
pub ghost struct Frac {
    pub n: int,
    pub d: int,
}

/// A rational 3-vector `(x, y, z) / d` with one shared denominator.
pub ghost struct FVec {
    pub x: int,
    pub y: int,
    pub z: int,
    pub d: int,
}

impl Frac {
    pub open spec fn wf(self) -> bool {
        self.d > 0
    }
}

impl FVec {
    pub open spec fn wf(self) -> bool {
        self.d > 0
    }

    /// The x component as a rational.
    pub open spec fn fx(self) -> Frac {
        Frac { n: self.x, d: self.d }
    }

    pub open spec fn fy(self) -> Frac {
        Frac { n: self.y, d: self.d }
    }

    pub open spec fn fz(self) -> Frac {
        Frac { n: self.z, d: self.d }
    }
}

/// `a == b` as rational values: a.n/a.d == b.n/b.d by cross-multiplication.
pub open spec fn frac_eq(a: Frac, b: Frac) -> bool {
    a.n * b.d == b.n * a.d
}

/// `a < b` as rational values; meaningful when both are well-formed.
pub open spec fn frac_lt(a: Frac, b: Frac) -> bool {
    a.n * b.d < b.n * a.d
}

/// The rational is strictly positive. Stated sign-robustly so that it does
/// not depend on the sign convention of the denominator.
pub open spec fn frac_pos(a: Frac) -> bool {
    a.n * a.d > 0
}

pub open spec fn frac_add(a: Frac, b: Frac) -> Frac {
    Frac { n: a.n * b.d + b.n * a.d, d: a.d * b.d }
}

pub open spec fn frac_sub(a: Frac, b: Frac) -> Frac {
    Frac { n: a.n * b.d - b.n * a.d, d: a.d * b.d }
}

pub open spec fn frac_mul(a: Frac, b: Frac) -> Frac {
    Frac { n: a.n * b.n, d: a.d * b.d }
}

/// Componentwise vector equality as rational values.
pub open spec fn fvec_eq(a: FVec, b: FVec) -> bool {
    frac_eq(a.fx(), b.fx()) && frac_eq(a.fy(), b.fy()) && frac_eq(a.fz(), b.fz())
}

/// Vector addition over the common denominators.
pub open spec fn fvec_add(a: FVec, b: FVec) -> FVec {
    FVec {
        x: a.x * b.d + b.x * a.d,
        y: a.y * b.d + b.y * a.d,
        z: a.z * b.d + b.z * a.d,
        d: a.d * b.d,
    }
}

pub open spec fn fvec_sub(a: FVec, b: FVec) -> FVec {
    FVec {
        x: a.x * b.d - b.x * a.d,
        y: a.y * b.d - b.y * a.d,
        z: a.z * b.d - b.z * a.d,
        d: a.d * b.d,
    }
}

/// Scaling a vector by a rational scalar.
pub open spec fn fvec_scale(q: Frac, v: FVec) -> FVec {
    FVec { x: q.n * v.x, y: q.n * v.y, z: q.n * v.z, d: q.d * v.d }
}

/// Dot product of two vectors; a single fraction, no denominator blow-up.
pub open spec fn fvec_dot(a: FVec, b: FVec) -> Frac {
    Frac { n: a.x * b.x + a.y * b.y + a.z * b.z, d: a.d * b.d }
}

} // verus!
