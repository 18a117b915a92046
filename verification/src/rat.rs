//! Executable exact rational scalars: an `i128` numerator over a positive
//! `i128` denominator. Results carry the exact, unreduced numerator and
//! denominator of the mathematical operation, so callers can track
//! magnitudes precisely.

use vstd::prelude::*;

use crate::frac::{frac_add, frac_eq, frac_mul, frac_sub, Frac};

verus! {

/// Magnitude cap on operands of the arithmetic methods, chosen so that the
/// cross products of two capped values always fit in an `i128`.
pub open spec fn rat_in_range(a: Frac) -> bool {
    &&& -0x1000_0000_0000_0000 <= a.n <= 0x1000_0000_0000_0000
    &&& 0 < a.d <= 0x1000_0000_0000_0000
}

/// An exact rational number; the denominator is kept strictly positive.
#[derive(Clone, Copy, Debug)]
pub struct Rat {
    pub n: i128,
    pub d: i128,
}

impl View for Rat {
    type V = Frac;

    open spec fn view(&self) -> Frac {
        Frac { n: self.n as int, d: self.d as int }
    }
}

impl Rat {
    pub open spec fn wf(self) -> bool {
        self.d > 0
    }

    pub fn new(n: i128, d: i128) -> (r: Rat)
        requires
            d > 0,
        ensures
            r.wf(),
            r@ == (Frac { n: n as int, d: d as int }),
    {
        Rat { n, d }
    }

    pub fn num(&self) -> (r: i128)
        ensures
            r == self@.n,
    {
        self.n
    }

    pub fn den(&self) -> (r: i128)
        ensures
            r == self@.d,
    {
        self.d
    }

    pub fn add(&self, o: &Rat) -> (r: Rat)
        requires
            self.wf(),
            o.wf(),
            rat_in_range(self@),
            rat_in_range(o@),
        ensures
            r.wf(),
            r@ == frac_add(self@, o@),
    {
        proof {
            assert(-0x2000_0000_0000_0000_0000_0000_0000_0000
                <= self.n * o.d + o.n * self.d <= 0x2000_0000_0000_0000_0000_0000_0000_0000
                && -0x1000_0000_0000_0000_0000_0000_0000_0000
                <= self.n * o.d <= 0x1000_0000_0000_0000_0000_0000_0000_0000
                && -0x1000_0000_0000_0000_0000_0000_0000_0000
                <= o.n * self.d <= 0x1000_0000_0000_0000_0000_0000_0000_0000
                && 0 < self.d * o.d <= 0x1000_0000_0000_0000_0000_0000_0000_0000)
                by (nonlinear_arith)
                requires
                    rat_in_range(self@),
                    rat_in_range(o@),
            ;
        }
        Rat { n: self.n * o.d + o.n * self.d, d: self.d * o.d }
    }

    pub fn sub(&self, o: &Rat) -> (r: Rat)
        requires
            self.wf(),
            o.wf(),
            rat_in_range(self@),
            rat_in_range(o@),
        ensures
            r.wf(),
            r@ == frac_sub(self@, o@),
    {
        proof {
            assert(-0x2000_0000_0000_0000_0000_0000_0000_0000
                <= self.n * o.d - o.n * self.d <= 0x2000_0000_0000_0000_0000_0000_0000_0000
                && -0x1000_0000_0000_0000_0000_0000_0000_0000
                <= self.n * o.d <= 0x1000_0000_0000_0000_0000_0000_0000_0000
                && -0x1000_0000_0000_0000_0000_0000_0000_0000
                <= o.n * self.d <= 0x1000_0000_0000_0000_0000_0000_0000_0000
                && 0 < self.d * o.d <= 0x1000_0000_0000_0000_0000_0000_0000_0000)
                by (nonlinear_arith)
                requires
                    rat_in_range(self@),
                    rat_in_range(o@),
            ;
        }
        Rat { n: self.n * o.d - o.n * self.d, d: self.d * o.d }
    }

    pub fn mul(&self, o: &Rat) -> (r: Rat)
        requires
            self.wf(),
            o.wf(),
            rat_in_range(self@),
            rat_in_range(o@),
        ensures
            r.wf(),
            r@ == frac_mul(self@, o@),
    {
        proof {
            assert(-0x1000_0000_0000_0000_0000_0000_0000_0000
                <= self.n * o.n <= 0x1000_0000_0000_0000_0000_0000_0000_0000
                && 0 < self.d * o.d <= 0x1000_0000_0000_0000_0000_0000_0000_0000)
                by (nonlinear_arith)
                requires
                    rat_in_range(self@),
                    rat_in_range(o@),
            ;
        }
        Rat { n: self.n * o.n, d: self.d * o.d }
    }

    /// Exact division: the value of the result is `self / o`. The result's
    /// denominator stays positive whatever the sign of `o`.
    pub fn div(&self, o: &Rat) -> (r: Rat)
        requires
            self.wf(),
            o.wf(),
            o@.n != 0,
            rat_in_range(self@),
            rat_in_range(o@),
        ensures
            r.wf(),
            frac_eq(r@, Frac { n: self@.n * o@.d, d: self@.d * o@.n }),
    {
        proof {
            assert(-0x1000_0000_0000_0000_0000_0000_0000_0000
                <= self.n * o.d <= 0x1000_0000_0000_0000_0000_0000_0000_0000
                && -0x1000_0000_0000_0000_0000_0000_0000_0000
                <= self.d * o.n <= 0x1000_0000_0000_0000_0000_0000_0000_0000
                && (o.n > 0 ==> self.d * o.n > 0)
                && (o.n < 0 ==> self.d * o.n < 0))
                by (nonlinear_arith)
                requires
                    rat_in_range(self@),
                    rat_in_range(o@),
            ;
        }
        let rn: i128 = self.n * o.d;
        let rd: i128 = self.d * o.n;
        let r = if rd < 0 {
            Rat { n: -rn, d: -rd }
        } else {
            Rat { n: rn, d: rd }
        };
        proof {
            assert(r@.n * (self@.d * o@.n) == (self@.n * o@.d) * r@.d) by (nonlinear_arith)
                requires
                    r@.n == -(self@.n * o@.d) && r@.d == -(self@.d * o@.n)
                    || r@.n == self@.n * o@.d && r@.d == self@.d * o@.n,
            ;
        }
        r
    }
}

} // verus!
