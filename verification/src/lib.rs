//! A ray-casting renderer for a fixed scene: one sphere in front of a
//! pinhole camera, against a vertical sky gradient, emitted as a plain-text
//! pixel image.
//!
//! All geometry is carried out in exact rational arithmetic. Each rational
//! is an integer numerator over a positive integer denominator; a vector
//! holds three numerators over one shared denominator. The only inexact
//! step, the Euclidean norm used by the sky gradient, is an integer square
//! root with a proved floor characterization.
//!
//! Three boundary choices are made explicitly: a ray exactly tangent to a
//! sphere counts as a miss (the discriminant test is strictly positive);
//! color channels are clamped to `[0, 1]` before the output scaling, so
//! every emitted value lies in `0 ..= 255`; and a single-row image, whose
//! vertical coordinate would otherwise divide by zero, maps its only row
//! to `v = 0`.

use vstd::prelude::*;

verus! {

pub mod camera;

pub mod frac;

pub mod rat;

pub mod ray;

pub mod render;

pub mod shade;

pub mod sphere;

pub mod sqrt;

pub mod vec3;

} // verus!
