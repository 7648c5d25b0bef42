//! The exact core of a small real-time scene: a lit sphere with a ring of
//! billboarded glyphs orbiting it. The library holds what can be stated
//! exactly (the sphere's grid and triangle list, the quad, the letters' layout
//! and orbit parameters, the per-frame draw protocol, and how GPU reports turn
//! into errors); trigonometry and the GPU calls are left to the host program.
use vstd::prelude::*;

pub mod geometry;
pub mod gpu;
pub mod render;
pub mod scene;

verus! {

} // verus!
