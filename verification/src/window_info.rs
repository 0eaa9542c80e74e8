//! Physical (pixel) coordinates and sizes of a window.
//!
//! The logical, scaled counterparts hold floating point values and live
//! outside the verified library.

use vstd::prelude::*;

verus! {

/// A point in physical pixels.
#[derive(Debug, Copy, Clone, PartialEq, Eq, Structural)]
pub struct PhyPoint {
    pub x: i32,
    pub y: i32,
}

impl PhyPoint {
    pub fn new(x: i32, y: i32) -> (p: Self)
        ensures
            p.x == x,
            p.y == y,
    {
        Self { x, y }
    }
}

/// A size in physical pixels.
#[derive(Debug, Copy, Clone, PartialEq, Eq, Structural)]
pub struct PhySize {
    pub width: u32,
    pub height: u32,
}

impl PhySize {
    pub fn new(width: u32, height: u32) -> (s: Self)
        ensures
            s.width == width,
            s.height == height,
    {
        Self { width, height }
    }
}

} // verus!
