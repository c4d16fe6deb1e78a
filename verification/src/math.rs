//! Plain geometric values passed between the host and the engine.
//!
//! Positions and sizes are whole layout units: offsets may be negative,
//! extents never are.

use vstd::prelude::*;

verus! {

/// A point or offset in layout units.
#[derive(Debug, Clone, Copy, PartialEq, Eq)]
pub struct Vector2 {
    pub x: i32,
    pub y: i32,
}

impl Vector2 {
    pub fn new(x: i32, y: i32) -> (v: Vector2)
        ensures
            v == (Vector2 { x, y }),
    {
        Vector2 { x, y }
    }

    pub open spec fn spec_default() -> Vector2 {
        Vector2 { x: 0, y: 0 }
    }
}

impl Default for Vector2 {
    /// The origin, matching a zeroed engine vector.
    fn default() -> (v: Vector2)
        ensures
            v == Vector2::spec_default(),
    {
        Vector2 { x: 0, y: 0 }
    }
}

/// A width and height in layout units.
#[derive(Debug, Clone, Copy, PartialEq, Eq)]
pub struct Dimensions {
    pub width: u32,
    pub height: u32,
}

impl Dimensions {
    pub fn new(width: u32, height: u32) -> (d: Dimensions)
        ensures
            d == (Dimensions { width, height }),
    {
        Dimensions { width, height }
    }

    pub open spec fn spec_default() -> Dimensions {
        Dimensions { width: 0, height: 0 }
    }
}

impl Default for Dimensions {
    /// Zero extent, matching a zeroed engine dimension pair.
    fn default() -> (d: Dimensions)
        ensures
            d == Dimensions::spec_default(),
    {
        Dimensions { width: 0, height: 0 }
    }
}

/// The rectangle an element occupies after a layout pass.
#[derive(Debug, Clone, Copy, PartialEq, Eq)]
pub struct BoundingBox {
    pub x: i32,
    pub y: i32,
    pub width: u32,
    pub height: u32,
}

impl BoundingBox {
    pub fn new(x: i32, y: i32, width: u32, height: u32) -> (b: BoundingBox)
        ensures
            b == (BoundingBox { x, y, width, height }),
    {
        BoundingBox { x, y, width, height }
    }

    pub open spec fn spec_default() -> BoundingBox {
        BoundingBox { x: 0, y: 0, width: 0, height: 0 }
    }
}

impl Default for BoundingBox {
    /// An empty box at the origin.
    fn default() -> (b: BoundingBox)
        ensures
            b == BoundingBox::spec_default(),
    {
        BoundingBox { x: 0, y: 0, width: 0, height: 0 }
    }
}

} // verus!
