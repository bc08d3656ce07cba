//! A plain value describing a screen region, assigned top-down by parents to
//! children.

use vstd::prelude::*;

verus! {

/// A rectangular screen region: origin (`left`, `top`) plus `width` and
/// `height`, all in terminal cells.
#[derive(Debug, Clone, Copy, PartialEq, Eq, Structural)]
pub struct BoundingBox {
    pub left: u16,
    pub top: u16,
    pub width: u16,
    pub height: u16,
}

impl BoundingBox {
    pub fn new(left: u16, top: u16, width: u16, height: u16) -> (r: Self)
        ensures
            r == (BoundingBox { left, top, width, height }),
    {
        Self { left, top, width, height }
    }
}

impl Default for BoundingBox {
    fn default() -> (r: Self)
        ensures
            r == (BoundingBox { left: 0u16, top: 0u16, width: 0u16, height: 0u16 }),
    {
        Self { left: 0, top: 0, width: 0, height: 0 }
    }
}

} // verus!
