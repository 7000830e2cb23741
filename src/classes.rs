//! Shapes attached to comment threads.
use vstd::prelude::*;

verus! {

/// A box; each field is the bit pattern of a single-precision number.
#[derive(Debug, Default, Clone, Copy, PartialEq, Eq)]
pub struct BoundingBox {
    pub x: u32,
    pub y: u32,
    pub w: u32,
    pub h: u32,
}

} // verus!
