//! Plain values shared by the platform layer and the renderers.

use vstd::prelude::*;

verus! {

/// Address of a foreign object (a COM interface, a window, a function).
pub type Handle = usize;

/// A rectangle in pixels, given by its edges.
#[derive(Debug, Clone, Copy, PartialEq, Eq, Structural)]
pub struct Rect {
    pub left: i32,
    pub top: i32,
    pub right: i32,
    pub bottom: i32,
}

/// A viewport.  Each field holds the bit pattern of a 32-bit float.
#[derive(Debug, Clone, Copy, PartialEq, Eq, Structural)]
pub struct Viewport {
    pub top_left_x: u32,
    pub top_left_y: u32,
    pub width: u32,
    pub height: u32,
    pub min_depth: u32,
    pub max_depth: u32,
}

/// Bit pattern of the float 0.0.
pub const FLOAT_ZERO: u32 = 0x0000_0000;

/// Bit pattern of the float 1.0.
pub const FLOAT_ONE: u32 = 0x3F80_0000;

/// The float with this bit pattern compares less than or equal to zero: it is
/// zero of either sign, or negative and not a NaN.
pub open spec fn float_is_non_positive(bits: u32) -> bool {
    bits == 0 || (0x8000_0000 <= bits && bits <= 0xFF80_0000)
}

/// Whether the float with this bit pattern compares less than or equal to
/// zero.
pub fn is_non_positive(bits: u32) -> (r: bool)
    ensures
        r == float_is_non_positive(bits),
{
    bits == 0 || (bits >= 0x8000_0000 && bits <= 0xFF80_0000)
}

} // verus!
