use vstd::prelude::*;

verus! {

// Vertex scalars are stored as the 32-bit patterns of IEEE-754 single
// precision values; the graphics layer interprets each word as one such value
// via its bit pattern, with no conversion. These are the patterns of the
// scalar values that the fixed shapes use.
/// The bit pattern of minus one half.
pub const BITS_NEG_HALF: u32 = 0xBF00_0000;

/// The bit pattern of one half.
pub const BITS_POS_HALF: u32 = 0x3F00_0000;

/// The bit pattern of zero.
pub const BITS_ZERO: u32 = 0x0000_0000;

/// The bit pattern of one.
pub const BITS_ONE: u32 = 0x3F80_0000;

/// The bit pattern of one hundred, the default texture-coordinate tiling
/// scale of the plane shape.
pub const BITS_HUNDRED: u32 = 0x42C8_0000;

} // verus!
