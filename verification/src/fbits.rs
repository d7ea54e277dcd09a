//! Ordering of IEEE-754 single-precision values, carried out on their raw bit
//! patterns.
//!
//! The pose record stores every sensor value as the raw 32-bit pattern of the
//! IEEE-754 single-precision float that the glove firmware sent. Gesture
//! classification only ever needs to compare an Euler angle against two fixed
//! thresholds, and that comparison is defined here directly on bit patterns,
//! so it can be specified and verified as plain integer logic.
//!
//! For two patterns that encode non-NaN values, `f32_bits_le` agrees exactly
//! with the IEEE-754 `<=` on the encoded values: the encoding is
//! sign-magnitude, so same-sign values order by magnitude bits (reversed for
//! negatives), and the two zero patterns are equal. A comparison involving a
//! NaN pattern is false, as IEEE-754 prescribes.

use vstd::prelude::*;

verus! {

/// Bit pattern of the largest Euler Y-angle (radians) that still counts as
/// straight: +60/180 of a turn, i.e. the 32-bit float nearest to +pi/3,
/// computed as the float product of 60.0/180.0 and pi exactly as the firmware
/// side does.
pub const FINGER_BENDING_MAX_THRESHOLD_BITS: u32 = 0x3F86_0A92;

/// Bit pattern of the smallest Euler Y-angle (radians) that still counts as
/// straight: the negation of [`FINGER_BENDING_MAX_THRESHOLD_BITS`], i.e. the
/// 32-bit float nearest to -pi/3.
pub const FINGER_BENDING_MIN_THRESHOLD_BITS: u32 = 0xBF86_0A92;

/// Holds exactly of the bit patterns that IEEE-754 single precision reserves
/// for NaN: maximal exponent together with a non-zero significand.
pub open spec fn f32_bits_is_nan(a: u32) -> bool {
    a & 0x7F80_0000 == 0x7F80_0000 && a & 0x007F_FFFF != 0
}

/// IEEE-754 `<=` on single-precision bit patterns: false whenever either side
/// is NaN; the two zeros (0x0000_0000 and 0x8000_0000) compare equal; other
/// values order by sign, then by magnitude bits (descending for negatives).
pub open spec fn f32_bits_le(a: u32, b: u32) -> bool {
    if f32_bits_is_nan(a) || f32_bits_is_nan(b) {
        false
    } else {
        let ma: u32 = a & 0x7FFF_FFFF;
        let mb: u32 = b & 0x7FFF_FFFF;
        if ma == 0 && mb == 0 {
            true
        } else if (a >> 31) != (b >> 31) {
            (a >> 31) == 1
        } else if (a >> 31) == 0 {
            ma <= mb
        } else {
            mb <= ma
        }
    }
}

/// Executable form of [`f32_bits_le`].
pub fn f32_le(a: u32, b: u32) -> (r: bool)
    ensures
        r == f32_bits_le(a, b),
{
    let nan_a: bool = (a & 0x7F80_0000) == 0x7F80_0000 && (a & 0x007F_FFFF) != 0;
    let nan_b: bool = (b & 0x7F80_0000) == 0x7F80_0000 && (b & 0x007F_FFFF) != 0;
    if nan_a || nan_b {
        false
    } else {
        let ma: u32 = a & 0x7FFF_FFFF;
        let mb: u32 = b & 0x7FFF_FFFF;
        if ma == 0 && mb == 0 {
            true
        } else if (a >> 31) != (b >> 31) {
            (a >> 31) == 1
        } else if (a >> 31) == 0 {
            ma <= mb
        } else {
            mb <= ma
        }
    }
}

/// An angle (given as a bit pattern) lies in the closed straight-finger band
/// [-pi/3, +pi/3]. A NaN angle lies outside the band, since both comparisons
/// are false for it.
pub open spec fn spec_within_bend_range(y: u32) -> bool {
    f32_bits_le(FINGER_BENDING_MIN_THRESHOLD_BITS, y) && f32_bits_le(
        y,
        FINGER_BENDING_MAX_THRESHOLD_BITS,
    )
}

/// Executable form of [`spec_within_bend_range`].
pub fn within_bend_range(y: u32) -> (r: bool)
    ensures
        r == spec_within_bend_range(y),
{
    f32_le(FINGER_BENDING_MIN_THRESHOLD_BITS, y) && f32_le(y, FINGER_BENDING_MAX_THRESHOLD_BITS)
}

/// The straight-finger band is closed: an Euler Y-angle whose pattern encodes
/// exactly +pi/3 or exactly -pi/3 still lies inside the band (so the part is
/// not classified as bent), while the very next representable float beyond
/// either end lies outside it.
pub proof fn lemma_bend_threshold_boundary()
    ensures
        spec_within_bend_range(FINGER_BENDING_MAX_THRESHOLD_BITS),
        spec_within_bend_range(FINGER_BENDING_MIN_THRESHOLD_BITS),
        !spec_within_bend_range(0x3F86_0A93),
        !spec_within_bend_range(0xBF86_0A93),
{
    assert(spec_within_bend_range(0x3F86_0A92) && spec_within_bend_range(0xBF86_0A92)
        && !spec_within_bend_range(0x3F86_0A93) && !spec_within_bend_range(0xBF86_0A93))
        by (bit_vector);
}

} // verus!
