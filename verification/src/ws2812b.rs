//! Color encoding for the LED strip.
//!
//! The strip's shift register wants the green byte first: a 24-bit RGB
//! color is rearranged to GRB, left-aligned in the 32-bit word the strip
//! driver shifts out. Driving the strip, and its inter-frame gap, lives
//! outside the library.

use vstd::prelude::*;

verus! {

/// The GRB word the strip driver shifts out for a 24-bit RGB color.
pub open spec fn spec_grb_of(rgb: u32) -> u32 {
    (rgb & 0xff0000) | ((rgb & 0x00ff00) << 16) | ((rgb & 0x0000ff) << 8)
}

pub fn grb_of(rgb: u32) -> (r: u32)
    ensures r == spec_grb_of(rgb),
{
    (rgb & 0xff0000) | ((rgb & 0x00ff00) << 16) | ((rgb & 0x0000ff) << 8)
}

} // verus!
