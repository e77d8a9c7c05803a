//! Per-face shading for the flat-colored vertex mode: an RGBA color and the
//! fixed per-face darkening that stands in for directional light there.

use vstd::prelude::*;

verus! {

/// An RGBA color with 8-bit channels.
#[derive(Clone, Copy, Debug, PartialEq, Eq, Structural)]
pub struct Color {
    pub r: u8,
    pub g: u8,
    pub b: u8,
    pub a: u8,
}

/// A channel darkened by `amount`, saturating at zero.
pub open spec fn spec_darken_channel(channel: u8, amount: u8) -> u8 {
    if amount <= channel {
        (channel - amount) as u8
    } else {
        0
    }
}

/// Darkens each color channel by the fixed per-face amount, saturating at
/// zero; the alpha channel is left unchanged.
pub fn darken(color: &mut Color, amount: u8)
    ensures
        final(color).r == spec_darken_channel(old(color).r, amount),
        final(color).g == spec_darken_channel(old(color).g, amount),
        final(color).b == spec_darken_channel(old(color).b, amount),
        final(color).a == old(color).a,
{
    color.r = if amount <= color.r {
        color.r - amount
    } else {
        0
    };
    color.g = if amount <= color.g {
        color.g - amount
    } else {
        0
    };
    color.b = if amount <= color.b {
        color.b - amount
    } else {
        0
    };
}

} // verus!
