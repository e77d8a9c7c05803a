//! Per-face light values and their packed one-byte form.

use vstd::prelude::*;

verus! {

/// A single light sub-level (for example sky light or block light).
///
/// Semantically a 4-bit quantity; values above 15 are truncated to their low
/// four bits when packed, never clamped or rejected.
#[derive(Clone, Copy, Debug, PartialEq, Eq, Structural)]
pub struct LightLevel(pub u8);

/// The full light value of one voxel face: a pair of independent sub-levels.
#[derive(Clone, Copy, Debug, PartialEq, Eq, Structural)]
pub struct TotalLightLevel(pub LightLevel, pub LightLevel);

/// The packed one-byte form of a face light value: the first sub-level in the
/// high nibble, the second in the low nibble, each truncated to 4 bits.
pub open spec fn spec_pack_light(l: TotalLightLevel) -> u8 {
    ((l.0.0 & 0xf) << 4) | (l.1.0 & 0xf)
}

/// The pair of sub-levels encoded by a packed light byte.
pub open spec fn spec_unpack_light(b: u8) -> TotalLightLevel {
    TotalLightLevel(LightLevel(b >> 4), LightLevel(b & 0xf))
}

/// Packs a face light value into one byte, first sub-level high.
pub fn pack_light(l: TotalLightLevel) -> (b: u8)
    ensures
        b == spec_pack_light(l),
{
    ((l.0.0 & 0xf) << 4) | (l.1.0 & 0xf)
}

/// Recovers the two sub-levels from a packed light byte.
pub fn unpack_light(b: u8) -> (l: TotalLightLevel)
    ensures
        l == spec_unpack_light(b),
{
    TotalLightLevel(LightLevel(b >> 4), LightLevel(b & 0xf))
}

/// Packing keeps exactly the low four bits of each sub-level: the high nibble
/// of the packed byte is the first sub-level truncated to 4 bits, the low
/// nibble the second.
pub proof fn lemma_pack_light_nibbles(l: TotalLightLevel)
    ensures
        spec_pack_light(l) >> 4 == l.0.0 & 0xf,
        spec_pack_light(l) & 0xf == l.1.0 & 0xf,
{
    let a = l.0.0;
    let b = l.1.0;
    assert((((a & 0xf) << 4) | (b & 0xf)) >> 4 == a & 0xf) by (bit_vector);
    assert(((((a & 0xf) << 4) | (b & 0xf)) & 0xf) == b & 0xf) by (bit_vector);
}

/// Round trip: a light value whose sub-levels are in 4-bit range survives
/// packing and unpacking unchanged.
pub proof fn lemma_light_round_trip(l: TotalLightLevel)
    requires
        l.0.0 <= 15,
        l.1.0 <= 15,
    ensures
        spec_unpack_light(spec_pack_light(l)) == l,
{
    let a = l.0.0;
    let b = l.1.0;
    lemma_pack_light_nibbles(l);
    assert(a <= 15 ==> a & 0xf == a) by (bit_vector);
    assert(b <= 15 ==> b & 0xf == b) by (bit_vector);
}

} // verus!
