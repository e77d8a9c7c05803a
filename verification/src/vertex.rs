//! The packed vertex format that the mesher emits, and the texture-space
//! constants of the atlas.

use vstd::prelude::*;
use crate::light::{TotalLightLevel, spec_pack_light, pack_light};

verus! {

/// A position local to a chunk, in voxel units. Face corners may lie one unit
/// beyond the last voxel index, so a corner coordinate can reach the chunk
/// side length itself.
#[derive(Clone, Copy, Debug, PartialEq, Eq, Structural)]
pub struct Pos3 {
    pub x: u8,
    pub y: u8,
    pub z: u8,
}

/// A texture-space coordinate in normalized 16-bit fixed point: 0..65535 maps
/// to 0.0..1.0 of the atlas.
#[derive(Clone, Copy, Debug, PartialEq, Eq, Structural)]
pub struct Tex2 {
    pub x: u16,
    pub y: u16,
}

/// Side length of the texture atlas, in texels.
pub const TEXTURE_SIZE: u16 = 64;

/// Normalized fixed-point units per texel: 0x10000 / TEXTURE_SIZE.
pub const TEXTURE_NORMALIZER: u16 = 1024;

/// Side length of one atlas cell, in texels.
pub const TEXEL_SIZE: u16 = 16;

/// Normalized fixed-point units per atlas cell: TEXTURE_NORMALIZER * TEXEL_SIZE.
pub const TEXEL_NORMALIZER: u16 = 16384;

/// One vertex of the emitted mesh, 8 bytes on the wire: position and packed
/// light as four unsigned bytes, then a 2-component normalized 16-bit texture
/// coordinate.
#[derive(Clone, Copy, Debug, PartialEq, Eq, Structural)]
pub struct Vertex {
    /// Chunk-local x coordinate, in voxel units.
    pub x: u8,
    /// Chunk-local y coordinate, in voxel units.
    pub y: u8,
    /// Chunk-local z coordinate, in voxel units.
    pub z: u8,
    /// The face's light value, packed as two 4-bit sub-levels.
    pub light: u8,
    /// Texture-space u, normalized fixed point.
    pub u: u16,
    /// Texture-space v, normalized fixed point.
    pub v: u16,
}

/// The vertex built from a local position, a texture-space coordinate and a
/// face light value.
pub open spec fn spec_vnew(position: Pos3, texture: Tex2, light: TotalLightLevel) -> Vertex {
    Vertex {
        x: position.x,
        y: position.y,
        z: position.z,
        light: spec_pack_light(light),
        u: texture.x,
        v: texture.y,
    }
}

/// Builds one vertex: the position is kept as is, the light value is packed
/// into the fourth position byte, the texture coordinate is kept as is.
pub fn vnew(position: Pos3, texture: Tex2, light: TotalLightLevel) -> (vert: Vertex)
    ensures
        vert == spec_vnew(position, texture, light),
{
    Vertex {
        x: position.x,
        y: position.y,
        z: position.z,
        light: pack_light(light),
        u: texture.x,
        v: texture.y,
    }
}

} // verus!
