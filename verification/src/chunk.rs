//! Chunks: fixed-size cubic grids of voxels with a world-space origin.

use vstd::prelude::*;
use vstd::arithmetic::div_mod::{lemma_div_denominator, lemma_fundamental_div_mod, lemma_mod_bound};
use crate::face::Face;
use crate::light::{LightLevel, TotalLightLevel};
use crate::vertex::Pos3;

verus! {

/// Side length of a chunk, in voxels.
pub const CHUNK_SIDE: usize = 16;

/// Number of voxels in a chunk: CHUNK_SIDE cubed.
pub const CHUNK_VOLUME: usize = 4096;

/// The block identifier that marks a voxel as empty.
pub const EMPTY_BLOCK_ID: u16 = 0;

/// The precomputed metadata of one voxel face: whether the face is exposed
/// (not occluded by a neighboring solid voxel) and the light falling on it.
#[derive(Clone, Copy, Debug, PartialEq, Eq, Structural)]
pub struct FaceData {
    pub visible: bool,
    pub light: TotalLightLevel,
}

/// One voxel: a block identifier and the precomputed per-face metadata. The
/// mesher only reads voxels; visibility and lighting are computed upstream.
#[derive(Clone, Copy, Debug, PartialEq, Eq, Structural)]
pub struct Voxel {
    pub id: u16,
    pub bottom: FaceData,
    pub top: FaceData,
    pub left: FaceData,
    pub right: FaceData,
    pub front: FaceData,
    pub back: FaceData,
}

impl Voxel {
    /// The metadata of the given face.
    pub open spec fn spec_face_data(self, f: Face) -> FaceData {
        match f {
            Face::Bottom => self.bottom,
            Face::Top => self.top,
            Face::Left => self.left,
            Face::Right => self.right,
            Face::Front => self.front,
            Face::Back => self.back,
        }
    }

    /// Whether the voxel is empty: it carries the reserved empty identifier.
    pub open spec fn spec_is_empty(self) -> bool {
        self.id == EMPTY_BLOCK_ID
    }

    /// An empty voxel with no visible face and no light.
    pub fn empty() -> (v: Voxel)
        ensures
            v.spec_is_empty(),
            forall|f: Face| !(#[trigger] v.spec_face_data(f)).visible,
    {
        let dark = FaceData { visible: false, light: TotalLightLevel(LightLevel(0), LightLevel(0)) };
        Voxel {
            id: EMPTY_BLOCK_ID,
            bottom: dark,
            top: dark,
            left: dark,
            right: dark,
            front: dark,
            back: dark,
        }
    }

    /// Whether the voxel is empty.
    pub fn is_empty(&self) -> (b: bool)
        ensures
            b == self.spec_is_empty(),
    {
        self.id == EMPTY_BLOCK_ID
    }

    /// Whether the given face of the voxel is visible.
    pub fn is_visible(&self, face: Face) -> (b: bool)
        ensures
            b == self.spec_face_data(face).visible,
    {
        match face {
            Face::Bottom => self.bottom.visible,
            Face::Top => self.top.visible,
            Face::Left => self.left.visible,
            Face::Right => self.right.visible,
            Face::Front => self.front.visible,
            Face::Back => self.back.visible,
        }
    }

    /// The light value of the given face of the voxel.
    pub fn face_light(&self, face: Face) -> (l: TotalLightLevel)
        ensures
            l == self.spec_face_data(face).light,
    {
        match face {
            Face::Bottom => self.bottom.light,
            Face::Top => self.top.light,
            Face::Left => self.left.light,
            Face::Right => self.right.light,
            Face::Front => self.front.light,
            Face::Back => self.back.light,
        }
    }
}

/// An integer world-space position: the corner a chunk is anchored at.
#[derive(Clone, Copy, Debug, PartialEq, Eq, Structural)]
pub struct WorldPos {
    pub x: i32,
    pub y: i32,
    pub z: i32,
}

/// The linear storage index of a chunk-local position: x-major, then y,
/// then z.
pub open spec fn spec_linear_index(loc: Pos3) -> int {
    loc.x * 256 + loc.y * 16 + loc.z
}

/// The chunk-local position stored at a linear index.
pub open spec fn spec_loc_of_index(i: int) -> Pos3 {
    Pos3 { x: (i / 256) as u8, y: ((i / 16) % 16) as u8, z: (i % 16) as u8 }
}

/// A position is in bounds when each coordinate addresses a voxel, not a
/// corner.
pub open spec fn loc_in_bounds(loc: Pos3) -> bool {
    loc.x < 16 && loc.y < 16 && loc.z < 16
}

/// Linear indexing and position decoding are mutually inverse over the chunk
/// volume.
pub proof fn lemma_loc_index_roundtrip(i: int)
    requires
        0 <= i < CHUNK_VOLUME,
    ensures
        loc_in_bounds(spec_loc_of_index(i)),
        spec_linear_index(spec_loc_of_index(i)) == i,
{
    lemma_fundamental_div_mod(i, 16);
    lemma_mod_bound(i, 16);
    let q = i / 16;
    lemma_fundamental_div_mod(q, 16);
    lemma_mod_bound(q, 16);
    lemma_div_denominator(i, 16, 16);
}

/// A chunk: a cube of voxels with a fixed side length, anchored at an
/// integer world-space origin. The mesher reads it as an immutable snapshot.
pub struct Chunk {
    pub voxels: Vec<Voxel>,
    pub origin: WorldPos,
}

impl Chunk {
    /// The storage holds exactly one voxel per grid cell.
    pub open spec fn wf(self) -> bool {
        self.voxels@.len() == CHUNK_VOLUME
    }

    /// The voxel stored at a chunk-local position.
    pub open spec fn spec_block_local(self, loc: Pos3) -> Voxel {
        self.voxels@[spec_linear_index(loc)]
    }

    /// A chunk of nothing but empty voxels, anchored at `origin`.
    pub fn new(origin: WorldPos) -> (c: Chunk)
        ensures
            c.wf(),
            c.origin == origin,
            forall|i: int| 0 <= i < CHUNK_VOLUME ==> (#[trigger] c.voxels@[i]).spec_is_empty(),
    {
        let mut voxels: Vec<Voxel> = Vec::new();
        let mut n: usize = 0;
        while n < CHUNK_VOLUME
            invariant
                n == voxels@.len(),
                n <= CHUNK_VOLUME,
                forall|i: int| 0 <= i < n ==> (#[trigger] voxels@[i]).spec_is_empty(),
            decreases CHUNK_VOLUME - n,
        {
            voxels.push(Voxel::empty());
            n = n + 1;
        }
        Chunk { voxels, origin }
    }

    /// The voxel at a chunk-local position.
    pub fn get_block_local(&self, loc: Pos3) -> (v: Voxel)
        requires
            self.wf(),
            loc_in_bounds(loc),
        ensures
            v == self.spec_block_local(loc),
    {
        let idx: usize = loc.x as usize * 256 + loc.y as usize * 16 + loc.z as usize;
        self.voxels[idx]
    }

    /// Replaces the voxel at a chunk-local position, leaving every other
    /// voxel and the origin unchanged.
    pub fn set_block_local(&mut self, loc: Pos3, v: Voxel)
        requires
            old(self).wf(),
            loc_in_bounds(loc),
        ensures
            final(self).wf(),
            final(self).origin == old(self).origin,
            final(self).voxels@ == old(self).voxels@.update(spec_linear_index(loc), v),
            final(self).spec_block_local(loc) == v,
    {
        let idx: usize = loc.x as usize * 256 + loc.y as usize * 16 + loc.z as usize;
        self.voxels.set(idx, v);
    }

    /// Decodes a linear iteration index into the chunk-local position it
    /// visits.
    pub fn loc_of_index(i: usize) -> (loc: Pos3)
        requires
            i < CHUNK_VOLUME,
        ensures
            loc == spec_loc_of_index(i as int),
            loc_in_bounds(loc),
            spec_linear_index(loc) == i as int,
    {
        proof {
            lemma_loc_index_roundtrip(i as int);
        }
        Pos3 { x: (i / 256) as u8, y: ((i / 16) % 16) as u8, z: (i % 16) as u8 }
    }
}

} // verus!
