//! Properties of the mesher, stated and proved over the mesh specification.

use vstd::prelude::*;
use crate::chunk::{Chunk, CHUNK_VOLUME};
use crate::face::Face;
use crate::light::TotalLightLevel;
use crate::model::{
    origin_fits, registry_covers, spec_chunk_mesh, spec_chunk_visible_count,
    spec_chunk_visible_count_up_to, spec_face_vertices, texture_fits, lemma_chunk_mesh_len_up_to,
};
use crate::registry::Registry;
use crate::vertex::{Pos3, Tex2, Vertex, TEXEL_NORMALIZER};

verus! {

/// A chunk of nothing but empty voxels shows no face at all, so meshing it
/// yields no mesh: by the mesher's contract, a visible-face count of zero is
/// exactly the `None` outcome.
pub proof fn lemma_empty_chunk_has_no_mesh(chunk: Chunk)
    requires
        forall|i: int| 0 <= i < CHUNK_VOLUME ==> (#[trigger] chunk.voxels@[i]).spec_is_empty(),
    ensures
        spec_chunk_visible_count(chunk) == 0,
{
    lemma_empty_chunk_count_up_to(chunk, CHUNK_VOLUME as int);
}

proof fn lemma_empty_chunk_count_up_to(chunk: Chunk, n: int)
    requires
        0 <= n <= CHUNK_VOLUME,
        forall|i: int| 0 <= i < CHUNK_VOLUME ==> (#[trigger] chunk.voxels@[i]).spec_is_empty(),
    ensures
        spec_chunk_visible_count_up_to(chunk, n) == 0,
    decreases n,
{
    if n > 0 {
        lemma_empty_chunk_count_up_to(chunk, n - 1);
    }
}

/// The emitted vertex count is six times the number of (voxel, face) pairs
/// where the voxel is non-empty and the face's visibility flag is set; in
/// particular it is a multiple of six, and positive as soon as one face is
/// visible.
pub proof fn lemma_chunk_mesh_len(chunk: Chunk, reg: Registry)
    requires
        registry_covers(reg, chunk),
    ensures
        spec_chunk_mesh(chunk, reg).len() == 6 * spec_chunk_visible_count(chunk),
        spec_chunk_mesh(chunk, reg).len() % 6 == 0,
        spec_chunk_visible_count(chunk) > 0 ==> spec_chunk_mesh(chunk, reg).len() > 0,
{
    lemma_chunk_mesh_len_up_to(chunk, reg, CHUNK_VOLUME as int);
}

/// Meshing is deterministic: the mesh is a function of the chunk and
/// registry snapshots alone, so meshing the same immutable chunk twice
/// yields identical vertex sequences. By the mesher's contract, each
/// successful build returns exactly this sequence.
pub proof fn lemma_mesh_deterministic(c1: Chunk, c2: Chunk, r1: Registry, r2: Registry)
    requires
        c1 == c2,
        r1 == r2,
    ensures
        spec_chunk_mesh(c1, r1) == spec_chunk_mesh(c2, r2),
        spec_chunk_visible_count(c1) == spec_chunk_visible_count(c2),
{
}

/// Whether a vertex lies on the given face of the unit cube anchored at `o`:
/// its coordinate along the face's axis is exactly the face plane, and the
/// other two coordinates stay within the unit square.
pub open spec fn vertex_on_face(f: Face, o: Pos3, vert: Vertex) -> bool {
    match f {
        Face::Bottom => vert.y == o.y && o.x <= vert.x <= o.x + 1 && o.z <= vert.z <= o.z + 1,
        Face::Top => vert.y == o.y + 1 && o.x <= vert.x <= o.x + 1 && o.z <= vert.z <= o.z + 1,
        Face::Left => vert.x == o.x && o.y <= vert.y <= o.y + 1 && o.z <= vert.z <= o.z + 1,
        Face::Right => vert.x == o.x + 1 && o.y <= vert.y <= o.y + 1 && o.z <= vert.z <= o.z + 1,
        Face::Front => vert.z == o.z + 1 && o.x <= vert.x <= o.x + 1 && o.y <= vert.y <= o.y + 1,
        Face::Back => vert.z == o.z && o.x <= vert.x <= o.x + 1 && o.y <= vert.y <= o.y + 1,
    }
}

/// Every face routine emits exactly six vertices, and all six are coplanar
/// with, and confined to, the unit square face of the voxel at `o` in that
/// face's axis-aligned plane. The winding is fixed per face direction, as
/// [`spec_face_vertices`] spells out corner by corner.
pub proof fn lemma_face_vertices_on_face(f: Face, o: Pos3, t: Tex2, l: TotalLightLevel)
    requires
        origin_fits(o),
    ensures
        spec_face_vertices(f, o, t, l).len() == 6,
        forall|k: int|
            0 <= k < 6 ==> vertex_on_face(f, o, #[trigger] spec_face_vertices(f, o, t, l)[k]),
{
    let s = spec_face_vertices(f, o, t, l);
    assert forall|k: int| 0 <= k < 6 implies vertex_on_face(f, o, s[k]) by {
        assert(vertex_on_face(f, o, s[0]));
        assert(vertex_on_face(f, o, s[1]));
        assert(vertex_on_face(f, o, s[2]));
        assert(vertex_on_face(f, o, s[3]));
        assert(vertex_on_face(f, o, s[4]));
        assert(vertex_on_face(f, o, s[5]));
    }
}

/// Every face quad's texture coordinates span one atlas cell: some corner
/// carries the cell's texture-space origin, and some corner carries the
/// opposite cell corner, one full cell extent minus one unit away on both
/// axes.
pub proof fn lemma_face_uv_corners(f: Face, o: Pos3, t: Tex2, l: TotalLightLevel)
    requires
        texture_fits(t),
    ensures
        exists|k: int|
            0 <= k < 6 && (#[trigger] spec_face_vertices(f, o, t, l)[k]).u == t.x
                && spec_face_vertices(f, o, t, l)[k].v == t.y,
        exists|k: int|
            0 <= k < 6 && (#[trigger] spec_face_vertices(f, o, t, l)[k]).u == t.x
                + (TEXEL_NORMALIZER - 1) && spec_face_vertices(f, o, t, l)[k].v == t.y + (
            TEXEL_NORMALIZER - 1),
{
    let s = spec_face_vertices(f, o, t, l);
    match f {
        Face::Bottom => {
            assert(s[1].u == t.x && s[1].v == t.y);
            assert(s[2].u == t.x + (TEXEL_NORMALIZER - 1) && s[2].v == t.y + (TEXEL_NORMALIZER
                - 1));
        },
        Face::Top => {
            assert(s[2].u == t.x && s[2].v == t.y);
            assert(s[1].u == t.x + (TEXEL_NORMALIZER - 1) && s[1].v == t.y + (TEXEL_NORMALIZER
                - 1));
        },
        Face::Left => {
            assert(s[0].u == t.x && s[0].v == t.y);
            assert(s[4].u == t.x + (TEXEL_NORMALIZER - 1) && s[4].v == t.y + (TEXEL_NORMALIZER
                - 1));
        },
        Face::Right => {
            assert(s[0].u == t.x && s[0].v == t.y);
            assert(s[4].u == t.x + (TEXEL_NORMALIZER - 1) && s[4].v == t.y + (TEXEL_NORMALIZER
                - 1));
        },
        Face::Front => {
            assert(s[0].u == t.x && s[0].v == t.y);
            assert(s[4].u == t.x + (TEXEL_NORMALIZER - 1) && s[4].v == t.y + (TEXEL_NORMALIZER
                - 1));
        },
        Face::Back => {
            assert(s[0].u == t.x && s[0].v == t.y);
            assert(s[4].u == t.x + (TEXEL_NORMALIZER - 1) && s[4].v == t.y + (TEXEL_NORMALIZER
                - 1));
        },
    }
}

} // verus!
