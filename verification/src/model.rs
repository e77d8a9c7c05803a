//! The chunk mesher: one textured, lit unit quad (two triangles, six
//! vertices) per visible voxel face, in a fixed deterministic order.

use vstd::prelude::*;
use crate::chunk::{Chunk, Voxel, WorldPos, CHUNK_VOLUME, spec_loc_of_index};
use crate::face::{Face, face_of_index, spec_face_of_index};
use crate::light::TotalLightLevel;
use crate::registry::{
    BlockTexture, Registry, lemma_lookup_wf, spec_lookup, spec_texture_origin, texture_origin,
};
use crate::vertex::{Pos3, Tex2, Vertex, TEXEL_NORMALIZER, spec_vnew, vnew};

verus! {

/// The vertex at one corner of a face quad: the voxel origin shifted by the
/// given unit offsets, carrying the cell's texture origin shifted by the
/// given texture-space offsets, and the face's packed light value.
pub open spec fn spec_corner(
    o: Pos3,
    dx: int,
    dy: int,
    dz: int,
    t: Tex2,
    du: int,
    dv: int,
    l: TotalLightLevel,
) -> Vertex {
    spec_vnew(
        Pos3 { x: (o.x + dx) as u8, y: (o.y + dy) as u8, z: (o.z + dz) as u8 },
        Tex2 { x: (t.x + du) as u16, y: (t.y + dv) as u16 },
        l,
    )
}

/// The six vertices of one face quad, two triangles sharing a diagonal, in
/// the fixed winding order of that face direction. The texture-space offset
/// of the far corners is one unit short of a full cell, so that sampling
/// stays inside the cell.
pub open spec fn spec_face_vertices(f: Face, o: Pos3, t: Tex2, l: TotalLightLevel) -> Seq<
    Vertex,
> {
    let e = TEXEL_NORMALIZER - 1;
    match f {
        Face::Bottom => seq![
            spec_corner(o, 0, 0, 1, t, 0, e, l),
            spec_corner(o, 0, 0, 0, t, 0, 0, l),
            spec_corner(o, 1, 0, 1, t, e, e, l),
            spec_corner(o, 0, 0, 0, t, 0, 0, l),
            spec_corner(o, 1, 0, 0, t, e, 0, l),
            spec_corner(o, 1, 0, 1, t, e, e, l),
        ],
        Face::Top => seq![
            spec_corner(o, 0, 1, 1, t, 0, e, l),
            spec_corner(o, 1, 1, 1, t, e, e, l),
            spec_corner(o, 0, 1, 0, t, 0, 0, l),
            spec_corner(o, 1, 1, 1, t, e, e, l),
            spec_corner(o, 1, 1, 0, t, e, 0, l),
            spec_corner(o, 0, 1, 0, t, 0, 0, l),
        ],
        Face::Left => seq![
            spec_corner(o, 0, 0, 0, t, 0, 0, l),
            spec_corner(o, 0, 0, 1, t, e, 0, l),
            spec_corner(o, 0, 1, 0, t, 0, e, l),
            spec_corner(o, 0, 0, 1, t, e, 0, l),
            spec_corner(o, 0, 1, 1, t, e, e, l),
            spec_corner(o, 0, 1, 0, t, 0, e, l),
        ],
        Face::Right => seq![
            spec_corner(o, 1, 0, 0, t, 0, 0, l),
            spec_corner(o, 1, 1, 0, t, 0, e, l),
            spec_corner(o, 1, 0, 1, t, e, 0, l),
            spec_corner(o, 1, 1, 0, t, 0, e, l),
            spec_corner(o, 1, 1, 1, t, e, e, l),
            spec_corner(o, 1, 0, 1, t, e, 0, l),
        ],
        Face::Front => seq![
            spec_corner(o, 0, 0, 1, t, 0, 0, l),
            spec_corner(o, 1, 0, 1, t, e, 0, l),
            spec_corner(o, 0, 1, 1, t, 0, e, l),
            spec_corner(o, 1, 0, 1, t, e, 0, l),
            spec_corner(o, 1, 1, 1, t, e, e, l),
            spec_corner(o, 0, 1, 1, t, 0, e, l),
        ],
        Face::Back => seq![
            spec_corner(o, 0, 0, 0, t, 0, 0, l),
            spec_corner(o, 0, 1, 0, t, 0, e, l),
            spec_corner(o, 1, 0, 0, t, e, 0, l),
            spec_corner(o, 0, 1, 0, t, 0, e, l),
            spec_corner(o, 1, 1, 0, t, e, e, l),
            spec_corner(o, 1, 0, 0, t, e, 0, l),
        ],
    }
}

/// A voxel origin whose face corners, one unit beyond it, still fit the
/// 8-bit vertex coordinates.
pub open spec fn origin_fits(o: Pos3) -> bool {
    o.x < 255 && o.y < 255 && o.z < 255
}

/// A texture-space origin whose cell, one full cell extent wide, still fits
/// the normalized 16-bit range.
pub open spec fn texture_fits(t: Tex2) -> bool {
    t.x + TEXEL_NORMALIZER <= 0x10000 && t.y + TEXEL_NORMALIZER <= 0x10000
}

/// Appends the six vertices of a bottom face (-Y) quad.
pub fn make_bottom(origin: Pos3, texture: Tex2, light: TotalLightLevel, vert_out: &mut Vec<Vertex>)
    requires
        origin_fits(origin),
        texture_fits(texture),
    ensures
        final(vert_out)@ == old(vert_out)@ + spec_face_vertices(Face::Bottom, origin, texture, light),
{
    let e: u16 = TEXEL_NORMALIZER - 1;
    vert_out.push(
        vnew(
            Pos3 { x: origin.x, y: origin.y, z: origin.z + 1 },
            Tex2 { x: texture.x, y: texture.y + e },
            light,
        ),
    );
    vert_out.push(vnew(Pos3 { x: origin.x, y: origin.y, z: origin.z }, texture, light));
    vert_out.push(
        vnew(
            Pos3 { x: origin.x + 1, y: origin.y, z: origin.z + 1 },
            Tex2 { x: texture.x + e, y: texture.y + e },
            light,
        ),
    );
    vert_out.push(vnew(Pos3 { x: origin.x, y: origin.y, z: origin.z }, texture, light));
    vert_out.push(
        vnew(
            Pos3 { x: origin.x + 1, y: origin.y, z: origin.z },
            Tex2 { x: texture.x + e, y: texture.y },
            light,
        ),
    );
    vert_out.push(
        vnew(
            Pos3 { x: origin.x + 1, y: origin.y, z: origin.z + 1 },
            Tex2 { x: texture.x + e, y: texture.y + e },
            light,
        ),
    );
    proof {
        assert(vert_out@ =~= old(vert_out)@ + spec_face_vertices(
            Face::Bottom,
            origin,
            texture,
            light,
        ));
    }
}

/// Appends the six vertices of a top face (+Y) quad.
pub fn make_top(origin: Pos3, texture: Tex2, light: TotalLightLevel, vert_out: &mut Vec<Vertex>)
    requires
        origin_fits(origin),
        texture_fits(texture),
    ensures
        final(vert_out)@ == old(vert_out)@ + spec_face_vertices(Face::Top, origin, texture, light),
{
    let e: u16 = TEXEL_NORMALIZER - 1;
    vert_out.push(
        vnew(
            Pos3 { x: origin.x, y: origin.y + 1, z: origin.z + 1 },
            Tex2 { x: texture.x, y: texture.y + e },
            light,
        ),
    );
    vert_out.push(
        vnew(
            Pos3 { x: origin.x + 1, y: origin.y + 1, z: origin.z + 1 },
            Tex2 { x: texture.x + e, y: texture.y + e },
            light,
        ),
    );
    vert_out.push(vnew(Pos3 { x: origin.x, y: origin.y + 1, z: origin.z }, texture, light));
    vert_out.push(
        vnew(
            Pos3 { x: origin.x + 1, y: origin.y + 1, z: origin.z + 1 },
            Tex2 { x: texture.x + e, y: texture.y + e },
            light,
        ),
    );
    vert_out.push(
        vnew(
            Pos3 { x: origin.x + 1, y: origin.y + 1, z: origin.z },
            Tex2 { x: texture.x + e, y: texture.y },
            light,
        ),
    );
    vert_out.push(vnew(Pos3 { x: origin.x, y: origin.y + 1, z: origin.z }, texture, light));
    proof {
        assert(vert_out@ =~= old(vert_out)@ + spec_face_vertices(
            Face::Top,
            origin,
            texture,
            light,
        ));
    }
}

/// Appends the six vertices of a left face (-X) quad.
pub fn make_left(origin: Pos3, texture: Tex2, light: TotalLightLevel, vert_out: &mut Vec<Vertex>)
    requires
        origin_fits(origin),
        texture_fits(texture),
    ensures
        final(vert_out)@ == old(vert_out)@ + spec_face_vertices(Face::Left, origin, texture, light),
{
    let e: u16 = TEXEL_NORMALIZER - 1;
    vert_out.push(vnew(Pos3 { x: origin.x, y: origin.y, z: origin.z }, texture, light));
    vert_out.push(
        vnew(
            Pos3 { x: origin.x, y: origin.y, z: origin.z + 1 },
            Tex2 { x: texture.x + e, y: texture.y },
            light,
        ),
    );
    vert_out.push(
        vnew(
            Pos3 { x: origin.x, y: origin.y + 1, z: origin.z },
            Tex2 { x: texture.x, y: texture.y + e },
            light,
        ),
    );
    vert_out.push(
        vnew(
            Pos3 { x: origin.x, y: origin.y, z: origin.z + 1 },
            Tex2 { x: texture.x + e, y: texture.y },
            light,
        ),
    );
    vert_out.push(
        vnew(
            Pos3 { x: origin.x, y: origin.y + 1, z: origin.z + 1 },
            Tex2 { x: texture.x + e, y: texture.y + e },
            light,
        ),
    );
    vert_out.push(
        vnew(
            Pos3 { x: origin.x, y: origin.y + 1, z: origin.z },
            Tex2 { x: texture.x, y: texture.y + e },
            light,
        ),
    );
    proof {
        assert(vert_out@ =~= old(vert_out)@ + spec_face_vertices(
            Face::Left,
            origin,
            texture,
            light,
        ));
    }
}

/// Appends the six vertices of a right face (+X) quad.
pub fn make_right(origin: Pos3, texture: Tex2, light: TotalLightLevel, vert_out: &mut Vec<Vertex>)
    requires
        origin_fits(origin),
        texture_fits(texture),
    ensures
        final(vert_out)@ == old(vert_out)@ + spec_face_vertices(Face::Right, origin, texture, light),
{
    let e: u16 = TEXEL_NORMALIZER - 1;
    vert_out.push(vnew(Pos3 { x: origin.x + 1, y: origin.y, z: origin.z }, texture, light));
    vert_out.push(
        vnew(
            Pos3 { x: origin.x + 1, y: origin.y + 1, z: origin.z },
            Tex2 { x: texture.x, y: texture.y + e },
            light,
        ),
    );
    vert_out.push(
        vnew(
            Pos3 { x: origin.x + 1, y: origin.y, z: origin.z + 1 },
            Tex2 { x: texture.x + e, y: texture.y },
            light,
        ),
    );
    vert_out.push(
        vnew(
            Pos3 { x: origin.x + 1, y: origin.y + 1, z: origin.z },
            Tex2 { x: texture.x, y: texture.y + e },
            light,
        ),
    );
    vert_out.push(
        vnew(
            Pos3 { x: origin.x + 1, y: origin.y + 1, z: origin.z + 1 },
            Tex2 { x: texture.x + e, y: texture.y + e },
            light,
        ),
    );
    vert_out.push(
        vnew(
            Pos3 { x: origin.x + 1, y: origin.y, z: origin.z + 1 },
            Tex2 { x: texture.x + e, y: texture.y },
            light,
        ),
    );
    proof {
        assert(vert_out@ =~= old(vert_out)@ + spec_face_vertices(
            Face::Right,
            origin,
            texture,
            light,
        ));
    }
}

/// Appends the six vertices of a front face (+Z) quad.
pub fn make_front(origin: Pos3, texture: Tex2, light: TotalLightLevel, vert_out: &mut Vec<Vertex>)
    requires
        origin_fits(origin),
        texture_fits(texture),
    ensures
        final(vert_out)@ == old(vert_out)@ + spec_face_vertices(Face::Front, origin, texture, light),
{
    let e: u16 = TEXEL_NORMALIZER - 1;
    vert_out.push(vnew(Pos3 { x: origin.x, y: origin.y, z: origin.z + 1 }, texture, light));
    vert_out.push(
        vnew(
            Pos3 { x: origin.x + 1, y: origin.y, z: origin.z + 1 },
            Tex2 { x: texture.x + e, y: texture.y },
            light,
        ),
    );
    vert_out.push(
        vnew(
            Pos3 { x: origin.x, y: origin.y + 1, z: origin.z + 1 },
            Tex2 { x: texture.x, y: texture.y + e },
            light,
        ),
    );
    vert_out.push(
        vnew(
            Pos3 { x: origin.x + 1, y: origin.y, z: origin.z + 1 },
            Tex2 { x: texture.x + e, y: texture.y },
            light,
        ),
    );
    vert_out.push(
        vnew(
            Pos3 { x: origin.x + 1, y: origin.y + 1, z: origin.z + 1 },
            Tex2 { x: texture.x + e, y: texture.y + e },
            light,
        ),
    );
    vert_out.push(
        vnew(
            Pos3 { x: origin.x, y: origin.y + 1, z: origin.z + 1 },
            Tex2 { x: texture.x, y: texture.y + e },
            light,
        ),
    );
    proof {
        assert(vert_out@ =~= old(vert_out)@ + spec_face_vertices(
            Face::Front,
            origin,
            texture,
            light,
        ));
    }
}

/// Appends the six vertices of a back face (-Z) quad.
pub fn make_back(origin: Pos3, texture: Tex2, light: TotalLightLevel, vert_out: &mut Vec<Vertex>)
    requires
        origin_fits(origin),
        texture_fits(texture),
    ensures
        final(vert_out)@ == old(vert_out)@ + spec_face_vertices(Face::Back, origin, texture, light),
{
    let e: u16 = TEXEL_NORMALIZER - 1;
    vert_out.push(vnew(Pos3 { x: origin.x, y: origin.y, z: origin.z }, texture, light));
    vert_out.push(
        vnew(
            Pos3 { x: origin.x, y: origin.y + 1, z: origin.z },
            Tex2 { x: texture.x, y: texture.y + e },
            light,
        ),
    );
    vert_out.push(
        vnew(
            Pos3 { x: origin.x + 1, y: origin.y, z: origin.z },
            Tex2 { x: texture.x + e, y: texture.y },
            light,
        ),
    );
    vert_out.push(
        vnew(
            Pos3 { x: origin.x, y: origin.y + 1, z: origin.z },
            Tex2 { x: texture.x, y: texture.y + e },
            light,
        ),
    );
    vert_out.push(
        vnew(
            Pos3 { x: origin.x + 1, y: origin.y + 1, z: origin.z },
            Tex2 { x: texture.x + e, y: texture.y + e },
            light,
        ),
    );
    vert_out.push(
        vnew(
            Pos3 { x: origin.x + 1, y: origin.y, z: origin.z },
            Tex2 { x: texture.x + e, y: texture.y },
            light,
        ),
    );
    proof {
        assert(vert_out@ =~= old(vert_out)@ + spec_face_vertices(
            Face::Back,
            origin,
            texture,
            light,
        ));
    }
}

/// What one face of a voxel contributes to the mesh: its quad when the face
/// is visible, nothing otherwise.
pub open spec fn spec_voxel_face_mesh(v: Voxel, tex: BlockTexture, o: Pos3, f: Face) -> Seq<
    Vertex,
> {
    if v.spec_face_data(f).visible {
        spec_face_vertices(f, o, spec_texture_origin(tex.spec_face(f)), v.spec_face_data(f).light)
    } else {
        Seq::empty()
    }
}

/// The contributions of the first `n` faces of a voxel, in canonical face
/// order.
pub open spec fn spec_voxel_mesh_up_to(v: Voxel, tex: BlockTexture, o: Pos3, n: int) -> Seq<Vertex>
    decreases n,
{
    if n <= 0 {
        Seq::empty()
    } else {
        spec_voxel_mesh_up_to(v, tex, o, n - 1) + spec_voxel_face_mesh(
            v,
            tex,
            o,
            spec_face_of_index(n - 1),
        )
    }
}

/// Everything one voxel contributes to the mesh: its visible faces, in
/// canonical face order.
pub open spec fn spec_voxel_mesh(v: Voxel, tex: BlockTexture, o: Pos3) -> Seq<Vertex> {
    spec_voxel_mesh_up_to(v, tex, o, 6)
}

/// What the voxel at linear index `i` contributes to the chunk mesh: nothing
/// when it is empty, else its visible faces textured by the registry's
/// mapping for its identifier.
pub open spec fn spec_cell_mesh(chunk: Chunk, reg: Registry, i: int) -> Seq<Vertex> {
    let v = chunk.voxels@[i];
    if v.spec_is_empty() {
        Seq::empty()
    } else {
        match spec_lookup(reg.entries@, v.id) {
            Some(tex) => spec_voxel_mesh(v, tex, spec_loc_of_index(i)),
            None => Seq::empty(),
        }
    }
}

/// The concatenated contributions of the first `n` voxels, in iteration
/// order.
pub open spec fn spec_chunk_mesh_up_to(chunk: Chunk, reg: Registry, n: int) -> Seq<Vertex>
    decreases n,
{
    if n <= 0 {
        Seq::empty()
    } else {
        spec_chunk_mesh_up_to(chunk, reg, n - 1) + spec_cell_mesh(chunk, reg, n - 1)
    }
}

/// The full vertex sequence of a chunk's mesh.
pub open spec fn spec_chunk_mesh(chunk: Chunk, reg: Registry) -> Seq<Vertex> {
    spec_chunk_mesh_up_to(chunk, reg, CHUNK_VOLUME as int)
}

/// How many of the first `n` faces of a voxel are visible.
pub open spec fn spec_voxel_visible_up_to(v: Voxel, n: int) -> nat
    decreases n,
{
    if n <= 0 {
        0
    } else {
        spec_voxel_visible_up_to(v, n - 1) + if v.spec_face_data(
            spec_face_of_index(n - 1),
        ).visible {
            1nat
        } else {
            0nat
        }
    }
}

/// How many faces the voxel at linear index `i` shows: none when it is
/// empty, else its visible faces.
pub open spec fn spec_cell_visible_count(chunk: Chunk, i: int) -> nat {
    if chunk.voxels@[i].spec_is_empty() {
        0
    } else {
        spec_voxel_visible_up_to(chunk.voxels@[i], 6)
    }
}

/// How many faces the first `n` voxels show in all.
pub open spec fn spec_chunk_visible_count_up_to(chunk: Chunk, n: int) -> nat
    decreases n,
{
    if n <= 0 {
        0
    } else {
        spec_chunk_visible_count_up_to(chunk, n - 1) + spec_cell_visible_count(chunk, n - 1)
    }
}

/// The number of (voxel, face) pairs of the chunk where the voxel is
/// non-empty and the face's visibility flag is set.
pub open spec fn spec_chunk_visible_count(chunk: Chunk) -> nat {
    spec_chunk_visible_count_up_to(chunk, CHUNK_VOLUME as int)
}

/// The registry maps every identifier that appears on a non-empty voxel of
/// the chunk.
pub open spec fn registry_covers(reg: Registry, chunk: Chunk) -> bool {
    forall|i: int|
        0 <= i < CHUNK_VOLUME && !(#[trigger] chunk.voxels@[i]).spec_is_empty()
            ==> spec_lookup(reg.entries@, chunk.voxels@[i].id) is Some
}

/// The draw descriptor of a mesh: how many vertices to draw as a triangle
/// list, with no index buffer.
#[derive(Clone, Copy, Debug, PartialEq, Eq, Structural)]
pub struct DrawSlice {
    pub vertex_count: usize,
}

/// A meshed chunk: the vertex data destined for a GPU vertex buffer, the
/// draw slice covering all of it, and the translation-only placement of the
/// chunk, kept as its integer world-space origin. The renderer casts the
/// origin to floating point when it builds the model matrix; no rotation or
/// scale component exists.
pub struct Model {
    pub verts: Vec<Vertex>,
    pub slice: DrawSlice,
    pub model: WorldPos,
}

impl Model {
    /// Meshes a chunk: walks every voxel once in iteration order and, for
    /// each visible face of each non-empty voxel, appends that face's quad.
    /// Yields `None` exactly when the chunk shows no face at all, so that no
    /// zero-length GPU buffer is ever created.
    pub fn new(chunk: &Chunk, registry: &Registry) -> (r: Option<Model>)
        requires
            chunk.wf(),
            registry.wf(),
            registry_covers(*registry, *chunk),
        ensures
            match r {
                None => spec_chunk_visible_count(*chunk) == 0,
                Some(m) => {
                    &&& spec_chunk_visible_count(*chunk) > 0
                    &&& m.verts@ == spec_chunk_mesh(*chunk, *registry)
                    &&& m.verts@.len() == 6 * spec_chunk_visible_count(*chunk)
                    &&& m.slice.vertex_count == m.verts@.len()
                    &&& m.model == chunk.origin
                },
            },
    {
        let mut verts: Vec<Vertex> = Vec::new();
        proof {
            assert(verts@ =~= spec_chunk_mesh_up_to(*chunk, *registry, 0));
        }
        let mut i: usize = 0;
        while i < CHUNK_VOLUME
            invariant
                chunk.wf(),
                registry.wf(),
                registry_covers(*registry, *chunk),
                i <= CHUNK_VOLUME,
                verts@ == spec_chunk_mesh_up_to(*chunk, *registry, i as int),
            decreases CHUNK_VOLUME - i,
        {
            let loc = Chunk::loc_of_index(i);
            let block = chunk.get_block_local(loc);
            if !block.is_empty() {
                let texture = match registry.lookup_texture(block.id) {
                    Some(t) => t,
                    None => vstd::pervasive::unreached(),
                };
                proof {
                    lemma_lookup_wf(registry.entries@, block.id);
                }
                let mut f: usize = 0;
                while f < 6
                    invariant
                        registry.wf(),
                        f <= 6,
                        texture.wf(),
                        origin_fits(loc),
                        verts@ == spec_chunk_mesh_up_to(*chunk, *registry, i as int)
                            + spec_voxel_mesh_up_to(block, texture, loc, f as int),
                    decreases 6 - f,
                {
                    let face = face_of_index(f);
                    if block.is_visible(face) {
                        let face_texture = texture.get_face(face);
                        let true_texture = texture_origin(face_texture);
                        let light = block.face_light(face);
                        let ghost verts_before = verts@;
                        match face {
                            Face::Bottom => {
                                make_bottom(loc, true_texture, light, &mut verts);
                            },
                            Face::Top => {
                                make_top(loc, true_texture, light, &mut verts);
                            },
                            Face::Left => {
                                make_left(loc, true_texture, light, &mut verts);
                            },
                            Face::Right => {
                                make_right(loc, true_texture, light, &mut verts);
                            },
                            Face::Front => {
                                make_front(loc, true_texture, light, &mut verts);
                            },
                            Face::Back => {
                                make_back(loc, true_texture, light, &mut verts);
                            },
                        }
                        proof {
                            assert(verts@ == verts_before + spec_voxel_face_mesh(
                                block,
                                texture,
                                loc,
                                face,
                            ));
                            assert(verts@ =~= spec_chunk_mesh_up_to(*chunk, *registry, i as int)
                                + spec_voxel_mesh_up_to(block, texture, loc, f as int + 1));
                        }
                    } else {
                        proof {
                            assert(verts@ =~= spec_chunk_mesh_up_to(*chunk, *registry, i as int)
                                + spec_voxel_mesh_up_to(block, texture, loc, f as int + 1));
                        }
                    }
                    f = f + 1;
                }
                proof {
                    assert(verts@ == spec_chunk_mesh_up_to(*chunk, *registry, i as int)
                        + spec_cell_mesh(*chunk, *registry, i as int));
                    assert(verts@ == spec_chunk_mesh_up_to(*chunk, *registry, i as int + 1));
                }
            } else {
                proof {
                    assert(verts@ =~= spec_chunk_mesh_up_to(*chunk, *registry, i as int + 1));
                }
            }
            i = i + 1;
        }
        proof {
            lemma_chunk_mesh_len_up_to(*chunk, *registry, CHUNK_VOLUME as int);
        }
        if verts.len() > 0 {
            let vertex_count = verts.len();
            Some(Model { verts, slice: DrawSlice { vertex_count }, model: chunk.origin })
        } else {
            None
        }
    }
}

/// A face contributes six vertices when visible, none otherwise; so the
/// first `n` faces of a voxel contribute six vertices per visible face.
proof fn lemma_voxel_mesh_len_up_to(v: Voxel, tex: BlockTexture, o: Pos3, n: int)
    requires
        0 <= n <= 6,
    ensures
        spec_voxel_mesh_up_to(v, tex, o, n).len() == 6 * spec_voxel_visible_up_to(v, n),
    decreases n,
{
    if n > 0 {
        lemma_voxel_mesh_len_up_to(v, tex, o, n - 1);
    }
}

/// The first `n` voxels of a chunk contribute six vertices per visible face
/// of a non-empty voxel, provided the registry maps every identifier those
/// voxels carry.
pub proof fn lemma_chunk_mesh_len_up_to(chunk: Chunk, reg: Registry, n: int)
    requires
        0 <= n <= CHUNK_VOLUME,
        registry_covers(reg, chunk),
    ensures
        spec_chunk_mesh_up_to(chunk, reg, n).len() == 6 * spec_chunk_visible_count_up_to(chunk, n),
    decreases n,
{
    if n > 0 {
        lemma_chunk_mesh_len_up_to(chunk, reg, n - 1);
        let v = chunk.voxels@[n - 1];
        if !v.spec_is_empty() {
            match spec_lookup(reg.entries@, v.id) {
                Some(tex) => {
                    lemma_voxel_mesh_len_up_to(v, tex, spec_loc_of_index(n - 1), 6);
                },
                None => {
                    assert(false);
                },
            }
        }
    }
}

} // verus!
