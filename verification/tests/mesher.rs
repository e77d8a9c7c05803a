use chunk_mesher::chunk::{Chunk, FaceData, Voxel, WorldPos, CHUNK_VOLUME, EMPTY_BLOCK_ID};
use chunk_mesher::color::{darken, Color};
use chunk_mesher::face::{face_of_index, Face};
use chunk_mesher::light::{LightLevel, TotalLightLevel};
use chunk_mesher::model::Model;
use chunk_mesher::registry::{texture_origin, AtlasCoord, BlockTexture, Registry};
use chunk_mesher::vertex::{Pos3, Tex2, Vertex, TEXEL_NORMALIZER};

fn dark() -> FaceData {
    FaceData {
        visible: false,
        light: TotalLightLevel(LightLevel(0), LightLevel(0)),
    }
}

fn lit(a: u8, b: u8) -> FaceData {
    FaceData {
        visible: true,
        light: TotalLightLevel(LightLevel(a), LightLevel(b)),
    }
}

fn plain_voxel(id: u16) -> Voxel {
    Voxel {
        id,
        bottom: dark(),
        top: dark(),
        left: dark(),
        right: dark(),
        front: dark(),
        back: dark(),
    }
}

fn all_lit_voxel(id: u16) -> Voxel {
    Voxel {
        id,
        bottom: lit(1, 2),
        top: lit(3, 4),
        left: lit(5, 6),
        right: lit(7, 8),
        front: lit(9, 10),
        back: lit(11, 12),
    }
}

fn simple_registry(id: u16) -> Registry {
    let mut registry = Registry::new();
    registry.register(id, BlockTexture::uniform(AtlasCoord { x: 0, y: 0 }));
    registry
}

#[test]
fn empty_chunk_yields_no_mesh() {
    let chunk = Chunk::new(WorldPos { x: 0, y: 0, z: 0 });
    let registry = Registry::new();
    assert!(Model::new(&chunk, &registry).is_none());
}

#[test]
fn invisible_faces_yield_no_mesh() {
    let mut chunk = Chunk::new(WorldPos { x: 0, y: 0, z: 0 });
    chunk.set_block_local(Pos3 { x: 4, y: 5, z: 6 }, plain_voxel(3));
    let registry = simple_registry(3);
    assert!(Model::new(&chunk, &registry).is_none());
}

#[test]
fn empty_voxel_with_visibility_flags_yields_no_mesh() {
    let mut chunk = Chunk::new(WorldPos { x: 0, y: 0, z: 0 });
    chunk.set_block_local(Pos3 { x: 0, y: 0, z: 0 }, all_lit_voxel(EMPTY_BLOCK_ID));
    let registry = Registry::new();
    assert!(Model::new(&chunk, &registry).is_none());
}

#[test]
fn vertex_count_is_six_per_visible_face() {
    let mut chunk = Chunk::new(WorldPos { x: 0, y: 0, z: 0 });
    let mut three_faces = plain_voxel(2);
    three_faces.top = lit(1, 1);
    three_faces.left = lit(2, 2);
    three_faces.back = lit(3, 3);
    let mut two_faces = plain_voxel(2);
    two_faces.bottom = lit(4, 4);
    two_faces.front = lit(5, 5);
    chunk.set_block_local(Pos3 { x: 0, y: 0, z: 0 }, three_faces);
    chunk.set_block_local(Pos3 { x: 9, y: 8, z: 7 }, two_faces);
    let registry = simple_registry(2);
    let model = Model::new(&chunk, &registry).expect("two voxels show faces");
    assert_eq!(model.verts.len(), 6 * 5);
    assert_eq!(model.verts.len() % 6, 0);
    assert_eq!(model.slice.vertex_count, model.verts.len());
}

#[test]
fn full_chunk_emits_every_face() {
    let mut chunk = Chunk::new(WorldPos { x: 0, y: 0, z: 0 });
    for x in 0..16u8 {
        for y in 0..16u8 {
            for z in 0..16u8 {
                chunk.set_block_local(Pos3 { x, y, z }, all_lit_voxel(1));
            }
        }
    }
    let registry = simple_registry(1);
    let model = Model::new(&chunk, &registry).expect("every face is visible");
    assert_eq!(model.verts.len(), CHUNK_VOLUME * 6 * 6);
}

fn positions(verts: &[Vertex]) -> Vec<(u8, u8, u8)> {
    verts.iter().map(|v| (v.x, v.y, v.z)).collect()
}

#[test]
fn top_face_winding_at_origin() {
    let mut verts = Vec::new();
    chunk_mesher::model::make_top(
        Pos3 { x: 0, y: 0, z: 0 },
        Tex2 { x: 0, y: 0 },
        TotalLightLevel(LightLevel(0), LightLevel(0)),
        &mut verts,
    );
    assert_eq!(
        positions(&verts),
        vec![(0, 1, 1), (1, 1, 1), (0, 1, 0), (1, 1, 1), (1, 1, 0), (0, 1, 0)]
    );
}

#[test]
fn bottom_face_winding_at_origin() {
    let mut verts = Vec::new();
    chunk_mesher::model::make_bottom(
        Pos3 { x: 0, y: 0, z: 0 },
        Tex2 { x: 0, y: 0 },
        TotalLightLevel(LightLevel(0), LightLevel(0)),
        &mut verts,
    );
    assert_eq!(
        positions(&verts),
        vec![(0, 0, 1), (0, 0, 0), (1, 0, 1), (0, 0, 0), (1, 0, 0), (1, 0, 1)]
    );
}

#[test]
fn left_face_winding_at_origin() {
    let mut verts = Vec::new();
    chunk_mesher::model::make_left(
        Pos3 { x: 0, y: 0, z: 0 },
        Tex2 { x: 0, y: 0 },
        TotalLightLevel(LightLevel(0), LightLevel(0)),
        &mut verts,
    );
    assert_eq!(
        positions(&verts),
        vec![(0, 0, 0), (0, 0, 1), (0, 1, 0), (0, 0, 1), (0, 1, 1), (0, 1, 0)]
    );
}

#[test]
fn right_face_winding_at_origin() {
    let mut verts = Vec::new();
    chunk_mesher::model::make_right(
        Pos3 { x: 0, y: 0, z: 0 },
        Tex2 { x: 0, y: 0 },
        TotalLightLevel(LightLevel(0), LightLevel(0)),
        &mut verts,
    );
    assert_eq!(
        positions(&verts),
        vec![(1, 0, 0), (1, 1, 0), (1, 0, 1), (1, 1, 0), (1, 1, 1), (1, 0, 1)]
    );
}

#[test]
fn front_face_winding_at_origin() {
    let mut verts = Vec::new();
    chunk_mesher::model::make_front(
        Pos3 { x: 0, y: 0, z: 0 },
        Tex2 { x: 0, y: 0 },
        TotalLightLevel(LightLevel(0), LightLevel(0)),
        &mut verts,
    );
    assert_eq!(
        positions(&verts),
        vec![(0, 0, 1), (1, 0, 1), (0, 1, 1), (1, 0, 1), (1, 1, 1), (0, 1, 1)]
    );
}

#[test]
fn back_face_winding_at_origin() {
    let mut verts = Vec::new();
    chunk_mesher::model::make_back(
        Pos3 { x: 0, y: 0, z: 0 },
        Tex2 { x: 0, y: 0 },
        TotalLightLevel(LightLevel(0), LightLevel(0)),
        &mut verts,
    );
    assert_eq!(
        positions(&verts),
        vec![(0, 0, 0), (0, 1, 0), (1, 0, 0), (0, 1, 0), (1, 1, 0), (1, 0, 0)]
    );
}

#[test]
fn face_winding_is_identical_across_invocations() {
    for f in 0..6usize {
        let face = face_of_index(f);
        let run = |_: usize| -> Vec<Vertex> {
            let mut verts = Vec::new();
            let origin = Pos3 { x: 3, y: 4, z: 5 };
            let texture = Tex2 { x: 16384, y: 32768 };
            let light = TotalLightLevel(LightLevel(7), LightLevel(2));
            match face {
                Face::Bottom => chunk_mesher::model::make_bottom(origin, texture, light, &mut verts),
                Face::Top => chunk_mesher::model::make_top(origin, texture, light, &mut verts),
                Face::Left => chunk_mesher::model::make_left(origin, texture, light, &mut verts),
                Face::Right => chunk_mesher::model::make_right(origin, texture, light, &mut verts),
                Face::Front => chunk_mesher::model::make_front(origin, texture, light, &mut verts),
                Face::Back => chunk_mesher::model::make_back(origin, texture, light, &mut verts),
            }
            verts
        };
        assert_eq!(run(0), run(1));
    }
}

#[test]
fn face_routine_offsets_by_voxel_origin() {
    let mut verts = Vec::new();
    chunk_mesher::model::make_top(
        Pos3 { x: 10, y: 11, z: 12 },
        Tex2 { x: 0, y: 0 },
        TotalLightLevel(LightLevel(0), LightLevel(0)),
        &mut verts,
    );
    assert_eq!(
        positions(&verts),
        vec![
            (10, 12, 13),
            (11, 12, 13),
            (10, 12, 12),
            (11, 12, 13),
            (11, 12, 12),
            (10, 12, 12)
        ]
    );
}

#[test]
fn packed_light_byte_is_high_low_nibble() {
    let byte = chunk_mesher::light::pack_light(TotalLightLevel(LightLevel(5), LightLevel(9)));
    assert_eq!(byte, 0x59);
}

#[test]
fn packed_light_out_of_range_wraps() {
    let byte = chunk_mesher::light::pack_light(TotalLightLevel(LightLevel(16), LightLevel(9)));
    assert_eq!(byte, 0x09);
    let byte = chunk_mesher::light::pack_light(TotalLightLevel(LightLevel(17), LightLevel(16)));
    assert_eq!(byte, 0x10);
}

#[test]
fn packed_light_round_trip() {
    let light = TotalLightLevel(LightLevel(5), LightLevel(9));
    let byte = chunk_mesher::light::pack_light(light);
    assert_eq!(chunk_mesher::light::unpack_light(byte), light);
}

#[test]
fn emitted_vertices_carry_packed_light() {
    let mut verts = Vec::new();
    chunk_mesher::model::make_top(
        Pos3 { x: 0, y: 0, z: 0 },
        Tex2 { x: 0, y: 0 },
        TotalLightLevel(LightLevel(5), LightLevel(9)),
        &mut verts,
    );
    for v in &verts {
        assert_eq!(v.light, 0x59);
    }
}

#[test]
fn texture_origin_scales_by_cell_span() {
    let origin = texture_origin(AtlasCoord { x: 2, y: 3 });
    assert_eq!(origin.x, 2 * TEXEL_NORMALIZER);
    assert_eq!(origin.y, 3 * TEXEL_NORMALIZER);
    assert_eq!((origin.x, origin.y), (32768, 49152));
}

#[test]
fn face_quad_spans_one_atlas_cell() {
    let origin = texture_origin(AtlasCoord { x: 2, y: 3 });
    let mut verts = Vec::new();
    chunk_mesher::model::make_top(
        Pos3 { x: 0, y: 0, z: 0 },
        origin,
        TotalLightLevel(LightLevel(0), LightLevel(0)),
        &mut verts,
    );
    let span = TEXEL_NORMALIZER - 1;
    // The winding's second vertex is the corner opposite the texture origin,
    // the third is the origin corner itself.
    assert_eq!((verts[1].u, verts[1].v), (origin.x + span, origin.y + span));
    assert_eq!((verts[2].u, verts[2].v), (origin.x, origin.y));
    for v in &verts {
        assert!(v.u == origin.x || v.u == origin.x + span);
        assert!(v.v == origin.y || v.v == origin.y + span);
    }
}

fn one_face_chunk(origin: WorldPos) -> (Chunk, Registry) {
    let mut chunk = Chunk::new(origin);
    let mut voxel = plain_voxel(7);
    voxel.top = lit(5, 9);
    chunk.set_block_local(Pos3 { x: 1, y: 2, z: 3 }, voxel);
    (chunk, simple_registry(7))
}

#[test]
fn model_translation_equals_chunk_origin() {
    for origin in [
        WorldPos { x: 0, y: 0, z: 0 },
        WorldPos { x: 16, y: 0, z: 32 },
        WorldPos { x: -48, y: -16, z: -320 },
    ] {
        let (chunk, registry) = one_face_chunk(origin);
        let model = Model::new(&chunk, &registry).expect("one face is visible");
        assert_eq!(model.model, origin);
        // The renderer casts the translation to floating point; no rotation
        // or scale accompanies it.
        let cast = (model.model.x as f32, model.model.y as f32, model.model.z as f32);
        assert_eq!(cast, (origin.x as f32, origin.y as f32, origin.z as f32));
    }
}

#[test]
fn meshing_twice_is_byte_identical() {
    let mut chunk = Chunk::new(WorldPos { x: -32, y: 64, z: 0 });
    let mut voxel = all_lit_voxel(9);
    voxel.front = dark();
    chunk.set_block_local(Pos3 { x: 15, y: 15, z: 15 }, voxel);
    chunk.set_block_local(Pos3 { x: 0, y: 3, z: 9 }, all_lit_voxel(9));
    let registry = simple_registry(9);
    let first = Model::new(&chunk, &registry).expect("faces are visible");
    let second = Model::new(&chunk, &registry).expect("faces are visible");
    assert_eq!(first.verts, second.verts);
    assert_eq!(first.slice, second.slice);
    assert_eq!(first.model, second.model);
}

#[test]
fn registry_lookup_finds_registered_textures() {
    let mut registry = Registry::new();
    assert!(registry.lookup_texture(5).is_none());
    let grass = BlockTexture {
        bottom: AtlasCoord { x: 1, y: 0 },
        top: AtlasCoord { x: 0, y: 0 },
        left: AtlasCoord { x: 2, y: 0 },
        right: AtlasCoord { x: 2, y: 0 },
        front: AtlasCoord { x: 2, y: 0 },
        back: AtlasCoord { x: 2, y: 0 },
    };
    registry.register(5, grass);
    let found = registry.lookup_texture(5).expect("registered");
    assert_eq!(found.get_face(Face::Top), AtlasCoord { x: 0, y: 0 });
    assert_eq!(found.get_face(Face::Bottom), AtlasCoord { x: 1, y: 0 });
    assert_eq!(found.get_face(Face::Left), AtlasCoord { x: 2, y: 0 });
    assert!(registry.lookup_texture(6).is_none());
}

#[test]
fn registry_register_shadows_earlier_mapping() {
    let mut registry = Registry::new();
    registry.register(5, BlockTexture::uniform(AtlasCoord { x: 1, y: 1 }));
    registry.register(5, BlockTexture::uniform(AtlasCoord { x: 3, y: 2 }));
    let found = registry.lookup_texture(5).expect("registered");
    assert_eq!(found.get_face(Face::Front), AtlasCoord { x: 3, y: 2 });
}

#[test]
fn chunk_stores_and_returns_voxels() {
    let mut chunk = Chunk::new(WorldPos { x: 0, y: 0, z: 0 });
    let loc = Pos3 { x: 15, y: 0, z: 8 };
    assert_eq!(chunk.get_block_local(loc).id, EMPTY_BLOCK_ID);
    let voxel = all_lit_voxel(42);
    chunk.set_block_local(loc, voxel);
    assert_eq!(chunk.get_block_local(loc), voxel);
    assert_eq!(chunk.get_block_local(Pos3 { x: 14, y: 0, z: 8 }).id, EMPTY_BLOCK_ID);
}

#[test]
fn darken_saturates_and_keeps_alpha() {
    let mut color = Color { r: 100, g: 50, b: 10, a: 200 };
    darken(&mut color, 60);
    assert_eq!(color, Color { r: 40, g: 0, b: 0, a: 200 });
    let mut color = Color { r: 60, g: 61, b: 255, a: 0 };
    darken(&mut color, 60);
    assert_eq!(color, Color { r: 0, g: 1, b: 195, a: 0 });
}
