//! The texture registry: block identifiers mapped to per-face atlas cells.

use vstd::prelude::*;
use crate::face::{Face, spec_face_index};
use crate::vertex::{Tex2, TEXEL_NORMALIZER};

verus! {

/// A cell coordinate in the texture atlas, at cell granularity. The atlas
/// holds `0x10000 / TEXEL_NORMALIZER` cells per side, so a well-formed
/// coordinate is bounded by that count.
#[derive(Clone, Copy, Debug, PartialEq, Eq, Structural)]
pub struct AtlasCoord {
    pub x: u8,
    pub y: u8,
}

impl AtlasCoord {
    /// The coordinate addresses a cell inside the atlas, so scaling it to
    /// texture space stays within the normalized 16-bit range.
    pub open spec fn wf(self) -> bool {
        self.x < 4 && self.y < 4
    }
}

/// The texture-space origin of an atlas cell: the cell coordinate scaled by
/// the extent of one cell in normalized fixed-point units.
pub open spec fn spec_texture_origin(c: AtlasCoord) -> Tex2 {
    Tex2 { x: (c.x * TEXEL_NORMALIZER) as u16, y: (c.y * TEXEL_NORMALIZER) as u16 }
}

/// Scales an atlas cell coordinate to the texture-space origin of that cell.
pub fn texture_origin(c: AtlasCoord) -> (t: Tex2)
    requires
        c.wf(),
    ensures
        t == spec_texture_origin(c),
        t.x + TEXEL_NORMALIZER <= 0x10000,
        t.y + TEXEL_NORMALIZER <= 0x10000,
{
    Tex2 { x: c.x as u16 * TEXEL_NORMALIZER, y: c.y as u16 * TEXEL_NORMALIZER }
}

/// The atlas cell of each face of one block kind.
#[derive(Clone, Copy, Debug, PartialEq, Eq, Structural)]
pub struct BlockTexture {
    pub bottom: AtlasCoord,
    pub top: AtlasCoord,
    pub left: AtlasCoord,
    pub right: AtlasCoord,
    pub front: AtlasCoord,
    pub back: AtlasCoord,
}

impl BlockTexture {
    /// The atlas cell of the given face.
    pub open spec fn spec_face(self, f: Face) -> AtlasCoord {
        match f {
            Face::Bottom => self.bottom,
            Face::Top => self.top,
            Face::Left => self.left,
            Face::Right => self.right,
            Face::Front => self.front,
            Face::Back => self.back,
        }
    }

    /// Every face's cell lies inside the atlas.
    pub open spec fn wf(self) -> bool {
        forall|f: Face| #[trigger] self.spec_face(f).wf()
    }

    /// A texture whose six faces all use the same atlas cell.
    pub fn uniform(c: AtlasCoord) -> (t: BlockTexture)
        ensures
            forall|f: Face| #[trigger] t.spec_face(f) == c,
            c.wf() ==> t.wf(),
    {
        BlockTexture { bottom: c, top: c, left: c, right: c, front: c, back: c }
    }

    /// Looks up the atlas cell of one face.
    pub fn get_face(&self, face: Face) -> (c: AtlasCoord)
        ensures
            c == self.spec_face(face),
    {
        match face {
            Face::Bottom => self.bottom,
            Face::Top => self.top,
            Face::Left => self.left,
            Face::Right => self.right,
            Face::Front => self.front,
            Face::Back => self.back,
        }
    }
}

/// The mapping a sequence of registry entries defines: the texture of the
/// first entry carrying the identifier, if any.
pub open spec fn spec_lookup(entries: Seq<(u16, BlockTexture)>, id: u16) -> Option<BlockTexture>
    decreases entries.len(),
{
    if entries.len() == 0 {
        None
    } else if entries[0].0 == id {
        Some(entries[0].1)
    } else {
        spec_lookup(entries.drop_first(), id)
    }
}

/// The block-type-to-texture registry: for each registered block identifier,
/// the atlas cell of each face.
pub struct Registry {
    pub entries: Vec<(u16, BlockTexture)>,
}

impl Registry {
    /// Every registered texture addresses cells inside the atlas.
    pub open spec fn wf(self) -> bool {
        forall|j: int|
            0 <= j < self.entries@.len() ==> (#[trigger] self.entries@[j]).1.wf()
    }

    /// An empty registry: no identifier is mapped.
    pub fn new() -> (r: Registry)
        ensures
            r.wf(),
            forall|id: u16| spec_lookup(r.entries@, id) is None,
    {
        Registry { entries: Vec::new() }
    }

    /// Maps `id` to `tex`, shadowing any earlier mapping of `id` and leaving
    /// every other identifier's mapping unchanged.
    pub fn register(&mut self, id: u16, tex: BlockTexture)
        requires
            tex.wf(),
            old(self).wf(),
        ensures
            final(self).wf(),
            spec_lookup(final(self).entries@, id) == Some(tex),
            forall|other: u16|
                other != id ==> #[trigger] spec_lookup(final(self).entries@, other)
                    == spec_lookup(old(self).entries@, other),
    {
        self.entries.insert(0, (id, tex));
        proof {
            assert(self.entries@.drop_first() =~= old(self).entries@);
        }
    }

    /// Looks up the per-face texture of a block identifier; `None` when the
    /// identifier was never registered.
    pub fn lookup_texture(&self, id: u16) -> (r: Option<BlockTexture>)
        ensures
            r == spec_lookup(self.entries@, id),
    {
        let n = self.entries.len();
        let mut i: usize = 0;
        proof {
            assert(self.entries@.skip(0) =~= self.entries@);
        }
        while i < n
            invariant
                n == self.entries@.len(),
                i <= n,
                spec_lookup(self.entries@, id) == spec_lookup(self.entries@.skip(i as int), id),
            decreases n - i,
        {
            let entry = self.entries[i];
            proof {
                assert(self.entries@.skip(i as int)[0] == self.entries@[i as int]);
                assert(self.entries@.skip(i as int).drop_first() =~= self.entries@.skip(
                    i as int + 1,
                ));
            }
            if entry.0 == id {
                return Some(entry.1);
            }
            i = i + 1;
        }
        proof {
            assert(self.entries@.skip(n as int) =~= Seq::<(u16, BlockTexture)>::empty());
        }
        None
    }
}

/// In a well-formed registry every texture a lookup can return is itself
/// well formed.
pub proof fn lemma_lookup_wf(entries: Seq<(u16, BlockTexture)>, id: u16)
    requires
        forall|j: int| 0 <= j < entries.len() ==> (#[trigger] entries[j]).1.wf(),
    ensures
        spec_lookup(entries, id) matches Some(t) ==> t.wf(),
    decreases entries.len(),
{
    if entries.len() > 0 && entries[0].0 != id {
        lemma_lookup_wf(entries.drop_first(), id);
    }
}

} // verus!
