//! The six canonical face directions of a voxel cube.

use vstd::prelude::*;

verus! {

/// One of the six axis-aligned faces of a unit voxel cube.
///
/// `Bottom`/`Top` face along -Y/+Y, `Left`/`Right` along -X/+X, and
/// `Back`/`Front` along -Z/+Z.
#[derive(Clone, Copy, Debug, PartialEq, Eq, Structural)]
pub enum Face {
    Bottom,
    Top,
    Left,
    Right,
    Front,
    Back,
}

/// The position of a face in the canonical iteration order.
pub open spec fn spec_face_index(f: Face) -> int {
    match f {
        Face::Bottom => 0,
        Face::Top => 1,
        Face::Left => 2,
        Face::Right => 3,
        Face::Front => 4,
        Face::Back => 5,
    }
}

/// The face at position `i` of the canonical iteration order.
pub open spec fn spec_face_of_index(i: int) -> Face {
    if i == 0 {
        Face::Bottom
    } else if i == 1 {
        Face::Top
    } else if i == 2 {
        Face::Left
    } else if i == 3 {
        Face::Right
    } else if i == 4 {
        Face::Front
    } else {
        Face::Back
    }
}

/// Executable counterpart of [`spec_face_of_index`]; used to walk the six
/// faces of a voxel in a fixed, deterministic order.
pub fn face_of_index(i: usize) -> (f: Face)
    requires
        i < 6,
    ensures
        f == spec_face_of_index(i as int),
        spec_face_index(f) == i as int,
{
    if i == 0 {
        Face::Bottom
    } else if i == 1 {
        Face::Top
    } else if i == 2 {
        Face::Left
    } else if i == 3 {
        Face::Right
    } else if i == 4 {
        Face::Front
    } else {
        Face::Back
    }
}

} // verus!
