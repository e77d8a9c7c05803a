//! Chunk mesher: turns a cubic grid of voxels into a triangle-list vertex
//! sequence, one textured, lit unit quad per visible voxel face, together with
//! the translation that places the chunk in the world.

pub mod chunk;
pub mod color;
pub mod face;
pub mod light;
pub mod model;
pub mod props;
pub mod registry;
pub mod vertex;
