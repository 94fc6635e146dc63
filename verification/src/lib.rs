//! A minimal voxel-world model: a fixed grid of cuboid chunks of typed
//! blocks, a per-kind block catalog, a texture-atlas slicer, and a
//! face-culling draw traversal that turns a world into an ordered list of
//! draw commands for a renderer to execute.

pub mod atlas;
pub mod block;
pub mod camera;
pub mod draw;
pub mod world;
