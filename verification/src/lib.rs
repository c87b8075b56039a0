//! Verified core of a small voxel path-tracing front end: how voxels are packed
//! for the GPU, how the render dispatch is sized, how mesh triangles are grouped
//! by material, how materials get their colours, and when a scene volume has
//! been turned into meshes.

mod byte_cast;
pub mod gpu_voxel;
pub mod mesh_groups;
pub mod palette;
pub mod render_setup;
pub mod volume;
pub mod voxel_volume;

pub use gpu_voxel::{GpuVoxel, Voxel, voxel_to_gpu};
pub use render_setup::Args;
pub use volume::{ShapeZSettings, ShapeZVolume};
