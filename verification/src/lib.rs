//! Chunked, sparse voxel terrain storage and a millisecond frame timer.
//!
//! The terrain store is a two-level structure: a sparse map from chunk
//! coordinates to chunks, each chunk a dense cube of voxels laid out in
//! row-major order. Every voxel carries a material tag and an 8-bit occupancy
//! code.

pub mod chunk;
pub mod error;
pub mod frame_time;
pub mod grid;
pub mod index;
pub mod material;
pub mod quantized;
pub mod voxel;
pub mod world;

pub use chunk::Chunk;
pub use error::TerrainError;
pub use frame_time::FrameTime;
pub use grid::VoxelGrid;
pub use index::{ChunkIndex, VoxelIndex};
pub use material::Material;
pub use quantized::{QuantizedFloat, OCCUPANCY_STEPS};
pub use voxel::Voxel;
