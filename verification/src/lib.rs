//! Voxel chunk meshing and streaming.
//!
//! A data-driven block-model registry bakes per-face geometry (position,
//! rotation, size, texture coordinates) into reusable vertex/index/normal/UV
//! buffers per block type; a fixed-size chunk holds a dense grid of block
//! ids; the mesh assembler walks a chunk's voxels and merges every voxel's
//! baked model into one chunk-wide mesh with rebased indices; and a pair of
//! load/unload queues decouples chunk production from scene insertion and
//! removal, with bounded work per tick.
//!
//! All geometry is carried in fixed-point coordinates (multiples of
//! `1 / SCALE` of a world unit), so every transform is exact integer
//! arithmetic. The host converts to and from floating point at the edge.

pub mod assembler;
pub mod block_models;
pub mod chunk;
pub mod chunk_queue;
pub mod geometry;

pub use geometry::SCALE;
