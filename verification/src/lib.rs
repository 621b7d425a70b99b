//! Verified core logic of the Herbolution engine: noise-grid geometry,
//! permutation-table hashing, gradient selection, input state, texture
//! path resolution and GPU buffer synchronisation decisions.

pub mod noise_dim;
pub mod sampling;
pub mod perm;
pub mod simplex;
pub mod gradient;
pub mod cell_hash;
pub mod input;
pub mod pbr;
pub mod text;
pub mod gpu_sync;
pub mod tile_mesh;
pub mod noise_kind;
pub mod render_type;
pub mod backends;
pub mod texture;
