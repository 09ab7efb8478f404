//! Launch planning for a CUDA inference runtime.
pub mod compile;
pub mod config;
pub mod cutlass_bridge;
pub mod error;
pub mod expert_cache;
pub mod functions;
pub mod host_arena;
pub mod kernels;
pub mod launch;
pub mod laws;
pub mod loader;
pub mod owned_pinned;
pub mod registered_shards;
pub mod runtime;
pub mod text;
pub mod types;
