//! Core logic of a real-time renderer built on an explicit graphics API.
//!
//! The crate holds the decision logic of the engine: memory-type resolution,
//! swapchain configuration, the per-frame synchronization protocol, mesh
//! deduplication and the on-disk cache codec, device suitability checks, and
//! the asset store.  The host-API calls themselves (which are unsafe and talk
//! to a GPU driver) live outside the library and consume the plans and
//! decisions produced here.

pub mod codec;
pub mod device;
pub mod error;
pub mod frame;
pub mod loader;
pub mod memory;
pub mod mesh;
pub mod metrics;
pub mod msaa;
pub mod record;
pub mod shader;
pub mod store;
pub mod swapchain;
pub mod teardown;
pub mod transfer;
pub mod vertex;
