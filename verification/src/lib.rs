//! A registry of GPU buffers and textures for multi-stage compute pipelines.
//!
//! The registry decides; the device acts. Every operation that touches the GPU
//! returns the [`gpu::DeviceAction`]s that the caller has to perform, in order,
//! and each GPU object is known to the registry by its [`gpu::ResourceKey`].

pub mod gpu;
pub mod handle;
pub mod laws;
pub mod readback;
pub mod registry;
pub mod slot;
pub mod storage;
pub mod table;
