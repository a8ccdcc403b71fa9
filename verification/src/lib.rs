//! Headless GPU inventory: turns the raw facts that a Vulkan driver reports
//! about each physical adapter into a stable, vendor-neutral record.
//!
//! The crate never talks to a driver itself. A caller gathers the raw
//! structures, hands them over as a [`HostReport`], and receives either the
//! normalized records or a typed failure.

pub mod decode;
pub mod enumerate;
pub mod instance;
pub mod model;
pub mod text;
pub mod vulkan;


pub use crate::enumerate::{normalize, retrieve_gpu_info_via_vk};
pub use crate::instance::{instance_request, InstanceRequest};
pub use crate::model::{
    Adapter, DeviceProperties, Error, GPUKind, HostReport, MemoryHeap, MemoryProperties, GPU,
};
