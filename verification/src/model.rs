//! The data model: raw driver facts on the way in, normalized records on the
//! way out, and the mathematical view of each.

use vstd::prelude::*;

verus! {

/// Number of heap slots in the driver's fixed-size memory-heap table.
pub const MAX_MEMORY_HEAPS: usize = 16;

/// Category of an adapter.
#[derive(Debug, Clone, Copy, PartialEq, Eq, Structural)]
pub enum GPUKind {
    Integrated,
    Discrete,
    Virtual,
    CPU,
    Unknown,
}

/// One normalized hardware record.
#[derive(Debug, Clone)]
pub struct GPU {
    pub kind: GPUKind,
    pub name: String,
    pub vendor: String,
    pub driver_version: String,
    /// Device-local memory in megabytes; 0 means unknown or not available.
    pub vram: u64,
    pub clock_speed: Option<u32>,
    pub temperature: Option<u32>,
}

/// What a [`GPU`] record says, with its texts as character sequences.
pub struct GpuView {
    pub kind: GPUKind,
    pub name: Seq<char>,
    pub vendor: Seq<char>,
    pub driver_version: Seq<char>,
    pub vram: u64,
    pub clock_speed: Option<u32>,
    pub temperature: Option<u32>,
}

impl View for GPU {
    type V = GpuView;

    open spec fn view(&self) -> GpuView {
        GpuView {
            kind: self.kind,
            name: self.name@,
            vendor: self.vendor@,
            driver_version: self.driver_version@,
            vram: self.vram,
            clock_speed: self.clock_speed,
            temperature: self.temperature,
        }
    }
}

/// Why an inventory could not be produced.
#[derive(Debug)]
pub enum Error {
    /// A Vulkan call failed; the payload is the diagnostic text.
    VulkanOperationFailed(String),
    /// No Vulkan driver interface could be loaded on this host.
    VulkanNotSupported,
    OpenGLContextCreationFailed,
    OpenGLQueryFailed,
}

/// What an [`Error`] says, with its diagnostic as a character sequence.
pub enum ErrorView {
    VulkanOperationFailed(Seq<char>),
    VulkanNotSupported,
    OpenGLContextCreationFailed,
    OpenGLQueryFailed,
}

impl View for Error {
    type V = ErrorView;

    open spec fn view(&self) -> ErrorView {
        match self {
            Error::VulkanOperationFailed(detail) => ErrorView::VulkanOperationFailed(detail@),
            Error::VulkanNotSupported => ErrorView::VulkanNotSupported,
            Error::OpenGLContextCreationFailed => ErrorView::OpenGLContextCreationFailed,
            Error::OpenGLQueryFailed => ErrorView::OpenGLQueryFailed,
        }
    }
}

/// The human-readable sentence for each failure.
pub open spec fn spec_message(e: ErrorView) -> Seq<char> {
    match e {
        ErrorView::VulkanOperationFailed(detail) => "Failed to perform Vulkan operation: "@
            + detail,
        ErrorView::VulkanNotSupported => "Vulkan is not supported on this platform"@,
        ErrorView::OpenGLContextCreationFailed => "Failed to create OpenGL context"@,
        ErrorView::OpenGLQueryFailed => "Failed to query GPU info"@,
    }
}

impl Error {
    /// True exactly for the failure that means "no Vulkan on this host".
    pub fn is_vulkan_not_supported(&self) -> (b: bool)
        ensures
            b == (self@ == ErrorView::VulkanNotSupported),
    {
        match self {
            Error::VulkanNotSupported => true,
            _ => false,
        }
    }

    /// The failure as a sentence for people.
    pub fn message(&self) -> (text: String)
        ensures
            text@ == spec_message(self@),
    {
        match self {
            Error::VulkanOperationFailed(detail) => {
                let mut text = String::from_str("Failed to perform Vulkan operation: ");
                text.append(detail.as_str());
                text
            },
            Error::VulkanNotSupported => String::from_str(
                "Vulkan is not supported on this platform",
            ),
            Error::OpenGLContextCreationFailed => String::from_str(
                "Failed to create OpenGL context",
            ),
            Error::OpenGLQueryFailed => String::from_str("Failed to query GPU info"),
        }
    }
}

/// The raw per-adapter properties that normalization reads.
#[derive(Debug, Clone)]
pub struct DeviceProperties {
    /// The driver's name buffer: text in UTF-8, ended by a NUL byte.
    pub device_name: Vec<u8>,
    pub vendor_id: u32,
    /// Packed version: ten bits major, ten bits minor, twelve bits patch.
    pub driver_version: u32,
    /// Raw adapter-type code.
    pub device_type: i32,
}

pub struct DevicePropertiesView {
    pub device_name: Seq<u8>,
    pub vendor_id: u32,
    pub driver_version: u32,
    pub device_type: i32,
}

impl View for DeviceProperties {
    type V = DevicePropertiesView;

    open spec fn view(&self) -> DevicePropertiesView {
        DevicePropertiesView {
            device_name: self.device_name@,
            vendor_id: self.vendor_id,
            driver_version: self.driver_version,
            device_type: self.device_type,
        }
    }
}

/// One entry of the driver's memory-heap table.
#[derive(Debug, Clone, Copy, PartialEq, Eq, Structural)]
pub struct MemoryHeap {
    /// Size in bytes.
    pub size: u64,
    /// Raw heap flag bits.
    pub flags: u32,
}

/// The driver's memory-heap table; only the first `heap_count` slots count.
#[derive(Debug, Clone, Copy)]
pub struct MemoryProperties {
    pub heap_count: u32,
    pub heaps: [MemoryHeap; 16],
}

pub struct MemoryPropertiesView {
    pub heap_count: u32,
    pub heaps: Seq<MemoryHeap>,
}

impl View for MemoryProperties {
    type V = MemoryPropertiesView;

    open spec fn view(&self) -> MemoryPropertiesView {
        MemoryPropertiesView { heap_count: self.heap_count, heaps: self.heaps@ }
    }
}

/// Everything the driver reported about one physical adapter.
#[derive(Debug, Clone)]
pub struct Adapter {
    pub properties: DeviceProperties,
    pub memory: MemoryProperties,
}

pub struct AdapterView {
    pub properties: DevicePropertiesView,
    pub memory: MemoryPropertiesView,
}

impl View for Adapter {
    type V = AdapterView;

    open spec fn view(&self) -> AdapterView {
        AdapterView { properties: self.properties@, memory: self.memory@ }
    }
}

/// How far the acquisition got on this host, and what it brought back.
#[derive(Debug, Clone)]
pub enum HostReport {
    /// The driver interface could not be loaded.
    Unavailable,
    /// Creating the instance failed with this raw result code.
    InstanceFailed(i32),
    /// Listing the adapters failed with this raw result code.
    EnumerationFailed(i32),
    /// The adapters, in the order the platform listed them.
    Adapters(Vec<Adapter>),
}

pub enum HostReportView {
    Unavailable,
    InstanceFailed(i32),
    EnumerationFailed(i32),
    Adapters(Seq<AdapterView>),
}

impl View for HostReport {
    type V = HostReportView;

    open spec fn view(&self) -> HostReportView {
        match self {
            HostReport::Unavailable => HostReportView::Unavailable,
            HostReport::InstanceFailed(code) => HostReportView::InstanceFailed(*code),
            HostReport::EnumerationFailed(code) => HostReportView::EnumerationFailed(*code),
            HostReport::Adapters(list) => HostReportView::Adapters(
                Seq::new(list@.len(), |i: int| list@[i]@),
            ),
        }
    }
}

} // verus!
