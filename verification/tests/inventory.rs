use gpu_info::{
    normalize, retrieve_gpu_info_via_vk, Adapter, DeviceProperties, Error, GPUKind, HostReport,
    MemoryHeap, MemoryProperties, GPU,
};

const GIB: u64 = 1024 * 1024 * 1024;

fn name_buffer(text: &[u8]) -> Vec<u8> {
    let mut buffer = vec![0u8; 256];
    buffer[..text.len()].copy_from_slice(text);
    buffer
}

fn heaps(list: &[(u64, u32)]) -> MemoryProperties {
    let mut table = [MemoryHeap { size: 0, flags: 0 }; 16];
    for (slot, (size, flags)) in table.iter_mut().zip(list.iter()) {
        *slot = MemoryHeap { size: *size, flags: *flags };
    }
    MemoryProperties { heap_count: list.len() as u32, heaps: table }
}

fn adapter(name: &[u8], vendor_id: u32, device_type: i32, memory: MemoryProperties) -> Adapter {
    Adapter {
        properties: DeviceProperties {
            device_name: name_buffer(name),
            vendor_id,
            driver_version: (10 << 22) | (5 << 12) | 3,
            device_type,
        },
        memory,
    }
}

fn same_record(a: &GPU, b: &GPU) -> bool {
    a.kind == b.kind
        && a.name == b.name
        && a.vendor == b.vendor
        && a.driver_version == b.driver_version
        && a.vram == b.vram
        && a.clock_speed == b.clock_speed
        && a.temperature == b.temperature
}

#[test]
fn test_retrieve_gpu_info_via_vk() {
    let reports = vec![
        HostReport::Unavailable,
        HostReport::Adapters(vec![adapter(b"Test GPU", 0x10DE, 2, heaps(&[(GIB, 1)]))]),
    ];
    for report in reports.iter() {
        let result = retrieve_gpu_info_via_vk(report);
        println!("{:#?}", result);
        assert!(match result {
            Ok(gpus) => !gpus.is_empty(),
            Err(e) => e.is_vulkan_not_supported(),
        });
    }
}

#[test]
fn host_without_driver_is_not_supported() {
    let result = retrieve_gpu_info_via_vk(&HostReport::Unavailable);
    let error = result.unwrap_err();
    assert!(error.is_vulkan_not_supported());
    assert!(matches!(error, Error::VulkanNotSupported));
    assert_eq!(error.message(), "Vulkan is not supported on this platform");
}

#[test]
fn one_discrete_nvidia_adapter_with_eight_gib() {
    let report = HostReport::Adapters(vec![adapter(
        b"NVIDIA GeForce RTX 3070",
        0x10DE,
        2,
        heaps(&[(8 * GIB, 1)]),
    )]);
    let gpus = retrieve_gpu_info_via_vk(&report).unwrap();
    assert_eq!(gpus.len(), 1);
    assert_eq!(gpus[0].kind, GPUKind::Discrete);
    assert_eq!(gpus[0].vendor, "NVIDIA");
    assert_eq!(gpus[0].vram, 8192);
    assert_eq!(gpus[0].name, "NVIDIA GeForce RTX 3070");
    assert_eq!(gpus[0].driver_version, "10.5.3");
    assert_eq!(gpus[0].clock_speed, None);
    assert_eq!(gpus[0].temperature, None);
}

#[test]
fn empty_listing_is_a_failure() {
    let result = retrieve_gpu_info_via_vk(&HostReport::Adapters(Vec::new()));
    let error = result.unwrap_err();
    assert!(!error.is_vulkan_not_supported());
    match &error {
        Error::VulkanOperationFailed(detail) => {
            assert_eq!(detail, "No Vulkan-compatible GPUs found.")
        }
        other => panic!("unexpected error {:?}", other),
    }
    assert_eq!(
        error.message(),
        "Failed to perform Vulkan operation: No Vulkan-compatible GPUs found."
    );
}

#[test]
fn instance_failure_carries_the_driver_diagnostic() {
    let code = ash::vk::Result::ERROR_INCOMPATIBLE_DRIVER;
    let error = retrieve_gpu_info_via_vk(&HostReport::InstanceFailed(code.as_raw())).unwrap_err();
    assert!(!error.is_vulkan_not_supported());
    match &error {
        Error::VulkanOperationFailed(detail) => {
            assert_eq!(detail, "Unable to find a Vulkan driver");
            assert_eq!(detail, &code.to_string());
        }
        other => panic!("unexpected error {:?}", other),
    }
    assert_eq!(
        error.message(),
        "Failed to perform Vulkan operation: Unable to find a Vulkan driver"
    );
}

#[test]
fn enumeration_failure_carries_the_driver_diagnostic() {
    let code = ash::vk::Result::ERROR_OUT_OF_HOST_MEMORY;
    let error =
        retrieve_gpu_info_via_vk(&HostReport::EnumerationFailed(code.as_raw())).unwrap_err();
    match error {
        Error::VulkanOperationFailed(detail) => {
            assert_eq!(detail, "A host memory allocation has failed")
        }
        other => panic!("unexpected error {:?}", other),
    }
}

#[test]
fn unnamed_result_code_still_gets_a_diagnostic() {
    let error = retrieve_gpu_info_via_vk(&HostReport::InstanceFailed(-123456)).unwrap_err();
    match error {
        Error::VulkanOperationFailed(detail) => {
            assert_eq!(detail, ash::vk::Result::from_raw(-123456).to_string());
            assert!(!detail.is_empty());
        }
        other => panic!("unexpected error {:?}", other),
    }
}

#[test]
fn records_follow_the_listing_order() {
    let report = HostReport::Adapters(vec![
        adapter(b"First", 0x8086, 1, heaps(&[(GIB, 1)])),
        adapter(b"Second", 0x1002, 2, heaps(&[(2 * GIB, 1)])),
        adapter(b"First", 0x8086, 1, heaps(&[(GIB, 1)])),
    ]);
    let gpus = retrieve_gpu_info_via_vk(&report).unwrap();
    assert_eq!(gpus.len(), 3);
    assert_eq!(gpus[0].name, "First");
    assert_eq!(gpus[0].vendor, "Intel");
    assert_eq!(gpus[0].kind, GPUKind::Integrated);
    assert_eq!(gpus[0].vram, 1024);
    assert_eq!(gpus[1].name, "Second");
    assert_eq!(gpus[1].vendor, "AMD");
    assert_eq!(gpus[1].kind, GPUKind::Discrete);
    assert_eq!(gpus[1].vram, 2048);
    assert!(same_record(&gpus[0], &gpus[2]));
}

#[test]
fn two_calls_on_one_report_agree() {
    let report = HostReport::Adapters(vec![
        adapter(b"Alpha", 0x10DE, 2, heaps(&[(4 * GIB, 1), (GIB, 0)])),
        adapter(&[0xFF, 0xFE], 0x1234, 9, heaps(&[])),
    ]);
    let first = retrieve_gpu_info_via_vk(&report).unwrap();
    let second = retrieve_gpu_info_via_vk(&report.clone()).unwrap();
    assert_eq!(first.len(), second.len());
    for (a, b) in first.iter().zip(second.iter()) {
        assert!(same_record(a, b));
        assert_eq!(a.clock_speed, None);
        assert_eq!(a.temperature, None);
    }
    let failed_once = retrieve_gpu_info_via_vk(&HostReport::InstanceFailed(-3)).unwrap_err();
    let failed_twice = retrieve_gpu_info_via_vk(&HostReport::InstanceFailed(-3)).unwrap_err();
    assert_eq!(failed_once.message(), failed_twice.message());
}

#[test]
fn normalize_fills_every_field() {
    let raw = adapter(b"llvmpipe", 0x10005, 4, heaps(&[(3 * 1024 * 1024 + 17, 1)]));
    let gpu = normalize(&raw);
    assert_eq!(gpu.kind, GPUKind::CPU);
    assert_eq!(gpu.name, "llvmpipe");
    assert_eq!(gpu.vendor, "Unknown");
    assert_eq!(gpu.driver_version, "10.5.3");
    assert_eq!(gpu.vram, 3);
    assert_eq!(gpu.clock_speed, None);
    assert_eq!(gpu.temperature, None);
}

#[test]
fn name_and_vendor_are_never_empty() {
    let raw = adapter(b"", 0, 0, heaps(&[]));
    let gpu = normalize(&raw);
    assert_eq!(gpu.name, "Unknown");
    assert_eq!(gpu.vendor, "Unknown");
    assert_eq!(gpu.kind, GPUKind::Unknown);
    assert_eq!(gpu.vram, 0);
}

#[test]
fn error_messages() {
    assert_eq!(
        Error::VulkanOperationFailed("boom".to_string()).message(),
        "Failed to perform Vulkan operation: boom"
    );
    assert_eq!(
        Error::VulkanNotSupported.message(),
        "Vulkan is not supported on this platform"
    );
    assert_eq!(
        Error::OpenGLContextCreationFailed.message(),
        "Failed to create OpenGL context"
    );
    assert_eq!(Error::OpenGLQueryFailed.message(), "Failed to query GPU info");
}

#[test]
fn only_not_supported_answers_the_predicate() {
    assert!(Error::VulkanNotSupported.is_vulkan_not_supported());
    assert!(!Error::VulkanOperationFailed(String::new()).is_vulkan_not_supported());
    assert!(!Error::OpenGLContextCreationFailed.is_vulkan_not_supported());
    assert!(!Error::OpenGLQueryFailed.is_vulkan_not_supported());
}

#[test]
fn instance_request_is_minimal() {
    let request = gpu_info::instance_request();
    assert_eq!(request.application_name, "GPUInfoApp");
    assert_eq!(request.application_version, 0);
    assert_eq!(request.engine_name, "GPUInfoApp");
    assert_eq!(request.engine_version, 0);
    assert_eq!(request.api_version, 1 << 22);
    assert_eq!(request.api_version, ash::vk::API_VERSION_1_0);
    assert!(request.extensions.is_empty());
    assert!(request.layers.is_empty());
}
