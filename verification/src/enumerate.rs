//! From a host report to the inventory: per-adapter normalization and the
//! rules for when an inventory is owed.

use crate::decode::{
    device_name, device_name_nonempty, driver_version_string, kind_of, spec_device_name,
    spec_driver_version, spec_kind, spec_vendor_name, spec_vram, vendor_name,
    vendor_name_nonempty, vram_megabytes,
};
use crate::model::{
    Adapter, AdapterView, Error, ErrorView, GpuView, HostReport, HostReportView, GPU,
};
use crate::vulkan::{describe_vk_result, vk_result_text};
use vstd::prelude::*;

verus! {

/// The record that one adapter's raw facts normalize to.
pub open spec fn spec_normalize(adapter: AdapterView) -> GpuView {
    GpuView {
        kind: spec_kind(adapter.properties.device_type),
        name: spec_device_name(adapter.properties.device_name),
        vendor: spec_vendor_name(adapter.properties.vendor_id),
        driver_version: spec_driver_version(adapter.properties.driver_version),
        vram: spec_vram(adapter.memory.heap_count, adapter.memory.heaps) as u64,
        clock_speed: None,
        temperature: None,
    }
}

/// Normalizes one adapter's raw facts into a record.
pub fn normalize(adapter: &Adapter) -> (gpu: GPU)
    ensures
        gpu@ == spec_normalize(adapter@),
        gpu.vram as nat == spec_vram(adapter.memory.heap_count, adapter.memory.heaps@),
{
    GPU {
        kind: kind_of(adapter.properties.device_type),
        name: device_name(adapter.properties.device_name.as_slice()),
        vendor: String::from_str(vendor_name(adapter.properties.vendor_id)),
        driver_version: driver_version_string(adapter.properties.driver_version),
        vram: vram_megabytes(&adapter.memory),
        clock_speed: None,
        temperature: None,
    }
}

/// What an inventory call hands back, as mathematical values.
pub open spec fn outcome_view(outcome: Result<Vec<GPU>, Error>) -> Result<Seq<GpuView>, ErrorView> {
    match outcome {
        Ok(gpus) => Ok(Seq::new(gpus@.len(), |i: int| gpus@[i]@)),
        Err(e) => Err(e@),
    }
}

/// The inventory that is owed for a host report.
///
/// A host without a loadable driver is "not supported". A failed instance or
/// a failed listing carries the driver's diagnostic. A listing without any
/// adapter is a failure too. Otherwise there is one record per adapter, in
/// the order of the listing.
pub open spec fn spec_inventory(report: HostReportView) -> Result<Seq<GpuView>, ErrorView> {
    match report {
        HostReportView::Unavailable => Err(ErrorView::VulkanNotSupported),
        HostReportView::InstanceFailed(code) => Err(
            ErrorView::VulkanOperationFailed(vk_result_text(code)),
        ),
        HostReportView::EnumerationFailed(code) => Err(
            ErrorView::VulkanOperationFailed(vk_result_text(code)),
        ),
        HostReportView::Adapters(adapters) => if adapters.len() == 0 {
            Err(ErrorView::VulkanOperationFailed("No Vulkan-compatible GPUs found."@))
        } else {
            Ok(Seq::new(adapters.len(), |i: int| spec_normalize(adapters[i])))
        },
    }
}

/// Wraps a driver diagnostic into the failure that carries it.
pub fn operation_failed(detail: String) -> (e: Error)
    ensures
        e@ == ErrorView::VulkanOperationFailed(detail@),
{
    Error::VulkanOperationFailed(detail)
}

/// Normalizes every adapter of a listing, keeping the order.
pub fn normalize_all(adapters: &Vec<Adapter>) -> (gpus: Vec<GPU>)
    ensures
        gpus@.len() == adapters@.len(),
        forall|i: int| 0 <= i < gpus@.len() ==> gpus@[i]@ == spec_normalize(adapters@[i]@),
{
    let mut gpus: Vec<GPU> = Vec::new();
    let mut i: usize = 0;
    while i < adapters.len()
        invariant
            i <= adapters@.len(),
            gpus@.len() == i,
            forall|j: int| 0 <= j < i ==> gpus@[j]@ == spec_normalize(adapters@[j]@),
        decreases adapters@.len() - i,
    {
        let gpu = normalize(&adapters[i]);
        gpus.push(gpu);
        i = i + 1;
    }
    gpus
}

/// Produces the GPU inventory for a host report.
pub fn retrieve_gpu_info_via_vk(report: &HostReport) -> (outcome: Result<Vec<GPU>, Error>)
    ensures
        outcome_view(outcome) == spec_inventory(report@),
{
    match report {
        HostReport::Unavailable => Err(Error::VulkanNotSupported),
        HostReport::InstanceFailed(code) => Err(operation_failed(describe_vk_result(*code))),
        HostReport::EnumerationFailed(code) => Err(operation_failed(describe_vk_result(*code))),
        HostReport::Adapters(adapters) => {
            if adapters.len() == 0 {
                Err(operation_failed(String::from_str("No Vulkan-compatible GPUs found.")))
            } else {
                let gpus = normalize_all(adapters);
                assert(Seq::new(gpus@.len(), |i: int| gpus@[i]@) =~= Seq::new(
                    report@->Adapters_0.len(),
                    |i: int| spec_normalize(report@->Adapters_0[i]),
                ));
                Ok(gpus)
            }
        },
    }
}

/// An inventory that is handed back holds at least one record: a host
/// without adapters gets a failure, never an empty success.
pub proof fn inventory_never_empty(report: HostReportView)
    ensures
        spec_inventory(report) matches Ok(gpus) ==> gpus.len() > 0,
{
}

/// An inventory holds one record per adapter, each the normalization of the
/// adapter at the same place in the listing.
pub proof fn inventory_keeps_order(adapters: Seq<AdapterView>, i: int)
    requires
        0 <= i < adapters.len(),
    ensures
        spec_inventory(HostReportView::Adapters(adapters)) matches Ok(gpus) && gpus.len()
            == adapters.len() && gpus[i] == spec_normalize(adapters[i]),
{
}

/// Exactly the host without a loadable driver is reported as "not supported".
pub proof fn not_supported_means_unavailable(report: HostReportView)
    ensures
        spec_inventory(report) == Err::<Seq<GpuView>, ErrorView>(ErrorView::VulkanNotSupported)
            <==> report == HostReportView::Unavailable,
{
}

/// Two calls on reports with the same content hand back the same outcome,
/// and no record of either claims a clock speed or a temperature.
pub proof fn inventory_repeatable(
    first: HostReport,
    second: HostReport,
    first_outcome: Result<Vec<GPU>, Error>,
    second_outcome: Result<Vec<GPU>, Error>,
)
    requires
        first@ == second@,
        outcome_view(first_outcome) == spec_inventory(first@),
        outcome_view(second_outcome) == spec_inventory(second@),
    ensures
        outcome_view(first_outcome) == outcome_view(second_outcome),
        first_outcome matches Ok(gpus) ==> forall|i: int|
            0 <= i < gpus@.len() ==> (#[trigger] gpus@[i]).clock_speed == None::<u32>
                && gpus@[i].temperature == None::<u32>,
{
    match first_outcome {
        Ok(gpus) => {
            let views = Seq::new(gpus@.len(), |i: int| gpus@[i]@);
            let adapters = first@->Adapters_0;
            let owed = Seq::new(adapters.len(), |i: int| spec_normalize(adapters[i]));
            assert(views == owed);
            assert forall|i: int| 0 <= i < gpus@.len() implies (#[trigger] gpus@[i]).clock_speed
                == None::<u32> && gpus@[i].temperature == None::<u32> by {
                assert(views[i] == gpus@[i]@);
                assert(owed[i] == spec_normalize(adapters[i]));
            }
        },
        Err(_) => {},
    }
}

/// Name and vendor of a normalized record are never empty, and neither is
/// its driver version.
pub proof fn normalized_texts_nonempty(adapter: AdapterView)
    ensures
        spec_normalize(adapter).name.len() > 0,
        spec_normalize(adapter).vendor.len() > 0,
        spec_normalize(adapter).driver_version.len() > 0,
{
    device_name_nonempty(adapter.properties.device_name);
    vendor_name_nonempty(adapter.properties.vendor_id);
}

} // verus!
