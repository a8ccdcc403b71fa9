//! What is asked of the driver when the instance is created: the least that
//! lets the adapters be listed.

use crate::vulkan::api_version_1_0;
use vstd::prelude::*;

verus! {

/// The parameters of instance creation.
#[derive(Debug, Clone)]
pub struct InstanceRequest {
    pub application_name: &'static str,
    pub application_version: u32,
    pub engine_name: &'static str,
    pub engine_version: u32,
    /// Packed API version: major at bit 22, minor at bit 12, patch below.
    pub api_version: u32,
    pub extensions: Vec<&'static str>,
    pub layers: Vec<&'static str>,
}

/// The one request this crate ever makes: fixed names, version zero, the
/// baseline API version, no extension and no layer.
pub open spec fn is_minimal_request(request: InstanceRequest) -> bool {
    &&& request.application_name@ == "GPUInfoApp"@
    &&& request.application_version == 0
    &&& request.engine_name@ == "GPUInfoApp"@
    &&& request.engine_version == 0
    &&& request.api_version == 0x40_0000
    &&& request.extensions@.len() == 0
    &&& request.layers@.len() == 0
}

/// Builds the request for an instance that is only good for enumeration.
pub fn instance_request() -> (request: InstanceRequest)
    ensures
        is_minimal_request(request),
{
    InstanceRequest {
        application_name: "GPUInfoApp",
        application_version: 0,
        engine_name: "GPUInfoApp",
        engine_version: 0,
        api_version: api_version_1_0(),
        extensions: Vec::new(),
        layers: Vec::new(),
    }
}

} // verus!
