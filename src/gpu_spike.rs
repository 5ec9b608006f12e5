//! Status of the earlier, colour-only GPU preview path.

use vstd::prelude::*;

verus! {

/// Snapshot of the colour-only GPU path's availability and adapter.
pub struct RuntimeStatus {
    pub available: bool,
    pub adapter_name: Option<String>,
    pub adapter_backend: Option<String>,
    pub adapter_driver: Option<String>,
}

/// Whether the colour-only GPU path is available.
pub fn is_available(adapter: &Option<crate::gpu_pipeline::AdapterInfo>) -> (r: bool)
    ensures
        r == adapter is Some,
{
    adapter.is_some()
}

/// The path's status for diagnostics.
pub fn runtime_status(adapter: &Option<crate::gpu_pipeline::AdapterInfo>) -> (r: RuntimeStatus)
    ensures
        r.available == adapter is Some,
        adapter is None ==> r.adapter_name is None && r.adapter_backend is None && r.adapter_driver is None,
        adapter matches Some(a) ==> r.adapter_name == Some(a.name) && r.adapter_backend == Some(a.backend)
            && r.adapter_driver is Some && r.adapter_driver->0@ == crate::gpu_pipeline::driver_label(a.driver@)
            && r.adapter_driver->0@.len() > 0,
{
    match adapter {
        Some(a) => RuntimeStatus {
            available: true,
            adapter_name: Some(a.name.clone()),
            adapter_backend: Some(a.backend.clone()),
            adapter_driver: Some(crate::gpu_pipeline::display_driver(a.driver.as_str())),
        },
        None => RuntimeStatus { available: false, adapter_name: None, adapter_backend: None, adapter_driver: None },
    }
}

} // verus!
