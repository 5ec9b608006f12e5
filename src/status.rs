//! The GPU status line and details shown in the tool panel.

use vstd::prelude::*;
use crate::backend::PreviewBackend;
use crate::gpu_pipeline::{GpuVendor, RuntimeStatus, detect_gpu_vendor, vendor_of, vendor_haystack};
use crate::text::{chars_of, opt_text, push_text, string_of};

verus! {

/// How the adapter is described: `name (api)`, the name alone, or `n/a`.
pub open spec fn adapter_description(name: Option<Seq<char>>, api: Option<Seq<char>>) -> Seq<char> {
    match (name, api) {
        (Some(n), Some(a)) => n + " ("@ + a + ")"@,
        (Some(n), None) => n,
        _ => "n/a"@,
    }
}

/// The status line for a backend and runtime status.
pub open spec fn status_label(backend: PreviewBackend, available: bool, desc: Seq<char>) -> Seq<char> {
    match backend {
        PreviewBackend::Cpu => "GPU accel: off (cpu mode)"@,
        PreviewBackend::Auto => if available { "GPU accel: on ["@ + desc + "]"@ } else { "GPU accel: off (auto fallback)"@ },
        PreviewBackend::GpuPipeline => if available { "GPU accel: on ["@ + desc + "]"@ } else { "GPU accel: off (gpu fallback)"@ },
    }
}

/// The details line for a backend and runtime status.
pub open spec fn status_details(backend: PreviewBackend, available: bool, driver: Seq<char>) -> Seq<char> {
    match backend {
        PreviewBackend::Cpu => "Preview backend forced to CPU; GPU acceleration is disabled."@,
        PreviewBackend::Auto => if available {
            "auto mode active; driver: "@ + driver
        } else {
            "auto mode selected, but no usable GPU backend was initialized."@
        },
        PreviewBackend::GpuPipeline => if available {
            "gpu_pipeline mode active; driver: "@ + driver
        } else {
            "gpu_pipeline requested, but GPU init failed."@
        },
    }
}

/// What the tool panel shows of the preview backend.
pub struct PreviewStatusSummary {
    pub label: String,
    pub details: Option<String>,
    pub vendor: Option<GpuVendor>,
}


/// Summarises the preview backend for display: a status line, details
/// naming the driver when a GPU runs, and the adapter's vendor.
pub fn preview_status_summary(backend: PreviewBackend, status: &RuntimeStatus) -> (r: PreviewStatusSummary)
    ensures
        r.label@ == status_label(
            backend,
            status.available,
            adapter_description(opt_text(status.adapter_name), opt_text(status.adapter_backend)),
        ),
        r.details is Some,
        r.details->0@ == status_details(
            backend,
            status.available,
            match status.adapter_driver {
                Some(d) => d@,
                None => "unknown"@,
            },
        ),
        r.vendor == vendor_of(
            match status.adapter_vendor_id {
                Some(v) => v,
                None => 0,
            },
            vendor_haystack(opt_text(status.adapter_name), opt_text(status.adapter_driver)),
        ),
{
    let mut desc: Vec<char> = Vec::new();
    match (&status.adapter_name, &status.adapter_backend) {
        (Some(name), Some(api)) => {
            push_text(&mut desc, name.as_str());
            push_text(&mut desc, " (");
            push_text(&mut desc, api.as_str());
            push_text(&mut desc, ")");
        },
        (Some(name), None) => {
            push_text(&mut desc, name.as_str());
        },
        _ => {
            push_text(&mut desc, "n/a");
        },
    }
    let driver: Vec<char> = match &status.adapter_driver {
        Some(d) => chars_of(d.as_str()),
        None => chars_of("unknown"),
    };
    let mut label: Vec<char> = Vec::new();
    let mut details: Vec<char> = Vec::new();
    match backend {
        PreviewBackend::Cpu => {
            push_text(&mut label, "GPU accel: off (cpu mode)");
            push_text(&mut details, "Preview backend forced to CPU; GPU acceleration is disabled.");
        },
        PreviewBackend::Auto => {
            if status.available {
                push_text(&mut label, "GPU accel: on [");
                crate::text::push_vec(&mut label, &desc);
                push_text(&mut label, "]");
                push_text(&mut details, "auto mode active; driver: ");
                crate::text::push_vec(&mut details, &driver);
            } else {
                push_text(&mut label, "GPU accel: off (auto fallback)");
                push_text(&mut details, "auto mode selected, but no usable GPU backend was initialized.");
            }
        },
        PreviewBackend::GpuPipeline => {
            if status.available {
                push_text(&mut label, "GPU accel: on [");
                crate::text::push_vec(&mut label, &desc);
                push_text(&mut label, "]");
                push_text(&mut details, "gpu_pipeline mode active; driver: ");
                crate::text::push_vec(&mut details, &driver);
            } else {
                push_text(&mut label, "GPU accel: off (gpu fallback)");
                push_text(&mut details, "gpu_pipeline requested, but GPU init failed.");
            }
        },
    }
    proof {
        assert(desc@ =~= adapter_description(opt_text(status.adapter_name), opt_text(status.adapter_backend)));
        assert(label@ =~= status_label(backend, status.available, desc@));
    }
    PreviewStatusSummary {
        label: string_of(&label),
        details: Some(string_of(&details)),
        vendor: detect_gpu_vendor(status),
    }
}

/// The startup line that reports the preview backend.
pub open spec fn backend_report(backend: PreviewBackend, available: bool, desc: Seq<char>) -> Seq<char> {
    match backend {
        PreviewBackend::Cpu => "photograph: preview backend = cpu (debug fallback mode)"@,
        PreviewBackend::Auto => if available {
            "photograph: preview backend = auto (gpu_pipeline active on "@ + desc + ")"@
        } else {
            "photograph: preview backend = auto (gpu unavailable; debug cpu fallback)"@
        },
        PreviewBackend::GpuPipeline => if available {
            "photograph: preview backend = gpu_pipeline ("@ + desc + ")"@
        } else {
            "photograph: preview backend = gpu_pipeline requested, but gpu unavailable"@
        },
    }
}

/// Formats the startup report of the preview backend.
pub fn report_preview_backend(backend: PreviewBackend, status: &RuntimeStatus) -> (r: String)
    ensures
        r@ == backend_report(
            backend,
            status.available,
            adapter_description(opt_text(status.adapter_name), opt_text(status.adapter_backend)),
        ),
{
    let mut desc: Vec<char> = Vec::new();
    match (&status.adapter_name, &status.adapter_backend) {
        (Some(name), Some(api)) => {
            push_text(&mut desc, name.as_str());
            push_text(&mut desc, " (");
            push_text(&mut desc, api.as_str());
            push_text(&mut desc, ")");
        },
        (Some(name), None) => {
            push_text(&mut desc, name.as_str());
        },
        _ => {
            push_text(&mut desc, "n/a");
        },
    }
    let mut out: Vec<char> = Vec::new();
    match backend {
        PreviewBackend::Cpu => {
            push_text(&mut out, "photograph: preview backend = cpu (debug fallback mode)");
        },
        PreviewBackend::Auto => {
            if status.available {
                push_text(&mut out, "photograph: preview backend = auto (gpu_pipeline active on ");
                crate::text::push_vec(&mut out, &desc);
                push_text(&mut out, ")");
            } else {
                push_text(&mut out, "photograph: preview backend = auto (gpu unavailable; debug cpu fallback)");
            }
        },
        PreviewBackend::GpuPipeline => {
            if status.available {
                push_text(&mut out, "photograph: preview backend = gpu_pipeline (");
                crate::text::push_vec(&mut out, &desc);
                push_text(&mut out, ")");
            } else {
                push_text(&mut out, "photograph: preview backend = gpu_pipeline requested, but gpu unavailable");
            }
        },
    }
    proof {
        assert(desc@ =~= adapter_description(opt_text(status.adapter_name), opt_text(status.adapter_backend)));
        assert(out@ =~= backend_report(backend, status.available, desc@));
    }
    string_of(&out)
}

} // verus!
