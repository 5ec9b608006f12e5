use photograph::render::{RenderMonitor, RenderRequestError};
use photograph::backend::PreviewBackend;
use photograph::status::{preview_status_summary, report_preview_backend};
use photograph::gpu_pipeline::{
    detect_gpu_vendor, exceeds_texture_limit, is_available, max_texture_dimension,
    runtime_status, AdapterInfo, GpuVendor, RuntimeStatus,
};
use photograph::metadata::ImageMetadata;
use photograph::state::sidecar_path;
use photograph::thumbnail::{
    cache_path, is_image, is_raw_image, is_supported_image,
};

#[test]
fn raw_extension_detection_is_case_insensitive() {
    assert!(is_raw_image("/tmp/a.raf"));
    assert!(is_raw_image("/tmp/a.RAF"));
    assert!(!is_raw_image("/tmp/a.jpg"));
}

#[test]
fn supported_images() {
    assert!(is_supported_image("/x/a.JPEG"));
    assert!(is_supported_image("/x/a.heic"));
    assert!(!is_supported_image("/x/a.txt"));
    assert!(!is_supported_image("/x/noext"));
    assert!(is_image("/x/b.Nef"));
}

#[test]
fn sidecar_uses_edits_folder() {
    let p = sidecar_path("/photos/IMG_001.RAF");
    assert_eq!(p, "/photos/.edits/IMG_001.RAF.json");
}

#[test]
fn thumbnail_cache_path_appends_webp() {
    assert_eq!(cache_path("/photos/IMG_1.RAF", "/cache"), "/cache/IMG_1.RAF.webp");
}

fn adapter(name: &str, driver: &str, vendor_id: u32) -> Option<AdapterInfo> {
    Some(AdapterInfo {
        name: name.to_string(),
        backend: "Vulkan".to_string(),
        driver: driver.to_string(),
        vendor_id,
        max_texture_dimension_2d: 8192,
    })
}

#[test]
fn runtime_status_reflects_adapter() {
    let none: Option<AdapterInfo> = None;
    assert!(!is_available(&none));
    assert_eq!(max_texture_dimension(&none), 0);
    let s = runtime_status(&none);
    assert!(!s.available && s.adapter_name.is_none());
    let a = adapter("GeForce", "550", 0x10DE);
    assert!(is_available(&a));
    assert_eq!(max_texture_dimension(&a), 8192);
    let s = runtime_status(&a);
    assert_eq!(s.adapter_vendor_id, Some(0x10DE));
    assert_eq!(s.adapter_backend.as_deref(), Some("Vulkan"));
}

#[test]
fn texture_limit_checks() {
    assert!(!exceeds_texture_limit(9000, 10, 0));
    assert!(exceeds_texture_limit(9000, 10, 8192));
    assert!(!exceeds_texture_limit(8192, 8192, 8192));
}

#[test]
fn vendor_detection() {
    let status = |name: &str, driver: &str, id: u32| -> RuntimeStatus { runtime_status(&adapter(name, driver, id)) };
    assert_eq!(detect_gpu_vendor(&status("x", "y", 0x10DE)), Some(GpuVendor::Nvidia));
    assert_eq!(detect_gpu_vendor(&status("x", "y", 0x1022)), Some(GpuVendor::Amd));
    assert_eq!(detect_gpu_vendor(&status("x", "y", 0x8086)), Some(GpuVendor::Intel));
    assert_eq!(detect_gpu_vendor(&status("x", "y", 0x106B)), Some(GpuVendor::Apple));
    assert_eq!(detect_gpu_vendor(&status("AMD Radeon RX", "", 0)), Some(GpuVendor::Amd));
    assert_eq!(detect_gpu_vendor(&status("llvmpipe", "Mesa Intel", 0)), Some(GpuVendor::Intel));
    assert_eq!(detect_gpu_vendor(&status("Apple M2", "", 0)), Some(GpuVendor::Apple));
    assert_eq!(detect_gpu_vendor(&status("llvmpipe", "mesa", 0)), None);
    assert_eq!(GpuVendor::Nvidia.badge_text(), "NVIDIA");
}

#[test]
fn metadata_long_edge() {
    let mut m = ImageMetadata::empty();
    assert_eq!(m.long_edge(), None);
    m.width = Some(6000);
    assert_eq!(m.long_edge(), None);
    m.height = Some(4000);
    assert_eq!(m.long_edge(), Some(6000));
}

#[test]
fn status_summary_texts() {
    let none: Option<AdapterInfo> = None;
    let off = preview_status_summary(PreviewBackend::Auto, &runtime_status(&none));
    assert_eq!(off.label, "GPU accel: off (auto fallback)");
    assert_eq!(off.vendor, None);
    let cpu = preview_status_summary(PreviewBackend::Cpu, &runtime_status(&none));
    assert_eq!(cpu.label, "GPU accel: off (cpu mode)");
    let on = preview_status_summary(PreviewBackend::GpuPipeline, &runtime_status(&adapter("RTX", "550.1", 0x10DE)));
    assert_eq!(on.label, "GPU accel: on [RTX (Vulkan)]");
    assert_eq!(on.details.as_deref(), Some("gpu_pipeline mode active; driver: 550.1"));
    assert_eq!(on.vendor, Some(GpuVendor::Nvidia));
}

#[test]
fn backend_report_texts() {
    let none: Option<AdapterInfo> = None;
    assert_eq!(
        report_preview_backend(PreviewBackend::Cpu, &runtime_status(&none)),
        "photograph: preview backend = cpu (debug fallback mode)"
    );
    assert_eq!(
        report_preview_backend(PreviewBackend::Auto, &runtime_status(&none)),
        "photograph: preview backend = auto (gpu unavailable; debug cpu fallback)"
    );
    let a = adapter("RTX", "550", 0x10DE);
    assert_eq!(
        report_preview_backend(PreviewBackend::GpuPipeline, &runtime_status(&a)),
        "photograph: preview backend = gpu_pipeline (RTX (Vulkan))"
    );
    assert_eq!(GpuVendor::Intel.badge_fill(), (0, 113, 197));
}

#[test]
fn extension_checks_ignore_case() {
    assert!(photograph::thumbnail::is_raw_extension("CR2"));
    assert!(!photograph::thumbnail::is_raw_extension("jpg"));
    assert!(photograph::thumbnail::is_supported_extension("Tif"));
    assert!(!photograph::thumbnail::is_supported_extension("gif"));
}

#[test]
fn blank_driver_is_shown_as_unknown() {
    let s = runtime_status(&adapter("GPU", "  ", 1));
    assert_eq!(s.adapter_driver.as_deref(), Some("unknown"));
    let s = runtime_status(&adapter("GPU", "", 1));
    assert_eq!(s.adapter_driver.as_deref(), Some("unknown"));
    let s = runtime_status(&adapter("GPU", "535.1", 1));
    assert_eq!(s.adapter_driver.as_deref(), Some("535.1"));
    assert_eq!(photograph::gpu_pipeline::display_driver("\t"), "unknown");
}

#[test]
fn refusal_keeps_counters() {
    let mut m = RenderMonitor::new();
    m.start(4);
    m.refuse(RenderRequestError::NoOpenImages);
    assert_eq!((m.total, m.done, m.ok, m.failed), (4, 0, 0, 0));
    assert!(m.in_progress);
    assert_eq!(m.status, "No open images to render");
}
