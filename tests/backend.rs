use photograph::backend::{
    debug_fallback_truthy, effective_preview_backend, gpu_policy_allows_start, initial_route,
    parse_preview_backend, process_with_backend, resolve_preview_backend, FallbackReporter, GpuOutcome, PreviewBackend, Route,
};

#[test]
fn parse_preview_backend_handles_supported_values() {
    assert_eq!(parse_preview_backend("cpu"), PreviewBackend::Cpu);
    assert_eq!(parse_preview_backend("auto"), PreviewBackend::Auto);
    assert_eq!(parse_preview_backend("gpu"), PreviewBackend::GpuPipeline);
    assert_eq!(
        parse_preview_backend("gpu_pipeline"),
        PreviewBackend::GpuPipeline
    );
    assert_eq!(
        parse_preview_backend("gpu_spike"),
        PreviewBackend::GpuPipeline
    );
}

#[test]
fn parse_preview_backend_defaults_to_auto_for_unknown_values() {
    assert_eq!(parse_preview_backend("unknown"), PreviewBackend::Auto);
}

#[test]
fn parse_preview_backend_ignores_case_and_spaces() {
    assert_eq!(parse_preview_backend("  CPU \n"), PreviewBackend::Cpu);
    assert_eq!(parse_preview_backend("WGPU"), PreviewBackend::GpuPipeline);
    assert_eq!(parse_preview_backend("Spike"), PreviewBackend::GpuPipeline);
    assert_eq!(parse_preview_backend(""), PreviewBackend::Auto);
}

#[test]
fn cpu_backend_requires_debug_fallback_flag() {
    assert_eq!(
        effective_preview_backend(PreviewBackend::Cpu, false),
        PreviewBackend::GpuPipeline
    );
    assert_eq!(
        effective_preview_backend(PreviewBackend::Cpu, true),
        PreviewBackend::Cpu
    );
}

#[test]
fn non_cpu_backends_are_kept_whatever_the_flag() {
    for flag in [false, true] {
        assert_eq!(effective_preview_backend(PreviewBackend::Auto, flag), PreviewBackend::Auto);
        assert_eq!(
            effective_preview_backend(PreviewBackend::GpuPipeline, flag),
            PreviewBackend::GpuPipeline
        );
    }
}

#[test]
fn debug_fallback_truthy_parser_matches_expected_values() {
    assert!(debug_fallback_truthy("1"));
    assert!(debug_fallback_truthy(" true "));
    assert!(debug_fallback_truthy("YES"));
    assert!(debug_fallback_truthy("on"));
    assert!(!debug_fallback_truthy("0"));
    assert!(!debug_fallback_truthy("false"));
    assert!(!debug_fallback_truthy("no"));
}

#[test]
fn startup_refused_without_gpu_or_flag() {
    assert!(!gpu_policy_allows_start(false, false));
    assert!(gpu_policy_allows_start(false, true));
    assert!(gpu_policy_allows_start(true, false));
}

#[test]
fn only_cpu_backend_skips_the_gpu() {
    assert_eq!(initial_route(PreviewBackend::Cpu), Route::Cpu);
    assert_eq!(initial_route(PreviewBackend::Auto), Route::Gpu);
    assert_eq!(initial_route(PreviewBackend::GpuPipeline), Route::Gpu);
}

#[test]
fn gpu_failure_with_flag_falls_back_and_reports_once() {
    let mut reporter = FallbackReporter::new();
    assert_eq!(reporter.resolve(false, true), (GpuOutcome::FallBackToCpu, true));
    assert_eq!(reporter.resolve(false, true), (GpuOutcome::FallBackToCpu, false));
    assert_eq!(reporter.resolve(true, true), (GpuOutcome::UseGpuResult, false));
    assert_eq!(reporter.resolve(false, true), (GpuOutcome::FallBackToCpu, false));
}

#[test]
fn gpu_failure_without_flag_is_an_error() {
    let mut reporter = FallbackReporter::new();
    assert_eq!(reporter.resolve(false, false), (GpuOutcome::Fail, true));
    assert_eq!(reporter.resolve(false, false), (GpuOutcome::Fail, false));
}

#[test]
fn gpu_success_reports_nothing() {
    let mut reporter = FallbackReporter::new();
    assert_eq!(reporter.resolve(true, false), (GpuOutcome::UseGpuResult, false));
    assert!(!reporter.reported);
}

#[test]
fn environment_overrides_config() {
    assert_eq!(resolve_preview_backend(Some("cpu"), Some("gpu")), PreviewBackend::Cpu);
    assert_eq!(resolve_preview_backend(None, Some("gpu")), PreviewBackend::GpuPipeline);
    assert_eq!(resolve_preview_backend(None, None), PreviewBackend::Auto);
    assert_eq!(resolve_preview_backend(Some("bogus"), Some("cpu")), PreviewBackend::Auto);
}

#[test]
fn cpu_backend_never_calls_the_gpu() {
    let (out, failed) = process_with_backend(
        PreviewBackend::Cpu,
        true,
        || -> Option<u8> { panic!("gpu path should not be called in cpu mode") },
        || 7u8,
    );
    assert_eq!((out, failed), (Some(7), false));
}

#[test]
fn auto_backend_uses_gpu_result_when_it_succeeds() {
    let (out, failed) = process_with_backend(PreviewBackend::Auto, false, || Some(3u8), || 7u8);
    assert_eq!((out, failed), (Some(3), false));
}

#[test]
fn auto_backend_without_gpu_falls_back_only_with_flag() {
    let (out, failed) = process_with_backend(PreviewBackend::Auto, true, || None, || 7u8);
    assert_eq!((out, failed), (Some(7), true));
    let (out, failed) = process_with_backend(PreviewBackend::Auto, false, || None, || 7u8);
    assert_eq!((out, failed), (None, true));
}

#[test]
fn trimmed_names_are_read_without_trimming_again() {
    assert_eq!(photograph::backend::backend_from_trimmed("GPU_Pipeline"), PreviewBackend::GpuPipeline);
    assert_eq!(photograph::backend::backend_from_trimmed(" cpu"), PreviewBackend::Auto);
    assert!(photograph::backend::truthy_from_trimmed("On"));
    assert!(!photograph::backend::truthy_from_trimmed(" on"));
}

#[test]
fn unicode_white_space_is_trimmed() {
    assert_eq!(parse_preview_backend("\u{3000}gpu\u{a0}\u{2029}"), PreviewBackend::GpuPipeline);
    assert!(debug_fallback_truthy("\u{85}yes\t"));
    assert_eq!(parse_preview_backend("\u{200b}cpu"), PreviewBackend::Auto);
}
