//! Preview backend selection: parsing the configured name, the policy that
//! gates the CPU path behind the debug flag, and what happens when the GPU
//! path fails.

use vstd::prelude::*;
use crate::text::{ascii_lower, chars_equal, chars_of, to_ascii_lower, trim_chars, trimmed};

verus! {

/// The engine that renders previews.
#[derive(Clone, Copy, Debug, PartialEq, Eq, Structural)]
pub enum PreviewBackend {
    Cpu,
    Auto,
    GpuPipeline,
}

/// Whether a normalised name is one of the spellings of the GPU backend.
pub open spec fn is_gpu_name(name: Seq<char>) -> bool {
    ||| name == seq!['g', 'p', 'u']
    ||| name == seq!['g', 'p', 'u', '_', 'p', 'i', 'p', 'e', 'l', 'i', 'n', 'e']
    ||| name == seq!['g', 'p', 'u', '_', 's', 'p', 'i', 'k', 'e']
    ||| name == seq!['s', 'p', 'i', 'k', 'e']
    ||| name == seq!['w', 'g', 'p', 'u']
}

/// The backend a normalised (trimmed, lower-case) name selects; unknown names
/// select `Auto`.
pub open spec fn backend_for_name(name: Seq<char>) -> PreviewBackend {
    if name == seq!['c', 'p', 'u'] {
        PreviewBackend::Cpu
    } else if name == seq!['a', 'u', 't', 'o'] {
        PreviewBackend::Auto
    } else if is_gpu_name(name) {
        PreviewBackend::GpuPipeline
    } else {
        PreviewBackend::Auto
    }
}

/// Whether a normalised value of the debug-fallback flag turns it on.
pub open spec fn is_truthy_name(name: Seq<char>) -> bool {
    ||| name == seq!['1']
    ||| name == seq!['t', 'r', 'u', 'e']
    ||| name == seq!['y', 'e', 's']
    ||| name == seq!['o', 'n']
}

/// The normal form of a configuration word: trimmed, then ASCII lower-cased.
pub open spec fn normalized(s: Seq<char>) -> Seq<char> {
    ascii_lower(trimmed(s))
}

/// The backend that an already trimmed name selects, ignoring ASCII case;
/// unknown names select `Auto`.
pub fn backend_from_trimmed(name: &str) -> (r: PreviewBackend)
    ensures
        r == backend_for_name(ascii_lower(name@)),
{
    backend_for_lowered(&to_ascii_lower(&chars_of(name)))
}

fn backend_for_lowered(norm: &Vec<char>) -> (r: PreviewBackend)
    ensures
        r == backend_for_name(norm@),
{
    if chars_equal(norm, &['c', 'p', 'u']) {
        PreviewBackend::Cpu
    } else if chars_equal(norm, &['a', 'u', 't', 'o']) {
        PreviewBackend::Auto
    } else if chars_equal(norm, &['g', 'p', 'u'])
        || chars_equal(norm, &['g', 'p', 'u', '_', 'p', 'i', 'p', 'e', 'l', 'i', 'n', 'e'])
        || chars_equal(norm, &['g', 'p', 'u', '_', 's', 'p', 'i', 'k', 'e'])
        || chars_equal(norm, &['s', 'p', 'i', 'k', 'e'])
        || chars_equal(norm, &['w', 'g', 'p', 'u']) {
        PreviewBackend::GpuPipeline
    } else {
        PreviewBackend::Auto
    }
}

/// Reads a preview backend name, ignoring surrounding white space and ASCII
/// case; any unknown value selects `Auto`.
pub fn parse_preview_backend(value: &str) -> (r: PreviewBackend)
    ensures
        r == backend_for_name(normalized(value@)),
{
    backend_for_lowered(&to_ascii_lower(&trim_chars(value)))
}

/// The configured backend: the environment's value when set, else the
/// config file's, else `Auto`.
pub open spec fn configured_backend(env_value: Option<Seq<char>>, config_value: Option<Seq<char>>) -> PreviewBackend {
    match env_value {
        Some(e) => backend_for_name(normalized(e)),
        None => match config_value {
            Some(c) => backend_for_name(normalized(c)),
            None => PreviewBackend::Auto,
        },
    }
}

/// Picks the requested backend from the environment variable's value, then
/// the config file's setting, then the default.
pub fn resolve_preview_backend(env_value: Option<&str>, config_value: Option<&str>) -> (r: PreviewBackend)
    ensures
        r == configured_backend(
            match env_value {
                Some(e) => Some(e@),
                None => None,
            },
            match config_value {
                Some(c) => Some(c@),
                None => None,
            },
        ),
{
    match env_value {
        Some(e) => parse_preview_backend(e),
        None => match config_value {
            Some(c) => parse_preview_backend(c),
            None => PreviewBackend::Auto,
        },
    }
}

/// The backend actually used: `Cpu` is honoured only with the debug fallback
/// flag, and is otherwise coerced to the GPU pipeline.
pub open spec fn effective_backend(requested: PreviewBackend, allow_debug_cpu_fallback: bool) -> PreviewBackend {
    if requested == PreviewBackend::Cpu && !allow_debug_cpu_fallback {
        PreviewBackend::GpuPipeline
    } else {
        requested
    }
}

/// Applies the CPU gating policy to a requested backend.
pub fn effective_preview_backend(requested: PreviewBackend, allow_debug_cpu_fallback: bool) -> (r: PreviewBackend)
    ensures
        r == effective_backend(requested, allow_debug_cpu_fallback),
{
    if requested == PreviewBackend::Cpu && !allow_debug_cpu_fallback {
        PreviewBackend::GpuPipeline
    } else {
        requested
    }
}

/// Whether an already trimmed value of the debug-fallback variable enables
/// the fallback: `1`, `true`, `yes` or `on`, ignoring ASCII case.
pub fn truthy_from_trimmed(value: &str) -> (r: bool)
    ensures
        r == is_truthy_name(ascii_lower(value@)),
{
    truthy_lowered(&to_ascii_lower(&chars_of(value)))
}

fn truthy_lowered(norm: &Vec<char>) -> (r: bool)
    ensures
        r == is_truthy_name(norm@),
{
    let one = ['1'];
    let t = ['t', 'r', 'u', 'e'];
    let y = ['y', 'e', 's'];
    let o = ['o', 'n'];
    proof {
        assert(one@ =~= seq!['1']);
        assert(t@ =~= seq!['t', 'r', 'u', 'e']);
        assert(y@ =~= seq!['y', 'e', 's']);
        assert(o@ =~= seq!['o', 'n']);
    }
    chars_equal(norm, &one) || chars_equal(norm, &t) || chars_equal(norm, &y) || chars_equal(norm, &o)
}

/// Whether a raw value of the debug-fallback variable enables the fallback:
/// `1`, `true`, `yes` or `on`, ignoring surrounding white space and ASCII case.
pub fn debug_fallback_truthy(raw: &str) -> (r: bool)
    ensures
        r == is_truthy_name(normalized(raw@)),
{
    truthy_lowered(&to_ascii_lower(&trim_chars(raw)))
}

/// Whether the process may start: a GPU is present, or the debug fallback is on.
pub fn gpu_policy_allows_start(gpu_available: bool, allow_debug_cpu_fallback: bool) -> (r: bool)
    ensures
        r == (gpu_available || allow_debug_cpu_fallback),
{
    gpu_available || allow_debug_cpu_fallback
}

/// Where a preview or render job runs first.
#[derive(Clone, Copy, Debug, PartialEq, Eq, Structural)]
pub enum Route {
    Cpu,
    Gpu,
}

/// The first route of a job under `backend`.
pub open spec fn route_of(backend: PreviewBackend) -> Route {
    if backend == PreviewBackend::Cpu { Route::Cpu } else { Route::Gpu }
}

/// The first route of a job: only the (effective) `Cpu` backend skips the GPU.
pub fn initial_route(backend: PreviewBackend) -> (r: Route)
    ensures
        r == route_of(backend),
{
    match backend {
        PreviewBackend::Cpu => Route::Cpu,
        _ => Route::Gpu,
    }
}

/// What to do once the GPU path has come back.
#[derive(Clone, Copy, Debug, PartialEq, Eq, Structural)]
pub enum GpuOutcome {
    /// The GPU result stands.
    UseGpuResult,
    /// The GPU failed: run the CPU pipeline instead.
    FallBackToCpu,
    /// The GPU failed and the fallback is off: the operation fails.
    Fail,
}

/// What follows a GPU attempt: its result on success; after a failure the
/// CPU when the fallback is on, else failure.
pub open spec fn outcome_of(gpu_succeeded: bool, allow_debug_cpu_fallback: bool) -> GpuOutcome {
    if gpu_succeeded {
        GpuOutcome::UseGpuResult
    } else if allow_debug_cpu_fallback {
        GpuOutcome::FallBackToCpu
    } else {
        GpuOutcome::Fail
    }
}

/// Whether a GPU attempt emits the failure diagnostic: it failed and none
/// was emitted before.
pub open spec fn emits_diagnostic(reported: bool, gpu_succeeded: bool) -> bool {
    !gpu_succeeded && !reported
}

/// Remembers whether the one diagnostic for GPU failures was already emitted.
pub struct FallbackReporter {
    pub reported: bool,
}

impl FallbackReporter {
    pub fn new() -> (r: FallbackReporter)
        ensures
            !r.reported,
    {
        FallbackReporter { reported: false }
    }

    /// Decides what follows a GPU attempt. A failure is reported once per
    /// reporter: the result's second field says whether to emit the diagnostic
    /// now. After a failure the CPU runs if and only if the fallback is on.
    pub fn resolve(&mut self, gpu_succeeded: bool, allow_debug_cpu_fallback: bool) -> (r: (GpuOutcome, bool))
        ensures
            r.0 == outcome_of(gpu_succeeded, allow_debug_cpu_fallback),
            r.1 == emits_diagnostic(old(self).reported, gpu_succeeded),
            final(self).reported == (old(self).reported || !gpu_succeeded),
    {
        if gpu_succeeded {
            return (GpuOutcome::UseGpuResult, false);
        }
        let emit = !self.reported;
        self.reported = true;
        if allow_debug_cpu_fallback {
            (GpuOutcome::FallBackToCpu, emit)
        } else {
            (GpuOutcome::Fail, emit)
        }
    }
}

/// Runs a job under `backend`: the CPU pipeline for the `Cpu` route, else
/// the GPU pipeline, whose failure is settled by the fallback policy. The
/// result is the image, or `None` when the job fails, and whether the GPU
/// failed (for `FallbackReporter::resolve` to report).
pub fn process_with_backend<T, FG, FC>(
    backend: PreviewBackend,
    allow_debug_cpu_fallback: bool,
    gpu_apply: FG,
    cpu_apply: FC,
) -> (r: (Option<T>, bool))
    where
        FG: Fn() -> Option<T>,
        FC: Fn() -> T,
    requires
        gpu_apply.requires(()),
        cpu_apply.requires(()),
    ensures
        route_of(backend) == Route::Cpu ==> r.0 is Some && cpu_apply.ensures((), r.0->0) && !r.1,
        route_of(backend) == Route::Gpu ==> exists|g: Option<T>| {
            &&& #[trigger] gpu_apply.ensures((), g)
            &&& r.1 == g is None
            &&& match outcome_of(g is Some, allow_debug_cpu_fallback) {
                GpuOutcome::UseGpuResult => r.0 == g,
                GpuOutcome::FallBackToCpu => r.0 is Some && cpu_apply.ensures((), r.0->0),
                GpuOutcome::Fail => r.0 is None,
            }
        },
{
    match initial_route(backend) {
        Route::Cpu => (Some(cpu_apply()), false),
        Route::Gpu => {
            let g = gpu_apply();
            let ghost gv = g;
            let failed = g.is_none();
            let r = if !failed {
                g
            } else if allow_debug_cpu_fallback {
                Some(cpu_apply())
            } else {
                None
            };
            proof {
                assert(gpu_apply.ensures((), gv));
            }
            (r, failed)
        },
    }
}

/// The selector's policy: `Cpu` without the debug flag goes to the GPU, with
/// it to the CPU; a failed GPU attempt fails without the flag and falls back
/// to the CPU with it.
pub proof fn lemma_selector_policy()
    ensures
        route_of(effective_backend(PreviewBackend::Cpu, false)) == Route::Gpu,
        route_of(effective_backend(PreviewBackend::Cpu, true)) == Route::Cpu,
        route_of(effective_backend(PreviewBackend::Auto, false)) == Route::Gpu,
        outcome_of(false, false) == GpuOutcome::Fail,
        outcome_of(false, true) == GpuOutcome::FallBackToCpu,
{
}

/// After one GPU failure has been seen, no later attempt emits the
/// diagnostic again, whatever it comes to.
pub proof fn lemma_failure_reported_once(reported: bool, first_succeeded: bool, second_succeeded: bool)
    requires
        !first_succeeded,
    ensures
        !emits_diagnostic(reported || !first_succeeded, second_succeeded),
{
}

} // verus!
