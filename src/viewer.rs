//! The per-image preview scheduler. The owner feeds it edits, clock ticks,
//! zoom changes and worker results; it answers with the jobs to start. Every
//! job is stamped with a generation, and a result whose stamp is no longer the
//! requested generation is cached but never shown.

use vstd::prelude::*;
use crate::backend::PreviewBackend;
use crate::preview_cache::{
    PreviewCache, PreviewCacheKey, PreviewFrame, ProcessQuality, PREVIEW_CACHE_CAPACITY, same_frame,
};
use crate::paths::{file_name, file_name_of};
use crate::raster::RgbaImage;

verus! {

/// Aspect-ratio constraints offered while cropping.
#[derive(Clone, Copy, Debug, PartialEq, Eq, Structural)]
pub enum CropAspect {
    Free,
    Square,
    Photo4x3,
    Wide16x9,
    Original,
}

impl CropAspect {
    /// The name shown for the constraint.
    pub fn label(self) -> (r: &'static str)
        ensures
            r@ == (match self {
                CropAspect::Free => "Free"@,
                CropAspect::Square => "1:1"@,
                CropAspect::Photo4x3 => "4:3"@,
                CropAspect::Wide16x9 => "16:9"@,
                CropAspect::Original => "Original"@,
            }),
    {
        match self {
            CropAspect::Free => "Free",
            CropAspect::Square => "1:1",
            CropAspect::Photo4x3 => "4:3",
            CropAspect::Wide16x9 => "16:9",
            CropAspect::Original => "Original",
        }
    }

    /// The width-to-height ratio as a fraction, when the constraint fixes
    /// one by itself (`Original` takes the image's own).
    pub fn ratio_parts(self) -> (r: Option<(u32, u32)>)
        ensures
            r == (match self {
                CropAspect::Square => Some((1u32, 1u32)),
                CropAspect::Photo4x3 => Some((4u32, 3u32)),
                CropAspect::Wide16x9 => Some((16u32, 9u32)),
                _ => None,
            }),
    {
        match self {
            CropAspect::Square => Some((1, 1)),
            CropAspect::Photo4x3 => Some((4, 3)),
            CropAspect::Wide16x9 => Some((16, 9)),
            _ => None,
        }
    }
}

/// The swatch colour of selective-colour band `idx` (red, orange, yellow,
/// green, cyan, blue, purple, pink); grey past the last band.
pub open spec fn band_color(idx: usize) -> (u8, u8, u8) {
    if idx == 0 { (220, 64, 64) }
    else if idx == 1 { (226, 140, 55) }
    else if idx == 2 { (224, 197, 67) }
    else if idx == 3 { (74, 170, 86) }
    else if idx == 4 { (70, 176, 195) }
    else if idx == 5 { (72, 120, 220) }
    else if idx == 6 { (145, 98, 208) }
    else if idx == 7 { (216, 102, 168) }
    else { (160, 160, 160) }
}

/// The swatch colour of a selective-colour band.
pub fn selective_base_color(idx: usize) -> (r: (u8, u8, u8))
    ensures
        r == band_color(idx),
{
    match idx {
        0 => (220, 64, 64),
        1 => (226, 140, 55),
        2 => (224, 197, 67),
        3 => (74, 170, 86),
        4 => (70, 176, 195),
        5 => (72, 120, 220),
        6 => (145, 98, 208),
        7 => (216, 102, 168),
        _ => (160, 160, 160),
    }
}

/// Whether a label on a swatch of this colour is drawn dark: the Rec. 709
/// luminance `0.2126 r + 0.7152 g + 0.0722 b` exceeds 160.
pub fn selective_label_is_dark(r: u8, g: u8, b: u8) -> (dark: bool)
    ensures
        dark == (2126 * r as int + 7152 * g as int + 722 * b as int > 1_600_000),
{
    let l: u32 = 2126 * r as u32 + 7152 * g as u32 + 722 * b as u32;
    l > 1_600_000
}

/// Longest edge of a freshly loaded preview.
pub const PREVIEW_MAX: u32 = 1920;
/// Longest edge of the input of an interactive pass.
pub const INTERACTIVE_PREVIEW_MAX: u32 = 960;
/// Quiet time after the last edit before the final pass, in milliseconds.
pub const DEBOUNCE_MS: u64 = 300;
/// Least time between two interactive passes, in milliseconds.
pub const INTERACTIVE_REFRESH_MS: u64 = 90;

/// The generation after `g`, wrapping at the top of `u64`.
pub open spec fn next_generation(g: u64) -> u64 {
    if g == u64::MAX { 0 } else { (g + 1) as u64 }
}

/// Time from `t` to `now`, or zero when `now` is earlier.
pub open spec fn elapsed(now: u64, t: u64) -> u64 {
    if now >= t { (now - t) as u64 } else { 0 }
}

/// `requested` after a pending edit has been seen during a job: it moves on
/// exactly when a job is running, an edit waits, and the job carries the
/// current generation (so one job invalidates it at most once).
pub open spec fn bumped_generation(
    processing: bool,
    needs_process: bool,
    in_flight_generation: Option<u64>,
    requested: u64,
) -> u64 {
    if processing && needs_process && in_flight_generation == Some(requested) {
        next_generation(requested)
    } else {
        requested
    }
}

fn next_gen(g: u64) -> (r: u64)
    ensures
        r == next_generation(g),
{
    if g == u64::MAX { 0 } else { g + 1 }
}

fn elapsed_ms(now: u64, t: u64) -> (r: u64)
    ensures
        r == elapsed(now, t),
{
    if now >= t { now - t } else { 0 }
}

/// Moves `requested_generation` on when an edit arrives while the job stamped
/// with it is still running, so that its result is discarded on arrival.
pub fn bump_requested_generation_for_pending_changes(
    processing: bool,
    needs_process: bool,
    in_flight_generation: Option<u64>,
    requested_generation: &mut u64,
)
    ensures
        *final(requested_generation) == bumped_generation(
            processing,
            needs_process,
            in_flight_generation,
            *old(requested_generation),
        ),
{
    let is_current = match in_flight_generation {
        Some(g) => g == *requested_generation,
        None => false,
    };
    if processing && needs_process && is_current {
        *requested_generation = next_gen(*requested_generation);
    }
}

/// A processing job for a background worker.
#[derive(Clone, Copy, Debug, PartialEq, Eq, Structural)]
pub struct ProcessJob {
    pub generation: u64,
    pub key: PreviewCacheKey,
    pub quality: ProcessQuality,
}

/// What starting a pass came to.
pub enum TriggerResult {
    /// Nothing started: no preview yet, or a job is running.
    Skipped,
    /// The cache held the result; it is now the shown frame.
    CacheHit,
    /// A worker must run this job.
    Dispatch(ProcessJob),
}

/// What one tick asks of the owner.
pub struct TickOutcome {
    /// The pass that began this tick, served from cache or dispatched.
    pub started: Option<ProcessQuality>,
    /// A worker to start.
    pub job: Option<ProcessJob>,
    /// A higher-resolution preview load to start, with its long-edge cap.
    pub reload_cap: Option<u32>,
    /// When to tick again, in milliseconds from now.
    pub wake_after_ms: Option<u64>,
}

/// Preview scheduling state of one image viewer.
pub struct Viewer {
    pub id: usize,
    pub preview_backend: PreviewBackend,
    pub current_path: Option<String>,
    pub source_signature: u64,
    /// The loaded, downsampled preview input.
    pub preview: Option<RgbaImage>,
    /// Fingerprint of the current edit state.
    pub edit_signature: u64,
    pub needs_process: bool,
    pub needs_final_process: bool,
    pub last_slider_change: Option<u64>,
    pub last_interactive_process: Option<u64>,
    pub loading: bool,
    pub reloading_preview: bool,
    pub processing: bool,
    pub requested_generation: u64,
    pub in_flight_generation: Option<u64>,
    /// Key of the job in flight.
    pub in_flight_key: Option<PreviewCacheKey>,
    /// Long-edge cap of the current preview.
    pub preview_max: u32,
    /// Zoom level in percent.
    pub zoom_percent: u32,
    /// Long edge of the source image, when known.
    pub native_long_edge: Option<u32>,
    pub last_zoom_change: Option<u64>,
    /// The frame on screen.
    pub texture: Option<PreviewFrame>,
    /// Key of the frame on screen.
    pub texture_key: Option<PreviewCacheKey>,
    pub cache: PreviewCache,
}

/// The cache key of a pass of `quality` over the viewer's current input.
pub open spec fn key_for(v: Viewer, quality: ProcessQuality) -> PreviewCacheKey {
    PreviewCacheKey {
        source_signature: v.source_signature,
        edit_signature: v.edit_signature,
        input_width: v.preview->0.width,
        input_height: v.preview->0.height,
        quality,
    }
}

/// Whether the final pass may start: the last edit is at least the debounce
/// interval old, or was a reset that asks for no debounce.
pub open spec fn debounce_done(v: Viewer, now: u64) -> bool {
    match v.last_slider_change {
        None => true,
        Some(t) => elapsed(now, t) >= DEBOUNCE_MS,
    }
}

/// Whether an interactive pass may start: the previous one is at least the
/// refresh interval old.
pub open spec fn interactive_ready(v: Viewer, now: u64) -> bool {
    match v.last_interactive_process {
        None => true,
        Some(t) => elapsed(now, t) >= INTERACTIVE_REFRESH_MS,
    }
}

/// Whether work waits and a pass could start now.
pub open spec fn can_start(v: Viewer) -> bool {
    (v.needs_process || v.needs_final_process) && !v.processing && v.preview is Some
}

/// The pass a tick at `now` starts.
pub open spec fn pass_due(v: Viewer, now: u64) -> Option<ProcessQuality> {
    if can_start(v) && debounce_done(v, now) {
        Some(ProcessQuality::Final)
    } else if can_start(v) && v.needs_process && interactive_ready(v, now) {
        Some(ProcessQuality::Interactive)
    } else {
        None
    }
}

/// Whether a worker result stamped `generation` is shown on arrival.
pub open spec fn publishes(v: Viewer, generation: u64) -> bool {
    generation == v.requested_generation
}

/// The relation between a viewer before and after an edit at `now`.
pub open spec fn edited(before: Viewer, after: Viewer, edit_signature: u64, now: Option<u64>) -> bool {
    &&& after.edit_signature == edit_signature
    &&& after.needs_process
    &&& after.last_slider_change == now
    &&& after.requested_generation == bumped_generation(
        before.processing,
        true,
        before.in_flight_generation,
        before.requested_generation,
    )
    &&& after.processing == before.processing
    &&& after.in_flight_generation == before.in_flight_generation
    &&& after.in_flight_key == before.in_flight_key
    &&& after.source_signature == before.source_signature
    &&& after.needs_final_process == before.needs_final_process
    &&& after.last_interactive_process == before.last_interactive_process
    &&& after.preview == before.preview
    &&& after.current_path == before.current_path
    &&& after.cache == before.cache
}

/// While the job in flight carries the requested generation, it was made
/// for the current source and edits.
pub open spec fn current_job_matches(v: Viewer) -> bool {
    (v.processing && v.in_flight_generation == Some(v.requested_generation)) ==> {
        &&& v.in_flight_key is Some
        &&& v.in_flight_key->0.edit_signature == v.edit_signature
        &&& v.in_flight_key->0.source_signature == v.source_signature
    }
}

/// Whether a tick at `now` reloads the preview at a higher cap: the zoom has
/// been still for the debounce interval, asks for more than the current cap,
/// and no load is under way.
pub open spec fn reload_due(v: Viewer, now: u64) -> bool {
    &&& v.last_zoom_change is Some
    &&& elapsed(now, v.last_zoom_change->0) >= DEBOUNCE_MS
    &&& zoom_cap(v.zoom_percent, v.native_long_edge) > v.preview_max as int
    &&& !v.loading
    &&& !v.reloading_preview
}

/// The long-edge cap that a zoom level asks for: the zoomed preview size,
/// never below the default, never above the source's own long edge.
pub open spec fn zoom_cap(zoom_percent: u32, native_long_edge: Option<u32>) -> int {
    let wanted = (PREVIEW_MAX as int * zoom_percent as int + 99) / 100;
    let at_least = if wanted < PREVIEW_MAX as int { PREVIEW_MAX as int } else { wanted };
    match native_long_edge {
        Some(n) => if at_least < n as int { at_least } else { n as int },
        None => if at_least < u32::MAX as int { at_least } else { u32::MAX as int },
    }
}

impl Viewer {
    /// The well-formedness the scheduler keeps.
    pub open spec fn wf(&self) -> bool {
        &&& self.cache.wf()
        &&& self.cache.capacity == PREVIEW_CACHE_CAPACITY
        &&& current_job_matches(*self)
    }

    /// A viewer with nothing loaded.
    pub fn new(id: usize, preview_backend: PreviewBackend) -> (r: Viewer)
        ensures
            r.wf(),
            r.id == id,
            r.preview_backend == preview_backend,
            r.current_path is None,
            r.preview is None,
            r.texture is None,
            !r.needs_process && !r.needs_final_process,
            !r.loading && !r.reloading_preview && !r.processing,
            r.requested_generation == 0,
            r.in_flight_generation is None,
            r.preview_max == PREVIEW_MAX,
            r.zoom_percent == 100,
            r.cache.keys().len() == 0,
    {
        Viewer {
            id,
            preview_backend,
            current_path: None,
            source_signature: 0,
            preview: None,
            edit_signature: 0,
            needs_process: false,
            needs_final_process: false,
            last_slider_change: None,
            last_interactive_process: None,
            loading: false,
            reloading_preview: false,
            processing: false,
            requested_generation: 0,
            in_flight_generation: None,
            in_flight_key: None,
            preview_max: PREVIEW_MAX,
            zoom_percent: 100,
            native_long_edge: None,
            last_zoom_change: None,
            texture: None,
            texture_key: None,
            cache: PreviewCache::new(PREVIEW_CACHE_CAPACITY),
        }
    }

    /// The viewer's stable identifier.
    pub fn id(&self) -> (r: usize)
        ensures
            r == self.id,
    {
        self.id
    }

    /// Whether the first preview of the current image is still loading.
    pub fn is_loading(&self) -> (r: bool)
        ensures
            r == self.loading,
    {
        self.loading
    }

    /// The path of the image shown, if any.
    pub fn path(&self) -> (r: Option<&String>)
        ensures
            r is Some <==> self.current_path is Some,
            r matches Some(p) ==> *p == self.current_path->0,
    {
        self.current_path.as_ref()
    }

    /// The file name of the image shown, for window titles; empty when
    /// there is none.
    pub fn filename(&self) -> (r: String)
        ensures
            r@ == (match self.current_path {
                Some(p) => match file_name_of(p@) {
                    Some(n) => n,
                    None => Seq::empty(),
                },
                None => Seq::empty(),
            }),
    {
        match &self.current_path {
            Some(p) => match file_name(p.as_str()) {
                Some(n) => n,
                None => String::new(),
            },
            None => String::new(),
        }
    }

    fn is_current_path(&self, path: &String) -> (r: bool)
        ensures
            r == (self.current_path is Some && self.current_path->0@ == path@),
    {
        match &self.current_path {
            Some(p) => p.eq(path),
            None => false,
        }
    }

    /// Switches to another image. For a new path everything is reset, the
    /// generation moves on so that results for the previous image are dropped,
    /// and the result is the long-edge cap of the preview load to start; for
    /// the path already shown nothing changes and the result is `None`.
    pub fn set_image(&mut self, path: String, source_signature: u64) -> (r: Option<u32>)
        requires
            old(self).wf(),
        ensures
            final(self).wf(),
            (old(self).current_path is Some && old(self).current_path->0@ == path@) ==> r is None
                && *final(self) == *old(self),
            !(old(self).current_path is Some && old(self).current_path->0@ == path@) ==> {
                &&& r == Some(PREVIEW_MAX)
                &&& final(self).current_path is Some && final(self).current_path->0@ == path@
                &&& final(self).source_signature == source_signature
                &&& final(self).edit_signature == 0
                &&& final(self).preview is None && final(self).texture is None
                &&& final(self).loading && !final(self).reloading_preview && !final(self).processing
                &&& !final(self).needs_process && !final(self).needs_final_process
                &&& final(self).last_slider_change is None
                &&& final(self).requested_generation == next_generation(old(self).requested_generation)
                &&& final(self).in_flight_generation is None
                &&& final(self).preview_max == PREVIEW_MAX
                &&& final(self).zoom_percent == 100
                &&& final(self).cache == old(self).cache
            },
    {
        if self.is_current_path(&path) {
            return None;
        }
        self.current_path = Some(path);
        self.source_signature = source_signature;
        self.preview = None;
        self.texture = None;
        self.texture_key = None;
        self.edit_signature = 0;
        self.needs_process = false;
        self.needs_final_process = false;
        self.last_slider_change = None;
        self.last_interactive_process = None;
        self.loading = true;
        self.reloading_preview = false;
        self.processing = false;
        self.requested_generation = next_gen(self.requested_generation);
        self.in_flight_generation = None;
        self.in_flight_key = None;
        self.preview_max = PREVIEW_MAX;
        self.zoom_percent = 100;
        self.native_long_edge = None;
        self.last_zoom_change = None;
        Some(PREVIEW_MAX)
    }

    /// Records the source's native long edge, which bounds zoom reloads.
    pub fn set_native_long_edge(&mut self, long_edge: Option<u32>)
        ensures
            *final(self) == (Viewer { native_long_edge: long_edge, ..*old(self) }),
    {
        self.native_long_edge = long_edge;
    }

    /// Notes an edit. With `now`, the edit is a slider move that starts the
    /// debounce; with `None` (a reset) the final pass may follow at once. A
    /// running job whose result would now be stale is invalidated.
    pub fn mark_dirty(&mut self, edit_signature: u64, now: Option<u64>)
        requires
            old(self).wf(),
        ensures
            final(self).wf(),
            edited(*old(self), *final(self), edit_signature, now),
    {
        self.edit_signature = edit_signature;
        self.needs_process = true;
        self.last_slider_change = now;
        self.mark_inflight_stale_if_needed();
    }

    fn mark_inflight_stale_if_needed(&mut self)
        ensures
            *final(self) == (Viewer {
                requested_generation: bumped_generation(
                    old(self).processing,
                    old(self).needs_process,
                    old(self).in_flight_generation,
                    old(self).requested_generation,
                ),
                ..*old(self)
            }),
    {
        let mut g = self.requested_generation;
        bump_requested_generation_for_pending_changes(
            self.processing,
            self.needs_process,
            self.in_flight_generation,
            &mut g,
        );
        self.requested_generation = g;
    }

    /// Notes a zoom change; a reload at a higher cap may follow once the
    /// zoom has been still for the debounce interval.
    pub fn on_zoom_change(&mut self, zoom_percent: u32, now: u64)
        ensures
            *final(self) == (Viewer {
                zoom_percent,
                last_zoom_change: Some(now),
                ..*old(self)
            }),
    {
        self.zoom_percent = zoom_percent;
        self.last_zoom_change = Some(now);
    }

    /// Starts a pass of `quality`. On a cache hit the cached frame is shown and
    /// nothing runs; on a miss the job for a worker is returned.
    pub fn trigger_process(&mut self, quality: ProcessQuality, now: u64) -> (r: TriggerResult)
        requires
            old(self).wf(),
        ensures
            final(self).wf(),
            (old(self).preview is None || old(self).processing) ==> r is Skipped && *final(self) == *old(self),
            !(old(self).preview is None || old(self).processing) ==> {
                let g = next_generation(old(self).requested_generation);
                let key = key_for(*old(self), quality);
                &&& !final(self).needs_process
                &&& final(self).requested_generation == g
                &&& quality == ProcessQuality::Interactive ==> final(self).needs_final_process
                    && final(self).last_interactive_process == Some(now)
                    && final(self).last_slider_change == old(self).last_slider_change
                &&& quality == ProcessQuality::Final ==> !final(self).needs_final_process
                    && final(self).last_interactive_process is None
                    && final(self).last_slider_change is None
                &&& old(self).cache.has(key) ==> {
                    &&& r is CacheHit
                    &&& !final(self).processing && final(self).in_flight_generation is None
                    &&& final(self).texture_key == Some(key)
                    &&& final(self).texture is Some
                    &&& same_frame(final(self).texture->0, final(self).cache.slots@.last().frame)
                    &&& final(self).cache.slots@.last().key == key
                    &&& final(self).cache.keys() == PreviewCache::touched(old(self).cache.keys(), key)
                }
                &&& !old(self).cache.has(key) ==> {
                    &&& r == TriggerResult::Dispatch(ProcessJob { generation: g, key, quality })
                    &&& final(self).processing && final(self).in_flight_generation == Some(g)
                    &&& final(self).in_flight_key == Some(key)
                    &&& final(self).cache == old(self).cache
                    &&& final(self).texture_key == old(self).texture_key
                }
                &&& final(self).preview == old(self).preview
                &&& final(self).edit_signature == old(self).edit_signature
                &&& final(self).source_signature == old(self).source_signature
                &&& final(self).current_path == old(self).current_path
                &&& final(self).loading == old(self).loading
                &&& final(self).reloading_preview == old(self).reloading_preview
                &&& final(self).preview_max == old(self).preview_max
                &&& final(self).zoom_percent == old(self).zoom_percent
                &&& final(self).native_long_edge == old(self).native_long_edge
                &&& final(self).last_zoom_change == old(self).last_zoom_change
            },
    {
        if self.processing {
            return TriggerResult::Skipped;
        }
        let (w, h) = match &self.preview {
            Some(p) => (p.width, p.height),
            None => {
                return TriggerResult::Skipped;
            },
        };
        self.processing = true;
        self.needs_process = false;
        match quality {
            ProcessQuality::Interactive => {
                self.needs_final_process = true;
                self.last_interactive_process = Some(now);
            },
            ProcessQuality::Final => {
                self.needs_final_process = false;
                self.last_slider_change = None;
                self.last_interactive_process = None;
            },
        }
        self.requested_generation = next_gen(self.requested_generation);
        let generation = self.requested_generation;
        self.in_flight_generation = Some(generation);
        let key = PreviewCacheKey {
            source_signature: self.source_signature,
            edit_signature: self.edit_signature,
            input_width: w,
            input_height: h,
            quality,
        };
        self.in_flight_key = Some(key);
        match self.cache.get(&key) {
            Some(frame) => {
                self.texture = Some(frame);
                self.texture_key = Some(key);
                self.processing = false;
                self.in_flight_generation = None;
                TriggerResult::CacheHit
            },
            None => TriggerResult::Dispatch(ProcessJob { generation, key, quality }),
        }
    }

    /// A preview finished loading. It is taken only if it belongs to the
    /// current image; then a pass is due. The result says whether it was taken.
    pub fn on_loaded(&mut self, path: &String, image: RgbaImage) -> (r: bool)
        requires
            old(self).wf(),
        ensures
            final(self).wf(),
            r == (old(self).current_path is Some && old(self).current_path->0@ == path@),
            !r ==> *final(self) == *old(self),
            r ==> {
                &&& final(self).preview == Some(image)
                &&& !final(self).loading && !final(self).reloading_preview
                &&& final(self).needs_process && !final(self).needs_final_process
                &&& final(self).last_interactive_process is None
                &&& final(self).requested_generation == old(self).requested_generation
                &&& final(self).processing == old(self).processing
                &&& final(self).cache == old(self).cache
            },
    {
        if !self.is_current_path(path) {
            return false;
        }
        self.preview = Some(image);
        self.loading = false;
        self.reloading_preview = false;
        self.needs_process = true;
        self.needs_final_process = false;
        self.last_interactive_process = None;
        true
    }

    /// Loading the preview failed. If it was for the current image, loading
    /// stops. The result says whether it was for the current image.
    pub fn on_load_failed(&mut self, path: &String) -> (r: bool)
        requires
            old(self).wf(),
        ensures
            final(self).wf(),
            r == (old(self).current_path is Some && old(self).current_path->0@ == path@),
            !r ==> *final(self) == *old(self),
            r ==> *final(self) == (Viewer { loading: false, reloading_preview: false, ..*old(self) }),
    {
        if !self.is_current_path(path) {
            return false;
        }
        self.loading = false;
        self.reloading_preview = false;
        true
    }

    /// A worker finished. Its frame is cached in any case; it is shown only if
    /// its generation is still the requested one. The result says whether it
    /// was shown.
    pub fn on_processed(&mut self, generation: u64, key: PreviewCacheKey, frame: PreviewFrame) -> (r: bool)
        requires
            old(self).wf(),
        ensures
            final(self).wf(),
            r == publishes(*old(self), generation),
            !final(self).processing,
            final(self).in_flight_generation is None,
            final(self).requested_generation == old(self).requested_generation,
            final(self).edit_signature == old(self).edit_signature,
            final(self).cache.keys() == PreviewCache::inserted(
                old(self).cache.keys(),
                key,
                PREVIEW_CACHE_CAPACITY as nat,
            ),
            same_frame(final(self).cache.slots@.last().frame, frame),
            r ==> final(self).texture_key == Some(key) && final(self).texture is Some
                && same_frame(final(self).texture->0, frame),
            !r ==> final(self).texture_key == old(self).texture_key && final(self).texture
                == old(self).texture,
            final(self).needs_process == old(self).needs_process,
            final(self).needs_final_process == old(self).needs_final_process,
            final(self).last_slider_change == old(self).last_slider_change,
            final(self).last_interactive_process == old(self).last_interactive_process,
            final(self).preview == old(self).preview,
            final(self).current_path == old(self).current_path,
            final(self).source_signature == old(self).source_signature,
            final(self).loading == old(self).loading,
            final(self).reloading_preview == old(self).reloading_preview,
            final(self).preview_max == old(self).preview_max,
            final(self).zoom_percent == old(self).zoom_percent,
            final(self).native_long_edge == old(self).native_long_edge,
            final(self).last_zoom_change == old(self).last_zoom_change,
    {
        self.processing = false;
        self.in_flight_generation = None;
        self.in_flight_key = None;
        let copy = frame.duplicate();
        self.cache.insert(key, copy);
        if generation != self.requested_generation {
            return false;
        }
        self.texture = Some(frame);
        self.texture_key = Some(key);
        true
    }

    fn reload_cap(&self) -> (r: u32)
        ensures
            r as int == zoom_cap(self.zoom_percent, self.native_long_edge),
    {
        let wanted: u64 = (PREVIEW_MAX as u64 * self.zoom_percent as u64 + 99) / 100;
        let at_least: u64 = if wanted < PREVIEW_MAX as u64 { PREVIEW_MAX as u64 } else { wanted };
        let cap: u64 = match self.native_long_edge {
            Some(n) => if at_least < n as u64 { at_least } else { n as u64 },
            None => if at_least < u32::MAX as u64 { at_least } else { u32::MAX as u64 },
        };
        cap as u32
    }

    fn plan_reload(&mut self, now: u64) -> (r: (Option<u32>, Option<u64>))
        requires
            old(self).wf(),
        ensures
            final(self).wf(),
            r.0 is Some <==> reload_due(*old(self), now),
            r.0 matches Some(c) ==> {
                &&& c as int == zoom_cap(old(self).zoom_percent, old(self).native_long_edge)
                &&& *final(self) == (Viewer {
                    preview_max: c,
                    reloading_preview: true,
                    last_zoom_change: None,
                    requested_generation: next_generation(old(self).requested_generation),
                    in_flight_generation: None,
                    ..*old(self)
                })
            },
            r.0 is None ==> final(self).requested_generation == old(self).requested_generation
                && final(self).in_flight_generation == old(self).in_flight_generation
                && final(self).processing == old(self).processing
                && final(self).preview_max == old(self).preview_max
                && final(self).reloading_preview == old(self).reloading_preview,
            final(self).needs_process == old(self).needs_process,
            final(self).needs_final_process == old(self).needs_final_process,
            final(self).last_interactive_process == old(self).last_interactive_process,
            r.1 matches Some(d) ==> 0 < d <= DEBOUNCE_MS,
            final(self).cache == old(self).cache,
            final(self).texture_key == old(self).texture_key,
    {
        let t = match self.last_zoom_change {
            None => {
                return (None, None);
            },
            Some(t) => t,
        };
        let e = elapsed_ms(now, t);
        if e < DEBOUNCE_MS {
            return (None, Some(DEBOUNCE_MS - e));
        }
        let needed = self.reload_cap();
        if needed > self.preview_max && !self.loading && !self.reloading_preview {
            self.preview_max = needed;
            self.reloading_preview = true;
            self.last_zoom_change = None;
            self.requested_generation = next_gen(self.requested_generation);
            self.in_flight_generation = None;
            (Some(needed), None)
        } else {
            self.last_zoom_change = None;
            (None, None)
        }
    }

    /// Advances the schedule to time `now` (milliseconds). Starts the final
    /// pass once edits have been quiet for the debounce interval, else an
    /// interactive pass at most once per refresh interval while edits wait;
    /// then starts a zoom reload if one is due, and says when to tick again.
    pub fn tick(&mut self, now: u64) -> (r: TickOutcome)
        requires
            old(self).wf(),
        ensures
            final(self).wf(),
            r.started == pass_due(*old(self), now),
            r.started == Some(ProcessQuality::Final) ==> debounce_done(*old(self), now)
                && !final(self).needs_process && !final(self).needs_final_process,
            r.started == Some(ProcessQuality::Interactive) ==> !debounce_done(*old(self), now)
                && interactive_ready(*old(self), now) && final(self).needs_final_process
                && final(self).last_interactive_process == Some(now),
            r.job matches Some(j) ==> r.started == Some(j.quality) && j.key == key_for(*old(self), j.quality)
                && !old(self).cache.has(j.key) && j.generation == next_generation(old(self).requested_generation),
            r.started matches Some(q) ==> (r.job is None <==> old(self).cache.has(key_for(*old(self), q))),
            r.started is Some && r.job is None ==> final(self).texture_key == Some(
                key_for(*old(self), r.started->0),
            ),
            r.reload_cap is Some <==> reload_due(*old(self), now),
            r.reload_cap matches Some(c) ==> c as int == zoom_cap(old(self).zoom_percent, old(self).native_long_edge)
                && final(self).preview_max == c && final(self).reloading_preview,
            can_start(*old(self)) && r.started is None ==> r.wake_after_ms is Some,
            r.wake_after_ms matches Some(d) ==> 0 < d <= DEBOUNCE_MS,
    {
        self.mark_inflight_stale_if_needed();
        let mut started: Option<ProcessQuality> = None;
        let mut job: Option<ProcessJob> = None;
        let mut wake: Option<u64> = None;
        let work_pending = self.needs_process || self.needs_final_process;
        if work_pending && !self.processing && self.preview.is_some() {
            let since: Option<u64> = match self.last_slider_change {
                Some(t) => Some(elapsed_ms(now, t)),
                None => None,
            };
            let done = match since {
                Some(d) => d >= DEBOUNCE_MS,
                None => true,
            };
            if done {
                let q = ProcessQuality::Final;
                match self.trigger_process(q, now) {
                    TriggerResult::Dispatch(j) => {
                        job = Some(j);
                    },
                    _ => {},
                }
                started = Some(q);
            } else if self.needs_process {
                let ready = match self.last_interactive_process {
                    Some(t) => elapsed_ms(now, t) >= INTERACTIVE_REFRESH_MS,
                    None => true,
                };
                if ready {
                    let q = ProcessQuality::Interactive;
                    match self.trigger_process(q, now) {
                        TriggerResult::Dispatch(j) => {
                            job = Some(j);
                        },
                        _ => {},
                    }
                    started = Some(q);
                }
                let e = match since {
                    Some(d) => d,
                    None => 0,
                };
                let until_final = DEBOUNCE_MS - e;
                wake = Some(if until_final < INTERACTIVE_REFRESH_MS { until_final } else { INTERACTIVE_REFRESH_MS });
            } else {
                let e = match since {
                    Some(d) => d,
                    None => 0,
                };
                wake = Some(DEBOUNCE_MS - e);
            }
        }
        let (reload_cap, zoom_wake) = self.plan_reload(now);
        match zoom_wake {
            Some(z) => {
                wake = match wake {
                    Some(w) => Some(if w < z { w } else { z }),
                    None => Some(z),
                };
            },
            None => {},
        }
        TickOutcome { started, job, reload_cap, wake_after_ms: wake }
    }
}

/// An edit made while a job is running invalidates that job: its result
/// arrives stamped with a generation that is no longer requested, and is not
/// shown.
pub proof fn lemma_edit_in_flight_discards_result(before: Viewer, after: Viewer, edit_signature: u64, now: Option<u64>)
    requires
        before.processing,
        before.in_flight_generation == Some(before.requested_generation),
        edited(before, after, edit_signature, now),
    ensures
        !publishes(after, before.in_flight_generation->0),
{
}

/// A shown result was made for the edits that are current when it arrives:
/// in a well-formed viewer, the job whose generation is still requested
/// carries the current edit and source fingerprints.
pub proof fn lemma_published_result_matches_current_edits(v: Viewer, generation: u64)
    requires
        v.wf(),
        v.processing,
        v.in_flight_generation == Some(generation),
        publishes(v, generation),
    ensures
        v.in_flight_key->0.edit_signature == v.edit_signature,
        v.in_flight_key->0.source_signature == v.source_signature,
{
}

/// After a final pass has started, no further pass starts until another edit
/// arrives: one final job per quiet window.
pub proof fn lemma_no_pass_without_new_edit(v: Viewer, now: u64)
    requires
        !v.needs_process,
        !v.needs_final_process,
    ensures
        pass_due(v, now) is None,
{
}

/// Interactive passes are rate-limited: one starts only when the previous
/// interactive pass, which the viewer remembers across results and edits,
/// began at least the refresh interval earlier.
pub proof fn lemma_interactive_rate_limit(v: Viewer, now: u64)
    requires
        v.last_interactive_process matches Some(t) && t <= now,
        pass_due(v, now) == Some(ProcessQuality::Interactive),
    ensures
        now - v.last_interactive_process->0 >= INTERACTIVE_REFRESH_MS,
{
}

/// While edits keep arriving less than the debounce interval apart, a tick
/// starts no final pass.
pub proof fn lemma_no_final_pass_during_edits(v: Viewer, now: u64)
    requires
        v.last_slider_change matches Some(t) && t <= now && now - t < DEBOUNCE_MS,
    ensures
        pass_due(v, now) != Some(ProcessQuality::Final),
{
}

} // verus!
