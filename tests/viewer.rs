use photograph::backend::PreviewBackend;
use photograph::preview_cache::{PreviewCache, PreviewCacheKey, PreviewFrame, ProcessQuality};
use photograph::raster::RgbaImage;
use photograph::viewer::{
    bump_requested_generation_for_pending_changes, selective_base_color, selective_label_is_dark,
    CropAspect, TriggerResult, Viewer,
    PREVIEW_MAX,
};

#[test]
fn bumps_generation_when_pending_changes_arrive_during_processing() {
    let mut requested = 4_u64;
    bump_requested_generation_for_pending_changes(true, true, Some(4), &mut requested);
    assert_eq!(requested, 5);
}

#[test]
fn does_not_bump_generation_when_processing_is_idle() {
    let mut requested = 7_u64;
    bump_requested_generation_for_pending_changes(false, true, Some(7), &mut requested);
    assert_eq!(requested, 7);
}

#[test]
fn does_not_bump_generation_more_than_once_for_same_inflight_job() {
    let mut requested = 9_u64;
    bump_requested_generation_for_pending_changes(true, true, Some(9), &mut requested);
    bump_requested_generation_for_pending_changes(true, true, Some(9), &mut requested);
    assert_eq!(requested, 10);
}

#[test]
fn generation_wraps_at_the_top() {
    let mut requested = u64::MAX;
    bump_requested_generation_for_pending_changes(true, true, Some(u64::MAX), &mut requested);
    assert_eq!(requested, 0);
}

fn frame(tag: u8) -> PreviewFrame {
    PreviewFrame { data: vec![tag, tag, tag, 255], width: 1, height: 1 }
}

fn key(edit: u64) -> PreviewCacheKey {
    PreviewCacheKey {
        source_signature: 1,
        edit_signature: edit,
        input_width: 2,
        input_height: 2,
        quality: ProcessQuality::Final,
    }
}

fn loaded_viewer() -> Viewer {
    let mut v = Viewer::new(3, PreviewBackend::Auto);
    let cap = v.set_image("/photos/a.jpg".to_string(), 77);
    assert_eq!(cap, Some(PREVIEW_MAX));
    assert!(v.is_loading());
    let img = RgbaImage { width: 2, height: 2, data: vec![0; 16] };
    assert!(v.on_loaded(&"/photos/a.jpg".to_string(), img));
    v
}

#[test]
fn cache_evicts_least_recently_used() {
    let mut cache = PreviewCache::new(24);
    for e in 0..24 {
        cache.insert(key(e), frame(e as u8));
    }
    assert!(cache.get(&key(0)).is_some());
    cache.insert(key(100), frame(100));
    assert_eq!(cache.len(), 24);
    assert!(cache.get(&key(1)).is_none());
    let hit = cache.get(&key(0)).expect("recently used entry stays");
    assert_eq!(hit.data, vec![0, 0, 0, 255]);
    assert!(cache.get(&key(100)).is_some());
}

#[test]
fn cache_replaces_existing_key() {
    let mut cache = PreviewCache::new(2);
    cache.insert(key(1), frame(1));
    cache.insert(key(1), frame(9));
    assert_eq!(cache.len(), 1);
    assert_eq!(cache.get(&key(1)).unwrap().data, vec![9, 9, 9, 255]);
}

#[test]
fn same_path_does_not_reload() {
    let mut v = loaded_viewer();
    assert_eq!(v.set_image("/photos/a.jpg".to_string(), 77), None);
    assert!(!v.is_loading());
    assert_eq!(v.path(), Some(&"/photos/a.jpg".to_string()));
    assert_eq!(v.id(), 3);
    assert_eq!(v.filename(), "a.jpg");
}

#[test]
fn stale_result_is_cached_but_not_shown() {
    let mut v = loaded_viewer();
    let out = v.tick(0);
    let job = out.job.expect("first pass dispatches");
    assert_eq!(job.quality, ProcessQuality::Final);
    v.mark_dirty(42, Some(10));
    assert_ne!(v.requested_generation, job.generation);
    let shown = v.on_processed(job.generation, job.key, frame(5));
    assert!(!shown);
    assert!(v.texture.is_none());
    assert_eq!(v.cache.len(), 1);
}

#[test]
fn current_result_is_shown_and_served_from_cache() {
    let mut v = loaded_viewer();
    let job = v.tick(0).job.expect("dispatch");
    assert!(v.on_processed(job.generation, job.key, frame(5)));
    assert_eq!(v.texture_key, Some(job.key));
    v.mark_dirty(0, None);
    match v.trigger_process(ProcessQuality::Final, 5) {
        TriggerResult::CacheHit => {}
        _ => panic!("cache hit expected"),
    }
    assert!(!v.processing);
    assert_eq!(v.texture.as_ref().unwrap().data, vec![5, 5, 5, 255]);
}

#[test]
fn load_for_another_path_is_ignored() {
    let mut v = loaded_viewer();
    let img = RgbaImage { width: 1, height: 1, data: vec![0; 4] };
    assert!(!v.on_loaded(&"/photos/b.jpg".to_string(), img));
    assert!(!v.on_load_failed(&"/photos/b.jpg".to_string()));
    assert_eq!(v.preview.as_ref().unwrap().width, 2);
}

#[test]
fn zoom_reload_waits_for_debounce_and_respects_native_size() {
    let mut v = loaded_viewer();
    v.set_native_long_edge(Some(3000));
    v.on_zoom_change(250, 100);
    let early = v.tick(200);
    assert_eq!(early.reload_cap, None);
    assert!(early.wake_after_ms.is_some());
    let gen_before = v.requested_generation;
    let late = v.tick(400);
    assert_eq!(late.reload_cap, Some(3000));
    assert_eq!(v.preview_max, 3000);
    assert!(v.requested_generation != gen_before);
    v.on_zoom_change(300, 500);
    assert_eq!(v.tick(900).reload_cap, None);
}

#[test]
fn edits_every_fifty_ms_give_rate_limited_interactive_passes_and_one_final() {
    let mut v = loaded_viewer();
    let first = v.tick(0).job.expect("initial pass");
    assert!(v.on_processed(first.generation, first.key, frame(0)));

    let mut interactive = 0;
    let mut finals = 0;
    let mut last_edit = 0;
    let mut t: u64 = 1000;
    while t <= 3000 {
        if t < 2000 && (t - 1000) % 50 == 0 {
            last_edit = t;
            v.mark_dirty(t, Some(t));
        }
        let out = v.tick(t);
        if let Some(job) = out.job {
            let shown = v.on_processed(job.generation, job.key, frame(1));
            if shown {
                match job.quality {
                    ProcessQuality::Interactive => interactive += 1,
                    ProcessQuality::Final => {
                        finals += 1;
                        assert_eq!(job.key.edit_signature, last_edit);
                    }
                }
            }
        }
        t += 10;
    }
    assert!(interactive >= 1);
    assert!(interactive <= 12, "interactive passes: {}", interactive);
    assert_eq!(finals, 1);
    assert_eq!(v.texture_key.unwrap().edit_signature, last_edit);
    assert_eq!(v.texture_key.unwrap().quality, ProcessQuality::Final);
}

#[test]
fn crop_aspect_labels() {
    assert_eq!(CropAspect::Free.label(), "Free");
    assert_eq!(CropAspect::Square.label(), "1:1");
    assert_eq!(CropAspect::Photo4x3.label(), "4:3");
    assert_eq!(CropAspect::Wide16x9.label(), "16:9");
    assert_eq!(CropAspect::Original.label(), "Original");
    assert_eq!(CropAspect::Wide16x9.ratio_parts(), Some((16, 9)));
    assert_eq!(CropAspect::Original.ratio_parts(), None);
}

#[test]
fn selective_swatches() {
    assert_eq!(selective_base_color(0), (220, 64, 64));
    assert_eq!(selective_base_color(7), (216, 102, 168));
    assert_eq!(selective_base_color(8), (160, 160, 160));
    assert!(selective_label_is_dark(224, 197, 67));
    assert!(!selective_label_is_dark(72, 120, 220));
}
