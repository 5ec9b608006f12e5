use photograph::render::{
    build_output_path, build_render_jobs, expand_home_prefix, export_size, finished_status,
    render_options, render_profile_defaults, reserve_output_name, resized_dimensions,
    validate_render_request, RenderEvent, RenderFormat, RenderMonitor, RenderRequestError,
    RenderSpeedProfile, RenderTally, RenderTask,
};

fn joined(dir: &str, name: &str) -> String {
    std::path::Path::new(dir).join(name).to_string_lossy().into_owned()
}

#[test]
fn resized_dimensions_skips_when_already_within_limit() {
    assert_eq!(resized_dimensions(1600, 900, 2000), None);
}

#[test]
fn resized_dimensions_scales_landscape_preserving_aspect() {
    assert_eq!(resized_dimensions(6000, 4000, 3000), Some((3000, 2000)));
}

#[test]
fn resized_dimensions_scales_portrait_preserving_aspect() {
    assert_eq!(resized_dimensions(3000, 6000, 2400), Some((1200, 2400)));
}

#[test]
fn resized_dimensions_ignores_zero_inputs() {
    assert_eq!(resized_dimensions(0, 900, 2000), None);
    assert_eq!(resized_dimensions(1600, 0, 2000), None);
    assert_eq!(resized_dimensions(1600, 900, 0), None);
}

#[test]
fn resized_dimensions_rounds_and_keeps_one_pixel() {
    assert_eq!(resized_dimensions(3001, 2000, 1500), Some((1500, 1000)));
    assert_eq!(resized_dimensions(10000, 1, 100), Some((100, 1)));
    assert_eq!(resized_dimensions(2000, 2000, 1999), Some((1999, 1999)));
}

#[test]
fn export_size_only_when_enabled() {
    let on = render_options(RenderFormat::Jpg, 90, 6, true, 3000);
    let off = render_options(RenderFormat::Jpg, 90, 6, false, 3000);
    assert_eq!(export_size(6000, 4000, on), Some((3000, 2000)));
    assert_eq!(export_size(6000, 4000, off), None);
}

#[test]
fn render_options_clamp_ranges() {
    let o = render_options(RenderFormat::Png, 0, 12, true, 0);
    assert_eq!(o.jpg_quality, 1);
    assert_eq!(o.png_compression, 9);
    assert_eq!(o.resize_long_edge, 1);
    let o = render_options(RenderFormat::Png, 200, 3, false, 10);
    assert_eq!(o.jpg_quality, 100);
    assert_eq!(o.png_compression, 3);
    assert_eq!(o.resize_long_edge, 10);
}

#[test]
fn build_output_path_disambiguates_duplicate_stems() {
    let output_dir = "/tmp/photograph-render-path-dupes";
    let mut reserved: Vec<String> = Vec::new();
    let existing: Vec<String> = Vec::new();
    let source = "/photos/IMG_0001.RAF";

    let first = build_output_path(source, output_dir, RenderFormat::Jpg, &mut reserved, &existing);
    let second = build_output_path(source, output_dir, RenderFormat::Jpg, &mut reserved, &existing);

    assert_eq!(first, joined(output_dir, "IMG_0001.jpg"));
    assert_eq!(second, joined(output_dir, "IMG_0001-2.jpg"));
}

#[test]
fn build_output_path_skips_existing_files() {
    let output_dir = "/tmp/photograph-render-path-existing";
    let existing = vec!["IMG_0001.jpg".to_string()];
    let source = "/photos/IMG_0001.RAF";
    let mut reserved: Vec<String> = Vec::new();
    let next = build_output_path(source, output_dir, RenderFormat::Jpg, &mut reserved, &existing);

    assert_eq!(next, joined(output_dir, "IMG_0001-2.jpg"));
}

#[test]
fn reserve_output_name_uses_image_without_stem_and_final_when_full() {
    let mut reserved: Vec<String> = Vec::new();
    let existing: Vec<String> = Vec::new();
    assert_eq!(reserve_output_name("", RenderFormat::Png, &mut reserved, &existing), "image.png");
    let mut taken: Vec<String> = vec!["A.webp".to_string()];
    for n in 2..10000 {
        taken.push(format!("A-{}.webp", n));
    }
    let mut reserved: Vec<String> = Vec::new();
    assert_eq!(reserve_output_name("/x/A.tif", RenderFormat::Webp, &mut reserved, &taken), "A-final.webp");
    assert_eq!(reserved, vec!["A-final.webp".to_string()]);
}

#[test]
fn three_tasks_get_their_own_names() {
    let tasks: Vec<RenderTask<u32>> = (1..=3)
        .map(|i| RenderTask { source_path: format!("/photos/IMG_000{}.RAF", i), edit_state: i })
        .collect();
    let jobs = build_render_jobs(tasks, "/out", RenderFormat::Jpg, &Vec::new());
    let names: Vec<String> = jobs.iter().map(|j| j.output_path.clone()).collect();
    assert_eq!(
        names,
        vec![joined("/out", "IMG_0001.jpg"), joined("/out", "IMG_0002.jpg"), joined("/out", "IMG_0003.jpg")]
    );
    assert_eq!(jobs.iter().map(|j| j.edit_state).collect::<Vec<_>>(), vec![1, 2, 3]);
    assert_eq!(jobs[1].source_path, "/photos/IMG_0002.RAF");
}

#[test]
fn colliding_stems_skip_existing_output() {
    let tasks = vec![
        RenderTask { source_path: "/a/A.jpg".to_string(), edit_state: () },
        RenderTask { source_path: "/b/A.png".to_string(), edit_state: () },
    ];
    let existing = vec!["A.jpg".to_string()];
    let jobs = build_render_jobs(tasks, "/out", RenderFormat::Jpg, &existing);
    assert_eq!(jobs[0].output_path, joined("/out", "A-2.jpg"));
    assert_eq!(jobs[1].output_path, joined("/out", "A-3.jpg"));
}

#[test]
fn render_profile_quality_is_high_quality_defaults() {
    assert_eq!(
        render_profile_defaults(RenderSpeedProfile::Quality),
        (95, 9)
    );
}

#[test]
fn render_profile_balanced_matches_current_defaults() {
    assert_eq!(
        render_profile_defaults(RenderSpeedProfile::Balanced),
        (90, 6)
    );
}

#[test]
fn render_profile_speed_prioritizes_throughput() {
    assert_eq!(render_profile_defaults(RenderSpeedProfile::Speed), (82, 1));
}

#[test]
fn labels_and_extensions() {
    assert_eq!(RenderFormat::Jpg.extension(), "jpg");
    assert_eq!(RenderFormat::Png.extension(), "png");
    assert_eq!(RenderFormat::Webp.extension(), "webp");
    assert_eq!(RenderFormat::Webp.label(), "WebP");
    assert_eq!(RenderSpeedProfile::Balanced.label(), "Balanced");
}

#[test]
fn resize_long_edge_zero_is_refused() {
    let r = validate_render_request("/out", true, 0, 2);
    assert_eq!(r, Err(RenderRequestError::ResizeLongEdgeZero));
    assert_eq!(
        RenderRequestError::ResizeLongEdgeZero.message(),
        "Resize long edge must be greater than 0"
    );
    let mut monitor = RenderMonitor::new();
    monitor.refuse(RenderRequestError::ResizeLongEdgeZero);
    assert_eq!(monitor.status, "Resize long edge must be greater than 0");
    assert!(!monitor.in_progress);
}

#[test]
fn render_request_checks_in_order() {
    assert_eq!(validate_render_request("", true, 0, 0), Err(RenderRequestError::EmptyOutputPath));
    assert_eq!(validate_render_request("/out", false, 0, 0), Err(RenderRequestError::NoOpenImages));
    assert_eq!(validate_render_request("/out", false, 0, 1), Ok(()));
    assert_eq!(validate_render_request("/out", true, 5, 1), Ok(()));
    assert_eq!(RenderRequestError::EmptyOutputPath.message(), "Output path is empty");
    assert_eq!(RenderRequestError::NoOpenImages.message(), "No open images to render");
}

#[test]
fn tally_counts_and_keeps_first_error() {
    let mut tally = RenderTally::new(3);
    match tally.record("a.jpg".to_string(), None) {
        RenderEvent::Progress { done, total, ok, failed, current } => {
            assert_eq!((done, total, ok, failed), (1, 3, 1, 0));
            assert_eq!(current, "a.jpg");
        }
        _ => panic!("progress expected"),
    }
    tally.record("b.jpg".to_string(), Some("b.jpg: bad".to_string()));
    tally.record("c.jpg".to_string(), Some("c.jpg: worse".to_string()));
    match tally.finish("/out".to_string()) {
        RenderEvent::Finished { ok, failed, total, output_dir, first_error } => {
            assert_eq!((ok, failed, total), (1, 2, 3));
            assert_eq!(output_dir, "/out");
            assert_eq!(first_error, Some("b.jpg: bad".to_string()));
        }
        _ => panic!("finished expected"),
    }
}

#[test]
fn three_successes_finish_ok() {
    let mut tally = RenderTally::new(3);
    for name in ["IMG_0001.RAF", "IMG_0002.RAF", "IMG_0003.RAF"] {
        tally.record(name.to_string(), None);
    }
    let mut monitor = RenderMonitor::new();
    monitor.start(3);
    assert_eq!(monitor.status, "Render started...");
    let more = monitor.apply(tally.finish("/out".to_string()));
    assert!(!more);
    assert_eq!((monitor.ok, monitor.failed, monitor.total, monitor.done), (3, 0, 3, 3));
    assert_eq!(monitor.status, "Rendered 3 image(s) to /out");
}

#[test]
fn finished_status_texts() {
    assert_eq!(finished_status(12, 0, "/x", None), "Rendered 12 image(s) to /x");
    assert_eq!(
        finished_status(0, 2, "/x", Some("a.jpg: broken")),
        "Rendered 0 image(s), 2 failed. First error: a.jpg: broken"
    );
    assert_eq!(
        finished_status(1, 1, "/x", None),
        "Rendered 1 image(s), 1 failed. First error: unknown error"
    );
}

#[test]
fn home_prefix_expansion() {
    assert_eq!(expand_home_prefix("~", Some("/home/u")), "/home/u");
    assert_eq!(expand_home_prefix("~", None), "~");
    assert_eq!(expand_home_prefix("~/Pictures", Some("/home/u")), joined("/home/u", "Pictures"));
    assert_eq!(expand_home_prefix("~/Pictures", None), "~/Pictures");
    assert_eq!(expand_home_prefix("/abs/dir", Some("/home/u")), "/abs/dir");
}

#[test]
fn reservation_by_stem() {
    let mut reserved: Vec<String> = vec!["IMG.png".to_string()];
    let existing = vec!["IMG-2.png".to_string()];
    assert_eq!(
        photograph::render::reserve_name_for_stem("IMG", RenderFormat::Png, &mut reserved, &existing),
        "IMG-3.png"
    );
    assert_eq!(reserved, vec!["IMG.png".to_string(), "IMG-3.png".to_string()]);
}

#[test]
fn batch_paths_end_with_the_format_extension() {
    let tasks: Vec<RenderTask<()>> = ["/a/x.raf", "/b/x.raf", "/c/y"]
        .iter()
        .map(|p| RenderTask { source_path: p.to_string(), edit_state: () })
        .collect();
    let jobs = build_render_jobs(tasks, "/out/", RenderFormat::Webp, &Vec::new());
    let paths: Vec<&str> = jobs.iter().map(|j| j.output_path.as_str()).collect();
    assert_eq!(paths, vec!["/out/x.webp", "/out/x-2.webp", "/out/y.webp"]);
}
