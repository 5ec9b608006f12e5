use std::cell::Cell;

use image::{DynamicImage, ImageBuffer, Rgba};
use photograph::thumbnail::{open_image_for_preview_with_hooks, PreviewSource};

fn img(px: [u8; 4]) -> DynamicImage {
    DynamicImage::ImageRgba8(ImageBuffer::from_pixel(1, 1, Rgba(px)))
}

#[test]
fn raw_preview_prefers_embedded_and_skips_full_decode() {
    let embedded_calls = Cell::new(0);
    let full_calls = Cell::new(0);
    let path = "/tmp/test.raf";

    let out = open_image_for_preview_with_hooks(
        path,
        |_: &str| -> anyhow::Result<Option<DynamicImage>> {
            embedded_calls.set(embedded_calls.get() + 1);
            Ok(Some(img([1, 2, 3, 255])))
        },
        |_: &str| -> anyhow::Result<(DynamicImage, PreviewSource)> {
            full_calls.set(full_calls.get() + 1);
            Ok((img([9, 9, 9, 255]), PreviewSource::FullDevelop))
        },
    )
    .expect("preview open should succeed");

    assert_eq!(embedded_calls.get(), 1);
    assert_eq!(full_calls.get(), 0);
    assert!(matches!(out.1, PreviewSource::Embedded));
    assert_eq!(out.0.to_rgba8().get_pixel(0, 0).0, [1, 2, 3, 255]);
}

#[test]
fn raw_preview_falls_back_to_full_decode_when_embedded_missing() {
    let embedded_calls = Cell::new(0);
    let full_calls = Cell::new(0);
    let path = "/tmp/test.raf";

    let out = open_image_for_preview_with_hooks(
        path,
        |_: &str| -> anyhow::Result<Option<DynamicImage>> {
            embedded_calls.set(embedded_calls.get() + 1);
            Ok(None)
        },
        |_: &str| -> anyhow::Result<(DynamicImage, PreviewSource)> {
            full_calls.set(full_calls.get() + 1);
            Ok((img([9, 9, 9, 255]), PreviewSource::FullDevelop))
        },
    )
    .expect("preview open should succeed");

    assert_eq!(embedded_calls.get(), 1);
    assert_eq!(full_calls.get(), 1);
    assert!(matches!(out.1, PreviewSource::FullDevelop));
    assert_eq!(out.0.to_rgba8().get_pixel(0, 0).0, [9, 9, 9, 255]);
}

#[test]
fn raw_preview_falls_back_to_full_decode_when_embedded_probe_errors() {
    let embedded_calls = Cell::new(0);
    let full_calls = Cell::new(0);
    let path = "/tmp/test.raf";

    let out = open_image_for_preview_with_hooks(
        path,
        |_: &str| -> anyhow::Result<Option<DynamicImage>> {
            embedded_calls.set(embedded_calls.get() + 1);
            Err(anyhow::Error::msg("embedded decode failed"))
        },
        |_: &str| -> anyhow::Result<(DynamicImage, PreviewSource)> {
            full_calls.set(full_calls.get() + 1);
            Ok((img([5, 6, 7, 255]), PreviewSource::FullDevelop))
        },
    )
    .expect("preview open should succeed");

    assert_eq!(embedded_calls.get(), 1);
    assert_eq!(full_calls.get(), 1);
    assert!(matches!(out.1, PreviewSource::FullDevelop));
    assert_eq!(out.0.to_rgba8().get_pixel(0, 0).0, [5, 6, 7, 255]);
}

#[test]
fn non_raw_preview_skips_embedded_probe() {
    let embedded_calls = Cell::new(0);
    let full_calls = Cell::new(0);
    let path = "/tmp/test.jpg";

    let out = open_image_for_preview_with_hooks(
        path,
        |_: &str| -> anyhow::Result<Option<DynamicImage>> {
            embedded_calls.set(embedded_calls.get() + 1);
            Ok(Some(img([1, 2, 3, 255])))
        },
        |_: &str| -> anyhow::Result<(DynamicImage, PreviewSource)> {
            full_calls.set(full_calls.get() + 1);
            Ok((img([8, 8, 8, 255]), PreviewSource::FullDevelop))
        },
    )
    .expect("preview open should succeed");

    assert_eq!(embedded_calls.get(), 0);
    assert_eq!(full_calls.get(), 1);
    assert!(matches!(out.1, PreviewSource::FullDevelop));
    assert_eq!(out.0.to_rgba8().get_pixel(0, 0).0, [8, 8, 8, 255]);
}
