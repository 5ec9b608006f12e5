use photograph::raster::{apply_lossless_geometry, PixelRect, RgbaImage};

/// A 3 by 2 raster whose pixel (x, y) has red x and green y.
fn sample() -> RgbaImage {
    let mut data = Vec::new();
    for y in 0..2u8 {
        for x in 0..3u8 {
            data.extend_from_slice(&[x, y, 7, 255]);
        }
    }
    RgbaImage { width: 3, height: 2, data }
}

fn px(img: &RgbaImage, x: u32, y: u32) -> (u8, u8) {
    let i = 4 * (y * img.width + x) as usize;
    (img.data[i], img.data[i + 1])
}

#[test]
fn rotate90_turns_clockwise() {
    let r = sample().rotate90();
    assert_eq!((r.width, r.height), (2, 3));
    assert_eq!(px(&r, 0, 0), (0, 1));
    assert_eq!(px(&r, 1, 0), (0, 0));
    assert_eq!(px(&r, 0, 2), (2, 1));
}

#[test]
fn rotate180_and_270() {
    let r = sample().rotate180();
    assert_eq!(px(&r, 0, 0), (2, 1));
    let r = sample().rotate270();
    assert_eq!((r.width, r.height), (2, 3));
    assert_eq!(px(&r, 0, 0), (2, 0));
    assert_eq!(px(&r, 1, 2), (0, 1));
}

#[test]
fn flips_mirror() {
    let h = sample().fliph();
    assert_eq!(px(&h, 0, 0), (2, 0));
    let v = sample().flipv();
    assert_eq!(px(&v, 0, 0), (0, 1));
}

#[test]
fn crop_clamps_to_raster() {
    let c = sample().crop_imm(1, 1, 5, 5);
    assert_eq!((c.width, c.height), (2, 1));
    assert_eq!(px(&c, 0, 0), (1, 1));
    let e = sample().crop_imm(9, 9, 2, 2);
    assert_eq!((e.width, e.height), (0, 0));
}

#[test]
fn identity_geometry_keeps_bytes() {
    let img = sample();
    let out = apply_lossless_geometry(&img, 360, false, false, None);
    assert_eq!(out.data, img.data);
    let out = apply_lossless_geometry(&img, 0, false, false, Some(PixelRect { x: 0, y: 0, width: 0, height: 2 }));
    assert_eq!(out.data, img.data);
}

#[test]
fn four_quarter_turns_round_trip() {
    let img = sample();
    let r = img.rotate90().rotate90().rotate90().rotate90();
    assert_eq!(r.data, img.data);
    let neg = apply_lossless_geometry(&img, -90, false, false, None);
    assert_eq!(neg.data, img.rotate270().data);
}

#[test]
fn composite_turns_then_mirrors_then_crops() {
    let img = sample();
    let out = apply_lossless_geometry(&img, 90, true, false, Some(PixelRect { x: 0, y: 1, width: 2, height: 1 }));
    let expect = img.rotate90().fliph().crop_imm(0, 1, 2, 1);
    assert_eq!((out.width, out.height), (2, 1));
    assert_eq!(out.data, expect.data);
}
