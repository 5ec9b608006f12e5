//! RGBA8 rasters and the lossless geometry operations on them: quarter-turn
//! rotations, mirroring and cropping.

use vstd::prelude::*;
use vstd::arithmetic::div_mod::lemma_fundamental_div_mod_converse;

verus! {

/// An 8-bit RGBA raster, rows top to bottom, four bytes per pixel.
pub struct RgbaImage {
    pub width: u32,
    pub height: u32,
    pub data: Vec<u8>,
}

impl RgbaImage {
    /// The buffer holds exactly four bytes for each pixel.
    pub open spec fn wf(&self) -> bool {
        self.data@.len() == 4 * (self.width as int) * (self.height as int)
    }

    /// Channel `c` of the pixel at column `x`, row `y`.
    pub open spec fn byte_at(&self, x: int, y: int, c: int) -> u8 {
        self.data@[4 * (y * self.width + x) + c]
    }
}

/// A lossless rearrangement of pixels.
#[derive(Clone, Copy, Debug, PartialEq, Eq, Structural)]
pub enum PixelMap {
    /// A quarter turn clockwise.
    Rotate90,
    /// A half turn.
    Rotate180,
    /// A quarter turn counter-clockwise.
    Rotate270,
    /// Mirror left to right.
    FlipHorizontal,
    /// Mirror top to bottom.
    FlipVertical,
    /// The window whose top-left corner is at the given column and row.
    Offset(u32, u32),
}

/// The source pixel of output pixel `(x, y)` for a source of `w` by `h`.
pub open spec fn source_xy(m: PixelMap, w: int, h: int, x: int, y: int) -> (int, int) {
    match m {
        PixelMap::Rotate90 => (y, h - 1 - x),
        PixelMap::Rotate180 => (w - 1 - x, h - 1 - y),
        PixelMap::Rotate270 => (w - 1 - y, x),
        PixelMap::FlipHorizontal => (w - 1 - x, y),
        PixelMap::FlipVertical => (x, h - 1 - y),
        PixelMap::Offset(x0, y0) => (x0 + x, y0 + y),
    }
}

/// Whether an output of `ow` by `oh` under `m` reads only inside a `w` by `h`
/// source: a turn transposes for quarter turns, a mirror keeps the size, a
/// window lies inside the source.
pub open spec fn map_fits(m: PixelMap, w: nat, h: nat, ow: nat, oh: nat) -> bool {
    match m {
        PixelMap::Rotate90 | PixelMap::Rotate270 => ow == h && oh == w,
        PixelMap::Rotate180 | PixelMap::FlipHorizontal | PixelMap::FlipVertical => ow == w && oh == h,
        PixelMap::Offset(x0, y0) => x0 + ow <= w && y0 + oh <= h,
    }
}

/// The bytes of the `ow` by `oh` output of `m` over a `w`-wide source.
pub open spec fn mapped_bytes(m: PixelMap, w: int, h: int, data: Seq<u8>, ow: int, oh: int) -> Seq<u8> {
    Seq::new(
        (4 * ow * oh) as nat,
        |k: int|
            {
                let p = k / 4;
                let s = source_xy(m, w, h, p % ow, p / ow);
                data[4 * (s.1 * w + s.0) + k % 4]
            },
    )
}

proof fn lemma_decode(x: int, y: int, c: int, ow: int)
    requires
        0 <= x < ow,
        0 <= y,
        0 <= c < 4,
    ensures
        (4 * (y * ow + x) + c) / 4 == y * ow + x,
        (4 * (y * ow + x) + c) % 4 == c,
        (y * ow + x) % ow == x,
        (y * ow + x) / ow == y,
{
    lemma_fundamental_div_mod_converse(4 * (y * ow + x) + c, 4, y * ow + x, c);
    lemma_fundamental_div_mod_converse(y * ow + x, ow, y, x);
}

proof fn lemma_in_grid(x: int, y: int, w: int, h: int)
    requires
        0 <= x < w,
        0 <= y < h,
    ensures
        0 <= y * w + x < w * h,
        (y + 1) * w <= w * h,
{
    assert(y * w + x < w * h) by (nonlinear_arith)
        requires 0 <= x < w, 0 <= y < h;
    assert((y + 1) * w <= w * h) by (nonlinear_arith)
        requires 0 <= x < w, 0 <= y < h;
    assert(0 <= y * w) by (nonlinear_arith)
        requires 0 <= y, 0 <= w;
}

fn source_of(m: PixelMap, w: u32, h: u32, ow: u32, oh: u32, x: u32, y: u32) -> (r: (u32, u32))
    requires
        map_fits(m, w as nat, h as nat, ow as nat, oh as nat),
        x < ow,
        y < oh,
    ensures
        r.0 < w && r.1 < h,
        (r.0 as int, r.1 as int) == source_xy(m, w as int, h as int, x as int, y as int),
{
    match m {
        PixelMap::Rotate90 => (y, h - 1 - x),
        PixelMap::Rotate180 => (w - 1 - x, h - 1 - y),
        PixelMap::Rotate270 => (w - 1 - y, x),
        PixelMap::FlipHorizontal => (w - 1 - x, y),
        PixelMap::FlipVertical => (x, h - 1 - y),
        PixelMap::Offset(x0, y0) => (x0 + x, y0 + y),
    }
}

/// The `ow` by `oh` raster whose pixel `(x, y)` is the source pixel that `m`
/// assigns to it.
pub fn remap(img: &RgbaImage, m: PixelMap, ow: u32, oh: u32) -> (r: RgbaImage)
    requires
        img.wf(),
        map_fits(m, img.width as nat, img.height as nat, ow as nat, oh as nat),
    ensures
        r.wf(),
        r.width == ow && r.height == oh,
        r.data@ == mapped_bytes(m, img.width as int, img.height as int, img.data@, ow as int, oh as int),
{
    let w = img.width;
    let h = img.height;
    let ghost expect = mapped_bytes(m, w as int, h as int, img.data@, ow as int, oh as int);
    proof {
        assert((ow as int) * (oh as int) <= (w as int) * (h as int)) by (nonlinear_arith)
            requires map_fits(m, w as nat, h as nat, ow as nat, oh as nat),
                (m is Offset ==> ow as int <= w as int && oh as int <= h as int);
    }
    let total: usize = img.data.len();
    let mut out: Vec<u8> = Vec::new();
    let mut y: u32 = 0;
    proof {
        assert(4 * (0 as int) * (ow as int) == 0) by (nonlinear_arith);
    }
    while y < oh
        invariant
            img.wf(),
            total == img.data@.len(),
            w == img.width && h == img.height,
            map_fits(m, w as nat, h as nat, ow as nat, oh as nat),
            (ow as int) * (oh as int) <= (w as int) * (h as int),
            expect == mapped_bytes(m, w as int, h as int, img.data@, ow as int, oh as int),
            y <= oh,
            out@.len() == 4 * (y as int) * (ow as int),
            forall|k: int| 0 <= k < out@.len() ==> out@[k] == #[trigger] expect[k],
        decreases oh - y,
    {
        let mut x: u32 = 0;
        proof {
            assert(4 * (y as int) * (ow as int) == 4 * ((y as int) * (ow as int) + 0)) by (nonlinear_arith);
        }
        while x < ow
            invariant
                img.wf(),
                total == img.data@.len(),
                w == img.width && h == img.height,
                map_fits(m, w as nat, h as nat, ow as nat, oh as nat),
                (ow as int) * (oh as int) <= (w as int) * (h as int),
                expect == mapped_bytes(m, w as int, h as int, img.data@, ow as int, oh as int),
                y < oh,
                x <= ow,
                out@.len() == 4 * ((y as int) * (ow as int) + x as int),
                forall|k: int| 0 <= k < out@.len() ==> out@[k] == #[trigger] expect[k],
            decreases ow - x,
        {
            let (sx, sy) = source_of(m, w, h, ow, oh, x, y);
            proof {
                lemma_in_grid(sx as int, sy as int, w as int, h as int);
                lemma_in_grid(x as int, y as int, ow as int, oh as int);
                assert(4 * ((sy as int) * (w as int) + sx as int) + 4 <= total) by (nonlinear_arith)
                    requires total == 4 * (w as int) * (h as int),
                        (sy as int) * (w as int) + (sx as int) < (w as int) * (h as int);
            }
            let row: usize = sy as usize * w as usize;
            let base: usize = 4 * (row + sx as usize);
            let mut c: usize = 0;
            while c < 4
                invariant
                    img.wf(),
                    total == img.data@.len(),
                    w == img.width && h == img.height,
                    expect == mapped_bytes(m, w as int, h as int, img.data@, ow as int, oh as int),
                    x < ow && y < oh,
                    (sx as int, sy as int) == source_xy(m, w as int, h as int, x as int, y as int),
                    0 <= (sy as int) * (w as int) + sx as int,
                    (sy as int) * (w as int) + (sx as int) < (w as int) * (h as int),
                    base == 4 * ((sy as int) * (w as int) + sx as int),
                    base + 4 <= total,
                    (y as int) * (ow as int) + (x as int) < (ow as int) * (oh as int),
                    c <= 4,
                    out@.len() == 4 * ((y as int) * (ow as int) + x as int) + c,
                    forall|k: int| 0 <= k < out@.len() ==> out@[k] == #[trigger] expect[k],
                decreases 4 - c,
            {
                proof {
                    lemma_decode(x as int, y as int, c as int, ow as int);
                    let k = 4 * ((y as int) * (ow as int) + x as int) + c;
                    assert(k < 4 * (ow as int) * (oh as int)) by (nonlinear_arith)
                        requires k == 4 * ((y as int) * (ow as int) + x as int) + c, c < 4,
                            (y as int) * (ow as int) + (x as int) < (ow as int) * (oh as int);
                    assert(expect[k] == img.data@[base + c]);
                }
                out.push(img.data[base + c]);
                c = c + 1;
            }
            x = x + 1;
        }
        y = y + 1;
        proof {
            assert(4 * (((y - 1) as int) * (ow as int) + ow as int) == 4 * (y as int) * (ow as int)) by (nonlinear_arith);
        }
    }
    proof {
        assert(4 * (oh as int) * (ow as int) == 4 * (ow as int) * (oh as int)) by (nonlinear_arith);
        assert(expect.len() == out@.len());
        assert(out@ =~= expect);
    }
    RgbaImage { width: ow, height: oh, data: out }
}

/// A raster as a mathematical value: size and bytes.
pub struct RasterView {
    pub width: nat,
    pub height: nat,
    pub data: Seq<u8>,
}

impl View for RgbaImage {
    type V = RasterView;

    open spec fn view(&self) -> RasterView {
        RasterView { width: self.width as nat, height: self.height as nat, data: self.data@ }
    }
}

/// The result of `m` over `v`, with output size `ow` by `oh`.
pub open spec fn mapped(v: RasterView, m: PixelMap, ow: nat, oh: nat) -> RasterView {
    RasterView {
        width: ow,
        height: oh,
        data: mapped_bytes(m, v.width as int, v.height as int, v.data, ow as int, oh as int),
    }
}

/// `v` turned clockwise by `quarter_turns` quarter turns (0 to 3).
pub open spec fn turned(v: RasterView, quarter_turns: int) -> RasterView {
    if quarter_turns == 1 {
        mapped(v, PixelMap::Rotate90, v.height, v.width)
    } else if quarter_turns == 2 {
        mapped(v, PixelMap::Rotate180, v.width, v.height)
    } else if quarter_turns == 3 {
        mapped(v, PixelMap::Rotate270, v.height, v.width)
    } else {
        v
    }
}

/// The pixel window of a crop request after clamping it to the raster, as
/// the image library clamps: origin at most the size, extent at most what
/// remains.
pub open spec fn clamped_window(w: nat, h: nat, x: u32, y: u32, cw: u32, ch: u32) -> (nat, nat, nat, nat) {
    let x0: nat = if x as nat <= w { x as nat } else { w };
    let y0: nat = if y as nat <= h { y as nat } else { h };
    let ww: nat = if cw as nat <= (w - x0) as nat { cw as nat } else { (w - x0) as nat };
    let hh: nat = if ch as nat <= (h - y0) as nat { ch as nat } else { (h - y0) as nat };
    (x0, y0, ww, hh)
}

/// `v` cut to the clamped window.
pub open spec fn cropped(v: RasterView, x: u32, y: u32, cw: u32, ch: u32) -> RasterView {
    let (x0, y0, ww, hh) = clamped_window(v.width, v.height, x, y, cw, ch);
    mapped(v, PixelMap::Offset(x0 as u32, y0 as u32), ww, hh)
}

/// A crop in whole pixels, as resolved from the normalised crop rectangle.
#[derive(Clone, Copy, Debug, PartialEq, Eq, Structural)]
pub struct PixelRect {
    pub x: u32,
    pub y: u32,
    pub width: u32,
    pub height: u32,
}

/// The quarter turns of a rotation in degrees: its remainder modulo 360 when
/// that is 90, 180 or 270, else none.
pub open spec fn quarter_turns_of(degrees: i32) -> int {
    let d = degrees as int % 360;
    if d == 90 { 1 } else if d == 180 { 2 } else if d == 270 { 3 } else { 0 }
}

/// The lossless geometry stages in order: turn, mirror left to right, mirror
/// top to bottom, crop (skipped when the crop is empty).
pub open spec fn lossless_geometry(v: RasterView, rotate: i32, flip_h: bool, flip_v: bool, crop: Option<PixelRect>) -> RasterView {
    let a = turned(v, quarter_turns_of(rotate));
    let b = if flip_h { mapped(a, PixelMap::FlipHorizontal, a.width, a.height) } else { a };
    let c = if flip_v { mapped(b, PixelMap::FlipVertical, b.width, b.height) } else { b };
    match crop {
        Some(r) => if r.width > 0 && r.height > 0 { cropped(c, r.x, r.y, r.width, r.height) } else { c },
        None => c,
    }
}

impl RgbaImage {
    /// A copy of this raster.
    pub fn duplicate(&self) -> (r: RgbaImage)
        ensures
            r@ == self@,
    {
        let data = self.data.clone();
        proof {
            assert(data@ =~= self.data@);
        }
        RgbaImage { width: self.width, height: self.height, data }
    }

    /// A quarter turn clockwise.
    pub fn rotate90(&self) -> (r: RgbaImage)
        requires
            self.wf(),
        ensures
            r.wf(),
            r@ == turned(self@, 1),
    {
        remap(self, PixelMap::Rotate90, self.height, self.width)
    }

    /// A half turn.
    pub fn rotate180(&self) -> (r: RgbaImage)
        requires
            self.wf(),
        ensures
            r.wf(),
            r@ == turned(self@, 2),
    {
        remap(self, PixelMap::Rotate180, self.width, self.height)
    }

    /// A quarter turn counter-clockwise.
    pub fn rotate270(&self) -> (r: RgbaImage)
        requires
            self.wf(),
        ensures
            r.wf(),
            r@ == turned(self@, 3),
    {
        remap(self, PixelMap::Rotate270, self.height, self.width)
    }

    /// Mirrored left to right.
    pub fn fliph(&self) -> (r: RgbaImage)
        requires
            self.wf(),
        ensures
            r.wf(),
            r@ == mapped(self@, PixelMap::FlipHorizontal, self@.width, self@.height),
    {
        remap(self, PixelMap::FlipHorizontal, self.width, self.height)
    }

    /// Mirrored top to bottom.
    pub fn flipv(&self) -> (r: RgbaImage)
        requires
            self.wf(),
        ensures
            r.wf(),
            r@ == mapped(self@, PixelMap::FlipVertical, self@.width, self@.height),
    {
        remap(self, PixelMap::FlipVertical, self.width, self.height)
    }

    /// The window at `(x, y)` of `width` by `height`, clamped to the raster.
    pub fn crop_imm(&self, x: u32, y: u32, width: u32, height: u32) -> (r: RgbaImage)
        requires
            self.wf(),
        ensures
            r.wf(),
            r@ == cropped(self@, x, y, width, height),
    {
        let x0 = if x <= self.width { x } else { self.width };
        let y0 = if y <= self.height { y } else { self.height };
        let ww = if width <= self.width - x0 { width } else { self.width - x0 };
        let hh = if height <= self.height - y0 { height } else { self.height - y0 };
        remap(self, PixelMap::Offset(x0, y0), ww, hh)
    }

    /// Turned by `degrees` when its remainder modulo 360 is 90, 180 or 270;
    /// otherwise a copy.
    pub fn rotate_degrees(&self, degrees: i32) -> (r: RgbaImage)
        requires
            self.wf(),
        ensures
            r.wf(),
            r@ == turned(self@, quarter_turns_of(degrees)),
    {
        let d = degrees % 360;
        if d == 90 || d == -270 {
            self.rotate90()
        } else if d == 180 || d == -180 {
            self.rotate180()
        } else if d == 270 || d == -90 {
            self.rotate270()
        } else {
            self.duplicate()
        }
    }
}

/// Applies the lossless geometry of an edit: turn, mirrors, then crop.
pub fn apply_lossless_geometry(img: &RgbaImage, rotate: i32, flip_h: bool, flip_v: bool, crop: Option<PixelRect>) -> (r: RgbaImage)
    requires
        img.wf(),
    ensures
        r.wf(),
        r@ == lossless_geometry(img@, rotate, flip_h, flip_v, crop),
{
    let a = img.rotate_degrees(rotate);
    let b = if flip_h { a.fliph() } else { a };
    let c = if flip_v { b.flipv() } else { b };
    match crop {
        Some(rect) => {
            if rect.width > 0 && rect.height > 0 {
                c.crop_imm(rect.x, rect.y, rect.width, rect.height)
            } else {
                c
            }
        },
        None => c,
    }
}

/// The default edit (no turn, no mirror, no crop) leaves a raster unchanged.
pub proof fn lemma_default_geometry_is_identity(v: RasterView)
    ensures
        lossless_geometry(v, 0, false, false, None) == v,
{
}

/// A turn by a whole number of revolutions more leaves the result unchanged.
pub proof fn lemma_rotation_is_periodic(v: RasterView, degrees: i32)
    requires
        degrees <= i32::MAX - 360,
    ensures
        lossless_geometry(v, (degrees + 360) as i32, false, false, None) == lossless_geometry(v, degrees, false, false, None),
{
    assert((degrees as int + 360) % 360 == degrees as int % 360);
}

} // verus!
