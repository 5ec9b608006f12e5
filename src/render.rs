//! Batch rendering: output formats and speed presets, request validation,
//! export resizing, output-path reservation and progress accounting.

use vstd::prelude::*;
use crate::decimal::{decimal, digit, push_decimal};
use crate::paths::{file_stem, file_stem_of, join_path, joined, no_separator, path_in};
use crate::text::{chars_of, push_chars, push_text, push_vec, string_of};

verus! {

/// The file format of rendered images.
#[derive(Clone, Copy, Debug, PartialEq, Eq, Structural)]
pub enum RenderFormat {
    Jpg,
    Png,
    Webp,
}

/// The file extension of a format, without the dot.
pub open spec fn extension_of(format: RenderFormat) -> Seq<char> {
    match format {
        RenderFormat::Jpg => seq!['j', 'p', 'g'],
        RenderFormat::Png => seq!['p', 'n', 'g'],
        RenderFormat::Webp => seq!['w', 'e', 'b', 'p'],
    }
}

impl RenderFormat {
    /// The name shown for the format.
    pub fn label(self) -> (r: &'static str)
        ensures
            r@ == (match self {
                RenderFormat::Jpg => seq!['J', 'P', 'G'],
                RenderFormat::Png => seq!['P', 'N', 'G'],
                RenderFormat::Webp => seq!['W', 'e', 'b', 'P'],
            }),
    {
        match self {
            RenderFormat::Jpg => {
                proof {
                    reveal_strlit("JPG");
                }
                "JPG"
            },
            RenderFormat::Png => {
                proof {
                    reveal_strlit("PNG");
                }
                "PNG"
            },
            RenderFormat::Webp => {
                proof {
                    reveal_strlit("WebP");
                }
                "WebP"
            },
        }
    }

    /// The file extension of the format.
    pub fn extension(self) -> (r: &'static str)
        ensures
            r@ == extension_of(self),
    {
        match self {
            RenderFormat::Jpg => {
                proof {
                    reveal_strlit("jpg");
                }
                "jpg"
            },
            RenderFormat::Png => {
                proof {
                    reveal_strlit("png");
                }
                "png"
            },
            RenderFormat::Webp => {
                proof {
                    reveal_strlit("webp");
                }
                "webp"
            },
        }
    }
}

/// A trade-off between output quality and render speed.
#[derive(Clone, Copy, Debug, PartialEq, Eq, Structural)]
pub enum RenderSpeedProfile {
    Quality,
    Balanced,
    Speed,
}

impl RenderSpeedProfile {
    /// The name shown for the profile.
    pub fn label(self) -> (r: &'static str)
        ensures
            r@ == (match self {
                RenderSpeedProfile::Quality => seq!['Q', 'u', 'a', 'l', 'i', 't', 'y'],
                RenderSpeedProfile::Balanced => seq!['B', 'a', 'l', 'a', 'n', 'c', 'e', 'd'],
                RenderSpeedProfile::Speed => seq!['S', 'p', 'e', 'e', 'd'],
            }),
    {
        match self {
            RenderSpeedProfile::Quality => {
                proof {
                    reveal_strlit("Quality");
                }
                "Quality"
            },
            RenderSpeedProfile::Balanced => {
                proof {
                    reveal_strlit("Balanced");
                }
                "Balanced"
            },
            RenderSpeedProfile::Speed => {
                proof {
                    reveal_strlit("Speed");
                }
                "Speed"
            },
        }
    }
}

/// The JPEG quality and PNG compression level of a speed profile.
pub open spec fn profile_defaults(profile: RenderSpeedProfile) -> (u8, u8) {
    match profile {
        RenderSpeedProfile::Quality => (95, 9),
        RenderSpeedProfile::Balanced => (90, 6),
        RenderSpeedProfile::Speed => (82, 1),
    }
}

/// The JPEG quality and PNG compression level that a speed profile selects.
pub fn render_profile_defaults(profile: RenderSpeedProfile) -> (r: (u8, u8))
    ensures
        r == profile_defaults(profile),
{
    match profile {
        RenderSpeedProfile::Quality => (95, 9),
        RenderSpeedProfile::Balanced => (90, 6),
        RenderSpeedProfile::Speed => (82, 1),
    }
}

/// `a / b` rounded to the nearest integer, halves away from zero.
pub open spec fn round_div(a: nat, b: nat) -> nat
    recommends
        b > 0,
{
    ((2 * a + b) / (2 * b)) as nat
}

/// The export size for a long-edge limit: `None` when nothing is to be done
/// (a zero input, or the image already fits), else both sides scaled by
/// `max_long_edge / long edge`, rounded, and at least one pixel.
pub open spec fn resize_target(width: u32, height: u32, max_long_edge: u32) -> Option<(u32, u32)> {
    let long: nat = if width >= height { width as nat } else { height as nat };
    if width == 0 || height == 0 || max_long_edge == 0 || long <= max_long_edge as nat {
        None
    } else {
        let w = round_div(width as nat * max_long_edge as nat, long);
        let h = round_div(height as nat * max_long_edge as nat, long);
        Some(((if w < 1 { 1 } else { w }) as u32, (if h < 1 { 1 } else { h }) as u32))
    }
}

/// Scaled dimensions that fit a long-edge limit, keeping the aspect ratio.
pub fn resized_dimensions(width: u32, height: u32, max_long_edge: u32) -> (r: Option<(u32, u32)>)
    ensures
        r == resize_target(width, height, max_long_edge),
        r matches Some((w, h)) ==> 1 <= w <= max_long_edge && 1 <= h <= max_long_edge,
{
    if width == 0 || height == 0 || max_long_edge == 0 {
        return None;
    }
    let long: u32 = if width >= height { width } else { height };
    if long <= max_long_edge {
        return None;
    }
    let m = max_long_edge as u128;
    let l = long as u128;
    proof {
        assert(width as u128 * m <= l * m) by (nonlinear_arith)
            requires width as u128 <= l;
        assert(height as u128 * m <= l * m) by (nonlinear_arith)
            requires height as u128 <= l;
        assert(l * m <= 0xffff_ffff * 0xffff_ffff) by (nonlinear_arith)
            requires l <= 0xffff_ffff, m <= 0xffff_ffff;
    }
    let a = width as u128 * m;
    let b = height as u128 * m;
    let w = (2 * a + l) / (2 * l);
    let h = (2 * b + l) / (2 * l);
    proof {
        assert(w <= m) by (nonlinear_arith)
            requires w == (2 * a + l) / (2 * l), a <= l * m, m < l, l > 0;
        assert(h <= m) by (nonlinear_arith)
            requires h == (2 * b + l) / (2 * l), b <= l * m, m < l, l > 0;
    }
    let w1: u128 = if w < 1 { 1 } else { w };
    let h1: u128 = if h < 1 { 1 } else { h };
    Some((w1 as u32, h1 as u32))
}

/// Why a render request is refused before any job starts.
#[derive(Clone, Copy, Debug, PartialEq, Eq, Structural)]
pub enum RenderRequestError {
    EmptyOutputPath,
    ResizeLongEdgeZero,
    NoOpenImages,
}

/// The message shown for a refused render request.
pub open spec fn request_error_text(e: RenderRequestError) -> Seq<char> {
    match e {
        RenderRequestError::EmptyOutputPath => "Output path is empty"@,
        RenderRequestError::ResizeLongEdgeZero => "Resize long edge must be greater than 0"@,
        RenderRequestError::NoOpenImages => "No open images to render"@,
    }
}

impl RenderRequestError {
    /// The message shown to the user.
    pub fn message(self) -> (r: &'static str)
        ensures
            r@ == request_error_text(self),
    {
        match self {
            RenderRequestError::EmptyOutputPath => "Output path is empty",
            RenderRequestError::ResizeLongEdgeZero => "Resize long edge must be greater than 0",
            RenderRequestError::NoOpenImages => "No open images to render",
        }
    }
}

/// The first reason, in order of checking, to refuse a render request.
pub open spec fn request_check(output_dir: Seq<char>, resize_enabled: bool, resize_long_edge: u32, task_count: nat) -> Option<RenderRequestError> {
    if output_dir.len() == 0 {
        Some(RenderRequestError::EmptyOutputPath)
    } else if resize_enabled && resize_long_edge == 0 {
        Some(RenderRequestError::ResizeLongEdgeZero)
    } else if task_count == 0 {
        Some(RenderRequestError::NoOpenImages)
    } else {
        None
    }
}

/// Checks a render request: the output directory must be named, an enabled
/// resize needs a positive long edge, and there must be images to render.
pub fn validate_render_request(output_dir: &str, resize_enabled: bool, resize_long_edge: u32, task_count: usize) -> (r: Result<(), RenderRequestError>)
    ensures
        r is Ok <==> request_check(output_dir@, resize_enabled, resize_long_edge, task_count as nat) is None,
        r matches Err(e) ==> Some(e) == request_check(output_dir@, resize_enabled, resize_long_edge, task_count as nat),
{
    let dir = chars_of(output_dir);
    if dir.len() == 0 {
        Err(RenderRequestError::EmptyOutputPath)
    } else if resize_enabled && resize_long_edge == 0 {
        Err(RenderRequestError::ResizeLongEdgeZero)
    } else if task_count == 0 {
        Err(RenderRequestError::NoOpenImages)
    } else {
        Ok(())
    }
}

/// Settings of one batch render, as the workers use them.
#[derive(Clone, Copy, Debug, PartialEq, Eq, Structural)]
pub struct RenderOptions {
    pub format: RenderFormat,
    pub jpg_quality: u8,
    pub png_compression: u8,
    pub resize_enabled: bool,
    pub resize_long_edge: u32,
}

/// Brings user settings into their ranges: JPEG quality 1 to 100, PNG
/// compression at most 9, a long edge of at least 1.
pub fn render_options(format: RenderFormat, jpg_quality: u8, png_compression: u8, resize_enabled: bool, resize_long_edge: u32) -> (r: RenderOptions)
    ensures
        r.format == format,
        r.jpg_quality == (if jpg_quality < 1 { 1 } else if jpg_quality > 100 { 100 } else { jpg_quality }),
        r.png_compression == (if png_compression > 9 { 9 } else { png_compression }),
        r.resize_enabled == resize_enabled,
        r.resize_long_edge == (if resize_long_edge < 1 { 1 } else { resize_long_edge }),
{
    RenderOptions {
        format,
        jpg_quality: if jpg_quality < 1 { 1 } else if jpg_quality > 100 { 100 } else { jpg_quality },
        png_compression: if png_compression > 9 { 9 } else { png_compression },
        resize_enabled,
        resize_long_edge: if resize_long_edge < 1 { 1 } else { resize_long_edge },
    }
}

/// The export size of a rendered image under `options`, or `None` to keep it.
pub fn export_size(width: u32, height: u32, options: RenderOptions) -> (r: Option<(u32, u32)>)
    ensures
        r == (if options.resize_enabled { resize_target(width, height, options.resize_long_edge) } else { None }),
{
    if !options.resize_enabled {
        return None;
    }
    resized_dimensions(width, height, options.resize_long_edge)
}

/// Largest number tried in a `stem-N` output name.
pub const MAX_NAME_SUFFIX: u64 = 9999;

/// The texts of a sequence of strings.
pub open spec fn texts(v: Seq<String>) -> Seq<Seq<char>> {
    Seq::new(v.len(), |i: int| v[i]@)
}

/// The stem that names the outputs of `source`; `image` when it has none.
pub open spec fn stem_or_default(source: Seq<char>) -> Seq<char> {
    match file_stem_of(source) {
        Some(s) => s,
        None => seq!['i', 'm', 'a', 'g', 'e'],
    }
}

/// The `n`-th output name tried for a stem: `stem.ext` first, then
/// `stem-N.ext` for N from 2 to 9999, and last `stem-final.ext`.
pub open spec fn candidate_name(stem: Seq<char>, n: nat, ext: Seq<char>) -> Seq<char> {
    if n <= 1 {
        stem + seq!['.'] + ext
    } else if n <= MAX_NAME_SUFFIX {
        stem + seq!['-'] + decimal(n) + seq!['.'] + ext
    } else {
        stem + seq!['-', 'f', 'i', 'n', 'a', 'l', '.'] + ext
    }
}

/// Whether an output name is reserved already or exists on disk.
pub open spec fn name_taken(name: Seq<char>, reserved: Seq<Seq<char>>, existing: Seq<Seq<char>>) -> bool {
    reserved.contains(name) || existing.contains(name)
}

/// The first candidate from the `n`-th on that is not taken; the final
/// candidate when all numbered ones are.
pub open spec fn first_free(stem: Seq<char>, ext: Seq<char>, reserved: Seq<Seq<char>>, existing: Seq<Seq<char>>, n: nat) -> Seq<char>
    decreases MAX_NAME_SUFFIX + 1 - n,
{
    if n > MAX_NAME_SUFFIX {
        candidate_name(stem, n, ext)
    } else if !name_taken(candidate_name(stem, n, ext), reserved, existing) {
        candidate_name(stem, n, ext)
    } else {
        first_free(stem, ext, reserved, existing, n + 1)
    }
}

/// The output file name reserved for `source`.
pub open spec fn chosen_name(source: Seq<char>, format: RenderFormat, reserved: Seq<Seq<char>>, existing: Seq<Seq<char>>) -> Seq<char> {
    first_free(stem_or_default(source), extension_of(format), reserved, existing, 1)
}

/// The output names of a batch, each chosen after those before it.
pub open spec fn planned_names(sources: Seq<Seq<char>>, format: RenderFormat, existing: Seq<Seq<char>>) -> Seq<Seq<char>>
    decreases sources.len(),
{
    if sources.len() == 0 {
        Seq::empty()
    } else {
        let before = planned_names(sources.drop_last(), format, existing);
        before.push(chosen_name(sources.last(), format, before, existing))
    }
}

/// The first free candidate is free, unless it is the final fallback.
pub proof fn lemma_first_free_is_free(stem: Seq<char>, ext: Seq<char>, reserved: Seq<Seq<char>>, existing: Seq<Seq<char>>, n: nat)
    ensures
        first_free(stem, ext, reserved, existing, n) == candidate_name(stem, MAX_NAME_SUFFIX as nat + 1, ext)
            || !name_taken(first_free(stem, ext, reserved, existing, n), reserved, existing),
    decreases MAX_NAME_SUFFIX + 1 - n,
{
    if n <= MAX_NAME_SUFFIX && name_taken(candidate_name(stem, n, ext), reserved, existing) {
        lemma_first_free_is_free(stem, ext, reserved, existing, n + 1);
    }
}

/// Output names of a batch do not collide: the name of each task is reserved
/// by no earlier task and absent from the output directory, unless it is the
/// `stem-final` fallback taken once all numbered names are used.
pub proof fn lemma_batch_names_fresh(sources: Seq<Seq<char>>, format: RenderFormat, existing: Seq<Seq<char>>, j: int)
    requires
        0 <= j < sources.len(),
    ensures
        ({
            let names = planned_names(sources, format, existing);
            ||| names[j] == candidate_name(stem_or_default(sources[j]), MAX_NAME_SUFFIX as nat + 1, extension_of(format))
            ||| (!names.take(j).contains(names[j]) && !existing.contains(names[j]))
        }),
{
    let names = planned_names(sources, format, existing);
    let prefix = sources.take(j + 1);
    lemma_planned_prefix(sources, format, existing, j + 1);
    lemma_planned_prefix(sources, format, existing, j);
    assert(prefix.drop_last() =~= sources.take(j));
    assert(prefix.last() == sources[j]);
    let before = planned_names(sources.take(j), format, existing);
    assert(planned_names(prefix, format, existing) == before.push(chosen_name(sources[j], format, before, existing)));
    assert(names[j] == planned_names(prefix, format, existing)[j]);
    assert(before.len() == j);
    assert(names[j] == chosen_name(sources[j], format, before, existing));
    assert(names.take(j) == before);
    lemma_first_free_is_free(stem_or_default(sources[j]), extension_of(format), before, existing, 1);
}

/// Whether `s` ends with `suffix`.
pub open spec fn has_suffix(s: Seq<char>, suffix: Seq<char>) -> bool {
    suffix.len() <= s.len() && s.subrange(s.len() - suffix.len(), s.len() as int) == suffix
}

proof fn lemma_decimal_no_separator(n: nat)
    ensures
        no_separator(decimal(n)),
    decreases n,
{
    if n >= 10 {
        lemma_decimal_no_separator(n / 10);
        let d = decimal(n / 10);
        let e = d.push(digit(n % 10));
        assert forall|i: int| 0 <= i < e.len() implies e[i] != '/' by {
            if i < d.len() {
                assert(e[i] == d[i]);
            }
        }
    }
}

proof fn lemma_extension_no_separator(format: RenderFormat)
    ensures
        no_separator(extension_of(format)),
{
}

proof fn lemma_candidate_shape(stem: Seq<char>, n: nat, ext: Seq<char>)
    requires
        no_separator(ext),
    ensures
        no_separator(stem) ==> no_separator(candidate_name(stem, n, ext)),
        candidate_name(stem, n, ext).len() > 0,
        has_suffix(candidate_name(stem, n, ext), seq!['.'] + ext),
{
    let c = candidate_name(stem, n, ext);
    let suf = seq!['.'] + ext;
    let head = if n <= 1 {
        stem
    } else if n <= MAX_NAME_SUFFIX {
        stem + seq!['-'] + decimal(n)
    } else {
        stem + seq!['-', 'f', 'i', 'n', 'a', 'l']
    };
    if n > 1 && n <= MAX_NAME_SUFFIX {
        lemma_decimal_no_separator(n);
        assert(c =~= head + suf);
    } else if n <= 1 {
        assert(c =~= head + suf);
    } else {
        assert(c =~= head + suf);
    }
    assert(c.subrange(c.len() - suf.len(), c.len() as int) =~= suf);
    if no_separator(stem) {
        assert forall|i: int| 0 <= i < c.len() implies c[i] != '/' by {
            if n > 1 && n <= MAX_NAME_SUFFIX {
                let d = decimal(n);
                if i >= stem.len() + 1 && i < stem.len() + 1 + d.len() {
                    assert(c[i] == d[i - stem.len() - 1]);
                }
            }
        }
    }
}

/// Every name that the search can choose is a candidate: it is non-empty,
/// ends in `.ext`, and holds no separator when the stem holds none.
pub proof fn lemma_first_free_shape(stem: Seq<char>, ext: Seq<char>, reserved: Seq<Seq<char>>, existing: Seq<Seq<char>>, n: nat)
    requires
        no_separator(ext),
    ensures
        no_separator(stem) ==> no_separator(first_free(stem, ext, reserved, existing, n)),
        first_free(stem, ext, reserved, existing, n).len() > 0,
        has_suffix(first_free(stem, ext, reserved, existing, n), seq!['.'] + ext),
    decreases MAX_NAME_SUFFIX + 1 - n,
{
    lemma_candidate_shape(stem, n, ext);
    if n <= MAX_NAME_SUFFIX && name_taken(candidate_name(stem, n, ext), reserved, existing) {
        lemma_first_free_shape(stem, ext, reserved, existing, n + 1);
    }
}

/// A path inside a directory ends as the name does, and different names
/// give different paths.
pub proof fn lemma_path_in(dir: Seq<char>, a: Seq<char>, b: Seq<char>, suffix: Seq<char>)
    ensures
        has_suffix(a, suffix) ==> has_suffix(path_in(dir, a), suffix),
        path_in(dir, a) == path_in(dir, b) ==> a == b,
{
    let p = if dir.len() == 0 { Seq::<char>::empty() } else if dir.last() == '/' { dir } else { dir + seq!['/'] };
    assert(path_in(dir, a) =~= p + a);
    assert(path_in(dir, b) =~= p + b);
    if has_suffix(a, suffix) {
        let pa = p + a;
        assert(pa.subrange(pa.len() - suffix.len(), pa.len() as int) =~= a.subrange(a.len() - suffix.len(), a.len() as int));
    }
    if path_in(dir, a) == path_in(dir, b) {
        assert((p + a).subrange(p.len() as int, (p + a).len() as int) =~= a);
        assert((p + b).subrange(p.len() as int, (p + b).len() as int) =~= b);
    }
}

/// Output paths of a batch do not collide: the path of each task differs
/// from the path of every earlier task, unless it is the `stem-final`
/// fallback taken once all numbered names are used.
pub proof fn lemma_batch_paths_distinct(sources: Seq<Seq<char>>, format: RenderFormat, existing: Seq<Seq<char>>, dir: Seq<char>, i: int, j: int)
    requires
        0 <= i < j < sources.len(),
        planned_names(sources, format, existing)[j] != candidate_name(
            stem_or_default(sources[j]),
            MAX_NAME_SUFFIX as nat + 1,
            extension_of(format),
        ),
    ensures
        path_in(dir, planned_names(sources, format, existing)[i]) != path_in(
            dir,
            planned_names(sources, format, existing)[j],
        ),
{
    let names = planned_names(sources, format, existing);
    lemma_batch_names_fresh(sources, format, existing, j);
    lemma_planned_prefix(sources, format, existing, j);
    assert(names.take(j)[i] == names[i]);
    assert(names[i] != names[j]);
    lemma_path_in(dir, names[i], names[j], seq![]);
}

fn contains_text(names: &Vec<String>, name: &String) -> (r: bool)
    ensures
        r == texts(names@).contains(name@),
{
    let mut i: usize = 0;
    while i < names.len()
        invariant
            i <= names@.len(),
            forall|j: int| 0 <= j < i ==> names@[j]@ != name@,
        decreases names@.len() - i,
    {
        if names[i].eq(name) {
            proof {
                assert(texts(names@)[i as int] == name@);
            }
            return true;
        }
        i = i + 1;
    }
    proof {
        if texts(names@).contains(name@) {
            let j = texts(names@).index_of(name@);
            assert(names@[j]@ == name@);
        }
    }
    false
}

fn candidate(stem: &Vec<char>, n: u64, ext: &Vec<char>) -> (r: String)
    requires
        1 <= n <= MAX_NAME_SUFFIX + 1,
    ensures
        r@ == candidate_name(stem@, n as nat, ext@),
{
    let mut out: Vec<char> = Vec::new();
    push_vec(&mut out, stem);
    if n <= 1 {
        push_chars(&mut out, &['.']);
    } else if n <= MAX_NAME_SUFFIX {
        push_chars(&mut out, &['-']);
        push_decimal(n, &mut out);
        push_chars(&mut out, &['.']);
    } else {
        push_chars(&mut out, &['-', 'f', 'i', 'n', 'a', 'l', '.']);
    }
    push_vec(&mut out, ext);
    proof {
        let dot = ['.'];
        assert(dot@ =~= seq!['.']);
        assert(['-']@ =~= seq!['-']);
        assert(['-', 'f', 'i', 'n', 'a', 'l', '.']@ =~= seq!['-', 'f', 'i', 'n', 'a', 'l', '.']);
    }
    string_of(&out)
}

/// Reserves the output file name for a stem: the first of `stem.ext`,
/// `stem-2.ext`, ..., `stem-9999.ext` that is neither in `reserved` nor in
/// `existing` (the names already in the output directory), else
/// `stem-final.ext`. The chosen name is added to `reserved`.
pub fn reserve_name_for_stem(stem: &str, format: RenderFormat, reserved: &mut Vec<String>, existing: &Vec<String>) -> (r: String)
    ensures
        r@ == first_free(stem@, extension_of(format), texts(old(reserved)@), texts(existing@), 1),
        texts(final(reserved)@) == texts(old(reserved)@).push(r@),
        no_separator(stem@) ==> no_separator(r@),
        r@.len() > 0,
        has_suffix(r@, seq!['.'] + extension_of(format)),
{
    proof {
        lemma_extension_no_separator(format);
        lemma_first_free_shape(stem@, extension_of(format), texts(reserved@), texts(existing@), 1);
    }
    let stem_chars = chars_of(stem);
    let ext = chars_of(format.extension());
    let ghost res = texts(reserved@);
    let ghost ex = texts(existing@);
    let mut n: u64 = 1;
    while n <= MAX_NAME_SUFFIX
        invariant
            1 <= n <= MAX_NAME_SUFFIX + 1,
            stem_chars@ == stem@,
            ext@ == extension_of(format),
            res == texts(reserved@),
            reserved@ == old(reserved)@,
            ex == texts(existing@),
            first_free(stem@, ext@, res, ex, 1) == first_free(stem@, ext@, res, ex, n as nat),
            no_separator(stem@) ==> no_separator(first_free(stem@, ext@, res, ex, 1)),
            first_free(stem@, ext@, res, ex, 1).len() > 0,
            has_suffix(first_free(stem@, ext@, res, ex, 1), seq!['.'] + ext@),
        decreases MAX_NAME_SUFFIX + 1 - n,
    {
        let name = candidate(&stem_chars, n, &ext);
        if !contains_text(reserved, &name) && !contains_text(existing, &name) {
            proof {
                assert(!name_taken(name@, res, ex));
                assert(first_free(stem_chars@, ext@, res, ex, n as nat) == name@);
            }
            let out = name.clone();
            reserved.push(name);
            proof {
                assert(texts(reserved@) =~= res.push(out@));
            }
            return out;
        }
        n = n + 1;
    }
    let name = candidate(&stem_chars, n, &ext);
    let out = name.clone();
    reserved.push(name);
    proof {
        assert(texts(reserved@) =~= res.push(out@));
    }
    out
}

/// Reserves the output file name for `source_path`, named after its stem
/// (`image` when it has none); see `reserve_name_for_stem`.
pub fn reserve_output_name(source_path: &str, format: RenderFormat, reserved: &mut Vec<String>, existing: &Vec<String>) -> (r: String)
    ensures
        r@ == chosen_name(source_path@, format, texts(old(reserved)@), texts(existing@)),
        texts(final(reserved)@) == texts(old(reserved)@).push(r@),
        no_separator(r@),
        r@.len() > 0,
        has_suffix(r@, seq!['.'] + extension_of(format)),
{
    match file_stem(source_path) {
        Some(s) => reserve_name_for_stem(s.as_str(), format, reserved, existing),
        None => {
            proof {
                reveal_strlit("image");
                assert("image"@ =~= seq!['i', 'm', 'a', 'g', 'e']);
            }
            reserve_name_for_stem("image", format, reserved, existing)
        },
    }
}

/// Reserves an output name for `source_path` (see `reserve_output_name`) and
/// returns its path inside `output_dir`.
pub fn build_output_path(source_path: &str, output_dir: &str, format: RenderFormat, reserved: &mut Vec<String>, existing: &Vec<String>) -> (r: String)
    ensures
        r@ == joined(output_dir@, chosen_name(source_path@, format, texts(old(reserved)@), texts(existing@))),
        texts(final(reserved)@) == texts(old(reserved)@).push(
            chosen_name(source_path@, format, texts(old(reserved)@), texts(existing@)),
        ),
        r@ == path_in(output_dir@, chosen_name(source_path@, format, texts(old(reserved)@), texts(existing@))),
        has_suffix(r@, seq!['.'] + extension_of(format)),
{
    let name = reserve_output_name(source_path, format, reserved, existing);
    let r = join_path(output_dir, name.as_str());
    proof {
        lemma_path_in(output_dir@, name@, name@, seq!['.'] + extension_of(format));
    }
    r
}

/// One image to render with its edits.
pub struct RenderTask<E> {
    pub source_path: String,
    pub edit_state: E,
}

/// A render task with its reserved output path.
pub struct RenderJob<E> {
    pub source_path: String,
    pub edit_state: E,
    pub output_path: String,
}

/// The source paths of a task list.
pub open spec fn task_sources<E>(tasks: Seq<RenderTask<E>>) -> Seq<Seq<char>> {
    Seq::new(tasks.len(), |i: int| tasks[i].source_path@)
}

/// The names planned for a prefix of a batch are a prefix of the names
/// planned for the batch.
pub proof fn lemma_planned_prefix(s: Seq<Seq<char>>, format: RenderFormat, existing: Seq<Seq<char>>, k: int)
    requires
        0 <= k <= s.len(),
    ensures
        planned_names(s.take(k), format, existing) == planned_names(s, format, existing).take(k),
        planned_names(s, format, existing).len() == s.len(),
    decreases s.len(),
{
    if s.len() == 0 {
        assert(s.take(k) =~= s);
        assert(planned_names(s, format, existing).take(k) =~= planned_names(s, format, existing));
    } else {
        lemma_planned_prefix(s.drop_last(), format, existing, if k < s.len() { k } else { s.len() - 1 });
        if k == s.len() {
            assert(s.take(k) =~= s);
            assert(planned_names(s, format, existing).take(k) =~= planned_names(s, format, existing));
        } else {
            assert(s.drop_last().take(k) =~= s.take(k));
            assert(planned_names(s, format, existing).take(k) =~= planned_names(s.drop_last(), format, existing).take(k));
        }
    }
}

/// Gives each task of a batch its output path in `output_dir`, reserving the
/// names in task order (see `reserve_output_name`), so no two jobs share one.
pub fn build_render_jobs<E>(tasks: Vec<RenderTask<E>>, output_dir: &str, format: RenderFormat, existing: &Vec<String>) -> (r: Vec<RenderJob<E>>)
    ensures
        r@.len() == tasks@.len(),
        forall|i: int| #![trigger r@[i]] 0 <= i < r@.len() ==> {
            &&& r@[i].source_path@ == tasks@[i].source_path@
            &&& r@[i].edit_state == tasks@[i].edit_state
            &&& r@[i].output_path@ == joined(
                output_dir@,
                planned_names(task_sources(tasks@), format, texts(existing@))[i],
            )
            &&& r@[i].output_path@ == path_in(
                output_dir@,
                planned_names(task_sources(tasks@), format, texts(existing@))[i],
            )
            &&& has_suffix(r@[i].output_path@, seq!['.'] + extension_of(format))
        },
{
    let ghost orig = tasks@;
    let ghost src = task_sources(orig);
    let ghost ex = texts(existing@);
    let mut tasks = tasks;
    let mut jobs: Vec<RenderJob<E>> = Vec::new();
    let mut reserved: Vec<String> = Vec::new();
    proof {
        assert(src.take(0) =~= Seq::<Seq<char>>::empty());
        assert(texts(reserved@) =~= Seq::<Seq<char>>::empty());
    }
    while tasks.len() > 0
        invariant
            jobs@.len() + tasks@.len() == orig.len(),
            tasks@ == orig.subrange(jobs@.len() as int, orig.len() as int),
            src == task_sources(orig),
            ex == texts(existing@),
            texts(reserved@) == planned_names(src.take(jobs@.len() as int), format, ex),
            forall|j: int| #![trigger jobs@[j]] 0 <= j < jobs@.len() ==> {
                &&& jobs@[j].source_path@ == orig[j].source_path@
                &&& jobs@[j].edit_state == orig[j].edit_state
                &&& jobs@[j].output_path@ == joined(
                    output_dir@,
                    planned_names(src.take(jobs@.len() as int), format, ex)[j],
                )
                &&& jobs@[j].output_path@ == path_in(
                    output_dir@,
                    planned_names(src.take(jobs@.len() as int), format, ex)[j],
                )
                &&& has_suffix(jobs@[j].output_path@, seq!['.'] + extension_of(format))
            },
        decreases tasks@.len(),
    {
        let ghost k = jobs@.len() as int;
        let task = tasks.remove(0);
        proof {
            assert(task == orig[k]);
            assert(tasks@ =~= orig.subrange(k + 1, orig.len() as int));
            lemma_planned_prefix(src.take(k + 1), format, ex, k);
            assert(src.take(k + 1).take(k) =~= src.take(k));
            assert(src.take(k + 1).drop_last() =~= src.take(k));
            assert(src.take(k + 1).last() == task.source_path@);
        }
        let output_path = build_output_path(task.source_path.as_str(), output_dir, format, &mut reserved, existing);
        let ghost old_jobs = jobs@;
        jobs.push(RenderJob { source_path: task.source_path, edit_state: task.edit_state, output_path });
        proof {
            let before = planned_names(src.take(k), format, ex);
            let after = planned_names(src.take(k + 1), format, ex);
            lemma_planned_prefix(src.take(k), format, ex, k);
            assert(after == before.push(chosen_name(orig[k].source_path@, format, before, ex)));
            assert(before.len() == k);
            assert(texts(reserved@) == after);
            assert forall|j: int| #![trigger jobs@[j]] 0 <= j < jobs@.len() implies {
                &&& jobs@[j].source_path@ == orig[j].source_path@
                &&& jobs@[j].edit_state == orig[j].edit_state
                &&& jobs@[j].output_path@ == joined(output_dir@, after[j])
                &&& jobs@[j].output_path@ == path_in(output_dir@, after[j])
                &&& has_suffix(jobs@[j].output_path@, seq!['.'] + extension_of(format))
            } by {
                if j < k {
                    assert(after[j] == before[j]);
                    assert(jobs@[j] == old_jobs[j]);
                    assert(old_jobs[j].source_path@ == orig[j].source_path@);
                    assert(old_jobs[j].output_path@ == joined(output_dir@, before[j]));
                    assert(old_jobs[j].output_path@ == path_in(output_dir@, before[j]));
                } else {
                    assert(j == k);
                    assert(after[k] == chosen_name(orig[k].source_path@, format, before, ex));
                    assert(jobs@[k].output_path@ == joined(output_dir@, chosen_name(task.source_path@, format, before, ex)));
                }
            }
            assert(jobs@.len() as int == k + 1);
            assert(src.take(jobs@.len() as int) == src.take(k + 1));
        }
    }
    proof {
        assert(src.take(orig.len() as int) =~= src);
        lemma_planned_prefix(src, format, ex, 0);
    }
    jobs
}

/// What the render workers report to the owner.
pub enum RenderEvent {
    /// One more task completed.
    Progress { done: usize, total: usize, ok: usize, failed: usize, current: String },
    /// All tasks completed.
    Finished { ok: usize, failed: usize, total: usize, output_dir: String, first_error: Option<String> },
}

/// Counts of a running batch: completed, succeeded, failed, and the first
/// failure message.
pub struct RenderTally {
    pub total: usize,
    pub done: usize,
    pub ok: usize,
    pub failed: usize,
    pub first_error: Option<String>,
}

impl RenderTally {
    /// Every completed task counted once, as a success or as a failure.
    pub open spec fn wf(&self) -> bool {
        self.done == self.ok + self.failed && self.done <= self.total
    }

    /// The tally of a batch of `total` tasks before any completes.
    pub fn new(total: usize) -> (r: RenderTally)
        ensures
            r.wf(),
            r.total == total,
            r.done == 0 && r.ok == 0 && r.failed == 0,
            r.first_error is None,
    {
        RenderTally { total, done: 0, ok: 0, failed: 0, first_error: None }
    }

    /// Counts a completed task: a success when `error` is `None`, else a
    /// failure whose message is kept if it is the first. Returns the progress
    /// event to send.
    pub fn record(&mut self, current: String, error: Option<String>) -> (r: RenderEvent)
        requires
            old(self).wf(),
            old(self).done < old(self).total,
        ensures
            final(self).wf(),
            final(self).total == old(self).total,
            final(self).done == old(self).done + 1,
            error is None ==> final(self).ok == old(self).ok + 1 && final(self).failed == old(self).failed,
            error is Some ==> final(self).ok == old(self).ok && final(self).failed == old(self).failed + 1,
            final(self).first_error == (if old(self).first_error is None { error } else { old(self).first_error }),
            r == (RenderEvent::Progress {
                done: final(self).done,
                total: final(self).total,
                ok: final(self).ok,
                failed: final(self).failed,
                current,
            }),
    {
        match error {
            None => {
                self.ok = self.ok + 1;
            },
            Some(message) => {
                self.failed = self.failed + 1;
                if self.first_error.is_none() {
                    self.first_error = Some(message);
                }
            },
        }
        self.done = self.done + 1;
        RenderEvent::Progress { done: self.done, total: self.total, ok: self.ok, failed: self.failed, current }
    }

    /// The event that closes the batch.
    pub fn finish(self, output_dir: String) -> (r: RenderEvent)
        ensures
            r == (RenderEvent::Finished {
                ok: self.ok,
                failed: self.failed,
                total: self.total,
                output_dir,
                first_error: self.first_error,
            }),
    {
        RenderEvent::Finished {
            ok: self.ok,
            failed: self.failed,
            total: self.total,
            output_dir,
            first_error: self.first_error,
        }
    }
}


/// The status line shown once a batch has finished.
pub open spec fn finished_text(ok: nat, failed: nat, output_dir: Seq<char>, first_error: Option<Seq<char>>) -> Seq<char> {
    if failed == 0 {
        "Rendered "@ + decimal(ok) + " image(s) to "@ + output_dir
    } else {
        "Rendered "@ + decimal(ok) + " image(s), "@ + decimal(failed) + " failed. First error: "@ + match first_error {
            Some(e) => e,
            None => "unknown error"@,
        }
    }
}

/// Formats the status line of a finished batch.
pub fn finished_status(ok: usize, failed: usize, output_dir: &str, first_error: Option<&str>) -> (r: String)
    ensures
        r@ == finished_text(ok as nat, failed as nat, output_dir@, match first_error {
            Some(e) => Some(e@),
            None => None,
        }),
{
    let mut out: Vec<char> = Vec::new();
    push_text(&mut out, "Rendered ");
    push_decimal(ok as u64, &mut out);
    if failed == 0 {
        push_text(&mut out, " image(s) to ");
        push_text(&mut out, output_dir);
    } else {
        push_text(&mut out, " image(s), ");
        push_decimal(failed as u64, &mut out);
        push_text(&mut out, " failed. First error: ");
        match first_error {
            Some(e) => push_text(&mut out, e),
            None => push_text(&mut out, "unknown error"),
        }
    }
    string_of(&out)
}

/// The render panel's view of a batch: progress counters and status line.
pub struct RenderMonitor {
    pub in_progress: bool,
    pub total: usize,
    pub done: usize,
    pub ok: usize,
    pub failed: usize,
    pub current: String,
    pub status: String,
}

impl RenderMonitor {
    /// A monitor with no batch.
    pub fn new() -> (r: RenderMonitor)
        ensures
            !r.in_progress,
            r.total == 0 && r.done == 0 && r.ok == 0 && r.failed == 0,
            r.status@.len() == 0,
    {
        RenderMonitor {
            in_progress: false,
            total: 0,
            done: 0,
            ok: 0,
            failed: 0,
            current: String::new(),
            status: String::new(),
        }
    }

    /// Shows why a request was refused; no batch starts.
    pub fn refuse(&mut self, error: RenderRequestError)
        ensures
            final(self).status@ == request_error_text(error),
            final(self).in_progress == old(self).in_progress,
            final(self).done == old(self).done,
            final(self).total == old(self).total,
            final(self).ok == old(self).ok,
            final(self).failed == old(self).failed,
            final(self).current == old(self).current,
    {
        let mut out: Vec<char> = Vec::new();
        push_text(&mut out, error.message());
        self.status = string_of(&out);
    }

    /// Resets the counters for a batch of `total` jobs.
    pub fn start(&mut self, total: usize)
        ensures
            final(self).in_progress,
            final(self).total == total,
            final(self).done == 0 && final(self).ok == 0 && final(self).failed == 0,
            final(self).current@.len() == 0,
            final(self).status@ == "Render started..."@,
    {
        self.in_progress = true;
        self.total = total;
        self.done = 0;
        self.ok = 0;
        self.failed = 0;
        self.current = String::new();
        let mut out: Vec<char> = Vec::new();
        push_text(&mut out, "Render started...");
        self.status = string_of(&out);
    }

    /// Takes in one event. Returns whether more events are to come.
    pub fn apply(&mut self, event: RenderEvent) -> (r: bool)
        ensures
            match event {
                RenderEvent::Progress { done, total, ok, failed, current } => {
                    &&& r
                    &&& final(self).done == done && final(self).total == total
                    &&& final(self).ok == ok && final(self).failed == failed
                    &&& final(self).current == current
                    &&& final(self).in_progress == old(self).in_progress
                    &&& final(self).status == old(self).status
                },
                RenderEvent::Finished { ok, failed, total, output_dir, first_error } => {
                    &&& !r
                    &&& !final(self).in_progress
                    &&& final(self).done == total && final(self).total == total
                    &&& final(self).ok == ok && final(self).failed == failed
                    &&& final(self).status@ == finished_text(ok as nat, failed as nat, output_dir@, match first_error {
                        Some(e) => Some(e@),
                        None => None,
                    })
                },
            },
    {
        match event {
            RenderEvent::Progress { done, total, ok, failed, current } => {
                self.done = done;
                self.total = total;
                self.ok = ok;
                self.failed = failed;
                self.current = current;
                true
            },
            RenderEvent::Finished { ok, failed, total, output_dir, first_error } => {
                self.in_progress = false;
                self.done = total;
                self.total = total;
                self.ok = ok;
                self.failed = failed;
                let e: Option<&str> = match &first_error {
                    Some(s) => Some(s.as_str()),
                    None => None,
                };
                self.status = finished_status(ok, failed, output_dir.as_str(), e);
                false
            },
        }
    }
}

/// A directory entered by the user with a leading `~` resolved against the
/// home directory: `~` alone is the home directory, `~/rest` is `rest` inside
/// it; without a home directory, or without the prefix, the text is kept.
pub open spec fn expanded_home(raw: Seq<char>, home: Option<Seq<char>>) -> Seq<char> {
    if raw == seq!['~'] {
        match home {
            Some(h) => h,
            None => raw,
        }
    } else if raw.len() >= 2 && raw[0] == '~' && raw[1] == '/' && home is Some {
        joined(home->0, raw.subrange(2, raw.len() as int))
    } else {
        raw
    }
}

fn chars_from(v: &Vec<char>, start: usize) -> (r: Vec<char>)
    requires
        start <= v@.len(),
    ensures
        r@ == v@.subrange(start as int, v@.len() as int),
{
    let mut out: Vec<char> = Vec::new();
    let mut i: usize = start;
    while i < v.len()
        invariant
            start <= i <= v@.len(),
            out@ == v@.subrange(start as int, i as int),
        decreases v@.len() - i,
    {
        out.push(v[i]);
        i = i + 1;
        proof {
            assert(out@ =~= v@.subrange(start as int, i as int));
        }
    }
    out
}

/// Resolves a leading `~` in a user-entered directory (see `expanded_home`).
pub fn expand_home_prefix(raw: &str, home: Option<&str>) -> (r: String)
    ensures
        r@ == expanded_home(raw@, match home {
            Some(h) => Some(h@),
            None => None,
        }),
{
    let v = chars_of(raw);
    let tilde = ['~'];
    proof {
        assert(tilde@ =~= seq!['~']);
    }
    if crate::text::chars_equal(&v, &tilde) {
        return match home {
            Some(h) => string_of(&chars_of(h)),
            None => string_of(&v),
        };
    }
    if v.len() >= 2 && v[0] == '~' && v[1] == '/' {
        match home {
            Some(h) => {
                let rest = string_of(&chars_from(&v, 2));
                return join_path(h, rest.as_str());
            },
            None => {},
        }
    }
    string_of(&v)
}

} // verus!
