//! The image operations of the pipeline, stated over the image model:
//! resizing with a named sampling filter, format selection by
//! extension, in-memory format conversion and background removal.

use vstd::prelude::*;

use crate::color::{BitDepth, ColorInfo, ColorType};
use crate::image_data::{spec_empty_image, ImageData};

verus! {

/// Case-insensitive match of one character against its expected
/// uppercase form, by code point.
pub open spec fn spec_char_ci(x: char, u: char) -> bool {
    x as u32 == u as u32 || (97 <= x as u32 <= 122 && x as u32 == u as u32 + 32)
}

/// Case-insensitive equality of a string against an uppercase
/// keyword.
pub open spec fn spec_eq_ci(a: Seq<char>, b: Seq<char>) -> bool {
    a.len() == b.len() && forall|i: int| 0 <= i < a.len() ==> spec_char_ci(a[i], b[i])
}

/// Whether `s` spells the uppercase keyword `upper`, ignoring ASCII
/// case.
pub fn matches_upper(s: &str, upper: &str) -> (r: bool)
    ensures
        r == spec_eq_ci(s@, upper@),
{
    let n = s.unicode_len();
    let m = upper.unicode_len();
    if n != m {
        return false;
    }
    let mut i: usize = 0;
    while i < n
        invariant
            i <= n,
            n == s@.len(),
            n == upper@.len(),
            forall|j: int| 0 <= j < i ==> spec_char_ci(s@[j], upper@[j]),
        decreases n - i,
    {
        let av = s.get_char(i) as u32;
        let bv = upper.get_char(i) as u32;
        let ok = av == bv || (97 <= av && av <= 122 && av == bv + 32);
        if !ok {
            return false;
        }
        i = i + 1;
    }
    true
}

/// Whether `needle` occurs in `s` starting at position `i`.
pub open spec fn spec_contains_at(s: Seq<char>, needle: Seq<char>, i: int) -> bool {
    0 <= i && i + needle.len() <= s.len() && s.subrange(i, i + needle.len()) == needle
}

/// Whether `needle` occurs anywhere in `s`.
pub open spec fn spec_contains(s: Seq<char>, needle: Seq<char>) -> bool {
    exists|i: int| spec_contains_at(s, needle, i)
}

/// Whether the uppercase keyword `upper` occurs in `s` at position
/// `i`, ignoring ASCII case.
pub open spec fn spec_contains_ci_at(s: Seq<char>, upper: Seq<char>, i: int) -> bool {
    0 <= i && i + upper.len() <= s.len() && spec_eq_ci(s.subrange(i, i + upper.len()), upper)
}

/// Whether the uppercase keyword `upper` occurs anywhere in `s`,
/// ignoring ASCII case.
pub open spec fn spec_contains_ci(s: Seq<char>, upper: Seq<char>) -> bool {
    exists|i: int| spec_contains_ci_at(s, upper, i)
}

/// Whether `needle` occurs anywhere in `s`.
pub fn contains_str(s: &str, needle: &str) -> (r: bool)
    ensures
        r == spec_contains(s@, needle@),
{
    let n = s.unicode_len();
    let m = needle.unicode_len();
    if m > n {
        return false;
    }
    let mut i: usize = 0;
    while i <= n - m
        invariant
            m <= n,
            i <= n - m + 1,
            n == s@.len(),
            m == needle@.len(),
            forall|j: int| 0 <= j < i ==> !spec_contains_at(s@, needle@, j),
        decreases n - i,
    {
        let mut k: usize = 0;
        let mut eq = true;
        while k < m
            invariant
                k <= m,
                i + m <= n,
                n == s@.len(),
                m == needle@.len(),
                eq == (forall|l: int| 0 <= l < k ==> s@[i + l] == needle@[l]),
            decreases m - k,
        {
            if s.get_char(i + k) != needle.get_char(k) {
                eq = false;
            }
            k = k + 1;
        }
        if eq {
            proof {
                assert(s@.subrange(i as int, i + m) =~= needle@);
                assert(spec_contains_at(s@, needle@, i as int));
            }
            return true;
        }
        proof {
            assert(!spec_contains_at(s@, needle@, i as int)) by {
                if spec_contains_at(s@, needle@, i as int) {
                    let w = choose|l: int| 0 <= l < m && s@[i + l] != needle@[l];
                    assert(s@.subrange(i as int, i + m)[w] == needle@[w]);
                }
            }
        }
        i = i + 1;
    }
    proof {
        assert forall|j: int| !spec_contains_at(s@, needle@, j) by {
            if 0 <= j < i {
            } else {
                if j >= i && 0 <= j && j + m <= n {
                    assert(i > n - m);
                }
            }
        }
    }
    false
}

/// Whether the uppercase keyword `upper` occurs anywhere in `s`,
/// ignoring ASCII case.
pub fn contains_upper(s: &str, upper: &str) -> (r: bool)
    ensures
        r == spec_contains_ci(s@, upper@),
{
    let n = s.unicode_len();
    let m = upper.unicode_len();
    if m > n {
        return false;
    }
    let mut i: usize = 0;
    while i <= n - m
        invariant
            m <= n,
            i <= n - m + 1,
            n == s@.len(),
            m == upper@.len(),
            forall|j: int| 0 <= j < i ==> !spec_contains_ci_at(s@, upper@, j),
        decreases n - i,
    {
        let mut k: usize = 0;
        let mut eq = true;
        while k < m
            invariant
                k <= m,
                i + m <= n,
                n == s@.len(),
                m == upper@.len(),
                eq == (forall|l: int| 0 <= l < k ==> spec_char_ci(s@[i + l], upper@[l])),
            decreases m - k,
        {
            let av = s.get_char(i + k) as u32;
            let bv = upper.get_char(k) as u32;
            let ok = av == bv || (97 <= av && av <= 122 && av == bv + 32);
            if !ok {
                eq = false;
            }
            k = k + 1;
        }
        if eq {
            proof {
                assert(s@.subrange(i as int, i + m).len() == m);
                assert forall|l: int| 0 <= l < m implies spec_char_ci(
                    s@.subrange(i as int, i + m)[l],
                    upper@[l],
                ) by {
                    assert(s@.subrange(i as int, i + m)[l] == s@[i + l]);
                }
                assert(spec_contains_ci_at(s@, upper@, i as int));
            }
            return true;
        }
        proof {
            assert(!spec_contains_ci_at(s@, upper@, i as int)) by {
                if spec_contains_ci_at(s@, upper@, i as int) {
                    let w = choose|l: int| 0 <= l < m && !spec_char_ci(s@[i + l], upper@[l]);
                    assert(s@.subrange(i as int, i + m)[w] == s@[i + w]);
                }
            }
        }
        i = i + 1;
    }
    proof {
        assert forall|j: int| !spec_contains_ci_at(s@, upper@, j) by {
            if 0 <= j < i {
            } else {
                if j >= i && 0 <= j && j + m <= n {
                    assert(i > n - m);
                }
            }
        }
    }
    false
}

/// Sampling filter used when resizing.
#[derive(Clone, Copy, Debug, PartialEq, Eq, Structural)]
pub enum FilterType {
    Nearest,
    Triangle,
    Gaussian,
    CatmullRom,
    Lanczos3,
}

/// The filter a user named, matched ignoring case; `None` for an
/// unknown name.
pub open spec fn spec_parse_filter(s: Seq<char>) -> Option<FilterType> {
    if spec_eq_ci(s, "NEAREST"@) {
        Option::Some(FilterType::Nearest)
    } else if spec_eq_ci(s, "TRIANGLE"@) {
        Option::Some(FilterType::Triangle)
    } else if spec_eq_ci(s, "GAUSSIAN"@) {
        Option::Some(FilterType::Gaussian)
    } else if spec_eq_ci(s, "CATMULLROM"@) {
        Option::Some(FilterType::CatmullRom)
    } else if spec_eq_ci(s, "LANCZOS"@) {
        Option::Some(FilterType::Lanczos3)
    } else {
        Option::None
    }
}

/// Parses a sampling-filter name, ignoring case.
pub fn parse_filter(s: &str) -> (r: Option<FilterType>)
    ensures
        r == spec_parse_filter(s@),
{
    if matches_upper(s, "NEAREST") {
        Some(FilterType::Nearest)
    } else if matches_upper(s, "TRIANGLE") {
        Some(FilterType::Triangle)
    } else if matches_upper(s, "GAUSSIAN") {
        Some(FilterType::Gaussian)
    } else if matches_upper(s, "CATMULLROM") {
        Some(FilterType::CatmullRom)
    } else if matches_upper(s, "LANCZOS") {
        Some(FilterType::Lanczos3)
    } else {
        None
    }
}

/// An output image format, selected by file extension.
#[derive(Clone, Copy, Debug, PartialEq, Eq, Structural)]
pub enum ImageFormat {
    Png,
    Jpeg,
    Gif,
    WebP,
    Ico,
    Bmp,
    Tiff,
    Avif,
}

/// The format a file extension names, matched ignoring case; `None`
/// for an unknown extension.
pub open spec fn spec_format_from_ext(s: Seq<char>) -> Option<ImageFormat> {
    if spec_eq_ci(s, "PNG"@) {
        Option::Some(ImageFormat::Png)
    } else if spec_eq_ci(s, "JPG"@) || spec_eq_ci(s, "JPEG"@) {
        Option::Some(ImageFormat::Jpeg)
    } else if spec_eq_ci(s, "GIF"@) {
        Option::Some(ImageFormat::Gif)
    } else if spec_eq_ci(s, "WEBP"@) {
        Option::Some(ImageFormat::WebP)
    } else if spec_eq_ci(s, "ICO"@) {
        Option::Some(ImageFormat::Ico)
    } else if spec_eq_ci(s, "BMP"@) {
        Option::Some(ImageFormat::Bmp)
    } else if spec_eq_ci(s, "TIFF"@) || spec_eq_ci(s, "TIF"@) {
        Option::Some(ImageFormat::Tiff)
    } else if spec_eq_ci(s, "AVIF"@) {
        Option::Some(ImageFormat::Avif)
    } else {
        Option::None
    }
}

/// The canonical extension written for each format.
pub open spec fn spec_primary_ext(f: ImageFormat) -> Seq<char> {
    match f {
        ImageFormat::Png => "png"@,
        ImageFormat::Jpeg => "jpg"@,
        ImageFormat::Gif => "gif"@,
        ImageFormat::WebP => "webp"@,
        ImageFormat::Ico => "ico"@,
        ImageFormat::Bmp => "bmp"@,
        ImageFormat::Tiff => "tiff"@,
        ImageFormat::Avif => "avif"@,
    }
}

impl ImageFormat {
    /// Selects the format a file extension names, ignoring case.
    pub fn from_extension(ext: &str) -> (r: Option<ImageFormat>)
        ensures
            r == spec_format_from_ext(ext@),
    {
        if matches_upper(ext, "PNG") {
            Some(ImageFormat::Png)
        } else if matches_upper(ext, "JPG") || matches_upper(ext, "JPEG") {
            Some(ImageFormat::Jpeg)
        } else if matches_upper(ext, "GIF") {
            Some(ImageFormat::Gif)
        } else if matches_upper(ext, "WEBP") {
            Some(ImageFormat::WebP)
        } else if matches_upper(ext, "ICO") {
            Some(ImageFormat::Ico)
        } else if matches_upper(ext, "BMP") {
            Some(ImageFormat::Bmp)
        } else if matches_upper(ext, "TIFF") || matches_upper(ext, "TIF") {
            Some(ImageFormat::Tiff)
        } else if matches_upper(ext, "AVIF") {
            Some(ImageFormat::Avif)
        } else {
            None
        }
    }

    /// The canonical extension written for this format.
    pub fn primary_extension(&self) -> (r: &'static str)
        ensures
            r@ == spec_primary_ext(*self),
    {
        match self {
            ImageFormat::Png => "png",
            ImageFormat::Jpeg => "jpg",
            ImageFormat::Gif => "gif",
            ImageFormat::WebP => "webp",
            ImageFormat::Ico => "ico",
            ImageFormat::Bmp => "bmp",
            ImageFormat::Tiff => "tiff",
            ImageFormat::Avif => "avif",
        }
    }
}

/// Target size of a resize.
#[derive(Clone, Copy, Debug, Default, PartialEq, Eq, Structural)]
pub struct Dimensions {
    pub x: u32,
    pub y: u32,
}

/// The message a resize returns for an unknown filter name.
pub open spec fn spec_filter_err_msg() -> Seq<char> {
    "Please pick a valid filter out of: Nearest, Triangle, Gaussian, CatmullRom and Lanczos"@
}

/// The message a conversion returns when no format can be selected.
pub open spec fn spec_format_err_msg(format: Option<Seq<char>>) -> Seq<char> {
    match format {
        Option::Some(f) => "Couldn't get image format from extension: "@ + f,
        Option::None => "Could not obtain image format from output path"@,
    }
}

/// The dimensions an image of size `w` x `h` is given when it is
/// fitted inside a `tw` x `th` box with its aspect ratio kept: the
/// binding side takes the target exactly, the other is scaled with
/// rounding to nearest and clamped into `1..=target`. An empty image
/// takes the target box as it is. The scaled side is defined here in
/// exact integer arithmetic with half rounded up; a codec that scales
/// in floating point can land one pixel away on a rounding tie.
pub open spec fn spec_fit_dimensions(w: nat, h: nat, tw: nat, th: nat) -> (nat, nat) {
    if w == 0 || h == 0 {
        (tw, th)
    } else if h * tw <= th * w {
        let q = (2 * (h * tw) + w) / (2 * w);
        let nh = if q > th {
            th
        } else if q < 1 {
            1 as nat
        } else {
            q
        };
        (tw, nh)
    } else {
        let q = (2 * (w * th) + h) / (2 * h);
        let nw = if q > tw {
            tw
        } else if q < 1 {
            1 as nat
        } else {
            q
        };
        (nw, th)
    }
}

/// Resizes the image model: to the exact target, or fitted inside it
/// when the aspect ratio is preserved. Fails only on an unknown
/// filter name, leaving the image untouched.
pub fn resize_image(
    image: &mut ImageData,
    dimensions: Dimensions,
    filter: String,
    preserve_aspect: bool,
) -> (r: Result<(), String>)
    ensures
        match r {
            Result::Ok(()) => {
                &&& spec_parse_filter(filter@) is Some
                &&& final(image).color == old(image).color
                &&& (if preserve_aspect {
                    (final(image).width as nat, final(image).height as nat)
                        == spec_fit_dimensions(
                        old(image).width as nat,
                        old(image).height as nat,
                        dimensions.x as nat,
                        dimensions.y as nat,
                    )
                } else {
                    final(image).width == dimensions.x && final(image).height == dimensions.y
                })
            },
            Result::Err(e) => {
                &&& spec_parse_filter(filter@) is None
                &&& *final(image) == *old(image)
                &&& e@ == spec_filter_err_msg()
            },
        },
{
    if parse_filter(filter.as_str()).is_none() {
        let msg =
            "Please pick a valid filter out of: Nearest, Triangle, Gaussian, CatmullRom and Lanczos".to_owned();
        proof {
            reveal_strlit(
                "Please pick a valid filter out of: Nearest, Triangle, Gaussian, CatmullRom and Lanczos",
            );
            assert(msg@ =~= spec_filter_err_msg());
        }
        return Err(msg);
    }
    if preserve_aspect {
        let (w, h) = fit_dimensions(image.width, image.height, dimensions.x, dimensions.y);
        image.width = w;
        image.height = h;
    } else {
        image.width = dimensions.x;
        image.height = dimensions.y;
    }
    Ok(())
}

/// Computes the fitted size of `spec_fit_dimensions` in executable
/// arithmetic.
fn fit_dimensions(w: u32, h: u32, tw: u32, th: u32) -> (r: (u32, u32))
    ensures
        (r.0 as nat, r.1 as nat) == spec_fit_dimensions(w as nat, h as nat, tw as nat, th as nat),
{
    if w == 0 || h == 0 {
        return (tw, th);
    }
    let wl = w as u128;
    let hl = h as u128;
    let twl = tw as u128;
    let thl = th as u128;
    proof {
        assert(hl * twl <= 0xffff_ffffu128 * 0xffff_ffffu128) by (nonlinear_arith)
            requires
                hl <= 0xffff_ffffu128,
                twl <= 0xffff_ffffu128,
        ;
        assert(thl * wl <= 0xffff_ffffu128 * 0xffff_ffffu128) by (nonlinear_arith)
            requires
                thl <= 0xffff_ffffu128,
                wl <= 0xffff_ffffu128,
        ;
        assert(wl * thl <= 0xffff_ffffu128 * 0xffff_ffffu128) by (nonlinear_arith)
            requires
                wl <= 0xffff_ffffu128,
                thl <= 0xffff_ffffu128,
        ;
    }
    let ht = hl * twl;
    let tw_side = thl * wl;
    let wt = wl * thl;
    if ht <= tw_side {
        let q = (2 * ht + wl) / (2 * wl);
        let nh: u32 = if q > thl {
            th
        } else if q < 1 {
            1
        } else {
            q as u32
        };
        (tw, nh)
    } else {
        let q = (2 * wt + hl) / (2 * hl);
        let nw: u32 = if q > twl {
            tw
        } else if q < 1 {
            1
        } else {
            q as u32
        };
        (nw, th)
    }
}

/// Removes the background of the image in place: the pixel format
/// becomes the alpha-carrying color format of the image's bit depth,
/// and the dimensions are kept.
pub fn remove_background(image: &mut ImageData)
    ensures
        final(image).width == old(image).width,
        final(image).height == old(image).height,
        final(image).color == (match spec_info_depth(old(image).color) {
            BitDepth::B8 => ColorType::Rgba8,
            BitDepth::B16 => ColorType::Rgba16,
            BitDepth::B32 => ColorType::Rgba32F,
        }),
{
    let color_info = ColorInfo::from_image(image);
    match color_info.bit_depth {
        BitDepth::B8 => {
            image.color = ColorType::Rgba8;
        },
        BitDepth::B16 => {
            image.color = ColorType::Rgba16;
        },
        BitDepth::B32 => {
            image.color = ColorType::Rgba32F;
        },
    }
}

/// The bit depth the pipeline reads off a concrete pixel format.
pub open spec fn spec_info_depth(c: ColorType) -> BitDepth {
    crate::color::spec_info_of_color_type(c).bit_depth
}

/// The image format that `format` (an extension) or otherwise `path`
/// (by its extension) selects.
pub open spec fn spec_image_format(format: Option<Seq<char>>, path: Option<Seq<char>>) -> Result<
    ImageFormat,
    (),
> {
    match format {
        Option::Some(f) => match spec_format_from_ext(f) {
            Option::Some(r) => Result::Ok(r),
            Option::None => Result::Err(()),
        },
        Option::None => match path {
            Option::Some(p) => match spec_format_from_ext(crate::paths::spec_ext_of(p)) {
                Option::Some(r) => Result::Ok(r),
                Option::None => Result::Err(()),
            },
            Option::None => Result::Err(()),
        },
    }
}

/// Selects the output image format: an explicit extension wins, else
/// the output path's extension decides.
pub fn image_format(format: Option<&str>, path: Option<&str>) -> (r: Result<ImageFormat, String>)
    requires
        format is Some || path is Some,
    ensures
        match r {
            Result::Ok(f) => spec_image_format(
                match format {
                    Option::Some(s) => Option::Some(s@),
                    Option::None => Option::None,
                },
                match path {
                    Option::Some(s) => Option::Some(s@),
                    Option::None => Option::None,
                },
            ) == Result::<ImageFormat, ()>::Ok(f),
            Result::Err(_) => spec_image_format(
                match format {
                    Option::Some(s) => Option::Some(s@),
                    Option::None => Option::None,
                },
                match path {
                    Option::Some(s) => Option::Some(s@),
                    Option::None => Option::None,
                },
            ) is Err,
        },
{
    match format {
        Some(format_extension) => match ImageFormat::from_extension(format_extension) {
            Some(f) => Ok(f),
            None => {
                let mut msg = "Couldn't get image format from extension: ".to_owned();
                msg.append(format_extension);
                Err(msg)
            },
        },
        None => {
            let p = match path {
                Some(p) => p,
                None => {
                    return Err("Could not obtain image format from output path".to_owned());
                },
            };
            let ext = crate::paths::extension_of(p);
            match ImageFormat::from_extension(ext.as_str()) {
                Some(f) => Ok(f),
                None => Err("Could not obtain image format from output path".to_owned()),
            }
        },
    }
}

/// Converts the image to the requested format in memory. An `Avif`
/// target is handed back as it is for the save step to encode, and
/// the held image is replaced by the empty placeholder; any other
/// known format round-trips through its codec, which keeps the model
/// unchanged. Fails only when no format can be selected.
pub fn convert_image(image: &mut ImageData, format: Option<&str>) -> (r: Result<ImageData, String>)
    ensures
        match r {
            Result::Ok(out) => {
                &&& spec_image_format(
                    match format {
                        Option::Some(s) => Option::Some(s@),
                        Option::None => Option::None,
                    },
                    Option::None,
                ) is Ok
                &&& out == *old(image)
                &&& (if spec_image_format(
                    match format {
                        Option::Some(s) => Option::Some(s@),
                        Option::None => Option::None,
                    },
                    Option::None,
                ) == Result::<ImageFormat, ()>::Ok(ImageFormat::Avif) {
                    *final(image) == spec_empty_image()
                } else {
                    *final(image) == *old(image)
                })
            },
            Result::Err(e) => {
                &&& spec_image_format(
                    match format {
                        Option::Some(s) => Option::Some(s@),
                        Option::None => Option::None,
                    },
                    Option::None,
                ) is Err
                &&& *final(image) == *old(image)
                &&& e@ == spec_format_err_msg(match format {
                    Option::Some(f) => Option::Some(f@),
                    Option::None => Option::None,
                })
            },
        },
{
    let fmt = match format {
        Some(f) => match ImageFormat::from_extension(f) {
            Some(fmt) => fmt,
            None => {
                let mut msg = "Couldn't get image format from extension: ".to_owned();
                msg.append(f);
                proof {
                    reveal_strlit("Couldn't get image format from extension: ");
                    assert(msg@ =~= spec_format_err_msg(Option::Some(f@)));
                }
                return Err(msg);
            },
        },
        None => {
            let msg = "Could not obtain image format from output path".to_owned();
            proof {
                reveal_strlit("Could not obtain image format from output path");
                assert(msg@ =~= spec_format_err_msg(Option::<Seq<char>>::None));
            }
            return Err(msg);
        },
    };
    if matches!(fmt, ImageFormat::Avif) {
        let out = *image;
        *image = ImageData::default();
        return Ok(out);
    }
    Ok(*image)
}

} // verus!
