//! Color model of a decoded image: pixel format, bit depth and color
//! space, together with the conversions between them.

use vstd::prelude::*;

verus! {

/// Bit depth of one channel of a pixel.
#[derive(Clone, Copy, Debug, PartialEq, Eq, Structural)]
pub enum BitDepth {
    B8,
    B16,
    B32,
}

/// Color space of an image, with or without an alpha channel.
#[derive(Clone, Copy, Debug, PartialEq, Eq, Structural)]
pub enum ColorSpace {
    Rgb,
    RgbA,
    Luma,
    LumaA,
    Unknown,
}

/// Concrete pixel format of a decoded image, one variant per supported
/// storage layout.
#[derive(Clone, Copy, Debug, PartialEq, Eq, Structural)]
pub enum ColorType {
    L8,
    La8,
    L16,
    La16,
    Rgb8,
    Rgba8,
    Rgb16,
    Rgba16,
    Rgb32F,
    Rgba32F,
}

/// Summary of a pixel format: its color space and bit depth.
#[derive(Clone, Copy, Debug, PartialEq, Eq, Structural)]
pub struct ColorInfo {
    pub color_space: ColorSpace,
    pub bit_depth: BitDepth,
}

/// The `ColorInfo` that describes a concrete pixel format.
pub open spec fn spec_info_of_color_type(c: ColorType) -> ColorInfo {
    match c {
        ColorType::L8 => ColorInfo { color_space: ColorSpace::Luma, bit_depth: BitDepth::B8 },
        ColorType::La8 => ColorInfo { color_space: ColorSpace::LumaA, bit_depth: BitDepth::B8 },
        ColorType::L16 => ColorInfo { color_space: ColorSpace::Luma, bit_depth: BitDepth::B16 },
        ColorType::La16 => ColorInfo { color_space: ColorSpace::LumaA, bit_depth: BitDepth::B16 },
        ColorType::Rgb8 => ColorInfo { color_space: ColorSpace::Rgb, bit_depth: BitDepth::B8 },
        ColorType::Rgba8 => ColorInfo { color_space: ColorSpace::RgbA, bit_depth: BitDepth::B8 },
        ColorType::Rgb16 => ColorInfo { color_space: ColorSpace::Rgb, bit_depth: BitDepth::B16 },
        ColorType::Rgba16 => ColorInfo {
            color_space: ColorSpace::RgbA,
            bit_depth: BitDepth::B16,
        },
        ColorType::Rgb32F => ColorInfo { color_space: ColorSpace::Rgb, bit_depth: BitDepth::B32 },
        ColorType::Rgba32F => ColorInfo {
            color_space: ColorSpace::RgbA,
            bit_depth: BitDepth::B32,
        },
    }
}

/// The concrete pixel format chosen for a `ColorInfo`; luma images are
/// capped at 16 bits and an unknown color space falls back to `Rgb8`.
pub open spec fn spec_color_type_of_info(info: ColorInfo) -> ColorType {
    match info.color_space {
        ColorSpace::Rgb => match info.bit_depth {
            BitDepth::B8 => ColorType::Rgb8,
            BitDepth::B16 => ColorType::Rgb16,
            BitDepth::B32 => ColorType::Rgb32F,
        },
        ColorSpace::RgbA => match info.bit_depth {
            BitDepth::B8 => ColorType::Rgba8,
            BitDepth::B16 => ColorType::Rgba16,
            BitDepth::B32 => ColorType::Rgba32F,
        },
        ColorSpace::Luma => match info.bit_depth {
            BitDepth::B8 => ColorType::L8,
            BitDepth::B16 => ColorType::L16,
            BitDepth::B32 => ColorType::L16,
        },
        ColorSpace::LumaA => match info.bit_depth {
            BitDepth::B8 => ColorType::La8,
            BitDepth::B16 => ColorType::La16,
            BitDepth::B32 => ColorType::La16,
        },
        ColorSpace::Unknown => ColorType::Rgb8,
    }
}

impl ColorInfo {
    pub fn new(color_space: ColorSpace, bit_depth: BitDepth) -> (r: ColorInfo)
        ensures
            r == (ColorInfo { color_space, bit_depth }),
    {
        ColorInfo { color_space, bit_depth }
    }

    /// Summarizes the pixel format of a decoded image.
    pub fn from_image(image: &crate::image_data::ImageData) -> (r: ColorInfo)
        ensures
            r == spec_info_of_color_type(image.color),
    {
        ColorInfo::from_color_type(image.color)
    }

    /// Summarizes a concrete pixel format.
    pub fn from_color_type(c: ColorType) -> (r: ColorInfo)
        ensures
            r == spec_info_of_color_type(c),
    {
        match c {
            ColorType::L8 => ColorInfo { color_space: ColorSpace::Luma, bit_depth: BitDepth::B8 },
            ColorType::La8 => ColorInfo {
                color_space: ColorSpace::LumaA,
                bit_depth: BitDepth::B8,
            },
            ColorType::L16 => ColorInfo {
                color_space: ColorSpace::Luma,
                bit_depth: BitDepth::B16,
            },
            ColorType::La16 => ColorInfo {
                color_space: ColorSpace::LumaA,
                bit_depth: BitDepth::B16,
            },
            ColorType::Rgb8 => ColorInfo { color_space: ColorSpace::Rgb, bit_depth: BitDepth::B8 },
            ColorType::Rgba8 => ColorInfo {
                color_space: ColorSpace::RgbA,
                bit_depth: BitDepth::B8,
            },
            ColorType::Rgb16 => ColorInfo {
                color_space: ColorSpace::Rgb,
                bit_depth: BitDepth::B16,
            },
            ColorType::Rgba16 => ColorInfo {
                color_space: ColorSpace::RgbA,
                bit_depth: BitDepth::B16,
            },
            ColorType::Rgb32F => ColorInfo {
                color_space: ColorSpace::Rgb,
                bit_depth: BitDepth::B32,
            },
            ColorType::Rgba32F => ColorInfo {
                color_space: ColorSpace::RgbA,
                bit_depth: BitDepth::B32,
            },
        }
    }

    /// The concrete pixel format this summary converts an image to.
    pub fn to_color_type(&self) -> (r: ColorType)
        ensures
            r == spec_color_type_of_info(*self),
    {
        match self.color_space {
            ColorSpace::Rgb => match self.bit_depth {
                BitDepth::B8 => ColorType::Rgb8,
                BitDepth::B16 => ColorType::Rgb16,
                BitDepth::B32 => ColorType::Rgb32F,
            },
            ColorSpace::RgbA => match self.bit_depth {
                BitDepth::B8 => ColorType::Rgba8,
                BitDepth::B16 => ColorType::Rgba16,
                BitDepth::B32 => ColorType::Rgba32F,
            },
            ColorSpace::Luma => match self.bit_depth {
                BitDepth::B8 => ColorType::L8,
                BitDepth::B16 => ColorType::L16,
                BitDepth::B32 => ColorType::L16,
            },
            ColorSpace::LumaA => match self.bit_depth {
                BitDepth::B8 => ColorType::La8,
                BitDepth::B16 => ColorType::La16,
                BitDepth::B32 => ColorType::La16,
            },
            ColorSpace::Unknown => ColorType::Rgb8,
        }
    }

    /// Re-colors an image in place to the concrete pixel format chosen
    /// for this summary; the dimensions are kept.
    pub fn convert_image(&self, image: &mut crate::image_data::ImageData)
        ensures
            final(image).width == old(image).width,
            final(image).height == old(image).height,
            final(image).color == spec_color_type_of_info(*self),
    {
        image.color = self.to_color_type();
    }
}

/// The summary round-trips: converting an image to the pixel format
/// its own summary names leaves the format unchanged, for every
/// supported format.
pub proof fn lemma_color_round_trip(c: ColorType)
    ensures
        spec_color_type_of_info(spec_info_of_color_type(c)) == c,
{
}

/// The color summary a free-form description names: `alpha` adds an
/// alpha channel, `luma` or `rgb` (any case) picks the color space,
/// and the first of `8`, `16`, `32` found picks the bit depth.
pub open spec fn spec_parse_color_info(s: Seq<char>) -> ColorInfo {
    let alpha = crate::manipulator::spec_contains(s, "alpha"@);
    let color_space = if crate::manipulator::spec_contains(s, "luma"@) {
        if alpha {
            ColorSpace::LumaA
        } else {
            ColorSpace::Luma
        }
    } else if crate::manipulator::spec_contains_ci(s, "RGB"@) {
        if alpha {
            ColorSpace::RgbA
        } else {
            ColorSpace::Rgb
        }
    } else {
        ColorSpace::Unknown
    };
    let bit_depth = if crate::manipulator::spec_contains(s, "8"@) {
        BitDepth::B8
    } else if crate::manipulator::spec_contains(s, "16"@) {
        BitDepth::B16
    } else if crate::manipulator::spec_contains(s, "32"@) {
        BitDepth::B32
    } else {
        BitDepth::B8
    };
    ColorInfo { color_space, bit_depth }
}

impl ColorInfo {
    /// Reads a color summary out of a free-form description.
    pub fn parse(s: &str) -> (r: ColorInfo)
        ensures
            r == spec_parse_color_info(s@),
    {
        let alpha = crate::manipulator::contains_str(s, "alpha");
        let color_space = if crate::manipulator::contains_str(s, "luma") {
            if alpha {
                ColorSpace::LumaA
            } else {
                ColorSpace::Luma
            }
        } else if crate::manipulator::contains_upper(s, "RGB") {
            if alpha {
                ColorSpace::RgbA
            } else {
                ColorSpace::Rgb
            }
        } else {
            ColorSpace::Unknown
        };
        let bit_depth = if crate::manipulator::contains_str(s, "8") {
            BitDepth::B8
        } else if crate::manipulator::contains_str(s, "16") {
            BitDepth::B16
        } else if crate::manipulator::contains_str(s, "32") {
            BitDepth::B32
        } else {
            BitDepth::B8
        };
        ColorInfo { color_space, bit_depth }
    }
}

impl core::str::FromStr for ColorInfo {
    type Err = String;

    fn from_str(s: &str) -> Result<ColorInfo, String> {
        Ok(ColorInfo::parse(s))
    }
}

impl Default for ColorInfo {
    fn default() -> (r: ColorInfo)
        ensures
            r == (ColorInfo { color_space: ColorSpace::Rgb, bit_depth: BitDepth::B8 }),
    {
        ColorInfo { color_space: ColorSpace::Rgb, bit_depth: BitDepth::B8 }
    }
}

/// Anything that determines a pixel format: either a summary or a
/// concrete format.
pub trait ColorData: Sized {
    spec fn spec_color_info(&self) -> ColorInfo;

    fn color_info(&self) -> (r: ColorInfo)
        ensures
            r == self.spec_color_info(),
    ;

    fn color_type(&self) -> (r: ColorType)
        ensures
            spec_info_of_color_type(r) == spec_info_of_color_type(
                spec_color_type_of_info(self.spec_color_info()),
            ),
    ;
}

impl ColorData for ColorInfo {
    open spec fn spec_color_info(&self) -> ColorInfo {
        *self
    }

    fn color_info(&self) -> (r: ColorInfo) {
        *self
    }

    fn color_type(&self) -> (r: ColorType) {
        self.to_color_type()
    }
}

impl ColorData for ColorType {
    open spec fn spec_color_info(&self) -> ColorInfo {
        spec_info_of_color_type(*self)
    }

    fn color_info(&self) -> (r: ColorInfo) {
        ColorInfo::from_color_type(*self)
    }

    fn color_type(&self) -> (r: ColorType) {
        *self
    }
}

} // verus!
