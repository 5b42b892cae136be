//! Model of a decoded image as the pipeline sees it: its dimensions
//! and pixel format. Pixel contents live with the codec collaborators
//! outside this library; every pipeline decision reads only this data.

use vstd::prelude::*;

use crate::color::ColorType;

verus! {

/// The decoded payload of one task: dimensions and pixel format.
#[derive(Clone, Copy, Debug, PartialEq, Eq, Structural)]
pub struct ImageData {
    pub width: u32,
    pub height: u32,
    pub color: ColorType,
}

/// The placeholder payload of a task that has not been decoded yet.
pub open spec fn spec_empty_image() -> ImageData {
    ImageData { width: 0, height: 0, color: ColorType::Rgba8 }
}

impl ImageData {
    pub fn new(width: u32, height: u32, color: ColorType) -> (r: ImageData)
        ensures
            r == (ImageData { width, height, color }),
    {
        ImageData { width, height, color }
    }

    /// A 16-bit luma image with an alpha channel.
    pub fn new_luma_a16(width: u32, height: u32) -> (r: ImageData)
        ensures
            r == (ImageData { width, height, color: ColorType::La16 }),
    {
        ImageData { width, height, color: ColorType::La16 }
    }

    /// A 16-bit color image with an alpha channel.
    pub fn new_rgba16(width: u32, height: u32) -> (r: ImageData)
        ensures
            r == (ImageData { width, height, color: ColorType::Rgba16 }),
    {
        ImageData { width, height, color: ColorType::Rgba16 }
    }
}

impl Default for ImageData {
    /// The placeholder payload of a task that has not been decoded yet.
    fn default() -> (r: ImageData)
        ensures
            r == spec_empty_image(),
    {
        ImageData { width: 0, height: 0, color: ColorType::Rgba8 }
    }
}

} // verus!
