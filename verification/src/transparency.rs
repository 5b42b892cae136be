//! Background removal as a trait, so that any image representation
//! can offer it; the model's version re-colors to the alpha-carrying
//! format of the image's bit depth.

use vstd::prelude::*;

use crate::color::{spec_info_of_color_type, BitDepth, ColorType};
use crate::image_data::ImageData;

verus! {

/// Removes the background of an image, returning a new instance:
/// every fully white pixel becomes transparent.
pub trait Transparenize: Sized {
    fn transparentize(&self) -> Self;
}

impl Transparenize for ImageData {
    /// The dimensions are kept; the pixel format becomes the
    /// alpha-carrying color format of the image's bit depth.
    fn transparentize(&self) -> (r: Self)
        ensures
            r.width == self.width,
            r.height == self.height,
            r.color == (match spec_info_of_color_type(self.color).bit_depth {
                BitDepth::B8 => ColorType::Rgba8,
                BitDepth::B16 => ColorType::Rgba16,
                BitDepth::B32 => ColorType::Rgba32F,
            }),
    {
        let mut img = *self;
        crate::manipulator::remove_background(&mut img);
        img
    }
}

} // verus!
