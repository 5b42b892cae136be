//! Randomized image transforms, used mainly by tests: random hue,
//! random size within bounds, random pixel colors. The draws come
//! from the process-wide random number generator; every contract here
//! states only what holds of every possible draw.

use vstd::prelude::*;

use crate::color::{spec_color_type_of_info, ColorData};
use crate::image_data::ImageData;
use crate::manipulator::FilterType;

verus! {

/// Why a randomized transform failed; no transform on the image
/// model currently produces it, and every contract below rules it
/// out.
#[derive(Clone, Copy, Debug, PartialEq, Eq, Structural)]
pub enum RandomizerError {
    Unsupported,
}

/// Relies on rand::random_range over an inclusive integer range: the
/// draw lies within the bounds. The range is nonempty by
/// precondition, so the call cannot panic; nothing more is assumed of
/// the draw.
#[verifier::external_body]
fn random_in_range(lo: u32, hi: u32) -> (r: u32)
    requires
        lo <= hi,
    ensures
        lo <= r <= hi,
{
    rand::random_range(lo..=hi)
}

/// Randomizes the data of an image, returning a new instance each
/// time.
pub trait Randomizer: Sized {
    /// Fills the image with completely random data.
    fn randomize_all(&self) -> Result<Self, RandomizerError>;

    /// Rotates the hue by a random angle.
    fn randomize_hue(&self) -> Result<Self, RandomizerError>;

    /// Shifts the saturation by a random amount.
    fn randomize_saturation(&self) -> Result<Self, RandomizerError>;

    /// Resizes to a random size within the given inclusive bounds.
    fn randomize_size(
        &self,
        min_width: u32,
        min_height: u32,
        max_width: u32,
        max_height: u32,
        filter_type: Option<FilterType>,
    ) -> Result<Self, RandomizerError>
        requires
            min_width <= max_width,
            min_height <= max_height,
    ;

    /// Re-colors to the given pixel format and randomizes the pixel
    /// values; dimensions are kept.
    fn randomize_color<X: ColorData>(&self, color_data: X) -> Result<Self, RandomizerError>;
}

impl Randomizer for ImageData {
    /// Random pixel contents live outside the model, so the model
    /// comes back unchanged.
    fn randomize_all(&self) -> (r: Result<Self, RandomizerError>)
        ensures
            r == Result::<ImageData, RandomizerError>::Ok(*self),
    {
        Ok(*self)
    }

    /// A hue rotation changes neither dimensions nor pixel format.
    fn randomize_hue(&self) -> (r: Result<Self, RandomizerError>)
        ensures
            r == Result::<ImageData, RandomizerError>::Ok(*self),
    {
        let _rotation = random_in_range(0, 360);
        Ok(*self)
    }

    /// A saturation shift changes neither dimensions nor pixel
    /// format.
    fn randomize_saturation(&self) -> (r: Result<Self, RandomizerError>)
        ensures
            r == Result::<ImageData, RandomizerError>::Ok(*self),
    {
        Ok(*self)
    }

    /// The drawn size lies within the bounds; the pixel format is
    /// kept.
    fn randomize_size(
        &self,
        min_width: u32,
        min_height: u32,
        max_width: u32,
        max_height: u32,
        _filter_type: Option<FilterType>,
    ) -> (r: Result<Self, RandomizerError>)
        ensures
            match r {
                Result::Ok(img) => {
                    &&& img.color == self.color
                    &&& min_width <= img.width <= max_width
                    &&& min_height <= img.height <= max_height
                },
                Result::Err(_) => false,
            },
    {
        let height = random_in_range(min_height, max_height);
        let width = random_in_range(min_width, max_width);
        Ok(ImageData { width, height, color: self.color })
    }

    /// The image takes the pixel format the argument selects; the
    /// dimensions are kept.
    fn randomize_color<X: ColorData>(&self, color_data: X) -> (r: Result<Self, RandomizerError>)
        ensures
            match r {
                Result::Ok(img) => {
                    &&& img.width == self.width
                    &&& img.height == self.height
                    &&& img.color == spec_color_type_of_info(color_data.spec_color_info())
                },
                Result::Err(_) => false,
            },
    {
        let info = color_data.color_info();
        let mut image = *self;
        info.convert_image(&mut image);
        Ok(image)
    }
}

} // verus!
