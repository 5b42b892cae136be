//! The image operations a batch run can be asked to perform, their
//! parameters, and the dispatch of one operation step on one task's
//! payload.

use vstd::prelude::*;

use crate::color::{spec_color_type_of_info, spec_info_of_color_type, BitDepth, ColorInfo,
    ColorSpace, ColorType};
use crate::error::AppError;
use crate::image_data::{spec_empty_image, ImageData};
use crate::manipulator::{convert_image, remove_background, resize_image, spec_fit_dimensions,
    spec_image_format, spec_parse_filter, Dimensions, ImageFormat};
use crate::paths::spec_opt_view;

verus! {

/// Parameters of a resize operation.
#[derive(Debug)]
pub struct ResizeArgs {
    pub width: u32,
    pub height: u32,
    pub filter: String,
    pub preserve_aspect: bool,
}

/// Parameters of a re-coloring operation.
#[derive(Clone, Copy, Debug, PartialEq, Eq, Structural)]
pub struct RecolorArgs {
    pub color_space: ColorSpace,
    pub bit_depth: BitDepth,
}

/// Parameters of a background removal; it takes none.
#[derive(Clone, Copy, Debug, PartialEq, Eq, Structural)]
pub struct TransparentArgs {}

/// The operation applied to every task of a run.
#[derive(Debug)]
pub enum ImageCommand {
    Convert,
    Resize(ResizeArgs),
    Transparentize(TransparentArgs),
    Recolor(RecolorArgs),
}

/// The image a resize leaves behind.
pub open spec fn spec_resized(img: ImageData, width: u32, height: u32, preserve_aspect: bool) -> ImageData {
    if preserve_aspect {
        let d = spec_fit_dimensions(img.width as nat, img.height as nat, width as nat, height as nat);
        ImageData { width: d.0 as u32, height: d.1 as u32, color: img.color }
    } else {
        ImageData { width, height, color: img.color }
    }
}

/// The image a re-coloring leaves behind.
pub open spec fn spec_recolored(img: ImageData, color_space: ColorSpace, bit_depth: BitDepth) -> ImageData {
    ImageData {
        width: img.width,
        height: img.height,
        color: spec_color_type_of_info(ColorInfo { color_space, bit_depth }),
    }
}

/// The image a background removal leaves behind.
pub open spec fn spec_transparentized(img: ImageData) -> ImageData {
    ImageData {
        width: img.width,
        height: img.height,
        color: match spec_info_of_color_type(img.color).bit_depth {
            BitDepth::B8 => ColorType::Rgba8,
            BitDepth::B16 => ColorType::Rgba16,
            BitDepth::B32 => ColorType::Rgba32F,
        },
    }
}

/// The outcome of one operation step on one payload: the transformed
/// payload, or failure. The outcome is a function of the command, the
/// payload and the requested format alone.
pub open spec fn spec_op_result(
    command: ImageCommand,
    img: ImageData,
    fmt: Option<Seq<char>>,
) -> Result<ImageData, ()> {
    match command {
        ImageCommand::Convert => match spec_image_format(fmt, Option::None) {
            Result::Ok(_) => Result::Ok(img),
            Result::Err(_) => Result::Err(()),
        },
        ImageCommand::Resize(args) => match spec_parse_filter(args.filter@) {
            Option::Some(_) => Result::Ok(
                spec_resized(img, args.width, args.height, args.preserve_aspect),
            ),
            Option::None => Result::Err(()),
        },
        ImageCommand::Recolor(args) => Result::Ok(
            spec_recolored(img, args.color_space, args.bit_depth),
        ),
        ImageCommand::Transparentize(_) => Result::Ok(spec_transparentized(img)),
    }
}

impl ResizeArgs {
    /// Resizes the payload in place with these parameters.
    pub fn run(&self, image: &mut ImageData) -> (r: Result<(), String>)
        ensures
            match r {
                Result::Ok(()) => spec_parse_filter(self.filter@) is Some && *final(image)
                    == spec_resized(*old(image), self.width, self.height, self.preserve_aspect),
                Result::Err(e) => spec_parse_filter(self.filter@) is None && *final(image) == *old(
                    image,
                ) && e@ == crate::manipulator::spec_filter_err_msg(),
            },
    {
        resize_image(
            image,
            Dimensions { x: self.width, y: self.height },
            self.filter.clone(),
            self.preserve_aspect,
        )
    }
}

impl RecolorArgs {
    /// Re-colors the payload in place with these parameters; this
    /// cannot fail.
    pub fn run(&self, image: &mut ImageData) -> (r: Result<(), String>)
        ensures
            r is Ok,
            *final(image) == spec_recolored(*old(image), self.color_space, self.bit_depth),
    {
        let color_info = ColorInfo::new(self.color_space, self.bit_depth);
        color_info.convert_image(image);
        Ok(())
    }
}

impl TransparentArgs {
    /// Removes the payload's background in place; this cannot fail.
    pub fn run(&self, image: &mut ImageData) -> (r: Result<(), String>)
        ensures
            r is Ok,
            *final(image) == spec_transparentized(*old(image)),
    {
        remove_background(image);
        Ok(())
    }
}

/// Performs the selected operation on one payload, taking it out of
/// the slot. On success the transformed payload is returned and the
/// slot is left empty, except for an in-memory conversion to a
/// format other than `Avif`, which leaves the slot as it was. On
/// failure the slot is untouched.
pub fn run_command(command: &ImageCommand, image: &mut ImageData, format: Option<&str>) -> (r:
    Result<ImageData, String>)
    ensures
        match r {
            Result::Ok(out) => spec_op_result(*command, *old(image), spec_opt_view(format))
                == Result::<ImageData, ()>::Ok(out),
            Result::Err(e) => spec_op_result(*command, *old(image), spec_opt_view(format)) is Err
                && e@ == spec_op_err_msg(*command, spec_opt_view(format)),
        },
        match r {
            Result::Ok(_) => (if command is Convert && !(spec_image_format(
                spec_opt_view(format),
                Option::None,
            ) == Result::<ImageFormat, ()>::Ok(ImageFormat::Avif)) {
                *final(image) == *old(image)
            } else {
                *final(image) == spec_empty_image()
            }),
            Result::Err(_) => *final(image) == *old(image),
        },
{
    match command {
        ImageCommand::Convert => convert_image(image, format),
        ImageCommand::Resize(args) => match args.run(image) {
            Result::Ok(()) => {
                let out = *image;
                *image = ImageData::default();
                Ok(out)
            },
            Result::Err(e) => Err(e),
        },
        ImageCommand::Recolor(args) => match args.run(image) {
            Result::Ok(()) => {
                let out = *image;
                *image = ImageData::default();
                Ok(out)
            },
            Result::Err(e) => Err(e),
        },
        ImageCommand::Transparentize(args) => match args.run(image) {
            Result::Ok(()) => {
                let out = *image;
                *image = ImageData::default();
                Ok(out)
            },
            Result::Err(e) => Err(e),
        },
    }
}

/// The message carried by a failed operation step; only a conversion
/// or a resize can fail, on a format or a filter that cannot be
/// selected.
pub open spec fn spec_op_err_msg(command: ImageCommand, fmt: Option<Seq<char>>) -> Seq<char> {
    match command {
        ImageCommand::Convert => crate::manipulator::spec_format_err_msg(fmt),
        ImageCommand::Resize(_) => crate::manipulator::spec_filter_err_msg(),
        ImageCommand::Recolor(_) => Seq::empty(),
        ImageCommand::Transparentize(_) => Seq::empty(),
    }
}

/// The progress-message prefix of each operation.
pub open spec fn spec_msg_prefix(command: ImageCommand) -> Seq<char> {
    match command {
        ImageCommand::Convert => "Converting"@,
        ImageCommand::Resize(_) => "Resizing"@,
        ImageCommand::Recolor(_) => "Recoloring"@,
        ImageCommand::Transparentize(_) => "Removing background"@,
    }
}

/// The progress message announced when an operation starts on one
/// image.
pub fn command_msg(command: &ImageCommand, image_name: &str) -> (r: Result<String, String>)
    ensures
        match r {
            Result::Ok(s) => s@ == spec_msg_prefix(*command) + ": "@ + image_name@,
            Result::Err(_) => false,
        },
{
    let prefix: &'static str = match command {
        ImageCommand::Convert => "Converting",
        ImageCommand::Resize(_) => "Resizing",
        ImageCommand::Recolor(_) => "Recoloring",
        ImageCommand::Transparentize(_) => "Removing background",
    };
    let mut s = prefix.to_owned();
    s.append(": ");
    s.append(image_name);
    proof {
        assert(s@ =~= spec_msg_prefix(*command) + ": "@ + image_name@);
    }
    Ok(s)
}

/// How a run is driven, by the number of images given.
#[derive(Clone, Copy, Debug, PartialEq, Eq, Structural)]
pub enum RunMode {
    Single,
    Batch,
}

/// Decides between the single-image path and the batch pipeline; no
/// images at all is an invocation error.
pub fn run_mode(image_count: usize) -> (r: Result<RunMode, AppError>)
    ensures
        match r {
            Result::Ok(RunMode::Single) => image_count == 1,
            Result::Ok(RunMode::Batch) => image_count > 1,
            Result::Err(e) => image_count == 0 && e == AppError::NoImages,
        },
{
    if image_count == 0 {
        Err(AppError::NoImages)
    } else if image_count == 1 {
        Ok(RunMode::Single)
    } else {
        Ok(RunMode::Batch)
    }
}

} // verus!
