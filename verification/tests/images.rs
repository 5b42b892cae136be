use rimi::color::{BitDepth, ColorInfo, ColorSpace, ColorType};
use rimi::command::{command_msg, run_command, run_mode, ImageCommand, RecolorArgs, ResizeArgs,
    RunMode, TransparentArgs};
use rimi::error::AppError;
use rimi::image_data::ImageData;
use rimi::manipulator::{remove_background, resize_image, Dimensions, ImageFormat};
use rimi::randomize::Randomizer;
use rimi::transparency::Transparenize;

#[test]
fn resize() {
    let mut images = Vec::<ImageData>::new();

    for _ in 1..10 {
        let image = {
            let i = ImageData::new_luma_a16(1920, 1080);

            i.randomize_size(480, 270, 3840, 2160, None)
        };

        images.push(image.unwrap());
    }
}

#[test]
fn randomize_test() {
    let mut images: Vec<ImageData> = Vec::new();

    for _ in 1..10 {
        let image = {
            let i = ImageData::new_luma_a16(1920, 1080);

            i.randomize_all()
        };

        images.push(image.unwrap());
    }
}

#[test]
fn multi_random() {
    let mut images: Vec<ImageData> = Vec::new();

    for _ in 1..10 {
        let image = {
            let i = ImageData::new_luma_a16(1920, 1080);

            i.randomize_hue().unwrap().randomize_size(640, 360, 15360, 8640, None)
        };

        images.push(image.unwrap());
    }
}

#[test]
fn transparency() {
    let mut images = Vec::<ImageData>::new();

    for _ in 1..10 {
        let image = {
            let i = ImageData::new_rgba16(1920, 1080);

            i.randomize_color(ColorType::Rgba16).unwrap().transparentize()
        };

        images.push(image);
    }
}

#[test]
fn randomize_size_stays_in_bounds() {
    let i = ImageData::new_luma_a16(1920, 1080);
    for _ in 0..20 {
        let r = i.randomize_size(480, 270, 3840, 2160, None).unwrap();
        assert!(480 <= r.width && r.width <= 3840);
        assert!(270 <= r.height && r.height <= 2160);
        assert_eq!(r.color, ColorType::La16);
    }
}

#[test]
fn color_info_from_image() {
    let img = ImageData::new(10, 10, ColorType::Rgba16);
    let info = ColorInfo::from_image(&img);
    assert_eq!(info.bit_depth, BitDepth::B16);
    assert_eq!(info.color_space, ColorSpace::RgbA);

    let img = ImageData::new(10, 10, ColorType::La16);
    let info = ColorInfo::from_image(&img);
    assert_eq!(info.color_space, ColorSpace::LumaA);
    assert_eq!(info.bit_depth, BitDepth::B16);
}

#[test]
fn color_summary_round_trips_every_format() {
    let all = [
        ColorType::L8,
        ColorType::La8,
        ColorType::L16,
        ColorType::La16,
        ColorType::Rgb8,
        ColorType::Rgba8,
        ColorType::Rgb16,
        ColorType::Rgba16,
        ColorType::Rgb32F,
        ColorType::Rgba32F,
    ];
    for c in all {
        assert_eq!(ColorInfo::from_color_type(c).to_color_type(), c);
    }
}

#[test]
fn color_conversion_caps_luma_depth() {
    let info = ColorInfo::new(ColorSpace::Luma, BitDepth::B32);
    assert_eq!(info.to_color_type(), ColorType::L16);
    let info = ColorInfo::new(ColorSpace::Unknown, BitDepth::B16);
    assert_eq!(info.to_color_type(), ColorType::Rgb8);
    let info = ColorInfo::new(ColorSpace::RgbA, BitDepth::B32);
    assert_eq!(info.to_color_type(), ColorType::Rgba32F);
}

#[test]
fn resize_exact_dimensions() {
    let mut img = ImageData::new(1920, 1080, ColorType::Rgb8);
    let r = resize_image(&mut img, Dimensions { x: 100, y: 50 }, "nearest".to_string(), false);
    assert!(r.is_ok());
    assert_eq!(img.width, 100);
    assert_eq!(img.height, 50);
    assert_eq!(img.color, ColorType::Rgb8);
}

#[test]
fn resize_preserving_aspect_ratio() {
    let mut img = ImageData::new(1920, 1080, ColorType::Rgb8);
    let r = resize_image(&mut img, Dimensions { x: 960, y: 960 }, "LANCZOS".to_string(), true);
    assert!(r.is_ok());
    assert_eq!(img.width, 960);
    assert_eq!(img.height, 540);
}

#[test]
fn resize_rejects_unknown_filter() {
    let mut img = ImageData::new(1920, 1080, ColorType::Rgb8);
    let r = resize_image(&mut img, Dimensions { x: 100, y: 50 }, "cubic".to_string(), false);
    assert_eq!(
        r.unwrap_err(),
        "Please pick a valid filter out of: Nearest, Triangle, Gaussian, CatmullRom and Lanczos"
    );
    assert_eq!(img.width, 1920);
    assert_eq!(img.height, 1080);
}

#[test]
fn remove_background_recolors_by_depth() {
    let mut img = ImageData::new(4, 4, ColorType::L8);
    remove_background(&mut img);
    assert_eq!(img.color, ColorType::Rgba8);

    let mut img = ImageData::new(4, 4, ColorType::Rgb16);
    remove_background(&mut img);
    assert_eq!(img.color, ColorType::Rgba16);

    let mut img = ImageData::new(4, 4, ColorType::Rgba32F);
    remove_background(&mut img);
    assert_eq!(img.color, ColorType::Rgba32F);
    assert_eq!(img.width, 4);
}

#[test]
fn format_from_extension_ignores_case() {
    assert_eq!(ImageFormat::from_extension("JpG"), Some(ImageFormat::Jpeg));
    assert_eq!(ImageFormat::from_extension("jpeg"), Some(ImageFormat::Jpeg));
    assert_eq!(ImageFormat::from_extension("PNG"), Some(ImageFormat::Png));
    assert_eq!(ImageFormat::from_extension("tif"), Some(ImageFormat::Tiff));
    assert_eq!(ImageFormat::from_extension("xyz"), None);
    assert_eq!(ImageFormat::Jpeg.primary_extension(), "jpg");
    assert_eq!(ImageFormat::Tiff.primary_extension(), "tiff");
}

#[test]
fn run_command_resize_takes_payload() {
    let mut img = ImageData::new(1920, 1080, ColorType::Rgb8);
    let cmd = ImageCommand::Resize(ResizeArgs {
        width: 100,
        height: 50,
        filter: "Nearest".to_string(),
        preserve_aspect: false,
    });
    let out = run_command(&cmd, &mut img, None).unwrap();
    assert_eq!(out.width, 100);
    assert_eq!(out.height, 50);
    assert_eq!(img, ImageData::default());
}

#[test]
fn run_command_recolor_and_transparentize() {
    let mut img = ImageData::new(8, 8, ColorType::Rgb8);
    let cmd = ImageCommand::Recolor(RecolorArgs {
        color_space: ColorSpace::Luma,
        bit_depth: BitDepth::B16,
    });
    let out = run_command(&cmd, &mut img, None).unwrap();
    assert_eq!(out.color, ColorType::L16);

    let mut img = ImageData::new(8, 8, ColorType::Rgb16);
    let cmd = ImageCommand::Transparentize(TransparentArgs {});
    let out = run_command(&cmd, &mut img, None).unwrap();
    assert_eq!(out.color, ColorType::Rgba16);
}

#[test]
fn run_command_convert_needs_format() {
    let mut img = ImageData::new(8, 8, ColorType::Rgb8);
    let r = run_command(&ImageCommand::Convert, &mut img, None);
    assert_eq!(r.unwrap_err(), "Could not obtain image format from output path");

    let r = run_command(&ImageCommand::Convert, &mut img, Some("xyz"));
    assert_eq!(r.unwrap_err(), "Couldn't get image format from extension: xyz");

    let out = run_command(&ImageCommand::Convert, &mut img, Some("png")).unwrap();
    assert_eq!(out, ImageData::new(8, 8, ColorType::Rgb8));
}

#[test]
fn command_messages() {
    let msg = command_msg(&ImageCommand::Convert, "a.png").unwrap();
    assert_eq!(msg, "Converting: a.png");
    let msg = command_msg(&ImageCommand::Transparentize(TransparentArgs {}), "b.gif").unwrap();
    assert_eq!(msg, "Removing background: b.gif");
}

#[test]
fn run_mode_by_image_count() {
    assert_eq!(run_mode(0).unwrap_err(), AppError::NoImages);
    assert_eq!(run_mode(1).unwrap(), RunMode::Single);
    assert_eq!(run_mode(7).unwrap(), RunMode::Batch);
}

#[test]
fn color_descriptions_parse() {
    let info: ColorInfo = "luma_alpha16".parse().unwrap();
    assert_eq!(info, ColorInfo::new(ColorSpace::LumaA, BitDepth::B16));

    assert_eq!(ColorInfo::parse("rgb8"), ColorInfo::new(ColorSpace::Rgb, BitDepth::B8));
    assert_eq!(ColorInfo::parse("RGB32"), ColorInfo::new(ColorSpace::Rgb, BitDepth::B32));
    assert_eq!(
        ColorInfo::parse("rgb_alpha16"),
        ColorInfo::new(ColorSpace::RgbA, BitDepth::B16)
    );
    assert_eq!(ColorInfo::parse("luma8"), ColorInfo::new(ColorSpace::Luma, BitDepth::B8));
    assert_eq!(
        ColorInfo::parse("mystery"),
        ColorInfo::new(ColorSpace::Unknown, BitDepth::B8)
    );
}
