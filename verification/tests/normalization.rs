use image_converter::raster::Resampling;
use image_converter::format::TargetFormat;
use image_converter::normalize::{
    can_normalize, fit_icon, flatten, normalize, promote, rules_for, try_normalize, Transform, ICON_SIDE,
};
use image_converter::raster::{CanonicalImage, ColorModel, Depth};

fn rgba8(width: u32, height: u32, samples: Vec<u8>) -> CanonicalImage {
    CanonicalImage::from_samples8(width, height, ColorModel::Rgba, samples).unwrap()
}

fn plain(width: u32, height: u32, model: ColorModel, value: u8) -> CanonicalImage {
    let count = width as usize * height as usize * model.channel_count();
    CanonicalImage::from_samples8(width, height, model, vec![value; count]).unwrap()
}

#[test]
fn rule_table() {
    assert_eq!(rules_for(TargetFormat::Jpeg), vec![Transform::FlattenAlpha]);
    assert_eq!(rules_for(TargetFormat::Ico), vec![Transform::FitIcon]);
    assert_eq!(rules_for(TargetFormat::Farbfeld), vec![Transform::PromoteDepth]);
    assert_eq!(rules_for(TargetFormat::Png), vec![]);
    assert_eq!(rules_for(TargetFormat::Gif), vec![]);
    assert_eq!(rules_for(TargetFormat::WebP), vec![]);
    assert_eq!(rules_for(TargetFormat::Bmp), vec![]);
    assert_eq!(rules_for(TargetFormat::Tiff), vec![]);
    assert_eq!(rules_for(TargetFormat::Tga), vec![]);
    assert_eq!(ICON_SIDE, 256);
}

#[test]
fn transparent_pixel_becomes_white() {
    let image = rgba8(2, 1, vec![10, 20, 30, 0, 200, 100, 50, 0]);
    let flat = flatten(&image);
    assert_eq!(flat.color_model(), ColorModel::Rgba);
    assert_eq!(flat.depth(), Depth::Eight);
    assert_eq!(flat.samples8(), Some(&vec![255; 8]));
}

#[test]
fn opaque_pixel_keeps_its_color() {
    let image = rgba8(2, 1, vec![10, 20, 30, 255, 0, 0, 0, 255]);
    let flat = flatten(&image);
    assert_eq!(flat.samples8(), Some(&vec![10, 20, 30, 255, 0, 0, 0, 255]));
}

#[test]
fn translucent_pixel_blends_toward_white() {
    let image = rgba8(1, 1, vec![0, 0, 0, 128]);
    let flat = flatten(&image);
    let samples = flat.samples8().unwrap();
    for channel in 0..3 {
        assert!((126..=128).contains(&samples[channel]), "channel {} is {}", channel, samples[channel]);
    }
    assert_eq!(samples[3], 255);
}

#[test]
fn flattened_image_is_fully_opaque() {
    let samples: Vec<u8> = (0..=255u8).flat_map(|a| [10, 100, 200, a]).collect();
    let image = rgba8(256, 1, samples);
    let flat = flatten(&image);
    let out = flat.samples8().unwrap();
    assert!(out.chunks(4).all(|pixel| pixel[3] == 255));
    assert_eq!(&out[..4], &[255, 255, 255, 255]);
    assert_eq!(&out[255 * 4..], &[10, 100, 200, 255]);
    for (alpha, pixel) in out.chunks(4).enumerate() {
        let expected = |color: f64| 255.0 - (255.0 - color) * alpha as f64 / 255.0;
        for (channel, color) in [10.0, 100.0, 200.0].into_iter().enumerate() {
            let difference = (pixel[channel] as f64 - expected(color)).abs();
            assert!(difference <= 1.0, "alpha {} channel {} is {}", alpha, channel, pixel[channel]);
        }
    }
}

#[test]
fn flatten_keeps_the_dimensions() {
    let image = plain(7, 3, ColorModel::Rgba, 90);
    let flat = flatten(&image);
    assert_eq!((flat.width(), flat.height()), (7, 3));
    assert_eq!(flat.samples8().unwrap().len(), 7 * 3 * 4);
}

#[test]
fn gray_alpha_flattens_to_rgba() {
    let image = CanonicalImage::from_samples8(3, 1, ColorModel::LumaAlpha, vec![40, 0, 40, 255, 0, 255]).unwrap();
    let flat = flatten(&image);
    assert_eq!(flat.color_model(), ColorModel::Rgba);
    assert_eq!(flat.samples8(), Some(&vec![255, 255, 255, 255, 40, 40, 40, 255, 0, 0, 0, 255]));
}

#[test]
fn flatten_keeps_the_depth() {
    let samples = vec![65535, 0, 0, 0, 65535, 32768, 0, 65535, 0, 0, 0, 32768];
    let image = CanonicalImage::from_samples16(3, 1, ColorModel::Rgba, samples).unwrap();
    let flat = flatten(&image);
    assert_eq!(flat.depth(), Depth::Sixteen);
    assert_eq!(flat.color_model(), ColorModel::Rgba);
    let out = flat.samples16().unwrap();
    assert_eq!(&out[..8], &[65535, 65535, 65535, 65535, 65535, 32768, 0, 65535]);
    assert!((32766..=32768).contains(&out[8]));
    assert_eq!(out[11], 65535);
    let gray = CanonicalImage::from_samples16(2, 1, ColorModel::LumaAlpha, vec![1000, 65535, 1000, 0]).unwrap();
    let flat = flatten(&gray);
    assert_eq!(flat.samples16(), Some(&vec![1000, 1000, 1000, 65535, 65535, 65535, 65535, 65535]));
}

#[test]
fn jpeg_flattens_only_images_with_alpha() {
    let translucent = rgba8(1, 1, vec![10, 20, 30, 0]);
    let prepared = normalize(translucent, TargetFormat::Jpeg);
    assert_eq!(prepared.samples8(), Some(&vec![255, 255, 255, 255]));
    let opaque = CanonicalImage::from_samples8(1, 1, ColorModel::Rgb, vec![10, 20, 30]).unwrap();
    let prepared = normalize(opaque, TargetFormat::Jpeg);
    assert_eq!(prepared.color_model(), ColorModel::Rgb);
    assert_eq!(prepared.samples8(), Some(&vec![10, 20, 30]));
}

#[test]
fn large_image_is_scaled_to_icon_size() {
    let image = plain(300, 300, ColorModel::Rgba, 200);
    let icon = fit_icon(&image);
    assert_eq!((icon.width(), icon.height()), (256, 256));
    assert_eq!(icon.color_model(), ColorModel::Rgba);
    assert_eq!(icon.depth(), Depth::Eight);
    assert_eq!(icon.samples8().unwrap().len(), 256 * 256 * 4);
}

#[test]
fn scaling_keeps_the_aspect_ratio() {
    let wide = normalize(plain(512, 128, ColorModel::Rgb, 9), TargetFormat::Ico);
    assert_eq!((wide.width(), wide.height()), (256, 64));
    let high = normalize(plain(100, 400, ColorModel::Luma, 9), TargetFormat::Ico);
    assert_eq!((high.width(), high.height()), (64, 256));
    let thin = normalize(plain(1000, 1, ColorModel::Luma, 9), TargetFormat::Ico);
    assert_eq!((thin.width(), thin.height()), (256, 1));
    let odd = normalize(plain(300, 299, ColorModel::Luma, 9), TargetFormat::Ico);
    assert_eq!((odd.width(), odd.height()), (256, 255));
}

#[test]
fn scaling_a_plain_image_keeps_its_color() {
    let icon = normalize(plain(300, 280, ColorModel::Rgb, 77), TargetFormat::Ico);
    assert!(icon.samples8().unwrap().iter().all(|&v| v == 77));
}

#[test]
fn image_within_icon_size_is_untouched() {
    let samples: Vec<u8> = (0..256u32 * 256 * 3).map(|i| (i % 251) as u8).collect();
    let image = CanonicalImage::from_samples8(256, 256, ColorModel::Rgb, samples.clone()).unwrap();
    let icon = normalize(image, TargetFormat::Ico);
    assert_eq!((icon.width(), icon.height()), (256, 256));
    assert_eq!(icon.samples8(), Some(&samples));
    let small = normalize(plain(16, 32, ColorModel::Rgba, 5), TargetFormat::Ico);
    assert_eq!((small.width(), small.height()), (16, 32));
}

#[test]
fn one_side_over_the_limit_is_enough() {
    let icon = normalize(plain(257, 10, ColorModel::Luma, 1), TargetFormat::Ico);
    assert!(icon.width() <= 256 && icon.height() <= 256);
    assert_eq!(icon.width(), 256);
    let icon = normalize(plain(10, 257, ColorModel::Luma, 1), TargetFormat::Ico);
    assert_eq!(icon.height(), 256);
}

#[test]
fn extreme_shapes_fit_an_icon() {
    let strip = normalize(plain(100_000, 1, ColorModel::Luma, 4), TargetFormat::Ico);
    assert_eq!((strip.width(), strip.height()), (256, 1));
    let column = normalize(plain(2, 70_000, ColorModel::Luma, 4), TargetFormat::Ico);
    assert_eq!((column.width(), column.height()), (1, 256));
    let empty = CanonicalImage::from_samples8(0, 300, ColorModel::Rgb, vec![]).unwrap();
    let icon = normalize(empty, TargetFormat::Ico);
    assert!(1 <= icon.width() && icon.width() <= 256);
    assert!(1 <= icon.height() && icon.height() <= 256);
    assert_eq!(icon.samples8().unwrap().len(), icon.width() as usize * icon.height() as usize * 3);
}

#[test]
fn deep_images_keep_their_depth_when_scaled() {
    let samples = vec![40_000u16; 300 * 2 * 2];
    let image = CanonicalImage::from_samples16(300, 2, ColorModel::LumaAlpha, samples).unwrap();
    let icon = fit_icon(&image);
    assert_eq!(icon.depth(), Depth::Sixteen);
    assert_eq!(icon.color_model(), ColorModel::LumaAlpha);
    assert_eq!((icon.width(), icon.height()), (256, 2));
    assert!(icon.samples16().unwrap().iter().all(|&v| v == 40_000));
}

fn proportional(side: u32, old: u32, bound: u32, along: u32) -> bool {
    let (side, old, bound, along) = (side as i128, old as i128, bound as i128, along as i128);
    let off = 1048576 * (side * along - old * bound);
    (-524290 * along <= off && off <= 524290 * along) || (side == 1 && 1048576 * old * bound <= 524290 * along)
}

#[test]
fn scaled_size_is_the_rounded_quotient() {
    let bounds = [(7u32, 5u32), (16, 16), (1, 9), (40, 3), (256, 256)];
    let lengths = [1u32, 2, 3, 5, 8, 13, 21, 34, 55, 300, 511, 512, 513, 4097, 100_003];
    for (nwidth, nheight) in bounds {
        for width in lengths {
            for height in lengths {
                if width as u64 * height as u64 > 2_000_000 {
                    continue;
                }
                let scaled = plain(width, height, ColorModel::Luma, 1).resize(nwidth, nheight, Resampling::Nearest);
                let (w, h) = (scaled.width(), scaled.height());
                assert!(1 <= w && w <= nwidth && 1 <= h && h <= nheight);
                let by_width = w == nwidth && proportional(h, height, nwidth, width);
                let by_height = h == nheight && proportional(w, width, nheight, height);
                assert!(by_width || by_height, "{}x{} within {}x{} gave {}x{}", width, height, nwidth, nheight, w, h);
            }
        }
    }
}

#[test]
fn whole_ratios_scale_exactly() {
    let icon = normalize(plain(512, 256, ColorModel::Rgb, 255), TargetFormat::Ico);
    assert_eq!((icon.width(), icon.height()), (256, 128));
    let icon = normalize(plain(300, 300, ColorModel::Rgb, 255), TargetFormat::Ico);
    assert_eq!((icon.width(), icon.height()), (256, 256));
    let icon = normalize(plain(1024, 512, ColorModel::Luma, 0), TargetFormat::Ico);
    assert_eq!((icon.width(), icon.height()), (256, 128));
}

#[test]
fn resize_with_other_filters_fits_the_bounds() {
    let image = plain(40, 20, ColorModel::Rgb, 3);
    for filter in [
        Resampling::Nearest,
        Resampling::Triangle,
        Resampling::CatmullRom,
        Resampling::Gaussian,
        Resampling::Lanczos3,
    ] {
        let scaled = image.resize(10, 10, filter);
        assert_eq!((scaled.width(), scaled.height()), (10, 5));
        assert_eq!(scaled.color_model(), ColorModel::Rgb);
    }
    let grown = image.resize(80, 80, Resampling::Nearest);
    assert_eq!((grown.width(), grown.height()), (80, 40));
}

#[test]
fn farbfeld_promotes_eight_bit_samples() {
    let image = rgba8(1, 2, vec![0, 255, 1, 128, 254, 2, 127, 0]);
    let deep = normalize(image, TargetFormat::Farbfeld);
    assert_eq!(deep.depth(), Depth::Sixteen);
    assert_eq!(deep.color_model(), ColorModel::Rgba);
    assert_eq!(deep.samples16(), Some(&vec![0, 65535, 257, 32896, 65278, 514, 32639, 0]));
}

#[test]
fn promotion_makes_gray_opaque_rgba() {
    let image = CanonicalImage::from_samples8(2, 1, ColorModel::Luma, vec![0, 255]).unwrap();
    let deep = promote(&image);
    assert_eq!(deep.samples16(), Some(&vec![0, 0, 0, 65535, 65535, 65535, 65535, 65535]));
}

#[test]
fn farbfeld_leaves_sixteen_bit_images_of_four_channels() {
    let image = CanonicalImage::from_samples16(1, 1, ColorModel::Rgba, vec![1, 2, 3, 4]).unwrap();
    assert!(!Transform::PromoteDepth.is_needed(&image));
    let same = normalize(image, TargetFormat::Farbfeld);
    assert_eq!(same.color_model(), ColorModel::Rgba);
    assert_eq!(same.samples16(), Some(&vec![1, 2, 3, 4]));
}

#[test]
fn farbfeld_gives_other_sixteen_bit_images_four_channels() {
    let image = CanonicalImage::from_samples16(1, 1, ColorModel::Rgb, vec![1, 2, 3]).unwrap();
    let deep = normalize(image, TargetFormat::Farbfeld);
    assert_eq!(deep.color_model(), ColorModel::Rgba);
    assert_eq!(deep.depth(), Depth::Sixteen);
    assert_eq!(deep.samples16(), Some(&vec![1, 2, 3, 65535]));
    let gray = CanonicalImage::from_samples16(2, 1, ColorModel::LumaAlpha, vec![7, 9, 65535, 0]).unwrap();
    let deep = normalize(gray, TargetFormat::Farbfeld);
    assert_eq!(deep.samples16(), Some(&vec![7, 7, 7, 9, 65535, 65535, 65535, 0]));
}

#[test]
fn other_targets_leave_the_image() {
    for target in [
        TargetFormat::Png,
        TargetFormat::Gif,
        TargetFormat::WebP,
        TargetFormat::Bmp,
        TargetFormat::Tiff,
        TargetFormat::Tga,
    ] {
        let image = rgba8(1, 1, vec![1, 2, 3, 4]);
        let same = normalize(image, target);
        assert_eq!(same.color_model(), ColorModel::Rgba);
        assert_eq!(same.samples8(), Some(&vec![1, 2, 3, 4]));
    }
    let large = normalize(plain(300, 300, ColorModel::Luma, 1), TargetFormat::Png);
    assert_eq!((large.width(), large.height()), (300, 300));
}

#[test]
fn transforms_report_whether_they_are_needed() {
    let translucent = rgba8(1, 1, vec![1, 2, 3, 4]);
    assert!(Transform::FlattenAlpha.is_needed(&translucent));
    assert!(!Transform::FitIcon.is_needed(&translucent));
    assert!(Transform::PromoteDepth.is_needed(&translucent));
    let deep = CanonicalImage::from_samples16(300, 1, ColorModel::Luma, vec![0; 300]).unwrap();
    assert!(!Transform::FlattenAlpha.is_needed(&deep));
    assert!(Transform::FitIcon.is_needed(&deep));
    assert!(Transform::PromoteDepth.is_needed(&deep));
    assert!(Transform::PromoteDepth.is_feasible(&deep));
    assert!(Transform::FitIcon.is_feasible(&deep));
    assert!(Transform::FlattenAlpha.is_feasible(&deep));
}

#[test]
fn apply_leaves_an_image_that_needs_nothing() {
    let image = CanonicalImage::from_samples8(1, 1, ColorModel::Rgb, vec![1, 2, 3]).unwrap();
    let same = Transform::FlattenAlpha.apply(image);
    assert_eq!(same.samples8(), Some(&vec![1, 2, 3]));
    let same = Transform::FitIcon.apply(same);
    assert_eq!(same.samples8(), Some(&vec![1, 2, 3]));
    let deep = Transform::PromoteDepth.apply(same);
    assert_eq!(deep.samples16(), Some(&vec![257, 514, 771, 65535]));
}

#[test]
fn try_normalize_agrees_with_normalize() {
    let image = rgba8(1, 1, vec![9, 9, 9, 0]);
    assert!(can_normalize(&image, TargetFormat::Jpeg));
    let prepared = try_normalize(image, TargetFormat::Jpeg).unwrap();
    assert_eq!(prepared.samples8(), Some(&vec![255, 255, 255, 255]));
}
