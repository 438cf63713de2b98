//! The boundary to the `image` crate.
//!
//! Everything that the codec library computes reaches the rest of this crate through the
//! functions below. Their contracts are taken on trust: they say what the library's source shows,
//! and nothing in this crate proves them.

use crate::detect::signature;
use crate::format::{DetectedFormat, TargetFormat};
use crate::raster::{quad, widen16, widen8, ColorModel, Depth, Raster, Resampling};
use image::imageops::FilterType;
use image::DynamicImage;
use image::ImageBuffer;
use image::ImageFormat;
use std::io::Cursor;
use vstd::prelude::*;

verus! {

/// `image::DynamicImage`, the image type of the codec library. Nothing of its inside is read
/// here: what it holds goes by the name `raster_of`.
#[verifier::external_type_specification]
#[verifier::external_body]
pub struct ExDynamicImage(DynamicImage);

/// The raster that a `DynamicImage` holds: its dimensions, its pixel layout and the whole of its
/// sample buffer. `None` where the samples are not 8-bit or 16-bit integers.
pub uninterp spec fn raster_of(image: DynamicImage) -> Option<Raster>;

/// What `image::load_from_memory_with_format` makes of a buffer: the raster that it decodes,
/// `None` where the decoded samples are not 8-bit or 16-bit integers, or the text of the error
/// that it reports.
pub uninterp spec fn loaded(bytes: Seq<u8>, format: DetectedFormat) -> Result<Option<Raster>, Seq<char>>;

/// The raster that `image::imageops::overlay` leaves in an RGBA image `bottom` after it has put
/// an RGBA image `top` of the same depth and dimensions over it.
pub uninterp spec fn composited(bottom: Raster, top: Raster) -> Raster;

/// What `DynamicImage::write_to` makes of a raster: the bytes that it writes, or the text of the
/// error that it reports. The TIFF encoder writes in the byte order of the machine that it is
/// built for, so for TIFF the name stands for the bytes on that machine.
pub uninterp spec fn encoded(image: Raster, target: TargetFormat) -> Result<Seq<u8>, Seq<char>>;

/// What `unpack` reads from a `DynamicImage`.
pub(crate) struct Parts {
    pub(crate) width: u32,
    pub(crate) height: u32,
    pub(crate) color: bool,
    pub(crate) alpha: bool,
    pub(crate) eight: Option<Vec<u8>>,
    pub(crate) sixteen: Option<Vec<u16>>,
}

/// Calls `image::guess_format`, which compares the start of the buffer with a table of
/// signatures, entry by entry, and reports the format of the first that matches. The signatures
/// of the nine source formats are those of `signature`; no buffer matches two of them, and none
/// that matches one of them matches an earlier entry of the table.
#[verifier::external_body]
pub(crate) fn sniff(bytes: &[u8]) -> (r: Option<DetectedFormat>)
    ensures
        r == signature(bytes@),
{
    match image::guess_format(bytes) {
        Ok(ImageFormat::Png) => Some(DetectedFormat::Png),
        Ok(ImageFormat::Jpeg) => Some(DetectedFormat::Jpeg),
        Ok(ImageFormat::Gif) => Some(DetectedFormat::Gif),
        Ok(ImageFormat::WebP) => Some(DetectedFormat::WebP),
        Ok(ImageFormat::Bmp) => Some(DetectedFormat::Bmp),
        Ok(ImageFormat::Ico) => Some(DetectedFormat::Ico),
        Ok(ImageFormat::Tiff) => Some(DetectedFormat::Tiff),
        Ok(ImageFormat::Farbfeld) => Some(DetectedFormat::Farbfeld),
        _ => None,
    }
}

/// Calls `image::load_from_memory_with_format`, which decodes the whole buffer with the decoder
/// of the given format, and `to_string` on the error that it may report.
#[verifier::external_body]
pub(crate) fn load(bytes: &[u8], format: DetectedFormat) -> (r: Result<DynamicImage, String>)
    ensures
        r is Ok ==> loaded(bytes@, format) == Ok::<Option<Raster>, Seq<char>>(raster_of(r->Ok_0)),
        r is Err ==> loaded(bytes@, format) == Err::<Option<Raster>, Seq<char>>(r->Err_0@),
{
    let codec = match format {
        DetectedFormat::Png => ImageFormat::Png,
        DetectedFormat::Jpeg => ImageFormat::Jpeg,
        DetectedFormat::Gif => ImageFormat::Gif,
        DetectedFormat::WebP => ImageFormat::WebP,
        DetectedFormat::Bmp => ImageFormat::Bmp,
        DetectedFormat::Ico => ImageFormat::Ico,
        DetectedFormat::Tiff => ImageFormat::Tiff,
        DetectedFormat::Tga => ImageFormat::Tga,
        DetectedFormat::Farbfeld => ImageFormat::Farbfeld,
    };
    match image::load_from_memory_with_format(bytes, codec) {
        Ok(image) => Ok(image),
        Err(error) => Err(error.to_string()),
    }
}

/// Reads a `DynamicImage` through `width`, `height`, `color`, `as_flat_samples_u8` and
/// `as_flat_samples_u16`. The last two hand out the whole sample buffer of an image of their
/// depth, and nothing for any other image.
#[verifier::external_body]
pub(crate) fn unpack(image: &DynamicImage) -> (r: Parts)
    ensures
        match raster_of(*image) {
            Some(raster) => {
                &&& r.width == raster.width
                &&& r.height == raster.height
                &&& r.color == raster.model.carries_color()
                &&& r.alpha == raster.model.carries_alpha()
                &&& raster.depth is Eight ==> r.eight is Some && widen8(r.eight->0@) == raster.samples
                &&& raster.depth is Sixteen ==> r.eight is None && r.sixteen is Some && widen16(
                    r.sixteen->0@,
                ) == raster.samples
            },
            None => r.eight is None && r.sixteen is None,
        },
{
    let color = image.color();
    Parts {
        width: image.width(),
        height: image.height(),
        color: color.has_color(),
        alpha: color.has_alpha(),
        eight: match image.as_flat_samples_u8() {
            Some(flat) => Some(flat.samples.to_vec()),
            None => None,
        },
        sixteen: match image.as_flat_samples_u16() {
            Some(flat) => Some(flat.samples.to_vec()),
            None => None,
        },
    }
}

/// Builds a `DynamicImage` of 8-bit samples with `ImageBuffer::from_raw`, which keeps the buffer
/// as it is given. It refuses a buffer that is too short and dimensions whose row, or whose
/// whole, cannot be counted in a `usize`.
#[verifier::external_body]
pub(crate) fn pack8(width: u32, height: u32, model: ColorModel, samples: &Vec<u8>) -> (r: DynamicImage)
    requires
        samples@.len() == width * height * model.channels(),
        width * model.channels() <= usize::MAX,
    ensures
        raster_of(r) == Some(
            Raster {
                width: width as nat,
                height: height as nat,
                model,
                depth: Depth::Eight,
                samples: widen8(samples@),
            },
        ),
{
    let raw = samples.clone();
    match model {
        ColorModel::Luma => DynamicImage::ImageLuma8(ImageBuffer::from_raw(width, height, raw).unwrap()),
        ColorModel::LumaAlpha => DynamicImage::ImageLumaA8(ImageBuffer::from_raw(width, height, raw).unwrap()),
        ColorModel::Rgb => DynamicImage::ImageRgb8(ImageBuffer::from_raw(width, height, raw).unwrap()),
        ColorModel::Rgba => DynamicImage::ImageRgba8(ImageBuffer::from_raw(width, height, raw).unwrap()),
    }
}

/// Builds a `DynamicImage` of 16-bit samples with `ImageBuffer::from_raw`, which keeps the buffer
/// as it is given. It refuses a buffer that is too short and dimensions whose row, or whose
/// whole, cannot be counted in a `usize`.
#[verifier::external_body]
pub(crate) fn pack16(width: u32, height: u32, model: ColorModel, samples: &Vec<u16>) -> (r: DynamicImage)
    requires
        samples@.len() == width * height * model.channels(),
        width * model.channels() <= usize::MAX,
    ensures
        raster_of(r) == Some(
            Raster {
                width: width as nat,
                height: height as nat,
                model,
                depth: Depth::Sixteen,
                samples: widen16(samples@),
            },
        ),
{
    let raw = samples.clone();
    match model {
        ColorModel::Luma => DynamicImage::ImageLuma16(ImageBuffer::from_raw(width, height, raw).unwrap()),
        ColorModel::LumaAlpha => DynamicImage::ImageLumaA16(ImageBuffer::from_raw(width, height, raw).unwrap()),
        ColorModel::Rgb => DynamicImage::ImageRgb16(ImageBuffer::from_raw(width, height, raw).unwrap()),
        ColorModel::Rgba => DynamicImage::ImageRgba16(ImageBuffer::from_raw(width, height, raw).unwrap()),
    }
}

/// Calls `DynamicImage::to_rgba8`. It copies red, green, blue and alpha where the image has
/// them, lets a gray level stand for the three colors, makes a pixel without alpha opaque, and
/// scales a 16-bit sample `v` to the nearest 8-bit one, `(v + 128) / 257`.
///
/// An image with color is converted sample by sample in integers, by that formula. A gray image
/// goes through `f32`: a sample `v` of largest value `m` becomes `round(v * (1 / m) * n)` for the
/// new largest value `n`. The roundings to `f32` move that product by less than 0.02, and
/// `v * n / m` is a whole number where the depth stays or grows and at least 0.0019 away from a
/// half where 16 bits become 8, so the result is the same as in integers.
///
/// The new buffer holds four samples for each pixel, so at most eight bytes, and no buffer can
/// be longer than `isize::MAX` bytes. It is made with `ImageBuffer::from_vec`, which also needs
/// the samples of one row to be countable in a `usize`.
#[verifier::external_body]
pub(crate) fn to_rgba8(image: &DynamicImage) -> (r: Vec<u8>)
    requires
        raster_of(*image) is Some,
        raster_of(*image)->0.wf(),
        raster_of(*image)->0.rgba_fits(),
    ensures
        widen8(r@) == raster_of(*image)->0.as_rgba(Depth::Eight).samples,
{
    image.to_rgba8().into_raw()
}

/// Calls `DynamicImage::into_rgba16`. It copies red, green, blue and alpha where the image has
/// them, lets a gray level stand for the three colors, makes a pixel without alpha opaque, and
/// scales an 8-bit sample `v` to `v * 65535 / 255`, which is `v * 257`.
///
/// An image with color is converted sample by sample in integers, `(v << 8) | v`. A gray image
/// goes through `f32` as in `to_rgba8`, with the same result.
#[verifier::external_body]
pub(crate) fn into_rgba16(image: DynamicImage) -> (r: Vec<u16>)
    requires
        raster_of(image) is Some,
        raster_of(image)->0.wf(),
        raster_of(image)->0.rgba_fits(),
    ensures
        widen16(r@) == raster_of(image)->0.as_rgba(Depth::Sixteen).samples,
{
    image.into_rgba16().into_raw()
}

/// Calls `image::imageops::overlay` at the origin, on two RGBA images of the same depth and the
/// same dimensions. It blends each pixel of `top` into the pixel of `bottom` below it: where the
/// top pixel is fully transparent the bottom pixel stays, and where it is fully opaque it takes
/// the bottom pixel's place. The dimensions, the layout and the length of the buffer stay.
#[verifier::external_body]
pub(crate) fn overlay(bottom: DynamicImage, top: &DynamicImage) -> (r: DynamicImage)
    requires
        raster_of(bottom) is Some,
        raster_of(*top) is Some,
        raster_of(bottom)->0.wf(),
        raster_of(*top)->0.wf(),
        raster_of(bottom)->0.model is Rgba,
        raster_of(*top)->0.model is Rgba,
        raster_of(bottom)->0.depth == raster_of(*top)->0.depth,
        raster_of(bottom)->0.width == raster_of(*top)->0.width,
        raster_of(bottom)->0.height == raster_of(*top)->0.height,
    ensures
        raster_of(r) == Some(composited(raster_of(bottom)->0, raster_of(*top)->0)),
        raster_of(r)->0.wf(),
        raster_of(r)->0.width == raster_of(bottom)->0.width,
        raster_of(r)->0.height == raster_of(bottom)->0.height,
        raster_of(r)->0.model is Rgba,
        raster_of(r)->0.depth == raster_of(bottom)->0.depth,
        forall|p: int, c: int|
            0 <= p < raster_of(*top)->0.pixel_count() && 0 <= c < 4 && quad(raster_of(*top)->0.samples, p, 3)
                == 0 ==> #[trigger] quad(raster_of(r)->0.samples, p, c) == quad(
                raster_of(bottom)->0.samples,
                p,
                c,
            ),
        forall|p: int, c: int|
            0 <= p < raster_of(*top)->0.pixel_count() && 0 <= c < 4 && quad(raster_of(*top)->0.samples, p, 3)
                == raster_of(*top)->0.depth.max_value() ==> #[trigger] quad(raster_of(r)->0.samples, p, c)
                == quad(raster_of(*top)->0.samples, p, c),
{
    let mut canvas = bottom;
    match (&mut canvas, top) {
        (DynamicImage::ImageRgba8(under), DynamicImage::ImageRgba8(over)) => image::imageops::overlay(under, over, 0, 0),
        (DynamicImage::ImageRgba16(under), DynamicImage::ImageRgba16(over)) => image::imageops::overlay(under, over, 0, 0),
        _ => {},
    }
    canvas
}

/// Calls `DynamicImage::resize`, which scales the image, its aspect ratio kept, to the largest
/// size that fits within `nwidth` by `nheight`, no side shorter than one pixel. The pixel layout
/// stays, and the new buffer holds exactly the new pixels. On its way it allocates images of
/// four `f32` channels, sixteen bytes to the pixel, of the old width by the new height, and the
/// new image; no buffer can be longer than `isize::MAX` bytes.
///
/// The new pixels are weighed with kernels that call `sin`, `exp` and `powi`, whose precision
/// std leaves open, so nothing is said of them: two calls on one image may differ in a sample.
///
/// The new size is computed in `f64` with division, multiplication and rounding alone. With
/// `ratio` the smaller of `nwidth / width` and `nheight / height`, each side is its old length
/// times `ratio`, rounded to the nearest whole number, and at least 1. The lengths are below
/// 2^32, so a product is off by less than 2^-19: the side whose quotient is `ratio` comes out
/// as its bound, and the other within `1/2 + 2^-19` of its exact quotient, or is raised to 1
/// where that quotient is below `1/2 + 2^-19`. An image of the asked size is handed back as it
/// is.
#[verifier::external_body]
pub(crate) fn resize(image: &DynamicImage, nwidth: u32, nheight: u32, filter: Resampling) -> (r: DynamicImage)
    requires
        raster_of(*image) is Some,
        raster_of(*image)->0.wf(),
        1 <= nwidth,
        1 <= nheight,
        raster_of(*image)->0.width * nheight * 16 <= isize::MAX,
        nwidth * nheight * 16 <= isize::MAX,
    ensures
        raster_of(r) is Some,
        raster_of(r)->0.wf(),
        raster_of(r)->0.model == raster_of(*image)->0.model,
        raster_of(r)->0.depth == raster_of(*image)->0.depth,
        raster_of(r)->0.fits_within(raster_of(*image)->0, nwidth as nat, nheight as nat),
{
    let kernel = match filter {
        Resampling::Nearest => FilterType::Nearest,
        Resampling::Triangle => FilterType::Triangle,
        Resampling::CatmullRom => FilterType::CatmullRom,
        Resampling::Gaussian => FilterType::Gaussian,
        Resampling::Lanczos3 => FilterType::Lanczos3,
    };
    image.resize(nwidth, nheight, kernel)
}

/// Calls `DynamicImage::write_to` on a buffer in memory, with the encoder of the given format
/// at its default settings, and `to_string` on the error that it may report. The encoders take
/// the whole sample buffer, which must hold exactly the pixels of the image. Each of them but
/// the one of TGA writes the signature of its container before anything else: the PNG
/// signature, the JPEG start-of-image marker and a segment marker, `GIF89a`, `RIFF`, a size and
/// `WEBP`, the TIFF byte order mark of the machine and the number 42, `BM`, the ICO header,
/// `farbfeld`.
#[verifier::external_body]
pub(crate) fn write_image(image: &DynamicImage, target: TargetFormat) -> (r: Result<Vec<u8>, String>)
    requires
        raster_of(*image) is Some,
        raster_of(*image)->0.wf(),
    ensures
        r is Ok ==> encoded(raster_of(*image)->0, target) == Ok::<Seq<u8>, Seq<char>>(r->Ok_0@),
        r is Err ==> encoded(raster_of(*image)->0, target) == Err::<Seq<u8>, Seq<char>>(r->Err_0@),
        r is Ok && !(target is Tga) ==> signature(r->Ok_0@) == Some(target.as_source()),
{
    let codec = match target {
        TargetFormat::Png => ImageFormat::Png,
        TargetFormat::Jpeg => ImageFormat::Jpeg,
        TargetFormat::Gif => ImageFormat::Gif,
        TargetFormat::WebP => ImageFormat::WebP,
        TargetFormat::Bmp => ImageFormat::Bmp,
        TargetFormat::Ico => ImageFormat::Ico,
        TargetFormat::Tiff => ImageFormat::Tiff,
        TargetFormat::Tga => ImageFormat::Tga,
        TargetFormat::Farbfeld => ImageFormat::Farbfeld,
    };
    let mut out = Cursor::new(Vec::new());
    image.write_to(&mut out, codec).as_ref().map_err(ToString::to_string)?;
    Ok(out.into_inner())
}

} // verus!
