//! The canonical raster: the decoded image that every stage after decoding works on.

use crate::codec::{into_rgba16, pack16, pack8, raster_of, resize, to_rgba8, unpack};
use image::DynamicImage;
use vstd::pervasive::unreached;
use vstd::prelude::*;

verus! {

/// Which channels a pixel has.
#[derive(Clone, Copy, Debug, PartialEq, Eq, Structural)]
pub enum ColorModel {
    /// One channel: luminance.
    Luma,
    /// Two channels: luminance, alpha.
    LumaAlpha,
    /// Three channels: red, green, blue.
    Rgb,
    /// Four channels: red, green, blue, alpha.
    Rgba,
}

impl ColorModel {
    /// The number of samples that make up one pixel.
    pub open spec fn channels(self) -> nat {
        match self {
            ColorModel::Luma => 1,
            ColorModel::LumaAlpha => 2,
            ColorModel::Rgb => 3,
            ColorModel::Rgba => 4,
        }
    }

    /// Whether the last channel of a pixel is its opacity.
    pub open spec fn carries_alpha(self) -> bool {
        self is LumaAlpha || self is Rgba
    }

    /// Whether a pixel has separate red, green and blue channels.
    pub open spec fn carries_color(self) -> bool {
        self is Rgb || self is Rgba
    }

    /// The model with the given two properties.
    pub open spec fn with(color: bool, alpha: bool) -> ColorModel {
        if color {
            if alpha {
                ColorModel::Rgba
            } else {
                ColorModel::Rgb
            }
        } else {
            if alpha {
                ColorModel::LumaAlpha
            } else {
                ColorModel::Luma
            }
        }
    }

    /// The number of samples that make up one pixel.
    pub fn channel_count(self) -> (n: usize)
        ensures
            n == self.channels(),
    {
        match self {
            ColorModel::Luma => 1,
            ColorModel::LumaAlpha => 2,
            ColorModel::Rgb => 3,
            ColorModel::Rgba => 4,
        }
    }

    /// Whether the last channel of a pixel is its opacity.
    pub fn has_alpha(self) -> (b: bool)
        ensures
            b == self.carries_alpha(),
    {
        match self {
            ColorModel::LumaAlpha | ColorModel::Rgba => true,
            ColorModel::Luma | ColorModel::Rgb => false,
        }
    }

    /// Whether a pixel has separate red, green and blue channels.
    pub fn has_color(self) -> (b: bool)
        ensures
            b == self.carries_color(),
    {
        match self {
            ColorModel::Rgb | ColorModel::Rgba => true,
            ColorModel::Luma | ColorModel::LumaAlpha => false,
        }
    }

    /// The model with the given two properties.
    pub fn from_flags(color: bool, alpha: bool) -> (m: ColorModel)
        ensures
            m == ColorModel::with(color, alpha),
            m.carries_color() == color,
            m.carries_alpha() == alpha,
    {
        if color {
            if alpha {
                ColorModel::Rgba
            } else {
                ColorModel::Rgb
            }
        } else {
            if alpha {
                ColorModel::LumaAlpha
            } else {
                ColorModel::Luma
            }
        }
    }
}

/// How many bits one sample has.
#[derive(Clone, Copy, Debug, PartialEq, Eq, Structural)]
pub enum Depth {
    /// Samples from 0 to 255.
    Eight,
    /// Samples from 0 to 65535.
    Sixteen,
}

impl Depth {
    /// The largest value of a sample: full intensity, or full opacity.
    pub open spec fn max_value(self) -> nat {
        match self {
            Depth::Eight => 255,
            Depth::Sixteen => 65535,
        }
    }
}

/// The mathematical model of a raster: its shape and its samples, pixel after pixel in row-major
/// order, the channels of one pixel next to each other.
pub struct Raster {
    pub width: nat,
    pub height: nat,
    pub model: ColorModel,
    pub depth: Depth,
    pub samples: Seq<nat>,
}

impl Raster {
    /// The number of pixels.
    pub open spec fn pixel_count(self) -> nat {
        self.width * self.height
    }

    /// The buffer holds exactly the samples of `width * height` pixels, each within its depth.
    pub open spec fn wf(self) -> bool {
        &&& self.samples.len() == self.pixel_count() * self.model.channels()
        &&& forall|i: int| 0 <= i < self.samples.len() ==> #[trigger] self.samples[i] <= self.depth.max_value()
    }

    /// Whether the samples of one row can be counted on this machine. An image with rows has
    /// that from its buffer; an image of no rows must not be wider than that either.
    pub open spec fn addressable(self) -> bool {
        self.width * self.model.channels() <= usize::MAX
    }

    /// Whether this machine can hold the raster as four-channel pixels of 16-bit samples, eight
    /// bytes to the pixel: no buffer is longer than `isize::MAX` bytes, and the samples of one
    /// row must be countable.
    pub open spec fn rgba_fits(self) -> bool {
        &&& 8 * self.pixel_count() <= isize::MAX
        &&& 4 * self.width <= usize::MAX
    }

    /// Whether the raster has the size of `source` scaled to the largest size within `nwidth` by
    /// `nheight`: no side is shorter than one pixel or longer than its bound, and where the
    /// source has pixels one side is as long as its bound and the other is `proportional` to
    /// it.
    pub open spec fn fits_within(self, source: Raster, nwidth: nat, nheight: nat) -> bool {
        &&& 1 <= self.width <= nwidth
        &&& 1 <= self.height <= nheight
        &&& source.width >= 1 && source.height >= 1 ==> {
            ||| self.width == nwidth && proportional(self.height, source.height, nwidth, source.width)
            ||| self.height == nheight && proportional(self.width, source.width, nheight, source.height)
        }
    }

    /// Channel `channel` of pixel number `pixel` read as red, green, blue, alpha (0 to 3), at the
    /// raster's own depth: a gray level stands for each of the three colors, and a pixel without
    /// alpha is fully opaque.
    pub open spec fn rgba(self, pixel: int, channel: int) -> nat {
        match self.model {
            ColorModel::Luma => if channel < 3 {
                self.samples[pixel]
            } else {
                self.depth.max_value()
            },
            ColorModel::LumaAlpha => if channel < 3 {
                self.samples[2 * pixel]
            } else {
                self.samples[2 * pixel + 1]
            },
            ColorModel::Rgb => if channel < 3 {
                self.samples[3 * pixel + channel]
            } else {
                self.depth.max_value()
            },
            ColorModel::Rgba => self.samples[4 * pixel + channel],
        }
    }

    /// Whether no pixel lets anything show through: the raster has no alpha channel, or the
    /// alpha sample of every pixel is the largest of the depth.
    pub open spec fn fully_opaque(self) -> bool {
        forall|p: int| 0 <= p < self.pixel_count() ==> #[trigger] self.rgba(p, 3) == self.depth.max_value()
    }

    /// A four-channel raster with the alpha sample of every pixel at full opacity.
    pub open spec fn opaque(self) -> Raster {
        Raster {
            width: self.width,
            height: self.height,
            model: self.model,
            depth: self.depth,
            samples: sealed(self.samples, self.depth.max_value()),
        }
    }

    /// The raster as four-channel pixels at the given depth.
    pub open spec fn as_rgba(self, depth: Depth) -> Raster {
        Raster {
            width: self.width,
            height: self.height,
            model: ColorModel::Rgba,
            depth,
            samples: Seq::new(
                4 * self.pixel_count(),
                |i: int| rescaled(self.rgba(i / 4, i % 4), self.depth, depth),
            ),
        }
    }
}

/// Whether `side` is `old * bound / along` rounded to the nearest whole number, or 1 where that
/// is nearer to 0: the length of one side of a scaled image whose other side went from `along`
/// to `bound`. The quotient may be off by `2^-19`, so `side` is within `1/2 + 2^-19` of it, or
/// is 1 where the quotient is below `1/2 + 2^-19`.
pub open spec fn proportional(side: nat, old: nat, bound: nat, along: nat) -> bool {
    ||| -524290 * along <= 1048576 * (side * along - old * bound) <= 524290 * along
    ||| side == 1 && 1048576 * (old * bound) <= 524290 * along
}

/// A side whose exact quotient is a whole number of pixels has exactly that length.
pub proof fn proportional_is_exact(side: nat, old: nat, bound: nat, along: nat, whole: nat)
    requires
        proportional(side, old, bound, along),
        along >= 1,
        whole >= 1,
        old * bound == whole * along,
    ensures
        side == whole,
{
    assert(side == whole) by (nonlinear_arith)
        requires
            proportional(side, old, bound, along),
            along >= 1,
            whole >= 1,
            old * bound == whole * along,
    {
        if side == 1 && 1048576 * (old * bound) <= 524290 * along {
            assert(1048576 * (whole * along) <= 524290 * along);
            assert(whole * along >= along);
        } else {
            assert(side * along - whole * along == (side - whole) * along);
            if side > whole {
                assert((side - whole) * along >= along);
            }
            if side < whole {
                assert((side - whole) * along <= -along);
            }
        }
    }
}

/// A sample of depth `from` at depth `to`: the same fraction of full intensity, rounded to the
/// nearest value. Eight bits become sixteen by `v * 65535 / 255`, which is `v * 257`.
pub open spec fn rescaled(v: nat, from: Depth, to: Depth) -> nat {
    match (from, to) {
        (Depth::Eight, Depth::Sixteen) => v * 257,
        (Depth::Sixteen, Depth::Eight) => (v + 128) / 257,
        _ => v,
    }
}

/// Bringing a raster to four channels keeps it well formed: the new buffer holds four samples
/// for each pixel, every one within the new depth.
pub proof fn rgba_is_well_formed(image: Raster, depth: Depth)
    requires
        image.wf(),
    ensures
        image.as_rgba(depth).wf(),
        image.as_rgba(depth).pixel_count() == image.pixel_count(),
        image.rgba_fits() ==> image.as_rgba(depth).addressable(),
{
    let out = image.as_rgba(depth);
    let pixels = image.pixel_count() as int;
    assert(out.samples.len() == out.pixel_count() * out.model.channels());
    assert forall|i: int| 0 <= i < out.samples.len() implies #[trigger] out.samples[i] <= depth.max_value() by {
        let p = i / 4;
        let c = i % 4;
        assert(0 <= p < pixels);
        let v = image.rgba(p, c);
        assert(v <= image.depth.max_value()) by {
            match image.model {
                ColorModel::Luma => {
                    if c < 3 {
                        assert(v == image.samples[p]);
                    }
                },
                ColorModel::LumaAlpha => {
                    if c < 3 {
                        assert(v == image.samples[2 * p]);
                    } else {
                        assert(v == image.samples[2 * p + 1]);
                    }
                },
                ColorModel::Rgb => {
                    if c < 3 {
                        assert(v == image.samples[3 * p + c]);
                    }
                },
                ColorModel::Rgba => {
                    assert(v == image.samples[4 * p + c]);
                },
            }
        }
    }
}

/// A buffer of four-channel pixels with the fourth sample of every pixel set to `full`.
pub open spec fn sealed<T>(samples: Seq<T>, full: T) -> Seq<T> {
    Seq::new(samples.len(), |i: int| if i % 4 == 3 {
        full
    } else {
        samples[i]
    })
}

/// Sample `channel` of pixel number `pixel` in a buffer of four-channel pixels.
pub open spec fn quad(samples: Seq<nat>, pixel: int, channel: int) -> nat {
    samples[4 * pixel + channel]
}

/// The filter that weighs the source pixels when an image is scaled.
#[derive(Clone, Copy, Debug, PartialEq, Eq, Structural)]
pub enum Resampling {
    /// The nearest source pixel.
    Nearest,
    /// Linear interpolation.
    Triangle,
    /// Cubic interpolation.
    CatmullRom,
    /// A Gaussian bell.
    Gaussian,
    /// Lanczos with a window of three pixels: the sharpest of them when an image shrinks.
    Lanczos3,
}

/// The samples of an 8-bit buffer as numbers.
pub open spec fn widen8(samples: Seq<u8>) -> Seq<nat> {
    Seq::new(samples.len(), |i: int| samples[i] as nat)
}

/// The samples of a 16-bit buffer as numbers.
pub open spec fn widen16(samples: Seq<u16>) -> Seq<nat> {
    Seq::new(samples.len(), |i: int| samples[i] as nat)
}

/// The sample buffer of a raster, at one of the two depths.
#[derive(Debug)]
enum Samples {
    Eight(Vec<u8>),
    Sixteen(Vec<u16>),
}

impl Samples {
    spec fn depth(self) -> Depth {
        match self {
            Samples::Eight(_) => Depth::Eight,
            Samples::Sixteen(_) => Depth::Sixteen,
        }
    }

    spec fn values(self) -> Seq<nat> {
        match self {
            Samples::Eight(v) => widen8(v@),
            Samples::Sixteen(v) => widen16(v@),
        }
    }
}

/// A decoded image. Its buffer always fits its shape.
#[derive(Debug)]
pub struct CanonicalImage {
    width: u32,
    height: u32,
    model: ColorModel,
    samples: Samples,
}

impl View for CanonicalImage {
    type V = Raster;

    closed spec fn view(&self) -> Raster {
        Raster {
            width: self.width as nat,
            height: self.height as nat,
            model: self.model,
            depth: self.samples.depth(),
            samples: self.samples.values(),
        }
    }
}

/// `width * height * channels`, where that many samples can be counted in a `usize`.
pub fn sample_count(width: u32, height: u32, model: ColorModel) -> (r: Option<usize>)
    ensures
        r is Some <==> width * height * model.channels() <= usize::MAX,
        r is Some ==> r->0 == width * height * model.channels(),
{
    assert(width * height <= 0xffff_ffff * 0xffff_ffff) by (nonlinear_arith)
        requires
            width <= 0xffff_ffff,
            height <= 0xffff_ffff,
    ;
    let pixels: u64 = (width as u64) * (height as u64);
    let channels: u64 = model.channel_count() as u64;
    let total: u128 = (pixels as u128) * (channels as u128);
    assert(total == width * height * model.channels()) by (nonlinear_arith)
        requires
            total == pixels * channels,
            pixels == width * height,
            channels == model.channels(),
    ;
    if total <= usize::MAX as u128 {
        Some(total as usize)
    } else {
        None
    }
}

/// Whether the samples of one row, `width * channels`, can be counted in a `usize`.
pub fn row_fits(width: u32, model: ColorModel) -> (b: bool)
    ensures
        b == (width * model.channels() <= usize::MAX),
{
    let row: u64 = (width as u64) * (model.channel_count() as u64);
    row <= usize::MAX as u64
}

/// Sets the fourth sample of every pixel in a buffer of four-channel pixels to `full`.
fn seal<T: Copy>(samples: Vec<T>, full: T) -> (r: Vec<T>)
    requires
        samples@.len() % 4 == 0,
    ensures
        r@ == sealed(samples@, full),
{
    let mut out = samples;
    let pixels = out.len() / 4;
    let mut p: usize = 0;
    while p < pixels
        invariant
            out@.len() == samples@.len(),
            pixels * 4 == out@.len(),
            p <= pixels,
            forall|i: int| 0 <= i < 4 * p ==> out@[i] == (if i % 4 == 3 {
                full
            } else {
                samples@[i]
            }),
            forall|i: int| 4 * p <= i < out@.len() ==> out@[i] == samples@[i],
        decreases pixels - p,
    {
        assert(p * 4 + 3 < out.len());
        out.set(p * 4 + 3, full);
        p += 1;
    }
    assert(out@ =~= sealed(samples@, full));
    out
}

impl CanonicalImage {
    /// What holds of every image: its buffer fits its shape, and a row of it can be counted on
    /// this machine.
    #[verifier::type_invariant]
    pub open spec fn well_formed(&self) -> bool {
        self@.wf() && self@.addressable()
    }

    /// An image of 8-bit samples, where `samples` holds exactly `width * height` pixels and a
    /// row can be counted on this machine.
    pub fn from_samples8(width: u32, height: u32, model: ColorModel, samples: Vec<u8>) -> (r: Option<CanonicalImage>)
        ensures
            r is Some <==> samples@.len() == width * height * model.channels() && width * model.channels()
                <= usize::MAX,
            r is Some ==> r->0@ == (Raster {
                width: width as nat,
                height: height as nat,
                model,
                depth: Depth::Eight,
                samples: widen8(samples@),
            }),
    {
        let len = samples.len();
        if !row_fits(width, model) {
            return None;
        }
        match sample_count(width, height, model) {
            Some(n) if len == n => Some(
                CanonicalImage { width, height, model, samples: Samples::Eight(samples) },
            ),
            _ => None,
        }
    }

    /// An image of 16-bit samples, where `samples` holds exactly `width * height` pixels and a
    /// row can be counted on this machine.
    pub fn from_samples16(width: u32, height: u32, model: ColorModel, samples: Vec<u16>) -> (r: Option<CanonicalImage>)
        ensures
            r is Some <==> samples@.len() == width * height * model.channels() && width * model.channels()
                <= usize::MAX,
            r is Some ==> r->0@ == (Raster {
                width: width as nat,
                height: height as nat,
                model,
                depth: Depth::Sixteen,
                samples: widen16(samples@),
            }),
    {
        let len = samples.len();
        if !row_fits(width, model) {
            return None;
        }
        match sample_count(width, height, model) {
            Some(n) if len == n => Some(
                CanonicalImage { width, height, model, samples: Samples::Sixteen(samples) },
            ),
            _ => None,
        }
    }

    /// The number of pixels in a row.
    pub fn width(&self) -> (w: u32)
        ensures
            w == self@.width,
    {
        self.width
    }

    /// The number of rows.
    pub fn height(&self) -> (h: u32)
        ensures
            h == self@.height,
    {
        self.height
    }

    /// Which channels a pixel has.
    pub fn color_model(&self) -> (m: ColorModel)
        ensures
            m == self@.model,
    {
        self.model
    }

    /// How many bits a sample has.
    pub fn depth(&self) -> (d: Depth)
        ensures
            d == self@.depth,
    {
        match &self.samples {
            Samples::Eight(_) => Depth::Eight,
            Samples::Sixteen(_) => Depth::Sixteen,
        }
    }

    /// The buffer of an image of 8-bit samples.
    pub fn samples8(&self) -> (r: Option<&Vec<u8>>)
        ensures
            r is Some <==> self@.depth is Eight,
            r is Some ==> widen8(r->0@) == self@.samples,
    {
        match &self.samples {
            Samples::Eight(v) => Some(v),
            Samples::Sixteen(_) => None,
        }
    }

    /// The buffer of an image of 16-bit samples.
    pub fn samples16(&self) -> (r: Option<&Vec<u16>>)
        ensures
            r is Some <==> self@.depth is Sixteen,
            r is Some ==> widen16(r->0@) == self@.samples,
    {
        match &self.samples {
            Samples::Eight(_) => None,
            Samples::Sixteen(v) => Some(v),
        }
    }

    /// Makes every pixel of a four-channel image fully opaque.
    pub fn into_opaque(self) -> (r: CanonicalImage)
        requires
            self@.model is Rgba,
        ensures
            r@ == self@.opaque(),
    {
        proof {
            use_type_invariant(&self);
        }
        let ghost before = self@;
        let CanonicalImage { width, height, model, samples } = self;
        assert(before.samples == samples.values());
        assert(before.samples.len() == before.pixel_count() * 4);
        let samples = match samples {
            Samples::Eight(v) => {
                assert(widen8(v@).len() == v@.len());
                let v = seal(v, 255u8);
                assert(widen8(v@) =~= before.opaque().samples);
                Samples::Eight(v)
            },
            Samples::Sixteen(v) => {
                assert(widen16(v@).len() == v@.len());
                let v = seal(v, 65535u16);
                assert(widen16(v@) =~= before.opaque().samples);
                Samples::Sixteen(v)
            },
        };
        CanonicalImage { width, height, model, samples }
    }

    /// The image as four-channel pixels of 8-bit samples.
    pub fn to_rgba8(&self) -> (r: CanonicalImage)
        requires
            self@.rgba_fits(),
        ensures
            r@ == self@.as_rgba(Depth::Eight),
    {
        let packed = self.to_dynamic();
        let samples = to_rgba8(&packed);
        assert(widen8(samples@).len() == samples@.len());
        match CanonicalImage::from_samples8(self.width, self.height, ColorModel::Rgba, samples) {
            Some(r) => r,
            None => unreached(),
        }
    }

    /// The image as four-channel pixels of 16-bit samples.
    pub fn to_rgba16(&self) -> (r: CanonicalImage)
        requires
            self@.rgba_fits(),
        ensures
            r@ == self@.as_rgba(Depth::Sixteen),
    {
        let packed = self.to_dynamic();
        let samples = into_rgba16(packed);
        assert(widen16(samples@).len() == samples@.len());
        match CanonicalImage::from_samples16(self.width, self.height, ColorModel::Rgba, samples) {
            Some(r) => r,
            None => unreached(),
        }
    }

    /// The image scaled to the largest size that fits within `nwidth` by `nheight`, its aspect
    /// ratio kept. The size, the pixel layout and the depth of the result are stated; its
    /// samples are the filter's, whose arithmetic is not specified to the last bit. The scaling
    /// works in images of four 32-bit channels, of the old width by the new height and of the
    /// new size, which this machine must be able to hold.
    pub fn resize(&self, nwidth: u32, nheight: u32, filter: Resampling) -> (r: CanonicalImage)
        requires
            1 <= nwidth,
            1 <= nheight,
            self@.width * nheight * 16 <= isize::MAX,
            nwidth * nheight * 16 <= isize::MAX,
        ensures
            r@.wf(),
            r@.model == self@.model,
            r@.depth == self@.depth,
            r@.fits_within(self@, nwidth as nat, nheight as nat),
    {
        let packed = self.to_dynamic();
        let scaled = resize(&packed, nwidth, nheight, filter);
        proof {
            let out = raster_of(scaled)->0;
            assert(out.width * out.model.channels() <= nwidth * nheight * 16) by (nonlinear_arith)
                requires
                    out.width <= nwidth,
                    out.model.channels() <= 4,
                    1 <= nheight,
            ;
        }
        match CanonicalImage::from_dynamic(&scaled) {
            Some(r) => r,
            None => unreached(),
        }
    }

    /// The image as a value of the codec library.
    pub(crate) fn to_dynamic(&self) -> (r: DynamicImage)
        ensures
            raster_of(r) == Some(self@),
            self@.wf(),
            self@.addressable(),
    {
        proof {
            use_type_invariant(self);
        }
        match &self.samples {
            Samples::Eight(v) => pack8(self.width, self.height, self.model, v),
            Samples::Sixteen(v) => pack16(self.width, self.height, self.model, v),
        }
    }

    /// The image that a value of the codec library holds, where the canonical raster can hold it.
    pub(crate) fn from_dynamic(image: &DynamicImage) -> (r: Option<CanonicalImage>)
        ensures
            match raster_of(*image) {
                Some(raster) => if raster.wf() && raster.addressable() {
                    r is Some && r->0@ == raster
                } else {
                    r is None
                },
                None => r is None,
            },
    {
        let parts = unpack(image);
        let model = ColorModel::from_flags(parts.color, parts.alpha);
        match parts.eight {
            Some(v) => CanonicalImage::from_samples8(parts.width, parts.height, model, v),
            None => match parts.sixteen {
                Some(v) => CanonicalImage::from_samples16(parts.width, parts.height, model, v),
                None => None,
            },
        }
    }
}

} // verus!
