//! The adjustments that an image needs before a target format can take it.
//!
//! Each target format has a list of transforms, most of them an empty one. A transform changes
//! an image only where its condition holds, so an image that a target can take as it is passes
//! through unchanged.

use crate::codec::{composited, overlay};
use crate::format::TargetFormat;
use crate::raster::{
    proportional, proportional_is_exact, quad, rgba_is_well_formed, row_fits, sample_count, widen16, widen8,
    CanonicalImage, ColorModel, Depth, Raster, Resampling,
};
use vstd::pervasive::unreached;
use vstd::prelude::*;

verus! {

/// The longest side, in pixels, that an icon can have.
pub const ICON_SIDE: u32 = 256;

/// One adjustment of the normalizer.
#[derive(Clone, Copy, Debug, PartialEq, Eq, Structural)]
pub enum Transform {
    /// Blend an image that has an alpha channel over an opaque white background.
    FlattenAlpha,
    /// Scale an image that is wider or higher than an icon down to icon size.
    FitIcon,
    /// Bring an image that does not have them yet to four channels of 16-bit samples.
    PromoteDepth,
}

/// An opaque white image of four channels: every sample at the largest value of the depth.
pub open spec fn white(width: nat, height: nat, depth: Depth) -> Raster {
    Raster {
        width,
        height,
        model: ColorModel::Rgba,
        depth,
        samples: Seq::new(width * height * 4, |i: int| depth.max_value()),
    }
}

/// An image with an alpha channel, blended over opaque white of its own size and depth: the
/// colors are those of the blend, and every pixel is fully opaque.
pub open spec fn flattened(image: Raster) -> Raster {
    composited(white(image.width, image.height, image.depth), image.as_rgba(image.depth)).opaque()
}

/// An image as four channels of 16-bit samples: a gray level stands for the three colors, a
/// pixel without alpha is opaque, and an 8-bit sample `v` becomes `v * 257`.
pub open spec fn promoted(image: Raster) -> Raster {
    image.as_rgba(Depth::Sixteen)
}

impl Transform {
    /// Whether the transform has anything to do on an image.
    pub open spec fn applies(self, image: Raster) -> bool {
        match self {
            Transform::FlattenAlpha => image.model.carries_alpha(),
            Transform::FitIcon => image.width > ICON_SIDE || image.height > ICON_SIDE,
            Transform::PromoteDepth => !(image.depth is Sixteen && image.model is Rgba),
        }
    }

    /// Whether `after` is what the transform may make of `before`: `before` itself where the
    /// transform does not apply. Flattening and promotion make one image. Scaling is known by
    /// the size, the pixel layout and the depth of what it makes; its samples are left open.
    pub open spec fn makes(self, before: Raster, after: Raster) -> bool {
        if !self.applies(before) {
            after == before
        } else {
            match self {
                Transform::FlattenAlpha => {
                    &&& after == flattened(before)
                    &&& after.wf()
                    &&& after.width == before.width
                    &&& after.height == before.height
                    &&& after.model is Rgba
                    &&& after.depth == before.depth
                    &&& forall|p: int|
                        0 <= p < before.pixel_count() ==> #[trigger] quad(after.samples, p, 3)
                            == before.depth.max_value()
                    &&& forall|p: int, c: int|
                        0 <= p < before.pixel_count() && 0 <= c < 4 && before.rgba(p, 3) == 0
                            ==> #[trigger] quad(after.samples, p, c) == before.depth.max_value()
                    &&& forall|p: int, c: int|
                        0 <= p < before.pixel_count() && 0 <= c < 3 && before.rgba(p, 3)
                            == before.depth.max_value() ==> #[trigger] quad(after.samples, p, c)
                            == before.rgba(p, c)
                    &&& before.fully_opaque() ==> after == before.as_rgba(before.depth)
                },
                Transform::FitIcon => {
                    &&& after.wf()
                    &&& after.model == before.model
                    &&& after.depth == before.depth
                    &&& after.fits_within(before, ICON_SIDE as nat, ICON_SIDE as nat)
                },
                Transform::PromoteDepth => after == promoted(before),
            }
        }
    }

    /// Whether this machine can hold the buffers that the transform works in.
    pub open spec fn feasible(self, image: Raster) -> bool {
        self.applies(image) ==> match self {
            Transform::FlattenAlpha | Transform::PromoteDepth => image.rgba_fits(),
            Transform::FitIcon => image.width * ICON_SIDE * 16 <= isize::MAX,
        }
    }
}

/// The table of rules: the transforms of each target format, in the order in which they run.
pub open spec fn rules(target: TargetFormat) -> Seq<Transform> {
    match target {
        TargetFormat::Jpeg => seq![Transform::FlattenAlpha],
        TargetFormat::Ico => seq![Transform::FitIcon],
        TargetFormat::Farbfeld => seq![Transform::PromoteDepth],
        _ => seq![],
    }
}

/// Whether a list of transforms, one after the other, may make `after` of `before`.
pub open spec fn reaches(before: Raster, steps: Seq<Transform>, after: Raster) -> bool
    decreases steps.len(),
{
    if steps.len() == 0 {
        after == before
    } else {
        exists|between: Raster| #[trigger]
            steps[0].makes(before, between) && reaches(between, steps.drop_first(), after)
    }
}

/// Whether each transform of a list is feasible on every image that it may meet.
pub open spec fn runnable(before: Raster, steps: Seq<Transform>) -> bool
    decreases steps.len(),
{
    steps.len() > 0 ==> steps[0].feasible(before) && forall|between: Raster| #[trigger]
        steps[0].makes(before, between) ==> runnable(between, steps.drop_first())
}

/// Whether `after` may be the image that a target format is given to encode for `before`.
pub open spec fn normalizes(before: Raster, target: TargetFormat, after: Raster) -> bool {
    reaches(before, rules(target), after)
}

/// Whether the normalizer can work on an image on this machine.
pub open spec fn normalizable(image: Raster, target: TargetFormat) -> bool {
    runnable(image, rules(target))
}

/// An opaque white image of four channels.
fn white_canvas(width: u32, height: u32, depth: Depth) -> (r: CanonicalImage)
    requires
        width * height * 8 <= isize::MAX,
        width * 4 <= usize::MAX,
    ensures
        r@ == white(width as nat, height as nat, depth),
{
    let count = match sample_count(width, height, ColorModel::Rgba) {
        Some(n) => n,
        None => unreached(),
    };
    let canvas = match depth {
        Depth::Eight => {
            let samples = vec![255u8; count];
            assert(widen8(samples@) =~= white(width as nat, height as nat, depth).samples);
            CanonicalImage::from_samples8(width, height, ColorModel::Rgba, samples)
        },
        Depth::Sixteen => {
            let samples = vec![65535u16; count];
            assert(widen16(samples@) =~= white(width as nat, height as nat, depth).samples);
            CanonicalImage::from_samples16(width, height, ColorModel::Rgba, samples)
        },
    };
    match canvas {
        Some(canvas) => canvas,
        None => unreached(),
    }
}

/// Blends an image over an opaque white background of its own size. The result has four
/// channels at the depth of the image and is fully opaque. A fully transparent pixel becomes
/// white, and a fully opaque one keeps its color.
pub fn flatten(image: &CanonicalImage) -> (r: CanonicalImage)
    requires
        image@.rgba_fits(),
    ensures
        r@ == flattened(image@),
        image@.model.carries_alpha() ==> Transform::FlattenAlpha.makes(image@, r@),
        r@.wf(),
        r@.width == image@.width,
        r@.height == image@.height,
        r@.model is Rgba,
        r@.depth == image@.depth,
        forall|p: int|
            0 <= p < image@.pixel_count() ==> #[trigger] quad(r@.samples, p, 3) == image@.depth.max_value(),
        forall|p: int, c: int|
            0 <= p < image@.pixel_count() && 0 <= c < 4 && image@.rgba(p, 3) == 0 ==> #[trigger] quad(
                r@.samples,
                p,
                c,
            ) == image@.depth.max_value(),
        forall|p: int, c: int|
            0 <= p < image@.pixel_count() && 0 <= c < 3 && image@.rgba(p, 3) == image@.depth.max_value()
                ==> #[trigger] quad(r@.samples, p, c) == image@.rgba(p, c),
        image@.fully_opaque() ==> r@ == image@.as_rgba(image@.depth),
{
    proof {
        use_type_invariant(image);
        rgba_is_well_formed(image@, image@.depth);
    }
    let width = image.width();
    let height = image.height();
    let depth = image.depth();
    let top = match depth {
        Depth::Eight => image.to_rgba8(),
        Depth::Sixteen => image.to_rgba16(),
    };
    let canvas = white_canvas(width, height, depth);
    let blended = overlay(canvas.to_dynamic(), &top.to_dynamic());
    let blended = match CanonicalImage::from_dynamic(&blended) {
        Some(blended) => blended,
        None => unreached(),
    };
    let r = blended.into_opaque();
    proof {
        use_type_invariant(&r);
        let source = image@.as_rgba(image@.depth).samples;
        assert forall|p: int| 0 <= p < image@.pixel_count() implies #[trigger] quad(r@.samples, p, 3)
            == image@.depth.max_value() by {
            assert((4 * p + 3) % 4 == 3);
        }
        assert forall|p: int, c: int|
            0 <= p < image@.pixel_count() && 0 <= c < 4 && image@.rgba(p, 3) == 0 implies #[trigger] quad(
            r@.samples,
            p,
            c,
        ) == image@.depth.max_value() by {
            assert(quad(source, p, 3) == 0);
            assert(quad(blended@.samples, p, c) == quad(canvas@.samples, p, c));
            assert((4 * p + c) % 4 == c);
        }
        assert forall|p: int, c: int|
            0 <= p < image@.pixel_count() && 0 <= c < 3 && image@.rgba(p, 3)
                == image@.depth.max_value() implies #[trigger] quad(r@.samples, p, c) == image@.rgba(
            p,
            c,
        ) by {
            assert(quad(source, p, 3) == image@.depth.max_value());
            assert(quad(blended@.samples, p, c) == quad(source, p, c));
            assert((4 * p + c) % 4 == c);
            assert((4 * p + c) / 4 == p);
        }
        if image@.fully_opaque() {
            assert forall|i: int| 0 <= i < source.len() implies r@.samples[i] == source[i] by {
                let p = i / 4;
                let c = i % 4;
                assert(i == 4 * p + c);
                assert(image@.rgba(p, 3) == image@.depth.max_value());
                assert(quad(source, p, 3) == image@.depth.max_value());
                if c < 3 {
                    assert(quad(r@.samples, p, c) == image@.rgba(p, c));
                } else {
                    assert(quad(r@.samples, p, 3) == image@.depth.max_value());
                }
                assert(source[i] == quad(source, p, c));
                assert(r@.samples[i] == quad(r@.samples, p, c));
            }
            assert(r@.samples =~= source);
        }
    }
    r
}

/// Scales an image to the largest size that fits an icon, its aspect ratio kept. The samples
/// are those of Lanczos resampling with a window of three pixels.
pub fn fit_icon(image: &CanonicalImage) -> (r: CanonicalImage)
    requires
        image@.width * ICON_SIDE * 16 <= isize::MAX,
    ensures
        r@.wf(),
        r@.model == image@.model,
        r@.depth == image@.depth,
        r@.fits_within(image@, ICON_SIDE as nat, ICON_SIDE as nat),
{
    image.resize(ICON_SIDE, ICON_SIDE, Resampling::Lanczos3)
}

/// Brings an image to four channels of 16-bit samples.
pub fn promote(image: &CanonicalImage) -> (r: CanonicalImage)
    requires
        image@.rgba_fits(),
    ensures
        r@ == promoted(image@),
        r@.wf(),
{
    let r = image.to_rgba16();
    proof {
        use_type_invariant(&r);
    }
    r
}

impl Transform {
    /// Whether the transform has anything to do on an image.
    pub fn is_needed(self, image: &CanonicalImage) -> (b: bool)
        ensures
            b == self.applies(image@),
    {
        match self {
            Transform::FlattenAlpha => image.color_model().has_alpha(),
            Transform::FitIcon => image.width() > ICON_SIDE || image.height() > ICON_SIDE,
            Transform::PromoteDepth => match (image.depth(), image.color_model()) {
                (Depth::Sixteen, ColorModel::Rgba) => false,
                _ => true,
            },
        }
    }

    /// Whether the transform can work on an image on this machine.
    pub fn is_feasible(self, image: &CanonicalImage) -> (b: bool)
        ensures
            b == self.feasible(image@),
    {
        if !self.is_needed(image) {
            return true;
        }
        match self {
            Transform::FlattenAlpha | Transform::PromoteDepth => {
                let width = image.width();
                let height = image.height();
                assert(width * height <= 0xffff_ffff * 0xffff_ffff) by (nonlinear_arith)
                    requires
                        width <= 0xffff_ffff,
                        height <= 0xffff_ffff,
                ;
                let pixels: u64 = (width as u64) * (height as u64);
                let bytes: u128 = (pixels as u128) * 8;
                assert(width * ColorModel::Rgba.channels() == 4 * width);
                bytes <= isize::MAX as u128 && row_fits(width, ColorModel::Rgba)
            },
            Transform::FitIcon => {
                let needed: u64 = (image.width() as u64) * 4096;
                needed <= isize::MAX as u64
            },
        }
    }

    /// Applies the transform to an image. An image that does not need it comes back unchanged.
    pub fn apply(self, image: CanonicalImage) -> (r: CanonicalImage)
        requires
            self.feasible(image@),
        ensures
            self.makes(image@, r@),
            r@.wf(),
    {
        proof {
            use_type_invariant(&image);
        }
        if !self.is_needed(&image) {
            return image;
        }
        match self {
            Transform::FlattenAlpha => flatten(&image),
            Transform::FitIcon => fit_icon(&image),
            Transform::PromoteDepth => promote(&image),
        }
    }
}

/// The transforms of a target format, in the order in which they run.
pub fn rules_for(target: TargetFormat) -> (r: Vec<Transform>)
    ensures
        r@ == rules(target),
{
    let mut steps: Vec<Transform> = Vec::new();
    match target {
        TargetFormat::Jpeg => steps.push(Transform::FlattenAlpha),
        TargetFormat::Ico => steps.push(Transform::FitIcon),
        TargetFormat::Farbfeld => steps.push(Transform::PromoteDepth),
        _ => {},
    }
    assert(steps@ =~= rules(target));
    steps
}

/// No target format has more than one transform, so the order of transforms is not yet a
/// question.
pub proof fn rules_do_not_stack(target: TargetFormat)
    ensures
        rules(target).len() <= 1,
{
}

/// Where a target has one transform, normalizing is applying it; where it has none, the image
/// stays as it is.
pub proof fn normalized_by_table(before: Raster, target: TargetFormat, after: Raster)
    ensures
        normalizes(before, target, after) == (match target {
            TargetFormat::Jpeg => Transform::FlattenAlpha.makes(before, after),
            TargetFormat::Ico => Transform::FitIcon.makes(before, after),
            TargetFormat::Farbfeld => Transform::PromoteDepth.makes(before, after),
            _ => after == before,
        }),
        normalizable(before, target) == (match target {
            TargetFormat::Jpeg => Transform::FlattenAlpha.feasible(before),
            TargetFormat::Ico => Transform::FitIcon.feasible(before),
            TargetFormat::Farbfeld => Transform::PromoteDepth.feasible(before),
            _ => true,
        }),
{
    reveal_with_fuel(reaches, 3);
    reveal_with_fuel(runnable, 3);
    let steps = rules(target);
    if steps.len() > 0 {
        let step = steps[0];
        assert(steps.drop_first().len() == 0);
        if step.makes(before, after) {
            assert(reaches(after, steps.drop_first(), after));
            assert(step.makes(before, after) && reaches(after, steps.drop_first(), after));
            assert(reaches(before, steps, after));
        }
    }
}

/// An image that no rule of the target applies to is prepared as it is, and as nothing else.
pub proof fn untouched_where_no_rule_applies(image: Raster, target: TargetFormat, after: Raster)
    requires
        forall|i: int| 0 <= i < rules(target).len() ==> !rules(target)[i].applies(image),
    ensures
        normalizes(image, target, after) <==> after == image,
        normalizable(image, target),
{
    normalized_by_table(image, target, after);
    if rules(target).len() > 0 {
        assert(!rules(target)[0].applies(image));
    }
}

/// An image that fits an icon is prepared for ICO with its dimensions and its pixels as they
/// are.
pub proof fn icon_rule_keeps_what_fits(image: Raster, after: Raster)
    requires
        image.width <= ICON_SIDE,
        image.height <= ICON_SIDE,
    ensures
        normalizes(image, TargetFormat::Ico, after) <==> after == image,
{
    normalized_by_table(image, TargetFormat::Ico, after);
}

/// An image whose sides keep a whole ratio to the side of an icon comes out at exactly that
/// size: a square larger than an icon becomes an icon of full size, and an image twice as wide
/// as high one of full width and half height.
pub proof fn icon_rule_is_exact_on_whole_ratios(image: Raster, after: Raster)
    requires
        normalizes(image, TargetFormat::Ico, after),
        image.width > ICON_SIDE,
        image.height >= 1,
    ensures
        image.width == image.height ==> after.width == ICON_SIDE && after.height == ICON_SIDE,
        image.width == 2 * image.height ==> after.width == ICON_SIDE && after.height == ICON_SIDE / 2,
{
    normalized_by_table(image, TargetFormat::Ico, after);
    let side = ICON_SIDE as nat;
    let w = image.width;
    let h = image.height;
    if w == h {
        assert(h * side == side * w) by (nonlinear_arith)
            requires
                w == h,
        ;
        assert(w * side == side * h) by (nonlinear_arith)
            requires
                w == h,
        ;
        if after.width == side && proportional(after.height, h, side, w) {
            proportional_is_exact(after.height, h, side, w, side);
        } else {
            proportional_is_exact(after.width, w, side, h, side);
        }
    }
    if w == 2 * h {
        assert(h * side == 128 * w) by (nonlinear_arith)
            requires
                w == 2 * h,
                side == 256,
        ;
        if after.width == side && proportional(after.height, h, side, w) {
            proportional_is_exact(after.height, h, side, w, 128);
        } else {
            assert(w * side == 512 * h) by (nonlinear_arith)
                requires
                    w == 2 * h,
                    side == 256,
            ;
            proportional_is_exact(after.width, w, side, h, 512);
        }
    }
}

/// Preparing an image of 8-bit samples for Farbfeld gives four channels of 16-bit samples, each
/// `257` times the sample that it comes from: 0 stays 0 and 255 becomes 65535.
pub proof fn farbfeld_rule_scales_every_sample(image: Raster, after: Raster, pixel: int, channel: int)
    requires
        image.wf(),
        image.depth is Eight,
        normalizes(image, TargetFormat::Farbfeld, after),
        0 <= pixel < image.pixel_count(),
        0 <= channel < 4,
    ensures
        after == promoted(image),
        after.wf(),
        after.depth is Sixteen,
        after.model is Rgba,
        after.width == image.width,
        after.height == image.height,
        quad(after.samples, pixel, channel) == 257 * image.rgba(pixel, channel),
        image.rgba(pixel, channel) == 0 ==> quad(after.samples, pixel, channel) == 0,
        image.rgba(pixel, channel) == 255 ==> quad(after.samples, pixel, channel) == 65535,
{
    normalized_by_table(image, TargetFormat::Farbfeld, after);
    rgba_is_well_formed(image, Depth::Sixteen);
    assert((4 * pixel + channel) / 4 == pixel);
    assert((4 * pixel + channel) % 4 == channel);
}

/// Farbfeld is given four channels of 16-bit samples whatever the image: one that has them is
/// left as it is, and every other keeps its samples, or has them scaled from 8 bits.
pub proof fn farbfeld_rule_reaches_every_image(image: Raster, after: Raster)
    requires
        normalizes(image, TargetFormat::Farbfeld, after),
    ensures
        after.depth is Sixteen,
        after.model is Rgba,
        image.depth is Sixteen && image.model is Rgba ==> after == image,
        !(image.depth is Sixteen && image.model is Rgba) ==> after == image.as_rgba(Depth::Sixteen),
{
    normalized_by_table(image, TargetFormat::Farbfeld, after);
}

/// Preparing an image for Farbfeld a second time changes nothing: what the rule makes has four
/// channels of 16-bit samples, which it leaves alone.
pub proof fn farbfeld_rule_runs_once(image: Raster, once: Raster, twice: Raster)
    requires
        normalizes(image, TargetFormat::Farbfeld, once),
        normalizes(once, TargetFormat::Farbfeld, twice),
    ensures
        twice == once,
{
    normalized_by_table(image, TargetFormat::Farbfeld, once);
    normalized_by_table(once, TargetFormat::Farbfeld, twice);
}

/// What an image prepared for a target is known by, target by target.
pub open spec fn prepared(before: Raster, after: Raster, target: TargetFormat) -> bool {
    &&& after.wf()
    &&& target is Jpeg ==> Transform::FlattenAlpha.makes(before, after)
    &&& target is Ico ==> {
        &&& after.width <= ICON_SIDE
        &&& after.height <= ICON_SIDE
        &&& after.model == before.model
        &&& after.depth == before.depth
        &&& before.width <= ICON_SIDE && before.height <= ICON_SIDE ==> after == before
        &&& before.width > ICON_SIDE || before.height > ICON_SIDE ==> after.fits_within(
            before,
            ICON_SIDE as nat,
            ICON_SIDE as nat,
        )
    }
    &&& target is Farbfeld ==> {
        &&& after.depth is Sixteen
        &&& after.model is Rgba
        &&& before.depth is Sixteen && before.model is Rgba ==> after == before
        &&& !(before.depth is Sixteen && before.model is Rgba) ==> after == before.as_rgba(Depth::Sixteen)
    }
    &&& !(target is Jpeg || target is Ico || target is Farbfeld) ==> after == before
}

/// Prepares an image for a target format: runs the transforms of the target, one after the
/// other. For JPEG an image with an alpha channel is blended over white; for ICO an image larger
/// than an icon is scaled down to fit, its aspect ratio kept; for Farbfeld an image is brought
/// to four channels of 16-bit samples. Every other image comes back as it is.
pub fn normalize(image: CanonicalImage, target: TargetFormat) -> (r: CanonicalImage)
    requires
        normalizable(image@, target),
    ensures
        normalizes(image@, target, r@),
        prepared(image@, r@, target),
{
    let ghost start = image@;
    let steps = rules_for(target);
    let mut current = image;
    let mut i: usize = 0;
    proof {
        use_type_invariant(&current);
        normalized_by_table(start, target, start);
    }
    while i < steps.len()
        invariant
            steps@ == rules(target),
            i <= steps.len() <= 1,
            normalizable(start, target),
            current@.wf(),
            i == 0 ==> current@ == start,
            i == 1 ==> steps@[0].makes(start, current@),
        decreases steps.len() - i,
    {
        current = steps[i].apply(current);
        i += 1;
    }
    proof {
        normalized_by_table(start, target, current@);
    }
    current
}

/// Whether `normalize` can work on an image on this machine.
pub fn can_normalize(image: &CanonicalImage, target: TargetFormat) -> (b: bool)
    ensures
        b == normalizable(image@, target),
{
    proof {
        normalized_by_table(image@, target, image@);
    }
    let steps = rules_for(target);
    if steps.len() == 0 {
        true
    } else {
        steps[0].is_feasible(image)
    }
}

/// Prepares an image for a target format where this machine can: `None` where a buffer that a
/// transform needs is too long to be addressed.
pub fn try_normalize(image: CanonicalImage, target: TargetFormat) -> (r: Option<CanonicalImage>)
    ensures
        r is Some <==> normalizable(image@, target),
        r is Some ==> normalizes(image@, target, r->0@) && prepared(image@, r->0@, target),
{
    if can_normalize(&image, target) {
        Some(normalize(image, target))
    } else {
        None
    }
}

} // verus!
