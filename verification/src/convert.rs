//! The orchestrator: detect, decode, resolve, normalize, encode.

use crate::codec::encoded;
use crate::decode::{decode, decoding};
use crate::detect::{detect, signature};
use crate::encode::encode;
use crate::error::ConversionError;
use crate::format::{ascii, folded, lowercased, resolve, resolved, DetectedFormat, TargetFormat};
use crate::normalize::{
    icon_rule_is_exact_on_whole_ratios, normalizable, normalized_by_table, normalizes, prepared, try_normalize,
};
use crate::raster::{quad, CanonicalImage, Raster};
use vstd::prelude::*;
use vstd::string::StringExecFns;

verus! {

/// The detail of the error for an image that is too large to be prepared on this machine.
pub open spec fn oversized_detail() -> Seq<char> {
    "The image is too large to be prepared for the target format"@
}

/// How a conversion ends.
pub enum Outcome {
    /// The output buffer.
    Converted(Seq<u8>),
    /// The input starts like no source format.
    Undetected,
    /// The input could not be decoded: the detail of the error.
    Undecodable(Seq<char>),
    /// The target name stands for no target format: the name in lower case.
    UnsupportedTarget(Seq<char>),
    /// The image could not be prepared or written: the detail of the error.
    Unencodable(Seq<char>),
}

impl Outcome {
    /// The outcome that a result reports.
    pub open spec fn of(r: Result<Vec<u8>, ConversionError>) -> Outcome {
        match r {
            Ok(output) => Outcome::Converted(output@),
            Err(ConversionError::Detection) => Outcome::Undetected,
            Err(ConversionError::Decode { detail }) => Outcome::Undecodable(detail@),
            Err(ConversionError::UnsupportedFormat { name }) => Outcome::UnsupportedTarget(name@),
            Err(ConversionError::Encode { detail }) => Outcome::Unencodable(detail@),
        }
    }

    /// The message of an outcome that is a failure.
    pub open spec fn message(self) -> Seq<char> {
        match self {
            Outcome::Converted(_) => Seq::empty(),
            Outcome::Undetected => ConversionError::Detection.text(),
            Outcome::Undecodable(text) => "Failed to decode image: "@ + text,
            Outcome::UnsupportedTarget(rejected) => "Unsupported output format requested: "@ + rejected,
            Outcome::Unencodable(text) => "Failed to write output: "@ + text,
        }
    }

    /// Whether a result with a message for an error reports this outcome.
    pub open spec fn told_by(self, r: Result<Vec<u8>, String>) -> bool {
        match self {
            Outcome::Converted(output) => r is Ok && r->Ok_0@ == output,
            _ => r is Err && r->Err_0@ == self.message(),
        }
    }
}

/// What the encoder makes of a prepared image.
pub open spec fn written(image: Raster, target: TargetFormat) -> Outcome {
    match encoded(image, target) {
        Ok(output) => Outcome::Converted(output),
        Err(text) => Outcome::Unencodable(text),
    }
}

/// Whether `ready` may be the image that is handed to the encoder for `image`: what the
/// normalizer may make of it, with all that is known of that.
pub open spec fn readies(image: Raster, target: TargetFormat, ready: Raster) -> bool {
    normalizes(image, target, ready) && prepared(image, ready, target)
}

/// Whether writing a decoded image in a named target format may end in `outcome`. A name
/// outside the table is refused; an image too large for this machine is an encode error; else
/// the outcome is what the encoder makes of an image that the normalizer readies. For every
/// target but ICO there is one such image. For ICO the size of a scaled image is fixed, a
/// sample of it is not.
pub open spec fn may_render(image: Raster, target_name: Seq<char>, outcome: Outcome) -> bool {
    match resolved(target_name) {
        None => outcome == Outcome::UnsupportedTarget(lowercased(target_name)),
        Some(target) => if !normalizable(image, target) {
            outcome == Outcome::Unencodable(oversized_detail())
        } else {
            exists|ready: Raster| #[trigger] readies(image, target, ready) && outcome == written(ready, target)
        },
    }
}

/// Whether the conversion of a buffer of a known source format may end in `outcome`.
pub open spec fn may_convert_from(
    bytes: Seq<u8>,
    format: DetectedFormat,
    target_name: Seq<char>,
    outcome: Outcome,
) -> bool {
    match decoding(bytes, format) {
        Err(text) => outcome == Outcome::Undecodable(text),
        Ok(image) => may_render(image, target_name, outcome),
    }
}

/// Whether a conversion may end in `outcome`, stage by stage: the first stage that fails
/// decides.
pub open spec fn may_convert(bytes: Seq<u8>, target_name: Seq<char>, outcome: Outcome) -> bool {
    match signature(bytes) {
        None => outcome == Outcome::Undetected,
        Some(format) => may_convert_from(bytes, format, target_name, outcome),
    }
}

/// The name that an unsupported target is reported under is the request folded, where the
/// request is made of ASCII characters.
pub open spec fn spelled(outcome: Outcome, target_name: Seq<char>) -> bool {
    outcome matches Outcome::UnsupportedTarget(rejected) ==> (ascii(target_name) ==> rejected == folded(
        target_name,
    ))
}

/// Whether detection finds in an output the target that a name stands for. TGA has no
/// signature, so nothing is said of its output.
pub open spec fn redetected(output: Seq<u8>, target_name: Seq<char>) -> bool {
    resolved(target_name) matches Some(target) && (!(target is Tga) ==> signature(output) == Some(
        target.as_source(),
    ))
}

/// A conversion to a target other than ICO has one outcome.
pub proof fn rendering_is_determined(image: Raster, target_name: Seq<char>, first: Outcome, second: Outcome)
    requires
        may_render(image, target_name, first),
        may_render(image, target_name, second),
        resolved(target_name) != Some(TargetFormat::Ico),
    ensures
        first == second,
{
    if resolved(target_name) is Some {
        let target = resolved(target_name)->0;
        if normalizable(image, target) {
            let a = choose|ready: Raster| #[trigger] readies(image, target, ready) && first == written(ready, target);
            let b = choose|ready: Raster| #[trigger]
                readies(image, target, ready) && second == written(ready, target);
            normalized_by_table(image, target, a);
            normalized_by_table(image, target, b);
        }
    }
}

/// An image that fits an icon is written as an icon as it is, so its conversion has one
/// outcome: what the encoder makes of the image itself.
pub proof fn small_icon_is_written_as_it_is(image: Raster, target_name: Seq<char>, outcome: Outcome)
    requires
        may_render(image, target_name, outcome),
        resolved(target_name) == Some(TargetFormat::Ico),
        image.width <= 256,
        image.height <= 256,
    ensures
        outcome == written(image, TargetFormat::Ico),
{
    normalized_by_table(image, TargetFormat::Ico, image);
    let ready = choose|ready: Raster| #[trigger]
        readies(image, TargetFormat::Ico, ready) && outcome == written(ready, TargetFormat::Ico);
    normalized_by_table(image, TargetFormat::Ico, ready);
}

/// What is handed to the ICO encoder fits an icon and keeps the pixel layout and the depth of
/// the image. Of an image wider than an icon it has exactly the size of an icon where the image
/// is square, and full width and half height where the image is twice as wide as high.
pub proof fn icon_is_given_an_image_that_fits(image: Raster, target_name: Seq<char>, outcome: Outcome)
    requires
        may_render(image, target_name, outcome),
        resolved(target_name) == Some(TargetFormat::Ico),
        normalizable(image, TargetFormat::Ico),
    ensures
        exists|ready: Raster|
            {
                &&& #[trigger] written(ready, TargetFormat::Ico) == outcome
                &&& ready.width <= 256
                &&& ready.height <= 256
                &&& ready.model == image.model
                &&& ready.depth == image.depth
                &&& image.width > 256 && image.width == image.height ==> ready.width == 256 && ready.height
                    == 256
                &&& image.width > 256 && image.width == 2 * image.height ==> ready.width == 256
                    && ready.height == 128
            },
{
    let ready = choose|ready: Raster| #[trigger]
        readies(image, TargetFormat::Ico, ready) && outcome == written(ready, TargetFormat::Ico);
    if image.width > 256 && image.height >= 1 {
        icon_rule_is_exact_on_whole_ratios(image, ready);
    }
    assert(written(ready, TargetFormat::Ico) == outcome);
}

/// What is handed to the JPEG encoder for an image with an alpha channel has the size and the
/// depth of the image and is fully opaque, and each pixel that was fully transparent is white
/// in it.
pub proof fn jpeg_is_given_white_for_transparent_pixels(
    image: Raster,
    target_name: Seq<char>,
    outcome: Outcome,
    pixel: int,
)
    requires
        may_render(image, target_name, outcome),
        resolved(target_name) == Some(TargetFormat::Jpeg),
        normalizable(image, TargetFormat::Jpeg),
        image.model.carries_alpha(),
        0 <= pixel < image.pixel_count(),
    ensures
        exists|ready: Raster|
            {
                &&& #[trigger] written(ready, TargetFormat::Jpeg) == outcome
                &&& ready.width == image.width
                &&& ready.height == image.height
                &&& ready.depth == image.depth
                &&& ready.model is Rgba
                &&& quad(ready.samples, pixel, 3) == image.depth.max_value()
                &&& image.rgba(pixel, 3) == 0 ==> quad(ready.samples, pixel, 0) == image.depth.max_value()
                    && quad(ready.samples, pixel, 1) == image.depth.max_value() && quad(
                    ready.samples,
                    pixel,
                    2,
                ) == image.depth.max_value()
            },
{
    let ready = choose|ready: Raster| #[trigger]
        readies(image, TargetFormat::Jpeg, ready) && outcome == written(ready, TargetFormat::Jpeg);
    assert(written(ready, TargetFormat::Jpeg) == outcome);
}

/// An input that starts with no signature fails at detection, whatever the target: the name of
/// the target is not even looked at.
pub proof fn detection_failure_decides(bytes: Seq<u8>, target_name: Seq<char>, outcome: Outcome)
    requires
        signature(bytes) is None,
        may_convert(bytes, target_name, outcome),
    ensures
        outcome is Undetected,
{
}

/// An input that decodes is refused for the name of its target exactly where the name is in no
/// table: the image plays no part in that.
pub proof fn unknown_target_is_refused(bytes: Seq<u8>, target_name: Seq<char>, outcome: Outcome)
    requires
        signature(bytes) is Some,
        decoding(bytes, signature(bytes)->0) is Ok,
        may_convert(bytes, target_name, outcome),
    ensures
        outcome is UnsupportedTarget <==> resolved(target_name) is None,
{
}

/// Two target names that differ only in the case of their ASCII letters lead to the same
/// outcomes; where both are refused, each under its own lower-case form.
pub proof fn outcome_ignores_case(bytes: Seq<u8>, a: Seq<char>, b: Seq<char>, outcome: Outcome)
    requires
        folded(a) == folded(b),
        may_convert(bytes, a, outcome),
    ensures
        outcome is UnsupportedTarget ==> may_convert(bytes, b, Outcome::UnsupportedTarget(lowercased(b))),
        !(outcome is UnsupportedTarget) ==> may_convert(bytes, b, outcome),
{
}

/// Writes a decoded image in the named target format: resolves the name, prepares the image for
/// the target and encodes it. What is handed to the encoder is an image that the normalizer
/// readies, and detection finds the target in the output.
pub fn render(image: CanonicalImage, target_name: &str) -> (r: Result<Vec<u8>, ConversionError>)
    ensures
        may_render(image@, target_name@, Outcome::of(r)),
        spelled(Outcome::of(r), target_name@),
        r is Ok ==> redetected(r->Ok_0@, target_name@),
{
    let target = match resolve(target_name) {
        Ok(target) => target,
        Err(error) => {
            return Err(error);
        },
    };
    let ghost before = image@;
    let ready = match try_normalize(image, target) {
        Some(ready) => ready,
        None => {
            return Err(
                ConversionError::Encode {
                    detail: String::from_str("The image is too large to be prepared for the target format"),
                },
            );
        },
    };
    let r = encode(&ready, target);
    proof {
        assert(readies(before, target, ready@));
        assert(Outcome::of(r) == written(ready@, target));
    }
    r
}

/// Converts a buffer whose source format the caller knows, as for TGA, which no signature
/// gives away.
pub fn convert_from(bytes: &[u8], format: DetectedFormat, target_name: &str) -> (r: Result<
    Vec<u8>,
    ConversionError,
>)
    ensures
        may_convert_from(bytes@, format, target_name@, Outcome::of(r)),
        spelled(Outcome::of(r), target_name@),
        r is Ok ==> redetected(r->Ok_0@, target_name@),
{
    match decode(bytes, format) {
        Ok(image) => render(image, target_name),
        Err(error) => Err(error),
    }
}

/// Converts an encoded image to the target format that `target_name` stands for. The stages run
/// in order and the first failure ends the conversion: there is no partial output. Detection
/// finds the target in the output; so an input converted to its own format is detected as
/// before.
pub fn convert(bytes: &[u8], target_name: &str) -> (r: Result<Vec<u8>, ConversionError>)
    ensures
        may_convert(bytes@, target_name@, Outcome::of(r)),
        spelled(Outcome::of(r), target_name@),
        r is Ok ==> redetected(r->Ok_0@, target_name@),
        r is Ok && signature(bytes@) == Some(resolved(target_name@)->0.as_source()) ==> signature(r->Ok_0@)
            == signature(bytes@),
{
    match detect(bytes) {
        Ok(format) => convert_from(bytes, format, target_name),
        Err(error) => Err(error),
    }
}

/// Converts an encoded image to the named target format, with a failure as its message.
pub fn convert_image_pure(input_data: &[u8], target_format_str: &str) -> (r: Result<Vec<u8>, String>)
    ensures
        exists|outcome: Outcome|
            may_convert(input_data@, target_format_str@, outcome) && spelled(outcome, target_format_str@)
                && #[trigger] outcome.told_by(r),
        r is Ok ==> redetected(r->Ok_0@, target_format_str@),
        r is Ok && signature(input_data@) == Some(resolved(target_format_str@)->0.as_source()) ==> signature(
            r->Ok_0@,
        ) == signature(input_data@),
{
    let converted = convert(input_data, target_format_str);
    let ghost outcome = Outcome::of(converted);
    match converted {
        Ok(output) => {
            assert(outcome.told_by(Ok::<Vec<u8>, String>(output)));
            Ok(output)
        },
        Err(error) => {
            let message = error.message();
            assert(outcome.told_by(Err::<Vec<u8>, String>(message)));
            Err(message)
        },
    }
}

} // verus!
