//! The format detector: which source format a buffer starts like.

use crate::codec::sniff;
use crate::error::ConversionError;
use crate::format::DetectedFormat;
use vstd::prelude::*;
use vstd::string::StringExecFns;

verus! {

/// Whether a buffer holds the bytes `marker` from position `at` on.
pub open spec fn holds(bytes: Seq<u8>, at: int, marker: Seq<u8>) -> bool {
    &&& at + marker.len() <= bytes.len()
    &&& forall|i: int| 0 <= i < marker.len() ==> bytes[at + i] == #[trigger] marker[i]
}

/// The number of leading bytes that can tell a source format: the length of the longest
/// signature.
pub const SIGNATURE_REACH: usize = 12;

/// The source format whose signature a buffer starts with. The signatures are those of the
/// containers: the PNG signature; the JPEG start-of-image marker and the byte `ff` of the next
/// marker; `GIF87a` or `GIF89a`; `RIFF`, four bytes of any value, then `WEBP`; the TIFF byte
/// order mark `MM` or `II` with the number 42 in that order; `BM`; the ICO header `00 00 01 00`;
/// `farbfeld`. TGA has none.
pub open spec fn signature(bytes: Seq<u8>) -> Option<DetectedFormat> {
    if holds(bytes, 0, seq![0x89u8, 0x50, 0x4e, 0x47, 0x0d, 0x0a, 0x1a, 0x0a]) {
        Some(DetectedFormat::Png)
    } else if holds(bytes, 0, seq![0xffu8, 0xd8, 0xff]) {
        Some(DetectedFormat::Jpeg)
    } else if holds(bytes, 0, seq![0x47u8, 0x49, 0x46, 0x38, 0x39, 0x61]) || holds(
        bytes,
        0,
        seq![0x47u8, 0x49, 0x46, 0x38, 0x37, 0x61],
    ) {
        Some(DetectedFormat::Gif)
    } else if holds(bytes, 0, seq![0x52u8, 0x49, 0x46, 0x46]) && holds(bytes, 8, seq![0x57u8, 0x45, 0x42, 0x50]) {
        Some(DetectedFormat::WebP)
    } else if holds(bytes, 0, seq![0x4du8, 0x4d, 0x00, 0x2a]) || holds(bytes, 0, seq![0x49u8, 0x49, 0x2a, 0x00]) {
        Some(DetectedFormat::Tiff)
    } else if holds(bytes, 0, seq![0x42u8, 0x4d]) {
        Some(DetectedFormat::Bmp)
    } else if holds(bytes, 0, seq![0x00u8, 0x00, 0x01, 0x00]) {
        Some(DetectedFormat::Ico)
    } else if holds(bytes, 0, seq![0x66u8, 0x61, 0x72, 0x62, 0x66, 0x65, 0x6c, 0x64]) {
        Some(DetectedFormat::Farbfeld)
    } else {
        None
    }
}

/// Identifies the source format of a buffer by its leading bytes, without decoding it. A
/// buffer that starts with no signature is refused.
pub fn detect(bytes: &[u8]) -> (r: Result<DetectedFormat, ConversionError>)
    ensures
        match signature(bytes@) {
            Some(format) => r == Ok::<DetectedFormat, ConversionError>(format),
            None => r == Err::<DetectedFormat, ConversionError>(ConversionError::Detection),
        },
{
    match sniff(bytes) {
        Some(format) => Ok(format),
        None => Err(ConversionError::Detection),
    }
}

/// Identifies the source format of a buffer, with the failure as a message.
pub fn detect_image_format(input_data: &[u8]) -> (r: Result<DetectedFormat, String>)
    ensures
        match signature(input_data@) {
            Some(format) => r == Ok::<DetectedFormat, String>(format),
            None => r is Err && r->Err_0@ == ConversionError::Detection.text(),
        },
{
    match detect(input_data) {
        Ok(format) => Ok(format),
        Err(error) => Err(error.message()),
    }
}

/// Detection looks at the first `SIGNATURE_REACH` bytes and at nothing behind them.
pub proof fn detection_reads_the_start_only(bytes: Seq<u8>, other: Seq<u8>)
    requires
        bytes.len() >= SIGNATURE_REACH,
        other.len() >= SIGNATURE_REACH,
        bytes.take(SIGNATURE_REACH as int) == other.take(SIGNATURE_REACH as int),
    ensures
        signature(bytes) == signature(other),
{
    assert forall|at: int, marker: Seq<u8>| at >= 0 && at + marker.len() <= 12 implies holds(bytes, at, marker)
        == holds(other, at, marker) by {
        assert forall|i: int| 0 <= i < 12 implies bytes[i] == other[i] by {
            assert(bytes.take(12)[i] == other.take(12)[i]);
        }
    }
}

/// No buffer is detected as TGA, which has no signature.
pub proof fn tga_is_never_detected(bytes: Seq<u8>)
    ensures
        signature(bytes) != Some(DetectedFormat::Tga),
{
}

/// A buffer that a signature is found in holds at least two bytes, and its first byte is the
/// first of some signature. So no empty buffer is detected, and no text that starts with a
/// letter other than `B`, `G`, `I`, `M`, `R` or `f`.
pub proof fn detection_needs_a_signature(bytes: Seq<u8>)
    requires
        signature(bytes) is Some,
    ensures
        bytes.len() >= 2,
        bytes[0] == 0x89 || bytes[0] == 0xff || bytes[0] == 0x47 || bytes[0] == 0x52 || bytes[0] == 0x4d
            || bytes[0] == 0x49 || bytes[0] == 0x42 || bytes[0] == 0x00 || bytes[0] == 0x66,
{
    let png = seq![0x89u8, 0x50, 0x4e, 0x47, 0x0d, 0x0a, 0x1a, 0x0a];
    let jpeg = seq![0xffu8, 0xd8, 0xff];
    let gif89 = seq![0x47u8, 0x49, 0x46, 0x38, 0x39, 0x61];
    let gif87 = seq![0x47u8, 0x49, 0x46, 0x38, 0x37, 0x61];
    let riff = seq![0x52u8, 0x49, 0x46, 0x46];
    let motorola = seq![0x4du8, 0x4d, 0x00, 0x2a];
    let intel = seq![0x49u8, 0x49, 0x2a, 0x00];
    let bmp = seq![0x42u8, 0x4d];
    let ico = seq![0x00u8, 0x00, 0x01, 0x00];
    let farbfeld = seq![0x66u8, 0x61, 0x72, 0x62, 0x66, 0x65, 0x6c, 0x64];
    assert(png[0] == 0x89 && jpeg[0] == 0xff && gif89[0] == 0x47 && gif87[0] == 0x47 && riff[0] == 0x52);
    assert(motorola[0] == 0x4d && intel[0] == 0x49 && bmp[0] == 0x42 && ico[0] == 0x00 && farbfeld[0] == 0x66);
}

impl DetectedFormat {
    /// The name of the format, as a diagnostic spells it.
    pub open spec fn label(self) -> Seq<char> {
        match self {
            DetectedFormat::Png => "Png"@,
            DetectedFormat::Jpeg => "Jpeg"@,
            DetectedFormat::Gif => "Gif"@,
            DetectedFormat::WebP => "WebP"@,
            DetectedFormat::Bmp => "Bmp"@,
            DetectedFormat::Ico => "Ico"@,
            DetectedFormat::Tiff => "Tiff"@,
            DetectedFormat::Tga => "Tga"@,
            DetectedFormat::Farbfeld => "Farbfeld"@,
        }
    }

    /// The name of the format, as a diagnostic spells it.
    pub fn as_str(self) -> (r: &'static str)
        ensures
            r@ == self.label(),
    {
        match self {
            DetectedFormat::Png => "Png",
            DetectedFormat::Jpeg => "Jpeg",
            DetectedFormat::Gif => "Gif",
            DetectedFormat::WebP => "WebP",
            DetectedFormat::Bmp => "Bmp",
            DetectedFormat::Ico => "Ico",
            DetectedFormat::Tiff => "Tiff",
            DetectedFormat::Tga => "Tga",
            DetectedFormat::Farbfeld => "Farbfeld",
        }
    }
}

/// The diagnostic line that names the detected format of an input: none where detection fails,
/// which is no error of its own.
pub fn detection_note(bytes: &[u8]) -> (r: Option<String>)
    ensures
        match signature(bytes@) {
            Some(format) => r is Some && r->0@ == "Detected input image format: "@ + format.label(),
            None => r is None,
        },
{
    match detect(bytes) {
        Ok(format) => Some(String::from_str("Detected input image format: ").concat(format.as_str())),
        Err(_) => None,
    }
}

} // verus!
