//! The decoder: from an encoded buffer to the canonical image.

use crate::codec::{load, loaded};
use crate::error::ConversionError;
use crate::format::DetectedFormat;
use crate::raster::{CanonicalImage, Raster};
use vstd::prelude::*;
use vstd::string::StringExecFns;

verus! {

/// The detail of the error for a decoded image that the canonical raster cannot hold.
pub open spec fn unfit_detail() -> Seq<char> {
    "The decoded image has no 8-bit or 16-bit samples, or a buffer that does not fit its size"@
}

/// What decoding makes of a buffer: the raster that the codec reads from it, where its samples
/// are 8-bit or 16-bit integers, its buffer fits the dimensions that it reports and a row of it
/// can be counted on this machine; else the detail of the error.
pub open spec fn decoding(bytes: Seq<u8>, format: DetectedFormat) -> Result<Raster, Seq<char>> {
    match loaded(bytes, format) {
        Ok(Some(raster)) => if raster.wf() && raster.addressable() {
            Ok(raster)
        } else {
            Err(unfit_detail())
        },
        Ok(None) => Err(unfit_detail()),
        Err(text) => Err(text),
    }
}

/// Decodes a buffer of the given format. The image keeps the color model and the depth of the
/// source. A payload that the codec refuses, or one whose samples are no 8-bit or 16-bit
/// integers, is a decode error with the codec's text, or the library's, for its detail.
pub fn decode(bytes: &[u8], format: DetectedFormat) -> (r: Result<CanonicalImage, ConversionError>)
    ensures
        match decoding(bytes@, format) {
            Ok(raster) => r is Ok && r->Ok_0@ == raster,
            Err(text) => r matches Err(ConversionError::Decode { detail }) && detail@ == text,
        },
{
    match load(bytes, format) {
        Ok(image) => match CanonicalImage::from_dynamic(&image) {
            Some(canonical) => Ok(canonical),
            None => Err(
                ConversionError::Decode {
                    detail: String::from_str(
                        "The decoded image has no 8-bit or 16-bit samples, or a buffer that does not fit its size",
                    ),
                },
            ),
        },
        Err(text) => Err(ConversionError::Decode { detail: text }),
    }
}

} // verus!
