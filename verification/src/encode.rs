//! The encoder: from the canonical image to a buffer in the target format.

use crate::codec::{encoded, write_image};
use crate::detect::signature;
use crate::error::ConversionError;
use crate::format::TargetFormat;
use crate::raster::CanonicalImage;
use vstd::prelude::*;

verus! {

/// Writes an image in the target format, at the format's default settings. The output of every
/// target but TGA starts with the signature of its container, so detection finds the target in
/// it.
pub fn encode(image: &CanonicalImage, target: TargetFormat) -> (r: Result<Vec<u8>, ConversionError>)
    ensures
        match encoded(image@, target) {
            Ok(bytes) => r is Ok && r->Ok_0@ == bytes,
            Err(text) => r matches Err(ConversionError::Encode { detail }) && detail@ == text,
        },
        r is Ok && !(target is Tga) ==> signature(r->Ok_0@) == Some(target.as_source()),
{
    let packed = image.to_dynamic();
    match write_image(&packed, target) {
        Ok(bytes) => Ok(bytes),
        Err(text) => Err(ConversionError::Encode { detail: text }),
    }
}

} // verus!
