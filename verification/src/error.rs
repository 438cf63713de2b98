//! The one error type of a conversion.

use vstd::prelude::*;
use vstd::string::StringExecFns;

verus! {

/// Why a conversion failed, by the stage that failed.
#[derive(Clone, Debug, PartialEq, Eq)]
pub enum ConversionError {
    /// The input starts with no signature of a source format.
    Detection,
    /// The signature was recognized, but the payload could not be decoded.
    Decode { detail: String },
    /// The requested target is no name of a target format. `name` is the request in lower case.
    UnsupportedFormat { name: String },
    /// The image could not be written in the target format.
    Encode { detail: String },
}

impl ConversionError {
    /// The message of the error: what failed, then the detail.
    pub open spec fn text(self) -> Seq<char> {
        match self {
            ConversionError::Detection => "Failed to detect format: The image format could not be determined"@,
            ConversionError::Decode { detail } => "Failed to decode image: "@ + detail@,
            ConversionError::UnsupportedFormat { name } => "Unsupported output format requested: "@
                + name@,
            ConversionError::Encode { detail } => "Failed to write output: "@ + detail@,
        }
    }

    /// The message of the error, for a human reader.
    pub fn message(&self) -> (r: String)
        ensures
            r@ == self.text(),
    {
        match self {
            ConversionError::Detection => String::from_str(
                "Failed to detect format: The image format could not be determined",
            ),
            ConversionError::Decode { detail } => String::from_str("Failed to decode image: ").concat(
                detail.as_str(),
            ),
            ConversionError::UnsupportedFormat { name } => String::from_str(
                "Unsupported output format requested: ",
            ).concat(name.as_str()),
            ConversionError::Encode { detail } => String::from_str("Failed to write output: ").concat(
                detail.as_str(),
            ),
        }
    }
}

} // verus!
