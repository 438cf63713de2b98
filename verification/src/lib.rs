//! In-memory conversion of encoded images between container formats.
//!
//! A conversion detects the format of its input, decodes it into a canonical image, resolves the
//! name of the target format, adjusts the image to what the target can take, and encodes it.

pub mod codec;
pub mod convert;
pub mod decode;
pub mod detect;
pub mod encode;
pub mod error;
pub mod format;
pub mod normalize;
pub mod raster;

pub use convert::{convert, convert_from, convert_image_pure, render};
pub use decode::decode;
pub use detect::{detect, detect_image_format, detection_note};
pub use encode::encode;
pub use error::ConversionError;
pub use format::{resolve, DetectedFormat, TargetFormat};
pub use normalize::{normalize, try_normalize};
pub use raster::{CanonicalImage, ColorModel, Depth};
