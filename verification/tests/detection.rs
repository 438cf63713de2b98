use image_converter::detect::{detect, detect_image_format, detection_note};
use image_converter::encode::encode;
use image_converter::error::ConversionError;
use image_converter::format::{DetectedFormat, TargetFormat};
use image_converter::raster::{CanonicalImage, ColorModel};

fn sample_image() -> CanonicalImage {
    let samples = vec![10, 20, 30, 40, 50, 60, 70, 80, 90, 100, 110, 120];
    CanonicalImage::from_samples8(2, 2, ColorModel::Rgb, samples).unwrap()
}

#[test]
fn guess_fail_invalid_byte() {
    let invalid_data = b"This is not an image!";
    let result = detect_image_format(invalid_data);
    assert!(result.is_err());
}

#[test]
fn plain_text_is_not_detected() {
    let result = detect(b"This is not an image!");
    assert_eq!(result, Err(ConversionError::Detection));
}

#[test]
fn pdf_document_is_not_detected() {
    let pdf = b"%PDF-1.4\n1 0 obj\n<< /Type /Catalog /Pages 2 0 R >>\nendobj\ntrailer\n<< /Root 1 0 R >>\n%%EOF\n";
    assert_eq!(detect(pdf), Err(ConversionError::Detection));
    assert!(detect_image_format(pdf).is_err());
}

#[test]
fn empty_input_is_not_detected() {
    assert_eq!(detect(b""), Err(ConversionError::Detection));
}

#[test]
fn detection_failure_message() {
    let message = detect_image_format(b"This is not an image!").unwrap_err();
    assert_eq!(message, "Failed to detect format: The image format could not be determined");
}

#[test]
fn signatures_are_detected() {
    assert_eq!(detect(b"\x89PNG\r\n\x1a\n"), Ok(DetectedFormat::Png));
    assert_eq!(detect(&[0xff, 0xd8, 0xff, 0xe0]), Ok(DetectedFormat::Jpeg));
    assert_eq!(detect(b"GIF89a"), Ok(DetectedFormat::Gif));
    assert_eq!(detect(b"GIF87a"), Ok(DetectedFormat::Gif));
    assert_eq!(detect(b"RIFF\x10\x00\x00\x00WEBPVP8 "), Ok(DetectedFormat::WebP));
    assert_eq!(detect(b"BM\x00\x00"), Ok(DetectedFormat::Bmp));
    assert_eq!(detect(&[0, 0, 1, 0, 1, 0]), Ok(DetectedFormat::Ico));
    assert_eq!(detect(b"MM\x00*"), Ok(DetectedFormat::Tiff));
    assert_eq!(detect(b"II*\x00"), Ok(DetectedFormat::Tiff));
    assert_eq!(detect(b"farbfeld\x00\x00\x00\x01"), Ok(DetectedFormat::Farbfeld));
}

#[test]
fn webp_signature_skips_the_size_field() {
    assert_eq!(detect(b"RIFF\x00\x00\x00\x00WEBP"), Ok(DetectedFormat::WebP));
    assert_eq!(detect(b"RIFF\xff\xfe\xfd\xfcWEBPVP8L"), Ok(DetectedFormat::WebP));
    assert_eq!(detect(b"RIFF\x24\x00\x00\x00WAVEfmt "), Err(ConversionError::Detection));
    assert_eq!(detect(b"RIFF\x00\x00\x00\x00WEB"), Err(ConversionError::Detection));
    assert_eq!(detect(b"RIFF"), Err(ConversionError::Detection));
}

#[test]
fn incomplete_signatures_are_not_detected() {
    assert_eq!(detect(b"\x89PNG\r\n\x1a"), Err(ConversionError::Detection));
    assert_eq!(detect(&[0xff, 0xd8]), Err(ConversionError::Detection));
    assert_eq!(detect(&[0xff, 0xd8, 0xfe]), Err(ConversionError::Detection));
    assert_eq!(detect(b"GIF88a"), Err(ConversionError::Detection));
    assert_eq!(detect(b"GIF89"), Err(ConversionError::Detection));
    assert_eq!(detect(b"MM*\x00"), Err(ConversionError::Detection));
    assert_eq!(detect(b"II\x00*"), Err(ConversionError::Detection));
    assert_eq!(detect(b"B"), Err(ConversionError::Detection));
    assert_eq!(detect(&[0, 0, 1]), Err(ConversionError::Detection));
    assert_eq!(detect(&[0, 0, 2, 0]), Err(ConversionError::Detection));
    assert_eq!(detect(b"farbfel"), Err(ConversionError::Detection));
    assert_eq!(detect(b"Farbfeld"), Err(ConversionError::Detection));
}

#[test]
fn signature_counts_wherever_the_rest_leads() {
    assert_eq!(detect(b"BMW is no image"), Ok(DetectedFormat::Bmp));
    assert_eq!(detect(b"II*\x00 and then nothing"), Ok(DetectedFormat::Tiff));
    assert_eq!(detect(&[0, 0, 1, 0, b'f', b't', b'y', b'p', b'a', b'v', b'i', b'f']), Ok(DetectedFormat::Ico));
}

#[test]
fn detection_ignores_what_follows_the_first_twelve_bytes() {
    let mut first = b"RIFF\x00\x00\x00\x00WEBP".to_vec();
    let mut second = first.clone();
    first.extend_from_slice(b"VP8 and more");
    second.extend_from_slice(&[0; 40]);
    assert_eq!(detect(&first), detect(&second));
    let mut first = b"not an image".to_vec();
    let mut second = first.clone();
    first.extend_from_slice(b"\x89PNG\r\n\x1a\n");
    second.extend_from_slice(b"farbfeld");
    assert_eq!(detect(&first), Err(ConversionError::Detection));
    assert_eq!(detect(&second), Err(ConversionError::Detection));
}

#[test]
fn foreign_image_signatures_are_not_detected() {
    assert_eq!(detect(b"qoif\x00\x00\x00\x01"), Err(ConversionError::Detection));
    assert_eq!(detect(b"#?RADIANCE\n"), Err(ConversionError::Detection));
    assert_eq!(detect(b"DDS \x7c\x00\x00\x00"), Err(ConversionError::Detection));
    assert_eq!(detect(b"\x00\x00\x00\x1cftypavif"), Err(ConversionError::Detection));
    assert_eq!(detect(&[0x76, 0x2f, 0x31, 0x01, 2, 0, 0, 0]), Err(ConversionError::Detection));
}

#[test]
fn encoded_png_is_detected() {
    let png = encode(&sample_image(), TargetFormat::Png).unwrap();
    assert_eq!(detect_image_format(&png), Ok(DetectedFormat::Png));
}

#[test]
fn encoded_jpeg_is_detected() {
    let jpeg = encode(&sample_image(), TargetFormat::Jpeg).unwrap();
    assert_eq!(detect_image_format(&jpeg), Ok(DetectedFormat::Jpeg));
}

#[test]
fn encoded_tga_is_never_detected() {
    let tga = encode(&sample_image(), TargetFormat::Tga).unwrap();
    assert_ne!(detect(&tga), Ok(DetectedFormat::Tga));
}

#[test]
fn detection_note_names_the_format() {
    let png = encode(&sample_image(), TargetFormat::Png).unwrap();
    assert_eq!(detection_note(&png), Some("Detected input image format: Png".to_string()));
    assert_eq!(detection_note(b"This is not an image!"), None);
    assert_eq!(DetectedFormat::WebP.as_str(), "WebP");
    assert_eq!(DetectedFormat::Farbfeld.as_str(), "Farbfeld");
}
