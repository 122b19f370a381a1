//! The codec library: the decoders and encoders that do the work on pixels.
//!
//! Nothing in this file is proved. Each item states what the crate relies on
//! from the codec library, and the verified code is checked against that
//! alone.

use crate::text::ascii_lowercase;
use image::codecs::avif::AvifEncoder;
use image::codecs::jpeg::JpegEncoder;
use image::{DynamicImage, ImageError, ImageFormat};
use vstd::prelude::*;

verus! {

/// A decoded image. Its pixels are never looked at here: a value is only
/// carried from a decoder to an encoder.
#[verifier::external_type_specification]
#[verifier::external_body]
pub struct ExDynamicImage(image::DynamicImage);

/// What a decoder or an encoder reports when it fails.
#[verifier::external_type_specification]
#[verifier::external_body]
pub struct ExImageError(image::ImageError);

/// An encoding that the codec library knows by name. It is declared with
/// its variants, so that verified code can name the encoding it asks for.
#[verifier::external_type_specification]
pub struct ExImageFormat(image::ImageFormat);

/// The width of an image in pixels.
pub uninterp spec fn image_width(image: DynamicImage) -> u32;

/// The height of an image in pixels.
pub uninterp spec fn image_height(image: DynamicImage) -> u32;

/// `DynamicImage::width`: it reads the width off the image.
pub assume_specification[ image::DynamicImage::width ](image: &image::DynamicImage) -> (r: u32)
    ensures
        r == image_width(*image),
;

/// `DynamicImage::height`: it reads the height off the image.
pub assume_specification[ image::DynamicImage::height ](image: &image::DynamicImage) -> (r: u32)
    ensures
        r == image_height(*image),
;

/// Whether the bytes of a file decode as `format`, and the width and height
/// of the image they decode to. The pixels are given no name: the JPEG
/// decoder picks its arithmetic by the vector units of the machine.
pub uninterp spec fn decoded_size(bytes: Seq<u8>, format: ImageFormat) -> Option<(u32, u32)>;

/// What the JPEG encoder writes for an image at a quality, or `None` where it
/// rejects the image.
pub uninterp spec fn jpeg_encoding(image: DynamicImage, quality: u8) -> Option<Seq<u8>>;

/// What the encoder that the codec library picks for `format` writes for an
/// image, or `None` where it rejects the image.
pub uninterp spec fn codec_encoding(image: DynamicImage, format: ImageFormat) -> Option<Seq<u8>>;

/// The encoding that a file extension names to the codec library, which
/// knows more encodings than this crate writes. The case of ASCII letters is
/// ignored.
pub open spec fn codec_format(ext: Seq<char>) -> Option<ImageFormat> {
    let lower = ascii_lowercase(ext);
    if lower == "avif"@ {
        Some(ImageFormat::Avif)
    } else if lower == "jpg"@ || lower == "jpeg"@ || lower == "jfif"@ {
        Some(ImageFormat::Jpeg)
    } else if lower == "png"@ || lower == "apng"@ {
        Some(ImageFormat::Png)
    } else if lower == "gif"@ {
        Some(ImageFormat::Gif)
    } else if lower == "webp"@ {
        Some(ImageFormat::WebP)
    } else if lower == "tif"@ || lower == "tiff"@ {
        Some(ImageFormat::Tiff)
    } else if lower == "tga"@ {
        Some(ImageFormat::Tga)
    } else if lower == "dds"@ {
        Some(ImageFormat::Dds)
    } else if lower == "bmp"@ {
        Some(ImageFormat::Bmp)
    } else if lower == "ico"@ {
        Some(ImageFormat::Ico)
    } else if lower == "hdr"@ {
        Some(ImageFormat::Hdr)
    } else if lower == "exr"@ {
        Some(ImageFormat::OpenExr)
    } else if lower == "pbm"@ || lower == "pam"@ || lower == "ppm"@ || lower == "pgm"@ || lower
        == "pnm"@ {
        Some(ImageFormat::Pnm)
    } else if lower == "ff"@ {
        Some(ImageFormat::Farbfeld)
    } else if lower == "qoi"@ {
        Some(ImageFormat::Qoi)
    } else {
        None
    }
}

/// `ImageFormat::from_extension`: it folds the ASCII capitals of the
/// extension to lowercase and looks the result up in a fixed table, the one
/// that `codec_format` spells out.
#[verifier::external_body]
pub(crate) fn format_of_extension(ext: &str) -> (r: Option<ImageFormat>)
    ensures
        r == codec_format(ext@),
{
    ImageFormat::from_extension(ext)
}

/// `image::load` on bytes held in memory, with the library's default limits.
/// Whether it succeeds, and the size of the image it returns, depend on the
/// bytes and the format alone.
#[verifier::external_body]
pub(crate) fn decode(bytes: &[u8], format: ImageFormat) -> (r: Result<DynamicImage, ImageError>)
    ensures
        match r {
            Ok(image) => decoded_size(bytes@, format) == Some(
                (image_width(image), image_height(image)),
            ),
            Err(_) => decoded_size(bytes@, format) is None,
        },
{
    image::load(std::io::Cursor::new(bytes), format)
}

/// `DynamicImage::write_to` into memory, with the encoder that the codec
/// library picks for `format`. Only PNG and WebP are admitted: for these
/// the encoder runs on one thread and what it writes depends on the image
/// alone, and an image that it cannot write is an error. With other formats
/// the call can panic.
#[verifier::external_body]
pub(crate) fn encode(image: &DynamicImage, format: ImageFormat) -> (r: Result<Vec<u8>, ImageError>)
    requires
        format == ImageFormat::Png || format == ImageFormat::WebP,
    ensures
        match r {
            Ok(bytes) => codec_encoding(*image, format) == Some(bytes@),
            Err(_) => codec_encoding(*image, format) is None,
        },
{
    let mut out = std::io::Cursor::new(Vec::new());
    image.write_to(&mut out, format)?;
    Ok(out.into_inner())
}

/// `DynamicImage::write_with_encoder` into memory, with the encoder that
/// `JpegEncoder::new_with_quality` makes. That encoder takes any quality and
/// brings it into the range from 1 to 100 itself; what it writes depends on
/// the image and the quality alone.
#[verifier::external_body]
pub(crate) fn encode_jpeg(image: &DynamicImage, quality: u8) -> (r: Result<Vec<u8>, ImageError>)
    ensures
        match r {
            Ok(bytes) => jpeg_encoding(*image, quality) == Some(bytes@),
            Err(_) => jpeg_encoding(*image, quality) is None,
        },
{
    let mut out = Vec::new();
    image.write_with_encoder(JpegEncoder::new_with_quality(&mut out, quality))?;
    Ok(out)
}

/// `DynamicImage::write_with_encoder` into memory, with the encoder that
/// `AvifEncoder::new_with_speed_quality` makes. That constructor caps both
/// settings from above but panics on a speed or a quality of 0, and the
/// encoder panics on an image without pixels; neither is admitted. Nothing
/// is claimed of the result: the encoder lays out its tiles by the number
/// of threads that the machine offers.
#[verifier::external_body]
pub(crate) fn encode_avif(image: &DynamicImage, speed: u8, quality: u8) -> Result<
    Vec<u8>,
    ImageError,
>
    requires
        speed >= 1,
        quality >= 1,
        image_width(*image) >= 1,
        image_height(*image) >= 1,
{
    let mut out = Vec::new();
    image.write_with_encoder(AvifEncoder::new_with_speed_quality(&mut out, speed, quality))?;
    Ok(out)
}

/// The text that `ImageError` displays. It is given no name: for a failure
/// of input or output it is worded by the operating system.
#[verifier::external_body]
pub(crate) fn error_text(error: &ImageError) -> String {
    error.to_string()
}

} // verus!
