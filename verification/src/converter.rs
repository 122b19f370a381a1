//! The conversion engine: decodes an image held in memory and encodes it
//! again in the format asked for.

use crate::codec::{
    codec_encoding, codec_format, decode, decoded_size, encode, encode_avif, encode_jpeg,
    error_text, format_of_extension, image_height, image_width, jpeg_encoding,
};
use crate::error::ConversionError;
use crate::format::{
    canonical_extension, lemma_canonical_extension_parses, lemma_extension_names, parse_extension,
    SupportedFormat,
};
use crate::path::{
    extension_of, file_extension, lemma_output_name_extension, output_name, stem_of,
};
use image::{DynamicImage, ImageError, ImageFormat};
use vstd::prelude::*;
use vstd::string::StringExecFns;

verus! {

/// The highest quality that an encoder can be asked for.
pub const MAX_QUALITY: u8 = 100;

/// The speed at which AVIF images are encoded, on the encoder's scale from 1
/// (slowest) to 10: the one that the encoder itself defaults to.
pub const AVIF_SPEED: u8 = 4;

/// A quality brought into the range that the encoders know.
pub open spec fn clamp_quality(quality: u8) -> u8 {
    if quality > MAX_QUALITY {
        MAX_QUALITY
    } else {
        quality
    }
}

/// Clamping caps a quality at 100 and changes nothing below: every quality
/// from 100 up is taken alike, and 0 is a quality like any other.
pub proof fn lemma_clamp_quality(quality: u8)
    ensures
        clamp_quality(quality) <= MAX_QUALITY,
        quality <= MAX_QUALITY ==> clamp_quality(quality) == quality,
        quality >= MAX_QUALITY ==> clamp_quality(quality) == clamp_quality(MAX_QUALITY),
        clamp_quality(clamp_quality(quality)) == clamp_quality(quality),
{
}

/// An encoder together with the settings it is run with.
#[derive(Debug, Clone, Copy, PartialEq, Eq, Structural)]
pub enum Encoder {
    /// Lossy; takes a quality, which it raises to 1 where it is 0.
    Jpeg { quality: u8 },
    /// Lossless.
    Png,
    /// Lossless.
    WebP,
    /// Lossy; takes a speed and a quality, both at least 1.
    Avif { speed: u8, quality: u8 },
}

/// The encoder that writes `format` at the given quality. The lossy
/// encoders are handed the quality; the AVIF encoder does not take 0, so it
/// gets 1 in its place. The lossless ones have no use for it.
pub open spec fn encoder_for(format: SupportedFormat, quality: u8) -> Encoder {
    match format {
        SupportedFormat::Jpeg => Encoder::Jpeg { quality },
        SupportedFormat::Png => Encoder::Png,
        SupportedFormat::WebP => Encoder::WebP,
        SupportedFormat::Avif => Encoder::Avif {
            speed: AVIF_SPEED,
            quality: if quality == 0 {
                1
            } else {
                quality
            },
        },
    }
}

/// The name by which the codec library knows a format.
pub open spec fn codec_format_for(format: SupportedFormat) -> ImageFormat {
    match format {
        SupportedFormat::Jpeg => ImageFormat::Jpeg,
        SupportedFormat::Png => ImageFormat::Png,
        SupportedFormat::WebP => ImageFormat::WebP,
        SupportedFormat::Avif => ImageFormat::Avif,
    }
}

/// The encoding in which a file is read, told by the extension of its name.
/// A name without an extension tells none, nor does one whose extension the
/// codec library does not know.
pub open spec fn input_format(name: Seq<char>) -> Option<ImageFormat> {
    match extension_of(name) {
        Some(ext) => codec_format(ext),
        None => None,
    }
}

/// What is reported for a file whose name does not tell its encoding.
pub open spec fn undetermined_format_message(name: Seq<char>) -> Seq<char> {
    "Cannot determine the image format of "@ + name
}

/// The encoding in which a file is read, told by the extension of its name.
pub fn decoder_format(name: &str) -> (r: Option<ImageFormat>)
    ensures
        r == input_format(name@),
{
    match file_extension(name) {
        Some(ext) => format_of_extension(ext),
        None => None,
    }
}

/// The codec library knows every supported format, and by each extension
/// it understands the format that this crate understands by it.
pub proof fn lemma_codec_knows_supported_formats(ext: Seq<char>, format: SupportedFormat)
    requires
        parse_extension(ext) == Some(format),
    ensures
        codec_format(ext) == Some(codec_format_for(format)),
{
    lemma_extension_names();
    reveal_strlit("jfif");
    reveal_strlit("apng");
    reveal_strlit("gif");
}

/// A converted file is named for what it holds: the codec library reads the
/// extension of its name as the format it was converted to.
pub proof fn lemma_output_name_tells_format(name: Seq<char>, target: SupportedFormat)
    requires
        stem_of(name).len() > 0,
    ensures
        input_format(output_name(name, target)) == Some(codec_format_for(target)),
{
    lemma_output_name_extension(name, target);
    lemma_canonical_extension_parses(target);
    lemma_codec_knows_supported_formats(canonical_extension(target), target);
}

/// A decoded image with its dimensions in pixels, as they were read off it
/// when it was decoded.
#[derive(Debug)]
pub struct RasterImage {
    pub image: DynamicImage,
    pub width: u32,
    pub height: u32,
}

impl RasterImage {
    /// Whether the dimensions recorded are those of the image.
    pub open spec fn well_formed(self) -> bool {
        &&& self.width == image_width(self.image)
        &&& self.height == image_height(self.image)
    }

    /// A decoded image, with its dimensions read off it.
    pub fn new(image: DynamicImage) -> (r: RasterImage)
        ensures
            r.image == image,
            r.well_formed(),
    {
        let width = image.width();
        let height = image.height();
        RasterImage { image, width, height }
    }
}

/// Whether an image has no pixels.
pub open spec fn is_empty_image(image: DynamicImage) -> bool {
    image_width(image) == 0 || image_height(image) == 0
}

/// What is reported for an image without pixels that was to be written as
/// AVIF.
pub open spec fn empty_image_message() -> Seq<char> {
    "Cannot encode an image without pixels"@
}

/// What an encoder writes for an image, where that depends on the image and
/// the settings alone: the bytes, or `None` inside where the encoder rejects
/// the image. The AVIF encoder gives `None` outside: what it writes depends
/// on the machine as well.
pub open spec fn encoding_by(image: DynamicImage, encoder: Encoder) -> Option<Option<Seq<u8>>> {
    match encoder {
        Encoder::Jpeg { quality } => Some(jpeg_encoding(image, quality)),
        Encoder::Png => Some(codec_encoding(image, ImageFormat::Png)),
        Encoder::WebP => Some(codec_encoding(image, ImageFormat::WebP)),
        Encoder::Avif { .. } => None,
    }
}

/// Whether `outcome`, the bytes written or `None` for a failure, is what
/// the encoder gives for the image, as far as that is known.
pub open spec fn encoding_agrees(
    image: DynamicImage,
    encoder: Encoder,
    outcome: Option<Seq<u8>>,
) -> bool {
    match encoding_by(image, encoder) {
        Some(named) => named == outcome,
        None => true,
    }
}

/// What loading gives for the name and the contents of a file. It succeeds
/// exactly when the name tells an encoding and the contents decode in it,
/// and the raster then has the size of the decoded image. Every failure is
/// a decode error. The converter's quality plays no part.
pub open spec fn loaded(
    name: Seq<char>,
    bytes: Seq<u8>,
    r: Result<RasterImage, ConversionError>,
) -> bool {
    match r {
        Ok(raster) => {
            &&& raster.well_formed()
            &&& input_format(name) is Some
            &&& decoded_size(bytes, input_format(name).unwrap()) == Some(
                (raster.width, raster.height),
            )
        },
        Err(error) => {
            &&& error is Decode
            &&& match input_format(name) {
                Some(format) => decoded_size(bytes, format) is None,
                None => error.message_text() == undetermined_format_message(name),
            }
        },
    }
}

/// What saving gives for a raster, a format and a quality. The conversion
/// is labelled with the format and with the raster's dimensions, and holds
/// what the encoder for that format and quality writes; a failure is an
/// encode error, and it comes where that encoder rejects the image. An
/// image without pixels is never written as AVIF.
pub open spec fn saved(
    raster: RasterImage,
    format: SupportedFormat,
    quality: u8,
    r: Result<Conversion, ConversionError>,
) -> bool {
    let encoder = encoder_for(format, quality);
    let refused = format == SupportedFormat::Avif && is_empty_image(raster.image);
    match r {
        Ok(conversion) => {
            &&& conversion.format == format
            &&& conversion.width == raster.width
            &&& conversion.height == raster.height
            &&& encoding_agrees(raster.image, encoder, Some(conversion.bytes@))
            &&& !refused
        },
        Err(error) => {
            &&& error is Encode
            &&& encoding_agrees(raster.image, encoder, None)
            &&& refused ==> error.message_text() == empty_image_message()
        },
    }
}

/// What converting gives: the error of loading where loading fails, and
/// else what saving gives for the raster that was loaded.
pub open spec fn converted(
    name: Seq<char>,
    bytes: Seq<u8>,
    format: SupportedFormat,
    quality: u8,
    r: Result<Conversion, ConversionError>,
) -> bool {
    match r {
        Err(ConversionError::Decode(detail)) => loaded(
            name,
            bytes,
            Err(ConversionError::Decode(detail)),
        ),
        _ => exists|raster: RasterImage| #[trigger]
            loaded(name, bytes, Ok(raster)) && saved(raster, format, quality, r),
    }
}

/// A conversion that succeeds reports the size that the contents of the
/// file decode to, whatever the target format and the quality; one that
/// fails with a decode error is one whose input does not decode, and any
/// other failure is an encode error.
pub proof fn lemma_converted(
    name: Seq<char>,
    bytes: Seq<u8>,
    format: SupportedFormat,
    quality: u8,
    r: Result<Conversion, ConversionError>,
)
    requires
        converted(name, bytes, format, quality, r),
    ensures
        match r {
            Ok(conversion) => {
                &&& conversion.format == format
                &&& input_format(name) is Some
                &&& decoded_size(bytes, input_format(name).unwrap()) == Some(
                    (conversion.width, conversion.height),
                )
            },
            Err(error) => {
                &&& error is Decode || error is Encode
                &&& error is Decode <==> (input_format(name) matches Some(f) ==> decoded_size(
                    bytes,
                    f,
                ) is None)
                &&& input_format(name) is None ==> error.message_text()
                    == undetermined_format_message(name)
            },
        },
{
}

/// Decoding takes no account of the target format nor of the quality: two
/// conversions of one file either both fail to decode it or both get past
/// decoding, and those that succeed report the same size.
pub proof fn lemma_decoding_ignores_target(
    name: Seq<char>,
    bytes: Seq<u8>,
    first: (SupportedFormat, u8, Result<Conversion, ConversionError>),
    second: (SupportedFormat, u8, Result<Conversion, ConversionError>),
)
    requires
        converted(name, bytes, first.0, first.1, first.2),
        converted(name, bytes, second.0, second.1, second.2),
    ensures
        (first.2 matches Err(e) && e is Decode) <==> (second.2 matches Err(e) && e is Decode),
        first.2 matches Ok(a) ==> (second.2 matches Ok(b) ==> a.width == b.width && a.height
            == b.height),
{
    lemma_converted(name, bytes, first.0, first.1, first.2);
    lemma_converted(name, bytes, second.0, second.1, second.2);
}

/// What a conversion yields: the encoded image, the format it is in, and the
/// dimensions of the decoded image that was encoded.
#[derive(Debug, Clone, PartialEq, Eq)]
pub struct Conversion {
    pub width: u32,
    pub height: u32,
    pub format: SupportedFormat,
    pub bytes: Vec<u8>,
}

/// Converts images at a fixed quality.
#[derive(Debug, Clone, Copy, PartialEq, Eq)]
pub struct ImageConverter {
    quality: u8,
}

impl ImageConverter {
    #[verifier::type_invariant]
    spec fn well_formed(self) -> bool {
        self.quality <= MAX_QUALITY
    }

    /// The quality that this converter encodes at.
    pub closed spec fn quality_setting(self) -> u8 {
        self.quality
    }

    /// A converter that encodes at `quality`. A quality above 100 is taken
    /// as 100.
    pub fn new(quality: u8) -> (r: ImageConverter)
        ensures
            r.quality_setting() == clamp_quality(quality),
    {
        ImageConverter { quality: if quality > MAX_QUALITY { MAX_QUALITY } else { quality } }
    }

    /// The quality that this converter encodes at, at most 100.
    pub fn quality(&self) -> (r: u8)
        ensures
            r == self.quality_setting(),
            r <= MAX_QUALITY,
    {
        proof {
            use_type_invariant(self);
        }
        self.quality
    }

    /// The encoder that this converter writes `format` with.
    pub fn encoder(&self, format: SupportedFormat) -> (r: Encoder)
        ensures
            r == encoder_for(format, self.quality_setting()),
    {
        match format {
            SupportedFormat::Jpeg => Encoder::Jpeg { quality: self.quality },
            SupportedFormat::Png => Encoder::Png,
            SupportedFormat::WebP => Encoder::WebP,
            SupportedFormat::Avif => Encoder::Avif {
                speed: AVIF_SPEED,
                quality: if self.quality == 0 {
                    1
                } else {
                    self.quality
                },
            },
        }
    }

    /// Decodes the contents of a file. The decoder is chosen by the
    /// extension of the file's name, whatever format the image is to be
    /// converted to. Every failure is a decode error; where the name does
    /// not tell the encoding, nothing is decoded and the error says so.
    pub fn load_image(&self, name: &str, bytes: &[u8]) -> (r: Result<RasterImage, ConversionError>)
        ensures
            loaded(name@, bytes@, r),
    {
        match decoder_format(name) {
            Some(format) => decoded(decode(bytes, format)),
            None => Err(
                ConversionError::Decode(
                    String::from_str("Cannot determine the image format of ").concat(name),
                ),
            ),
        }
    }

    /// Encodes an image in `format`, with the encoder and the settings that
    /// `encoder_for` gives for this converter's quality. Every failure is an
    /// encode error. An image without pixels cannot be written as AVIF and
    /// is not handed to that encoder.
    pub fn save_image(&self, raster: &RasterImage, format: SupportedFormat) -> (r: Result<
        Conversion,
        ConversionError,
    >)
        ensures
            saved(*raster, format, self.quality_setting(), r),
    {
        let encoder = self.encoder(format);
        let empty = raster.image.width() == 0 || raster.image.height() == 0;
        match encoder {
            Encoder::Avif { .. } if empty => Err(
                ConversionError::Encode(String::from_str("Cannot encode an image without pixels")),
            ),
            _ => encoded(run_encoder(&raster.image, encoder), raster.width, raster.height, format),
        }
    }

    /// Converts the contents of a file to `target_format`: decodes them as
    /// the extension of the file's name says, and encodes the image again.
    /// Either step can fail, and its failure ends the conversion.
    pub fn convert(&self, input_name: &str, bytes: &[u8], target_format: SupportedFormat) -> (r:
        Result<Conversion, ConversionError>)
        ensures
            converted(input_name@, bytes@, target_format, self.quality_setting(), r),
    {
        match self.load_image(input_name, bytes) {
            Ok(raster) => {
                let r = self.save_image(&raster, target_format);
                assert(loaded(input_name@, bytes@, Ok(raster)) && saved(
                    raster,
                    target_format,
                    self.quality_setting(),
                    r,
                ));
                r
            },
            Err(error) => Err(error),
        }
    }
}

/// Runs an encoder on an image. Where what the encoder writes depends on
/// the image and the settings alone, the result is that.
fn run_encoder(image: &DynamicImage, encoder: Encoder) -> (r: Result<Vec<u8>, ImageError>)
    requires
        encoder matches Encoder::Avif { speed, quality } ==> speed >= 1 && quality >= 1
            && !is_empty_image(*image),
    ensures
        encoding_agrees(
            *image,
            encoder,
            match r {
                Ok(bytes) => Some(bytes@),
                Err(_) => None,
            },
        ),
{
    match encoder {
        Encoder::Jpeg { quality } => encode_jpeg(image, quality),
        Encoder::Png => encode(image, ImageFormat::Png),
        Encoder::WebP => encode(image, ImageFormat::WebP),
        Encoder::Avif { speed, quality } => encode_avif(image, speed, quality),
    }
}

/// The decode error that stands for a failure of the codec.
pub fn decode_failure(error: &ImageError) -> (r: ConversionError)
    ensures
        r is Decode,
{
    ConversionError::Decode(error_text(error))
}

/// The encode error that stands for a failure of the codec.
pub fn encode_failure(error: &ImageError) -> (r: ConversionError)
    ensures
        r is Encode,
{
    ConversionError::Encode(error_text(error))
}

/// What loading an image comes to, given what the decoder returned: the
/// image with its dimensions, or a decode error.
pub fn decoded(result: Result<DynamicImage, ImageError>) -> (r: Result<
    RasterImage,
    ConversionError,
>)
    ensures
        match result {
            Ok(image) => r matches Ok(raster) && raster.image == image && raster.well_formed(),
            Err(_) => r matches Err(e) && e is Decode,
        },
{
    match result {
        Ok(image) => Ok(RasterImage::new(image)),
        Err(error) => Err(decode_failure(&error)),
    }
}

/// What saving an image comes to, given what the encoder returned: the bytes
/// it wrote, labelled with the format and the dimensions of the image, or an
/// encode error.
pub fn encoded(
    result: Result<Vec<u8>, ImageError>,
    width: u32,
    height: u32,
    format: SupportedFormat,
) -> (r: Result<Conversion, ConversionError>)
    ensures
        match result {
            Ok(bytes) => r matches Ok(conversion) && conversion == (Conversion {
                width,
                height,
                format,
                bytes,
            }),
            Err(_) => r matches Err(e) && e is Encode,
        },
{
    match result {
        Ok(bytes) => Ok(Conversion { width, height, format, bytes }),
        Err(error) => Err(encode_failure(&error)),
    }
}

} // verus!
