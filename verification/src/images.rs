//! Images that are decoded from the bytes of a file.
//!
//! PNG, TGA and farbfeld images are decoded; bytes in any other format are answered with the error
//! that the format is not supported. The decoders of `image` for the other formats are not built,
//! because what is said below of decoding is not true of them, or not known to be. On some bytes
//! those for JPEG and HDR panic where overflow is checked, and those for HDR and BMP (which ICO uses
//! too) give something else where a word has 32 bits; the one for PNM computes in floating point;
//! those for GIF, TIFF and WebP are unexamined. An image in such a format can be decoded by other
//! means and then handed to `AppResources::register_image`.
use crate::palette::{has_broken_palette, palette_is_broken};
use image::{DynamicImage, ImageFormat};
use vstd::prelude::*;

verus! {

#[verifier::external_type_specification]
#[verifier::external_body]
pub struct ExImageFormat(image::ImageFormat);

#[verifier::external_type_specification]
#[verifier::external_body]
pub struct ExImageError(image::ImageError);

#[verifier::external_type_specification]
#[verifier::external_body]
pub struct ExDynamicImage(image::DynamicImage);

/// The format that the bytes of an image are in.
pub enum ImageType {
    /// A format that the caller knows.
    Format(ImageFormat),
    /// Unknown: the first bytes of the image have to tell.
    GuessImageFormat,
}

/// Why an image could not be decoded.
pub enum DecodeError {
    /// What the decoder, or the guess at the format, complained about.
    Decoder(image::ImageError),
    /// A PNG with a palette that breaks off in the middle of a color, or with more bytes than
    /// `MAX_PNG_LEN`.
    BadPng,
}

/// The bytes that a PNG can have: with no more, its chunks can be numbered in 32 bits.
pub const MAX_PNG_LEN: u64 = 0x10_0000_0000;

/// A decoded image: its width, its height and four bytes (red, green, blue, alpha) per pixel.
pub struct RawImage {
    pub width: u32,
    pub height: u32,
    pub pixels: Vec<u8>,
}

impl View for RawImage {
    type V = (u32, u32, Seq<u8>);

    open spec fn view(&self) -> (u32, u32, Seq<u8>) {
        (self.width, self.height, self.pixels@)
    }
}

/// The format that `image::guess_format` reads off the first bytes of an image, if it knows them.
pub uninterp spec fn guessed_format(data: Seq<u8>) -> Option<ImageFormat>;

/// Whether `image::ImageFormat::eq` finds a format to be `image::ImageFormat::Png`.
pub uninterp spec fn is_png_format(format: ImageFormat) -> bool;

/// The image that `image::load_from_memory_with_format` decodes, if it can.
pub uninterp spec fn loaded_image(data: Seq<u8>, format: ImageFormat) -> Option<DynamicImage>;

/// The width, the height and the bytes of an image that `image::DynamicImage::into_rgba8` converts
/// to eight bits per channel.
pub uninterp spec fn rgba_pixels(image: DynamicImage) -> (u32, u32, Seq<u8>);

/// `image::guess_format`: succeeds exactly where the first bytes belong to a known format, and then
/// gives that format.
pub assume_specification[ image::guess_format ](buffer: &[u8]) -> (format: image::ImageResult<
    ImageFormat,
>)
    ensures
        match format {
            Ok(f) => guessed_format(buffer@) == Some(f),
            Err(_) => guessed_format(buffer@) is None,
        },
;

/// `image::ImageFormat::eq`: whether the format is `image::ImageFormat::Png`.
#[verifier::external_body]
fn is_png(format: &ImageFormat) -> (png: bool)
    ensures
        png == is_png_format(*format),
{
    *format == ImageFormat::Png
}

/// Whether bytes in a format are a PNG that is too long, or that has a broken palette.
pub open spec fn is_bad_png(data: Seq<u8>, format: ImageFormat) -> bool {
    is_png_format(format) && (data.len() > MAX_PNG_LEN || has_broken_palette(data))
}

/// `image::load_from_memory_with_format`, built with its decoders for PNG, TGA and farbfeld alone:
/// whether the bytes can be decoded, and to which image, depends on the bytes and the format alone.
/// The PNG decoder slices a palette color by color and panics where the last one is not whole; it
/// counts the numbered chunks of an animation, which take 16 bytes or more, in 32 bits without a
/// check. So neither such a palette nor so many bytes may be handed to it.
pub assume_specification[ image::load_from_memory_with_format ](
    buf: &[u8],
    format: ImageFormat,
) -> (loaded: image::ImageResult<DynamicImage>)
    requires
        !is_bad_png(buf@, format),
    ensures
        match loaded {
            Ok(image) => loaded_image(buf@, format) == Some(image),
            Err(_) => loaded_image(buf@, format) is None,
        },
;

/// `image::DynamicImage::into_rgba8`: an image with four bytes per pixel, whatever the image had;
/// channels of more than eight bits are narrowed. What comes out depends on the image alone.
#[verifier::external_body]
fn into_rgba8(image: DynamicImage) -> (raw: RawImage)
    ensures
        raw@ == rgba_pixels(image),
{
    let rgba = image.into_rgba8();
    RawImage { width: rgba.width(), height: rgba.height(), pixels: rgba.into_raw() }
}

/// What the bytes of an image in a format decode to.
pub open spec fn decoded_as(data: Seq<u8>, format: ImageFormat) -> Option<(u32, u32, Seq<u8>)> {
    if is_bad_png(data, format) {
        None
    } else {
        match loaded_image(data, format) {
            Some(image) => Some(rgba_pixels(image)),
            None => None,
        }
    }
}

/// What the bytes of an image decode to: in the given format, or in the one that they start with.
pub open spec fn decoded(data: Seq<u8>, image_type: ImageType) -> Option<(u32, u32, Seq<u8>)> {
    match image_type {
        ImageType::Format(format) => decoded_as(data, format),
        ImageType::GuessImageFormat => match guessed_format(data) {
            Some(format) => decoded_as(data, format),
            None => None,
        },
    }
}

/// Whether this is what is wrong with the bytes of an image in a format: that they are a bad PNG, and
/// else what the decoder of the format complained about.
pub open spec fn is_cause_as(data: &[u8], format: ImageFormat, cause: DecodeError) -> bool {
    if is_bad_png(data@, format) {
        cause is BadPng
    } else {
        cause matches DecodeError::Decoder(e) && call_ensures(
            image::load_from_memory_with_format,
            (data, format),
            Err(e),
        )
    }
}

/// Whether this is what is wrong with the bytes of an image: what guessing the format complained
/// about, where the format was to be guessed and is unknown, and else what is wrong with the bytes in
/// that format.
pub open spec fn is_cause(data: &[u8], image_type: ImageType, cause: DecodeError) -> bool {
    match image_type {
        ImageType::Format(format) => is_cause_as(data, format, cause),
        ImageType::GuessImageFormat => match guessed_format(data@) {
            Some(format) => is_cause_as(data, format, cause),
            None => cause matches DecodeError::Decoder(e) && call_ensures(
                image::guess_format,
                (data,),
                Err(e),
            ),
        },
    }
}

/// Decodes an image.
pub fn decode(data: &[u8], image_type: ImageType) -> (image: Result<RawImage, DecodeError>)
    ensures
        match image {
            Ok(raw) => decoded(data@, image_type) == Some(raw@),
            Err(e) => decoded(data@, image_type) is None && is_cause(data, image_type, e),
        },
{
    let format = match image_type {
        ImageType::Format(format) => format,
        ImageType::GuessImageFormat => match image::guess_format(data) {
            Ok(format) => format,
            Err(e) => {
                return Err(DecodeError::Decoder(e));
            },
        },
    };
    if is_png(&format) && (data.len() as u64 > MAX_PNG_LEN || palette_is_broken(data)) {
        return Err(DecodeError::BadPng);
    }
    match image::load_from_memory_with_format(data, format) {
        Ok(image) => Ok(into_rgba8(image)),
        Err(e) => Err(DecodeError::Decoder(e)),
    }
}

/// Decoding gives what the decoder gives for these bytes in that format, and nothing only where the
/// decoder gives nothing, or where the bytes are a PNG that it cannot be handed: one with a broken
/// palette, or one of more than 64 GiB. Where the format is guessed, it is that of the guess.
pub proof fn law_decoding_gives_what_the_decoder_gives(data: Seq<u8>, format: ImageFormat)
    ensures
        ({
            let refused = is_png_format(format) && (data.len() > 0x10_0000_0000
                || has_broken_palette(data));
            &&& refused ==> decoded(data, ImageType::Format(format)) is None
            &&& !refused ==> match loaded_image(data, format) {
                Some(image) => decoded(data, ImageType::Format(format)) == Some(rgba_pixels(image)),
                None => decoded(data, ImageType::Format(format)) is None,
            }
        }),
        guessed_format(data) == Some(format) ==> decoded(data, ImageType::GuessImageFormat)
            == decoded(data, ImageType::Format(format)),
        guessed_format(data) is None ==> decoded(data, ImageType::GuessImageFormat) is None,
{
}

/// What is said to be wrong with an image is what came of the call that failed: of the guess, where
/// the format is not known, and otherwise of the decoder. A PNG that the decoder cannot be handed is
/// called that, and nothing else is.
pub proof fn law_an_error_tells_what_is_wrong(
    data: &[u8],
    format: ImageFormat,
    e: image::ImageError,
    cause: DecodeError,
)
    ensures
        ({
            let refused = is_png_format(format) && (data@.len() > 0x10_0000_0000
                || has_broken_palette(data@));
            &&& is_cause(data, ImageType::Format(format), DecodeError::BadPng) == refused
            &&& is_cause(data, ImageType::Format(format), DecodeError::Decoder(e)) == (!refused
                && call_ensures(image::load_from_memory_with_format, (data, format), Err(e)))
        }),
        guessed_format(data@) == Some(format) ==> is_cause(data, ImageType::GuessImageFormat, cause)
            == is_cause(data, ImageType::Format(format), cause),
        guessed_format(data@) is None ==> !is_cause(
            data,
            ImageType::GuessImageFormat,
            DecodeError::BadPng,
        ) && is_cause(data, ImageType::GuessImageFormat, DecodeError::Decoder(e)) == call_ensures(
            image::guess_format,
            (data,),
            Err(e),
        ),
{
}

} // verus!
