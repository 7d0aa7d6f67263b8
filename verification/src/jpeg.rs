//! JPEG encoding of an RGB raster.
//!
//! The encoding itself is the work of the `image` crate and is not proved
//! here. What this module states of it is named by [`jpeg_stream`]: the bytes
//! that the encoder, at its default quality, writes for a raster.

use vstd::prelude::*;
use crate::error::{EncodeError, EncodeFailure};
use crate::frame::{EncodedImage, RgbRaster};

verus! {

/// The largest width or height that a JPEG frame header can hold.
pub const MAX_JPEG_SIDE: u32 = 65_535;

/// `image::ImageError`, the error of the encoder. Nothing is known of its
/// contents.
#[verifier::external_type_specification]
#[verifier::external_body]
pub struct ExImageError(image::ImageError);

/// The JPEG stream that `image::codecs::jpeg::JpegEncoder`, created by `new`
/// (quality 75), writes for a buffer of 8-bit RGB pixels of the given width
/// and height.
pub uninterp spec fn jpeg_stream(width: u32, height: u32, pixels: Seq<u8>) -> Seq<u8>;

/// Whether the encoder accepts a raster of this size.
pub open spec fn encodable(width: u32, height: u32) -> bool {
    width <= MAX_JPEG_SIDE && height <= MAX_JPEG_SIDE
}

/// Calls `image::codecs::jpeg::JpegEncoder::encode` with the colour type
/// `Rgb8`, on an encoder that `JpegEncoder::new` made over an empty vector.
///
/// Trusted: `encode` panics unless the buffer holds `width * height * 3`
/// bytes, which the precondition excludes. It fails exactly when the width or
/// the height does not fit the sixteen bits of the frame header, the vector
/// it writes to never failing; otherwise the vector holds the stream.
#[verifier::external_body]
fn encode_rgb8(pixels: &[u8], width: u32, height: u32) -> (result: Result<
    Vec<u8>,
    image::ImageError,
>)
    requires
        pixels@.len() == width * height * 3,
    ensures
        result is Ok <==> encodable(width, height),
        result matches Ok(bytes) ==> bytes@ == jpeg_stream(width, height, pixels@),
{
    let mut out: Vec<u8> = Vec::new();
    let mut encoder = image::codecs::jpeg::JpegEncoder::new(&mut out);
    match encoder.encode(pixels, width, height, image::ColorType::Rgb8) {
        Ok(()) => Ok(out),
        Err(e) => Err(e),
    }
}

/// Formats an `image::ImageError` through its `Display` impl. Trusted, with
/// nothing claimed of the text.
#[verifier::external_body]
fn error_text(error: &image::ImageError) -> (text: String) {
    format!("{}", error)
}

/// Turns the encoder's answer for a raster of the given size into the
/// pipeline's own types: the stream becomes an image of that size, and a
/// refusal keeps the encoder's text.
pub fn finish_encoding(width: u32, height: u32, answer: Result<Vec<u8>, String>) -> (result: Result<
    EncodedImage,
    EncodeError,
>)
    ensures
        match answer {
            Ok(bytes) => result matches Ok(image) && image.width == width && image.height
                == height && image.bytes@ == bytes@,
            Err(text) => result matches Err(e) && e@ == EncodeFailure::Rejected(text@),
        },
{
    match answer {
        Ok(bytes) => Ok(EncodedImage { width, height, bytes }),
        Err(text) => Err(EncodeError::Rejected(text)),
    }
}

/// Encodes a raster as a complete JPEG stream.
///
/// A raster whose buffer does not hold three bytes for each pixel is refused
/// before the encoder sees it. A well-formed raster is encoded unless a side
/// exceeds what a JPEG header can hold.
pub fn encode_jpeg(raster: &RgbRaster) -> (result: Result<EncodedImage, EncodeError>)
    ensures
        result is Ok <==> raster.well_formed() && encodable(raster.width, raster.height),
        result matches Ok(image) ==> {
            &&& image.width == raster.width
            &&& image.height == raster.height
            &&& image.bytes@ == jpeg_stream(raster.width, raster.height, raster.pixels@)
        },
        result matches Err(e) ==> (e@ == EncodeFailure::MalformedRaster <==> !raster.well_formed()),
{
    if !raster.is_well_formed() {
        return Err(EncodeError::MalformedRaster);
    }
    let answer = match encode_rgb8(raster.pixels.as_slice(), raster.width, raster.height) {
        Ok(bytes) => Ok(bytes),
        Err(error) => Err(error_text(&error)),
    };
    finish_encoding(raster.width, raster.height, answer)
}

} // verus!
