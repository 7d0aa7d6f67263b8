//! The producer: what happens to a capture between the device and the cache.
//!
//! A capture attempt ends with a frame or with a device error. A frame is
//! converted and encoded; the image is written to the cache. Two disciplines
//! use this, and a deployment picks one of them:
//!
//! - on demand ([`trigger_capture`]): a request causes one capture, and its
//!   outcome, image or error, goes back to the request;
//! - continuous ([`refresh`], [`get_latest`]): a background loop captures at
//!   a fixed period whatever happens, and requests only read the cache.
//!
//! In both, a failed attempt leaves the cache as it was.

use vstd::prelude::*;
use crate::cache::{content_after_write, FrameCache};
use crate::error::{
    CoreError, CoreFailure, DeviceError, DeviceFailure, EncodeFailure, FormatError,
};
use crate::frame::{EncodedImage, ImageData, RawFrame};
use crate::jpeg::{encodable, encode_jpeg, jpeg_stream};
use crate::yuyv::rgb_bytes;

verus! {

/// Pause between two captures of the continuous loop, in milliseconds.
pub const CAPTURE_PERIOD_MS: u64 = 100;

/// Whether the raster of a frame of this size can be addressed.
pub open spec fn raster_fits(width: u32, height: u32) -> bool {
    width * height * 3 <= usize::MAX
}

/// Whether a capture attempt can be processed on this machine: the raster of
/// a well-formed frame has to be addressable.
pub open spec fn processable(captured: Result<RawFrame, DeviceError>) -> bool {
    captured matches Ok(frame) ==> (frame.well_formed() ==> raster_fits(frame.width, frame.height))
}

/// Whether a capture attempt ends with an image: the device delivered a
/// frame, the frame fits its dimensions, and no side is too long for a JPEG
/// header.
pub open spec fn succeeds(captured: Result<RawFrame, DeviceError>) -> bool {
    captured matches Ok(frame) && frame.well_formed() && encodable(frame.width, frame.height)
}

/// The image that a frame is encoded to: the JPEG stream of its raster, at
/// the frame's dimensions.
pub open spec fn image_of(frame: RawFrame) -> ImageData {
    ImageData {
        width: frame.width as nat,
        height: frame.height as nat,
        bytes: jpeg_stream(
            frame.width,
            frame.height,
            rgb_bytes(frame.data@, frame.width, frame.height),
        ),
    }
}

/// Whether `failure` is the error of a capture attempt that ends without an
/// image. A device error is passed on as it came. A frame that does not fit
/// its dimensions is a format error. A well-formed frame with a side too long
/// for a JPEG header is refused by the encoder, in the encoder's words.
pub open spec fn is_failure_of(
    failure: CoreFailure,
    captured: Result<RawFrame, DeviceError>,
) -> bool {
    match captured {
        Err(error) => failure == CoreFailure::Device(error@),
        Ok(frame) => if !frame.well_formed() {
            failure == CoreFailure::Format(FormatError::MalformedFrame)
        } else {
            failure matches CoreFailure::Encode(EncodeFailure::Rejected(_))
        },
    }
}

/// The outcome that a capture attempt leads to.
pub open spec fn is_outcome_of(
    outcome: Result<EncodedImage, CoreError>,
    captured: Result<RawFrame, DeviceError>,
) -> bool {
    if succeeds(captured) {
        outcome matches Ok(image) && image@ == image_of(captured->Ok_0)
    } else {
        outcome matches Err(error) && is_failure_of(error@, captured)
    }
}

/// Whether a raster of this size can be addressed.
pub fn fits_in_memory(width: u32, height: u32) -> (fits: bool)
    ensures
        fits == raster_fits(width, height),
{
    assert(width * height * 3 <= 0xffff_ffff * 0xffff_ffff * 3) by (nonlinear_arith)
        requires
            width <= 0xffff_ffff,
            height <= 0xffff_ffff,
    ;
    (width as u128) * (height as u128) * 3 <= usize::MAX as u128
}

/// Turns the end of a capture attempt into an encoded image or an error.
pub fn capture_image(captured: Result<RawFrame, DeviceError>) -> (outcome: Result<
    EncodedImage,
    CoreError,
>)
    requires
        processable(captured),
    ensures
        is_outcome_of(outcome, captured),
{
    let frame = match captured {
        Ok(frame) => frame,
        Err(error) => {
            return Err(CoreError::Device(error));
        },
    };
    let raster = match frame.convert() {
        Ok(raster) => raster,
        Err(error) => {
            return Err(CoreError::Format(error));
        },
    };
    match encode_jpeg(&raster) {
        Ok(image) => Ok(image),
        Err(error) => Err(CoreError::Encode(error)),
    }
}

/// Writes the image of a successful attempt to the cache and hands the
/// outcome on. A failed attempt leaves the cache as it was.
pub fn record_outcome(cache: &mut FrameCache, outcome: Result<EncodedImage, CoreError>) -> (result:
    Result<EncodedImage, CoreError>)
    ensures
        match outcome {
            Ok(image) => {
                &&& result matches Ok(returned) && returned@ == image@
                &&& final(cache)@ == content_after_write(old(cache)@, image@)
            },
            Err(error) => {
                &&& result matches Err(returned) && returned@ == error@
                &&& final(cache)@ == old(cache)@
            },
        },
{
    match outcome {
        Ok(image) => {
            cache.write(image.duplicate());
            Ok(image)
        },
        Err(error) => Err(error),
    }
}

/// On demand: processes the capture that a request caused, writes the image
/// to the cache and returns it. An error goes back to the request, and the
/// cache keeps what it held.
pub fn trigger_capture(cache: &mut FrameCache, captured: Result<RawFrame, DeviceError>) -> (result:
    Result<EncodedImage, CoreError>)
    requires
        processable(captured),
    ensures
        is_outcome_of(result, captured),
        match result {
            Ok(image) => final(cache)@ == content_after_write(old(cache)@, image@),
            Err(_) => final(cache)@ == old(cache)@,
        },
{
    let outcome = capture_image(captured);
    record_outcome(cache, outcome)
}

/// What one turn of the continuous loop decided.
#[derive(Debug)]
pub struct Turn {
    /// The error of this turn, to be logged; `None` if the cache was refilled.
    pub failure: Option<CoreError>,
    /// Milliseconds to wait before the next capture is attempted.
    pub pause_ms: u64,
}

/// Continuous: one turn of the loop. The image of a successful attempt
/// replaces the cache content. An error is handed out to be logged and the
/// cache keeps what it held. Either way the next attempt is due after one
/// period: no error ends the loop.
pub fn refresh(cache: &mut FrameCache, captured: Result<RawFrame, DeviceError>) -> (turn: Turn)
    requires
        processable(captured),
    ensures
        turn.pause_ms == CAPTURE_PERIOD_MS,
        turn.failure is None <==> succeeds(captured),
        succeeds(captured) ==> final(cache)@ == content_after_write(
            old(cache)@,
            image_of(captured->Ok_0),
        ),
        turn.failure matches Some(error) ==> is_failure_of(error@, captured) && final(cache)@
            == old(cache)@,
{
    match capture_image(captured) {
        Ok(image) => {
            cache.write(image);
            Turn { failure: None, pause_ms: CAPTURE_PERIOD_MS }
        },
        Err(error) => Turn { failure: Some(error), pause_ms: CAPTURE_PERIOD_MS },
    }
}

/// Continuous: the latest image, or `None` while no capture has succeeded.
/// Reading never touches the device.
pub fn get_latest(cache: &FrameCache) -> (latest: Option<EncodedImage>)
    ensures
        match cache@ {
            None => latest is None,
            Some(content) => latest matches Some(image) && image@ == content,
        },
{
    cache.read()
}

/// A failure to open the device surfaces as `OpenFailed`, with the device's
/// message, wrapped as a device error and as nothing else; the attempt does
/// not count as a success, so the cache is left alone.
pub proof fn lemma_open_failure_surfaces(
    captured: Result<RawFrame, DeviceError>,
    outcome: Result<EncodedImage, CoreError>,
    message: Seq<char>,
)
    requires
        captured matches Err(error) && error@ == DeviceFailure::OpenFailed(message),
        is_outcome_of(outcome, captured),
    ensures
        !succeeds(captured),
        outcome matches Err(error) && error@ == CoreFailure::Device(
            DeviceFailure::OpenFailed(message),
        ),
{
}

/// A frame that does not fit its dimensions never yields an image: the
/// outcome is the format error.
pub proof fn lemma_malformed_frame_is_an_error(
    frame: RawFrame,
    outcome: Result<EncodedImage, CoreError>,
)
    requires
        !frame.well_formed(),
        is_outcome_of(outcome, Ok(frame)),
    ensures
        outcome matches Err(error) && error@ == CoreFailure::Format(FormatError::MalformedFrame),
{
}

} // verus!
