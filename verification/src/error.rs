//! Error taxonomy of the capture pipeline.
//!
//! Device errors are fatal to one capture attempt and carry the device's own
//! message. A format error means that a frame does not fit the dimensions it
//! was captured at. An encode error means that a raster could not be encoded.
//! None of them is ever replaced by a default image.

use vstd::prelude::*;

verus! {

/// A raw frame whose byte length does not fit its declared dimensions.
#[derive(Debug, Clone, Copy, PartialEq, Eq, Structural)]
pub enum FormatError {
    /// The length is not a multiple of four, or differs from `width * height * 2`.
    MalformedFrame,
}

/// A failure of the capture device, with the message the device gave.
#[derive(Debug)]
pub enum DeviceError {
    /// The device could not be opened.
    OpenFailed(String),
    /// The device could not be configured and started.
    StartFailed(String),
    /// A frame could not be read.
    CaptureFailed(String),
}

/// A raster that could not be encoded.
#[derive(Debug)]
pub enum EncodeError {
    /// The raster's buffer does not hold three bytes for each pixel.
    MalformedRaster,
    /// The encoder refused the raster; the text is the encoder's own.
    Rejected(String),
}

/// Any failure of one capture attempt.
#[derive(Debug)]
pub enum CoreError {
    Device(DeviceError),
    Format(FormatError),
    Encode(EncodeError),
}

/// A device error as mathematics: the stage that failed and the message.
pub enum DeviceFailure {
    OpenFailed(Seq<char>),
    StartFailed(Seq<char>),
    CaptureFailed(Seq<char>),
}

/// An encode error as mathematics.
pub enum EncodeFailure {
    MalformedRaster,
    Rejected(Seq<char>),
}

/// A capture failure as mathematics.
pub enum CoreFailure {
    Device(DeviceFailure),
    Format(FormatError),
    Encode(EncodeFailure),
}

impl View for DeviceError {
    type V = DeviceFailure;

    open spec fn view(&self) -> DeviceFailure {
        match self {
            DeviceError::OpenFailed(m) => DeviceFailure::OpenFailed(m@),
            DeviceError::StartFailed(m) => DeviceFailure::StartFailed(m@),
            DeviceError::CaptureFailed(m) => DeviceFailure::CaptureFailed(m@),
        }
    }
}

impl View for EncodeError {
    type V = EncodeFailure;

    open spec fn view(&self) -> EncodeFailure {
        match self {
            EncodeError::MalformedRaster => EncodeFailure::MalformedRaster,
            EncodeError::Rejected(m) => EncodeFailure::Rejected(m@),
        }
    }
}

impl View for CoreError {
    type V = CoreFailure;

    open spec fn view(&self) -> CoreFailure {
        match self {
            CoreError::Device(e) => CoreFailure::Device(e@),
            CoreError::Format(e) => CoreFailure::Format(*e),
            CoreError::Encode(e) => CoreFailure::Encode(e@),
        }
    }
}

impl DeviceFailure {
    /// The message the device gave.
    pub open spec fn message(self) -> Seq<char> {
        match self {
            DeviceFailure::OpenFailed(m) => m,
            DeviceFailure::StartFailed(m) => m,
            DeviceFailure::CaptureFailed(m) => m,
        }
    }
}

impl DeviceError {
    /// The message the device gave.
    pub fn message(&self) -> (text: &String)
        ensures
            text@ == self@.message(),
    {
        match self {
            DeviceError::OpenFailed(m) => m,
            DeviceError::StartFailed(m) => m,
            DeviceError::CaptureFailed(m) => m,
        }
    }
}

} // verus!
