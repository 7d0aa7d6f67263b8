//! What a request is answered with.
//!
//! The transport is not this library's business; which answer a request gets
//! is. A capture request is answered with a page that shows the image, or
//! with a capture failure. An image request is answered with the stream as it
//! is cached, or, while no capture has succeeded, with "not available", which
//! is never mistaken for a failure and never filled with a default image.

use vstd::prelude::*;
use crate::error::CoreError;
use crate::frame::EncodedImage;

verus! {

/// Content type of an image answer.
pub const IMAGE_CONTENT_TYPE: &'static str = "image/jpeg";

/// The page that a successful capture is answered with.
pub const CAPTURE_PAGE: &'static str = "<html><body><img src=\"/image\"></body></html>";

/// The answer to a request.
#[derive(Debug)]
pub enum Reply {
    /// The page that refers to the image.
    Page,
    /// The JPEG stream, to be sent as it is.
    Image(Vec<u8>),
    /// No capture has succeeded yet.
    NotAvailable,
    /// The capture that the request caused failed.
    CaptureFailed,
}

/// The answer to a request, as mathematics.
pub enum ReplyModel {
    Page,
    Image(Seq<u8>),
    NotAvailable,
    CaptureFailed,
}

impl View for Reply {
    type V = ReplyModel;

    open spec fn view(&self) -> ReplyModel {
        match self {
            Reply::Page => ReplyModel::Page,
            Reply::Image(bytes) => ReplyModel::Image(bytes@),
            Reply::NotAvailable => ReplyModel::NotAvailable,
            Reply::CaptureFailed => ReplyModel::CaptureFailed,
        }
    }
}

/// The status code that goes with an answer.
pub open spec fn status_of(reply: ReplyModel) -> u16 {
    match reply {
        ReplyModel::Page => 200,
        ReplyModel::Image(_) => 200,
        ReplyModel::NotAvailable => 404,
        ReplyModel::CaptureFailed => 500,
    }
}

impl Reply {
    /// The status code that goes with the answer.
    pub fn status(&self) -> (code: u16)
        ensures
            code == status_of(self@),
    {
        match self {
            Reply::Page => 200,
            Reply::Image(_) => 200,
            Reply::NotAvailable => 404,
            Reply::CaptureFailed => 500,
        }
    }
}

/// The answer to a capture request, from the outcome of the capture.
pub fn capture_reply(outcome: &Result<EncodedImage, CoreError>) -> (reply: Reply)
    ensures
        outcome is Ok ==> reply@ == ReplyModel::Page,
        outcome is Err ==> reply@ == ReplyModel::CaptureFailed,
{
    match outcome {
        Ok(_) => Reply::Page,
        Err(_) => Reply::CaptureFailed,
    }
}

/// The answer to an image request, from what the cache gave.
pub fn image_reply(latest: Option<EncodedImage>) -> (reply: Reply)
    ensures
        match latest {
            Some(image) => reply@ == ReplyModel::Image(image.bytes@),
            None => reply@ == ReplyModel::NotAvailable,
        },
{
    match latest {
        Some(image) => Reply::Image(image.bytes),
        None => Reply::NotAvailable,
    }
}

} // verus!
