//! The capture source, without its device.
//!
//! A capture device is driven by three calls in a fixed order: it is opened,
//! it is configured and started once, and from then on frames are read from
//! it one at a time. The calls themselves are made by the caller, on a handle
//! that one capture path owns exclusively. This module keeps what must be
//! decided around them: which call is due, what a failure of that call is
//! called, and the dimensions that a captured frame carries.

use vstd::prelude::*;
use crate::error::{DeviceError, DeviceFailure};
use crate::frame::RawFrame;

verus! {

/// The device that frames are captured from.
pub const DEVICE_PATH: &'static str = "/dev/video0";

/// The four-character code of the packed luma/chroma format, `YUYV`.
pub const PIXEL_FORMAT: [u8; 4] = [0x59, 0x55, 0x59, 0x56];

/// Width of a captured frame, in pixels.
pub const FRAME_WIDTH: u32 = 640;

/// Height of a captured frame, in pixels.
pub const FRAME_HEIGHT: u32 = 480;

/// Frames per second that the device is asked for.
pub const FRAME_RATE: u32 = 30;

/// The device call that is due.
#[derive(Debug, Clone, Copy, PartialEq, Eq, Structural)]
pub enum Stage {
    /// The device is not open yet.
    Open,
    /// The device is open and has to be configured and started.
    Start,
    /// The device is streaming: a frame can be read.
    Capture,
}

/// The stage that follows `stage` when its call succeeds. Once the device
/// streams it keeps streaming: it is never started a second time.
pub open spec fn next_stage(stage: Stage) -> Stage {
    match stage {
        Stage::Open => Stage::Start,
        Stage::Start => Stage::Capture,
        Stage::Capture => Stage::Capture,
    }
}

/// The stage reached from `stage` after `successes` successful calls.
pub open spec fn stage_after(stage: Stage, successes: nat) -> Stage
    decreases successes,
{
    if successes == 0 {
        stage
    } else {
        next_stage(stage_after(stage, (successes - 1) as nat))
    }
}

/// The error that a failure at `stage` is reported as.
pub open spec fn failure_at(stage: Stage, message: Seq<char>) -> DeviceFailure {
    match stage {
        Stage::Open => DeviceFailure::OpenFailed(message),
        Stage::Start => DeviceFailure::StartFailed(message),
        Stage::Capture => DeviceFailure::CaptureFailed(message),
    }
}

/// The progress of one capture path through the device calls, and the
/// dimensions that the device is configured for.
#[derive(Debug)]
pub struct CaptureSession {
    stage: Stage,
    width: u32,
    height: u32,
}

impl CaptureSession {
    /// The call that is due.
    pub closed spec fn stage(&self) -> Stage {
        self.stage
    }

    /// Width of the frames of this session.
    pub closed spec fn width(&self) -> u32 {
        self.width
    }

    /// Height of the frames of this session.
    pub closed spec fn height(&self) -> u32 {
        self.height
    }

    /// A session for a device that is not open yet.
    pub fn new(width: u32, height: u32) -> (session: CaptureSession)
        ensures
            session.stage() == Stage::Open,
            session.width() == width,
            session.height() == height,
    {
        CaptureSession { stage: Stage::Open, width, height }
    }

    /// A session at the fixed resolution of 640 by 480.
    pub fn standard() -> (session: CaptureSession)
        ensures
            session.stage() == Stage::Open,
            session.width() == FRAME_WIDTH,
            session.height() == FRAME_HEIGHT,
    {
        CaptureSession::new(FRAME_WIDTH, FRAME_HEIGHT)
    }

    /// The call that is due.
    pub fn due(&self) -> (stage: Stage)
        ensures
            stage == self.stage(),
    {
        self.stage
    }

    /// The dimensions of the frames of this session, width first.
    pub fn resolution(&self) -> (size: (u32, u32))
        ensures
            size.0 == self.width(),
            size.1 == self.height(),
    {
        (self.width, self.height)
    }

    /// Records that the call that was due succeeded.
    pub fn advance(&mut self)
        ensures
            final(self).stage() == next_stage(old(self).stage()),
            final(self).width() == old(self).width(),
            final(self).height() == old(self).height(),
    {
        self.stage = match self.stage {
            Stage::Open => Stage::Start,
            Stage::Start => Stage::Capture,
            Stage::Capture => Stage::Capture,
        };
    }

    /// The error for a failure of the call that is due, with the device's
    /// message. The session stays where it is, so the same call is due again.
    pub fn failure(&self, message: String) -> (error: DeviceError)
        ensures
            error@ == failure_at(self.stage(), message@),
    {
        match self.stage {
            Stage::Open => DeviceError::OpenFailed(message),
            Stage::Start => DeviceError::StartFailed(message),
            Stage::Capture => DeviceError::CaptureFailed(message),
        }
    }

    /// The frame that the captured bytes make at this session's dimensions.
    pub fn frame(&self, data: Vec<u8>) -> (frame: RawFrame)
        ensures
            frame.width == self.width(),
            frame.height == self.height(),
            frame.data@ == data@,
    {
        RawFrame::new(self.width, self.height, data)
    }
}

/// From a closed device, the first success leads to the start, the second to
/// capturing, and every later one to capturing again: the device is started
/// exactly once.
pub proof fn lemma_started_once(successes: nat)
    ensures
        stage_after(Stage::Open, 0) == Stage::Open,
        stage_after(Stage::Open, 1) == Stage::Start,
        successes >= 2 ==> stage_after(Stage::Open, successes) == Stage::Capture,
    decreases successes,
{
    reveal_with_fuel(stage_after, 3);
    if successes > 2 {
        lemma_started_once((successes - 1) as nat);
    }
}

} // verus!
