use camera_core::error::DeviceError;
use camera_core::source::{CaptureSession, Stage, FRAME_HEIGHT, FRAME_RATE, FRAME_WIDTH};

#[test]
fn session_starts_with_the_device_closed() {
    let session = CaptureSession::new(320, 240);
    assert_eq!(session.due(), Stage::Open);
    assert_eq!(session.resolution(), (320, 240));
}

#[test]
fn standard_session_is_640_by_480_at_30() {
    let session = CaptureSession::standard();
    assert_eq!(session.resolution(), (640, 480));
    assert_eq!((FRAME_WIDTH, FRAME_HEIGHT, FRAME_RATE), (640, 480, 30));
}

#[test]
fn device_is_opened_then_started_once_then_read() {
    let mut session = CaptureSession::standard();
    session.advance();
    assert_eq!(session.due(), Stage::Start);
    session.advance();
    assert_eq!(session.due(), Stage::Capture);
    for _ in 0..5 {
        session.advance();
        assert_eq!(session.due(), Stage::Capture);
    }
    assert_eq!(session.resolution(), (640, 480));
}

#[test]
fn failure_is_named_after_the_call_that_failed() {
    let mut session = CaptureSession::standard();
    match session.failure(String::from("no such device")) {
        DeviceError::OpenFailed(text) => assert_eq!(text, "no such device"),
        other => panic!("unexpected {other:?}"),
    }
    session.advance();
    match session.failure(String::from("bad format")) {
        DeviceError::StartFailed(text) => assert_eq!(text, "bad format"),
        other => panic!("unexpected {other:?}"),
    }
    session.advance();
    match session.failure(String::from("timed out")) {
        DeviceError::CaptureFailed(text) => assert_eq!(text, "timed out"),
        other => panic!("unexpected {other:?}"),
    }
}

#[test]
fn failed_call_is_due_again() {
    let session = CaptureSession::standard();
    let _ = session.failure(String::from("busy"));
    assert_eq!(session.due(), Stage::Open);
    let error = session.failure(String::from("busy again"));
    assert_eq!(error.message(), "busy again");
}

#[test]
fn frame_carries_the_session_dimensions() {
    let session = CaptureSession::new(4, 2);
    let frame = session.frame(vec![1, 2, 3, 4, 5, 6, 7, 8, 9, 10, 11, 12, 13, 14, 15, 16]);
    assert_eq!((frame.width, frame.height), (4, 2));
    assert_eq!(frame.data.len(), 16);
    assert!(frame.is_well_formed());
    let short = session.frame(vec![0; 15]);
    assert!(!short.is_well_formed());
}

#[test]
fn device_error_gives_its_message() {
    let error = DeviceError::StartFailed(String::from("bad resolution"));
    assert_eq!(error.message(), "bad resolution");
    let error = DeviceError::OpenFailed(String::new());
    assert_eq!(error.message(), "");
}
