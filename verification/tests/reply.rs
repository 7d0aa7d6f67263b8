use camera_core::error::{CoreError, DeviceError, FormatError};
use camera_core::frame::EncodedImage;
use camera_core::reply::{capture_reply, image_reply, Reply, CAPTURE_PAGE, IMAGE_CONTENT_TYPE};

#[test]
fn successful_capture_is_answered_with_the_page() {
    let outcome = Ok(EncodedImage { width: 2, height: 1, bytes: vec![0xff, 0xd8, 0xff, 0xd9] });
    let reply = capture_reply(&outcome);
    assert!(matches!(reply, Reply::Page));
    assert_eq!(reply.status(), 200);
    assert_eq!(CAPTURE_PAGE, "<html><body><img src=\"/image\"></body></html>");
}

#[test]
fn failed_capture_is_answered_with_a_failure() {
    for error in [
        CoreError::Device(DeviceError::OpenFailed(String::from("no such device"))),
        CoreError::Format(FormatError::MalformedFrame),
    ] {
        let reply = capture_reply(&Err(error));
        assert!(matches!(reply, Reply::CaptureFailed));
        assert_eq!(reply.status(), 500);
    }
}

#[test]
fn cached_image_is_answered_byte_for_byte() {
    let image = EncodedImage { width: 2, height: 1, bytes: vec![0xff, 0xd8, 1, 2, 3, 0xff, 0xd9] };
    let reply = image_reply(Some(image));
    assert_eq!(reply.status(), 200);
    match reply {
        Reply::Image(bytes) => assert_eq!(bytes, vec![0xff, 0xd8, 1, 2, 3, 0xff, 0xd9]),
        other => panic!("unexpected {other:?}"),
    }
    assert_eq!(IMAGE_CONTENT_TYPE, "image/jpeg");
}

#[test]
fn empty_cache_is_answered_with_not_available() {
    let reply = image_reply(None);
    assert!(matches!(reply, Reply::NotAvailable));
    assert_eq!(reply.status(), 404);
}

#[test]
fn not_available_is_not_a_failure() {
    let missing = image_reply(None).status();
    let failed = capture_reply(&Err(CoreError::Format(FormatError::MalformedFrame))).status();
    assert_ne!(missing, failed);
}
