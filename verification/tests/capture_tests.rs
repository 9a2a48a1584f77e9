use snappy_ocr::capture::accept_capture;
use snappy_ocr::capture::encode_frame;
use snappy_ocr::capture::select_display;
use snappy_ocr::capture::CaptureError;
use snappy_ocr::capture::Frame;
use snappy_ocr::store::PersistedSlot;

#[test]
fn zero_displays_is_a_specific_failure() {
    let r = select_display(0);
    assert_eq!(r, Err(CaptureError::NoDisplay));
    assert_eq!(CaptureError::NoDisplay.describe(), "no display found");
}

#[test]
fn first_display_is_selected() {
    assert_eq!(select_display(1), Ok(0));
    assert_eq!(select_display(3), Ok(0));
}

#[test]
fn frame_accepts_matching_buffer() {
    let f = Frame::from_raw(2, 1, vec![0u8; 8]);
    assert!(f.is_some());
    let f = f.unwrap();
    assert_eq!(f.width, 2);
    assert_eq!(f.height, 1);
    assert_eq!(f.pixels.len(), 8);
}

#[test]
fn frame_rejects_mismatched_buffer() {
    assert!(Frame::from_raw(2, 1, vec![0u8; 7]).is_none());
    assert!(Frame::from_raw(2, 1, vec![0u8; 9]).is_none());
}

#[test]
fn encode_frame_yields_real_png() {
    let frame = Frame::from_raw(1, 1, vec![255u8, 0, 0, 255]).unwrap();
    let bytes = encode_frame(&frame).unwrap();
    assert_eq!(&bytes[0..8], &[137u8, 80, 78, 71, 13, 10, 26, 10]);
    assert_ne!(bytes, vec![255u8, 0, 0, 255]);
}

#[test]
fn encoded_png_decodes_back_to_the_pixels() {
    let frame = Frame::from_raw(2, 2, vec![
        10u8, 20, 30, 255, 40, 50, 60, 255, 70, 80, 90, 255, 100, 110, 120, 255,
    ])
    .unwrap();
    let bytes = encode_frame(&frame).unwrap();
    let decoded = image::load_from_memory(&bytes).unwrap().to_rgba8();
    assert_eq!(decoded.width(), 2);
    assert_eq!(decoded.height(), 2);
    assert_eq!(
        decoded.into_raw(),
        vec![10u8, 20, 30, 255, 40, 50, 60, 255, 70, 80, 90, 255, 100, 110, 120, 255]
    );
}

#[test]
fn accept_capture_persists_the_encoding() {
    let mut slot = PersistedSlot::new();
    let r = accept_capture(&mut slot, 1, 1, vec![1u8, 2, 3, 4]);
    assert!(r.is_ok());
    let frame = Frame::from_raw(1, 1, vec![1u8, 2, 3, 4]).unwrap();
    let expected = encode_frame(&frame).unwrap();
    assert_eq!(slot.contents, Some(expected));
}

#[test]
fn accept_capture_overwrites_prior_image() {
    let mut slot = PersistedSlot::new();
    accept_capture(&mut slot, 1, 1, vec![1u8, 2, 3, 4]).unwrap();
    let first = slot.contents.clone().unwrap();
    accept_capture(&mut slot, 1, 1, vec![200u8, 200, 200, 255]).unwrap();
    let second = slot.contents.clone().unwrap();
    assert_ne!(first, second);
    let frame = Frame::from_raw(1, 1, vec![200u8, 200, 200, 255]).unwrap();
    assert_eq!(second, encode_frame(&frame).unwrap());
}

#[test]
fn accept_capture_rejects_mismatched_buffer() {
    let mut slot = PersistedSlot::new();
    let r = accept_capture(&mut slot, 2, 2, vec![0u8; 3]);
    match r {
        Err(e) => assert_eq!(e, CaptureError::CaptureFailed),
        Ok(_) => panic!("a mismatched buffer must not be accepted"),
    }
    assert!(slot.contents.is_none());
}

#[test]
fn every_failure_kind_has_its_diagnostic() {
    assert_eq!(CaptureError::NoDisplay.describe(), "no display found");
    assert_eq!(CaptureError::CaptureFailed.describe(), "screen capture failed");
    assert_eq!(CaptureError::EncodeFailed.describe(), "image encoding failed");
    assert_eq!(CaptureError::EngineInitFailed.describe(), "recognition engine failed to start");
    assert_eq!(
        CaptureError::EngineConfigFailed.describe(),
        "recognition engine rejected its configuration"
    );
    assert_eq!(
        CaptureError::ImageLoadFailed.describe(),
        "recognition engine could not load the image"
    );
    assert_eq!(CaptureError::RecognitionFailed.describe(), "text recognition failed");
    assert_eq!(CaptureError::ClipboardUnavailable.describe(), "clipboard unavailable");
}
