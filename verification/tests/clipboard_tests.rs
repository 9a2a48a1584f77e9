use snappy_ocr::capture::CaptureError;
use snappy_ocr::clipboard::copy_text_action;
use snappy_ocr::ocr::OcrConfig;
use snappy_ocr::session::Session;

#[test]
fn copy_action_sends_the_shared_text_or_reports_the_clipboard() {
    let mut s = Session::new();
    s.set_extracted_text(String::from("text to copy"));
    match copy_text_action(&s) {
        Ok(sent) => assert_eq!(sent, "text to copy"),
        Err(e) => assert_eq!(e, CaptureError::ClipboardUnavailable),
    }
}

#[test]
fn engine_configuration_is_fixed() {
    let c = OcrConfig::new();
    assert_eq!(c.language, "eng");
    assert_eq!(c.page_seg_mode, "6");
}
