//! The copy action: hand the shared text, exactly as it stands when the
//! button is pressed, to the system clipboard. The clipboard itself is
//! reached through narrow trusted wrappers over arboard.

use vstd::prelude::*;
use crate::capture::CaptureError;
use crate::session::Session;

verus! {

#[verifier::external_type_specification]
#[verifier::external_body]
pub struct ExClipboard(arboard::Clipboard);

/// Relies on `arboard::Clipboard::new`: opens a handle to the system
/// clipboard, failing when no clipboard service can be reached.
#[verifier::external_body]
fn clipboard_open() -> (r: Result<arboard::Clipboard, CaptureError>)
    ensures
        r matches Err(e) ==> e == CaptureError::ClipboardUnavailable,
{
    match arboard::Clipboard::new() {
        Ok(cb) => Ok(cb),
        Err(_) => Err(CaptureError::ClipboardUnavailable),
    }
}

/// Relies on `arboard::Clipboard::set_text`: places the given text, any
/// valid UTF-8 string, onto the system clipboard, replacing its prior
/// contents.
#[verifier::external_body]
fn clipboard_set_text(clipboard: &mut arboard::Clipboard, text: &str) -> (r: Result<
    (),
    CaptureError,
>)
    ensures
        r matches Err(e) ==> e == CaptureError::ClipboardUnavailable,
{
    match clipboard.set_text(text) {
        Ok(()) => Ok(()),
        Err(_) => Err(CaptureError::ClipboardUnavailable),
    }
}

/// The copy action: read the shared text at the moment the action is
/// triggered and place exactly that value on the clipboard. On success
/// the returned string is the value that was placed there — the shared
/// text as it stood, unaffected by any later write.
pub fn copy_text_action(session: &Session) -> (r: Result<String, CaptureError>)
    ensures
        r matches Ok(t) ==> t@ == session.extracted_text@,
        r matches Err(e) ==> e == CaptureError::ClipboardUnavailable,
{
    let payload = session.clipboard_text();
    let mut clipboard = match clipboard_open() {
        Ok(cb) => cb,
        Err(e) => {
            return Err(e);
        },
    };
    match clipboard_set_text(&mut clipboard, payload.as_str()) {
        Ok(()) => Ok(payload),
        Err(e) => Err(e),
    }
}

} // verus!
