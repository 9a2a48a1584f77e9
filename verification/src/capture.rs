//! The capture pipeline's verified parts: the typed failure kinds, the
//! raster frame with its well-formedness invariant, the primary-display
//! selection rule, and lossless PNG encoding of a frame into the bytes
//! that go into the persisted slot. The screen-capture call itself is
//! made by the windowing layer, which hands its outcome to these
//! functions as plain values.

use vstd::prelude::*;
use crate::store::PersistedSlot;
use crate::store::slot_after;

verus! {

/// Everything that can go wrong along the capture-and-recognize path,
/// one kind per fallible step.
#[derive(Clone, Copy, Debug, PartialEq, Eq, Structural)]
pub enum CaptureError {
    /// Display enumeration returned an empty list.
    NoDisplay,
    /// The capture call on the selected display failed.
    CaptureFailed,
    /// The frame could not be encoded as a PNG image.
    EncodeFailed,
    /// The text-recognition engine could not be initialized.
    EngineInitFailed,
    /// The engine rejected the page-segmentation configuration.
    EngineConfigFailed,
    /// The engine could not load the persisted image.
    ImageLoadFailed,
    /// The engine failed to produce recognized text.
    RecognitionFailed,
    /// The system clipboard could not be reached.
    ClipboardUnavailable,
}

impl CaptureError {
    /// A short diagnostic for each failure kind.
    pub fn describe(&self) -> (r: &'static str)
        ensures
            *self == CaptureError::NoDisplay ==> r@ == "no display found"@,
            *self == CaptureError::CaptureFailed ==> r@ == "screen capture failed"@,
            *self == CaptureError::EncodeFailed ==> r@ == "image encoding failed"@,
            *self == CaptureError::EngineInitFailed ==> r@ == "recognition engine failed to start"@,
            *self == CaptureError::EngineConfigFailed ==> r@ == "recognition engine rejected its configuration"@,
            *self == CaptureError::ImageLoadFailed ==> r@ == "recognition engine could not load the image"@,
            *self == CaptureError::RecognitionFailed ==> r@ == "text recognition failed"@,
            *self == CaptureError::ClipboardUnavailable ==> r@ == "clipboard unavailable"@,
    {
        match self {
            CaptureError::NoDisplay => "no display found",
            CaptureError::CaptureFailed => "screen capture failed",
            CaptureError::EncodeFailed => "image encoding failed",
            CaptureError::EngineInitFailed => "recognition engine failed to start",
            CaptureError::EngineConfigFailed => "recognition engine rejected its configuration",
            CaptureError::ImageLoadFailed => "recognition engine could not load the image",
            CaptureError::RecognitionFailed => "text recognition failed",
            CaptureError::ClipboardUnavailable => "clipboard unavailable",
        }
    }
}

/// A captured raster frame: RGBA, one byte per channel, so a well-formed
/// frame holds exactly `4 * width * height` pixel bytes.
pub struct Frame {
    pub width: u32,
    pub height: u32,
    pub pixels: Vec<u8>,
}

impl Frame {
    /// The frame's buffer matches its dimensions.
    pub open spec fn wf(self) -> bool {
        self.pixels@.len() == 4 * self.width * self.height
    }

    /// Build a frame from a raw capture outcome, accepting it exactly
    /// when the buffer length matches the dimensions.
    pub fn from_raw(width: u32, height: u32, pixels: Vec<u8>) -> (r: Option<Frame>)
        ensures
            r is Some <==> pixels@.len() == 4 * width * height,
            r matches Some(f) ==> f.width == width && f.height == height
                && f.pixels@ == pixels@ && f.wf(),
    {
        let w: u128 = width as u128;
        let h: u128 = height as u128;
        proof {
            assert(w * h <= 0xffff_ffffu128 * 0xffff_ffffu128) by (nonlinear_arith)
                requires
                    w <= 0xffff_ffffu128,
                    h <= 0xffff_ffffu128,
            ;
        }
        let wh: u128 = w * h;
        let expected: u128 = 4u128 * wh;
        proof {
            assert(4 * ((width as int) * (height as int)) == 4 * (width as int) * (height as int))
                by (nonlinear_arith);
        }
        if (pixels.len() as u128) == expected {
            Some(Frame { width, height, pixels })
        } else {
            None
        }
    }
}

/// Which display the pipeline captures: always the first of the list,
/// and a specific failure when the list is empty.
pub fn select_display(display_count: usize) -> (r: Result<usize, CaptureError>)
    ensures
        r == Err::<usize, CaptureError>(CaptureError::NoDisplay) <==> display_count == 0,
        display_count > 0 ==> r == Ok::<usize, CaptureError>(0usize),
{
    if display_count == 0 {
        Err(CaptureError::NoDisplay)
    } else {
        Ok(0)
    }
}

/// The PNG encoding of an RGBA buffer with the given dimensions. The
/// exact bytes are the encoder's affair; they are a function of the
/// dimensions and pixels alone.
pub uninterp spec fn png_bytes_of(width: u32, height: u32, pixels: Seq<u8>) -> Seq<u8>;

/// Relies on image's `PngEncoder::write_image`: a deterministic, lossless
/// PNG encoding of the RGBA buffer. It asserts that the buffer length
/// matches the dimensions, which the precondition guarantees; writing
/// into a growable byte buffer, its only remaining error paths are a
/// zero width or a zero height, so on nonzero dimensions it succeeds.
#[verifier::external_body]
fn encode_png_rgba(width: u32, height: u32, pixels: &Vec<u8>) -> (r: Result<Vec<u8>, CaptureError>)
    requires
        pixels@.len() == 4 * width * height,
    ensures
        r matches Ok(b) ==> b@ == png_bytes_of(width, height, pixels@),
        r matches Err(e) ==> e == CaptureError::EncodeFailed,
        width > 0 && height > 0 ==> r is Ok,
{
    let mut out: Vec<u8> = Vec::new();
    let encoder = image::codecs::png::PngEncoder::new(&mut out);
    match image::ImageEncoder::write_image(
        encoder,
        pixels,
        width,
        height,
        image::ExtendedColorType::Rgba8,
    ) {
        Ok(()) => Ok(out),
        Err(_) => Err(CaptureError::EncodeFailed),
    }
}

/// Encode a well-formed frame as PNG bytes. Only a frame with a zero
/// dimension can fail to encode.
pub fn encode_frame(frame: &Frame) -> (r: Result<Vec<u8>, CaptureError>)
    requires
        frame.wf(),
    ensures
        r matches Ok(b) ==> b@ == png_bytes_of(frame.width, frame.height, frame.pixels@),
        r matches Err(e) ==> e == CaptureError::EncodeFailed,
        frame.width > 0 && frame.height > 0 ==> r is Ok,
{
    encode_png_rgba(frame.width, frame.height, &frame.pixels)
}

/// Persist a captured frame: encode it and store the bytes in the slot,
/// replacing whatever the slot held. On an encoding failure the slot is
/// left untouched.
pub fn persist_capture(slot: &mut PersistedSlot, frame: &Frame) -> (r: Result<(), CaptureError>)
    requires
        frame.wf(),
    ensures
        r is Ok ==> final(slot)@ == slot_after(
            old(slot)@,
            png_bytes_of(frame.width, frame.height, frame.pixels@),
        ),
        r matches Err(e) ==> e == CaptureError::EncodeFailed && *final(slot) == *old(slot),
        frame.width > 0 && frame.height > 0 ==> r is Ok,
{
    match encode_frame(frame) {
        Ok(bytes) => {
            slot.store(bytes);
            Ok(())
        },
        Err(e) => Err(e),
    }
}

/// One whole capture step, fed with the raw outcome of the capture call:
/// validate the buffer against the dimensions, encode, and persist. A
/// buffer that does not match its dimensions is a failed capture and
/// leaves the slot untouched; only the encoder can fail beyond that.
pub fn accept_capture(slot: &mut PersistedSlot, width: u32, height: u32, pixels: Vec<u8>) -> (r:
    Result<Frame, CaptureError>)
    ensures
        r matches Ok(f) ==> f.width == width && f.height == height && f.pixels@ == pixels@
            && f.wf() && final(slot)@ == slot_after(
            old(slot)@,
            png_bytes_of(width, height, pixels@),
        ),
        pixels@.len() != 4 * width * height ==> r == Err::<Frame, CaptureError>(
            CaptureError::CaptureFailed,
        ),
        r matches Err(e) ==> (e == CaptureError::CaptureFailed || e == CaptureError::EncodeFailed)
            && *final(slot) == *old(slot),
        pixels@.len() == 4 * width * height && width > 0 && height > 0 ==> r is Ok,
{
    match Frame::from_raw(width, height, pixels) {
        Some(frame) => {
            match persist_capture(slot, &frame) {
                Ok(()) => Ok(frame),
                Err(e) => Err(e),
            }
        },
        None => Err(CaptureError::CaptureFailed),
    }
}

} // verus!
