//! The recognition engine's fixed configuration: one language and one
//! page-segmentation mode, suited to a single uniform block of text.
//! The engine itself runs outside the library; the windowing layer
//! initializes it from exactly these values.

use vstd::prelude::*;
use vstd::string::StringExecFns;

verus! {

/// The language every engine instance is initialized for.
pub open spec fn fixed_language() -> Seq<char> {
    "eng"@
}

/// The value of the page-segmentation-mode option: a single uniform
/// block of text.
pub open spec fn fixed_page_seg_mode() -> Seq<char> {
    "6"@
}

/// What the engine is configured with before it loads an image.
pub struct OcrConfig {
    pub language: String,
    pub page_seg_mode: String,
}

impl OcrConfig {
    /// The one configuration the pipeline ever uses.
    pub fn new() -> (c: OcrConfig)
        ensures
            c.language@ == fixed_language(),
            c.page_seg_mode@ == fixed_page_seg_mode(),
    {
        OcrConfig { language: String::from_str("eng"), page_seg_mode: String::from_str("6") }
    }
}

} // verus!
