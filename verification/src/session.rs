//! The interactive shell's state: the fixed screenshot path, the shared
//! text (the most recent recognized or synthesized text), and the user's
//! question. Each user action is a handler with an exact contract; the
//! windowing layer only forwards button clicks to these handlers.

use vstd::prelude::*;
use vstd::string::StringExecFns;
use crate::respond::response_text;
use crate::respond::send_to_ai;

verus! {

/// The banner placed above every assistant response in the shared text.
pub open spec fn response_banner() -> Seq<char> {
    "🤖 AI Response:\n"@
}

/// The path the captured image is persisted at, fixed for the whole run.
pub open spec fn fixed_screenshot_path() -> Seq<char> {
    "screenshot.png"@
}

pub struct Session {
    /// Where the captured image is persisted.
    pub screenshot_path: String,
    /// The shared text, replaced whole by recapture, assistant response,
    /// or a direct edit in the text box.
    pub extracted_text: String,
    /// The user's current question for the assistant.
    pub user_query: String,
}

impl Session {
    /// A fresh shell: fixed path, empty shared text, empty question.
    pub fn new() -> (s: Session)
        ensures
            s.screenshot_path@ == fixed_screenshot_path(),
            s.extracted_text@ == Seq::<char>::empty(),
            s.user_query@ == Seq::<char>::empty(),
    {
        proof {
            reveal_strlit("");
            assert(""@ =~= Seq::<char>::empty());
        }
        Session {
            screenshot_path: String::from_str("screenshot.png"),
            extracted_text: String::from_str(""),
            user_query: String::from_str(""),
        }
    }

    /// A recapture replaces the shared text whole with the newly
    /// recognized text: nothing of the earlier text is retained.
    pub fn apply_recapture(&mut self, recognized: String)
        ensures
            final(self).extracted_text@ == recognized@,
            final(self).user_query == old(self).user_query,
            final(self).screenshot_path == old(self).screenshot_path,
    {
        self.extracted_text = recognized;
    }

    /// The value handed to the clipboard: exactly the shared text as it
    /// stands when the copy action is triggered. The caller owns the
    /// returned string, so a later write to the shared text cannot reach
    /// what was copied.
    pub fn clipboard_text(&self) -> (r: String)
        ensures
            r@ == self.extracted_text@,
    {
        String::from_str(self.extracted_text.as_str())
    }

    /// The ask action: hand the shared text and the question to the
    /// placeholder assistant, then replace the shared text with the
    /// banner followed by the templated response, discarding the prior
    /// text.
    pub fn apply_ask(&mut self)
        ensures
            final(self).extracted_text@ == response_banner() + response_text(
                old(self).extracted_text@,
                old(self).user_query@,
            ),
            final(self).user_query == old(self).user_query,
            final(self).screenshot_path == old(self).screenshot_path,
    {
        let reply = send_to_ai(self.extracted_text.as_str(), self.user_query.as_str());
        let mut shown = String::from_str("🤖 AI Response:\n");
        shown.append(reply.as_str());
        self.extracted_text = shown;
    }

    /// A direct edit of the question field.
    pub fn set_user_query(&mut self, query: String)
        ensures
            final(self).user_query@ == query@,
            final(self).extracted_text == old(self).extracted_text,
            final(self).screenshot_path == old(self).screenshot_path,
    {
        self.user_query = query;
    }

    /// A direct edit of the shared text in the text box.
    pub fn set_extracted_text(&mut self, text: String)
        ensures
            final(self).extracted_text@ == text@,
            final(self).user_query == old(self).user_query,
            final(self).screenshot_path == old(self).screenshot_path,
    {
        self.extracted_text = text;
    }
}

} // verus!
