//! The placeholder assistant: a pure templating function that echoes the
//! recognized text and the user's question back in a fixed format.

use vstd::prelude::*;
use vstd::string::StringExecFns;

verus! {

/// The fixed text that opens every response.
pub open spec fn response_prefix() -> Seq<char> {
    "I received this:\nExtracted: "@
}

/// The fixed text that separates the recognized text from the question.
pub open spec fn response_infix() -> Seq<char> {
    "\nQuestion: "@
}

/// The full response for recognized text `extracted` and question `query`:
/// the fixed template with both embedded verbatim.
pub open spec fn response_text(extracted: Seq<char>, query: Seq<char>) -> Seq<char> {
    response_prefix() + extracted + response_infix() + query
}

/// The placeholder assistant. No inference happens: the result is exactly
/// the fixed template around the two inputs.
pub fn send_to_ai(extracted_text: &str, user_query: &str) -> (r: String)
    ensures
        r@ == response_text(extracted_text@, user_query@),
{
    let mut r = String::from_str("I received this:\nExtracted: ");
    r.append(extracted_text);
    r.append("\nQuestion: ");
    r.append(user_query);
    proof {
        assert(r@ =~= response_text(extracted_text@, user_query@));
    }
    r
}

/// The response always carries both inputs verbatim as contiguous
/// substrings: the recognized text right after the prefix, and the
/// question at the very end. Determinism needs no separate statement:
/// `response_text` is a function of its two arguments alone, and
/// `send_to_ai` returns exactly it.
pub proof fn lemma_response_contains_inputs(extracted: Seq<char>, query: Seq<char>)
    ensures
        response_text(extracted, query).len() == response_prefix().len() + extracted.len()
            + response_infix().len() + query.len(),
        response_text(extracted, query).subrange(
            response_prefix().len() as int,
            response_prefix().len() + extracted.len() as int,
        ) == extracted,
        response_text(extracted, query).subrange(
            response_text(extracted, query).len() - query.len(),
            response_text(extracted, query).len() as int,
        ) == query,
{
    let r = response_text(extracted, query);
    assert(r.subrange(response_prefix().len() as int, response_prefix().len() + extracted.len() as int)
        =~= extracted);
    assert(r.subrange(r.len() - query.len(), r.len() as int) =~= query);
}

} // verus!
