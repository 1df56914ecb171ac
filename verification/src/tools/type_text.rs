//! Typing text into an input element: the element is focused by a click
//! first.

use vstd::prelude::*;
use crate::outcome::{ToolOutcome, success_text_view, error_text_view};

verus! {

/// The parameters of `type_text`.
#[derive(Debug, Clone, PartialEq, Eq)]
pub struct TypeParams {
    /// CSS selector of the input element.
    pub selector: String,
    /// Text to type into the element.
    pub text: String,
}

/// `typed into <selector>`.
pub open spec fn typed_text(selector: Seq<char>) -> Seq<char> {
    "typed into "@ + selector
}

/// The answer of `type_text` once the element was found and clicked:
/// success naming the selector, or the typing's error text.
pub fn type_reply(p: &TypeParams, typed: Result<(), String>) -> (o: ToolOutcome)
    ensures
        typed is Ok ==> o@ == success_text_view(typed_text(p.selector@)),
        typed matches Err(e) ==> o@ == error_text_view(e@),
{
    match typed {
        Ok(()) => {
            let mut t = String::from_str("typed into ");
            t.append(p.selector.as_str());
            ToolOutcome::success_text(t)
        },
        Err(e) => ToolOutcome::error_text(e),
    }
}

/// Successful typing is answered `typed into ` followed by the selector
/// exactly as given, for every selector; the typed text is not echoed.
pub proof fn lemma_typed_text(selector: Seq<char>)
    ensures
        typed_text(selector) == "typed into "@ + selector,
        typed_text(selector).subrange(11, typed_text(selector).len() as int) == selector,
{
    reveal_strlit("typed into ");
    assert(("typed into "@ + selector).subrange(11, ("typed into "@ + selector).len() as int) =~= selector);
}

} // verus!
