//! Clicking an element chosen by a CSS selector.

use vstd::prelude::*;
use crate::outcome::{ToolOutcome, success_text_view, error_text_view};

verus! {

/// The parameters of `click`.
#[derive(Debug, Clone, PartialEq, Eq)]
pub struct ClickParams {
    /// CSS selector of the element to click.
    pub selector: String,
}

/// `clicked <selector>`.
pub open spec fn clicked_text(selector: Seq<char>) -> Seq<char> {
    "clicked "@ + selector
}

/// The answer of `click` once the element was found: success naming the
/// selector, or the click's error text.
pub fn click_reply(p: &ClickParams, clicked: Result<(), String>) -> (o: ToolOutcome)
    ensures
        clicked is Ok ==> o@ == success_text_view(clicked_text(p.selector@)),
        clicked matches Err(e) ==> o@ == error_text_view(e@),
{
    match clicked {
        Ok(()) => {
            let mut t = String::from_str("clicked ");
            t.append(p.selector.as_str());
            ToolOutcome::success_text(t)
        },
        Err(e) => ToolOutcome::error_text(e),
    }
}

/// A successful click is answered `clicked ` followed by the selector
/// exactly as given, for every selector.
pub proof fn lemma_clicked_text(selector: Seq<char>)
    ensures
        clicked_text(selector) == "clicked "@ + selector,
        clicked_text(selector).subrange(8, clicked_text(selector).len() as int) == selector,
{
    reveal_strlit("clicked ");
    assert(("clicked "@ + selector).subrange(8, ("clicked "@ + selector).len() as int) =~= selector);
}

} // verus!
