//! The health check.

use vstd::prelude::*;
use crate::outcome::{ToolOutcome, success_text_view};

verus! {

/// The answer of `ping`: a success reading `pong`.
pub fn pong() -> (o: ToolOutcome)
    ensures
        o@ == success_text_view("pong"@),
{
    ToolOutcome::success_text(String::from_str("pong"))
}

} // verus!
