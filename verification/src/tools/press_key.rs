//! Pressing a key on the focused element: through the element when one is
//! focused, else by dispatching a `keydown` event from a script.

use vstd::prelude::*;
use crate::outcome::{ToolOutcome, success_text_view, error_text_view};

verus! {

/// The parameters of `press_key`.
#[derive(Debug, Clone, PartialEq, Eq)]
pub struct PressKeyParams {
    /// Key to press (e.g. Enter, Tab, Escape, ArrowDown, Backspace).
    pub key: String,
}

/// The selector of the focused element.
pub const FOCUS_SELECTOR: &'static str = ":focus";

/// How one character is written inside a single-quoted JavaScript string
/// literal: backslash, quote and line breaks are escaped, the rest is kept.
pub open spec fn js_escape_char(c: char) -> Seq<char> {
    if c == '\\' {
        seq!['\\', '\\']
    } else if c == '\'' {
        seq!['\\', '\'']
    } else if c == '\n' {
        seq!['\\', 'n']
    } else if c == '\r' {
        seq!['\\', 'r']
    } else {
        seq![c]
    }
}

/// The body of a single-quoted JavaScript string literal whose value is `s`.
pub open spec fn js_escape(s: Seq<char>) -> Seq<char>
    decreases s.len(),
{
    if s.len() == 0 {
        seq![]
    } else {
        js_escape(s.drop_last()) + js_escape_char(s.last())
    }
}

/// The character an escape `\c` stands for.
pub open spec fn js_escaped_value(c: char) -> char {
    if c == 'n' {
        '\n'
    } else if c == 'r' {
        '\r'
    } else {
        c
    }
}

/// The value of the body of a single-quoted JavaScript string literal, for
/// bodies whose escapes are `\\`, `\'`, `\n` and `\r`.
pub open spec fn js_unescape(s: Seq<char>) -> Seq<char>
    decreases s.len(),
{
    if s.len() == 0 {
        seq![]
    } else if s[0] == '\\' && s.len() >= 2 {
        seq![js_escaped_value(s[1])] + js_unescape(s.subrange(2, s.len() as int))
    } else {
        seq![s[0]] + js_unescape(s.drop_first())
    }
}

/// Whether `s` stays inside a single-quoted JavaScript string literal: no
/// bare quote, backslash or line break ends it or escapes what follows.
pub open spec fn js_literal_body(s: Seq<char>) -> bool
    decreases s.len(),
{
    if s.len() == 0 {
        true
    } else if s[0] == '\\' {
        s.len() >= 2 && (s[1] == '\\' || s[1] == '\'' || s[1] == 'n' || s[1] == 'r')
            && js_literal_body(s.subrange(2, s.len() as int))
    } else if s[0] == '\'' || s[0] == '\n' || s[0] == '\r' {
        false
    } else {
        js_literal_body(s.drop_first())
    }
}

proof fn lemma_js_escape_concat(a: Seq<char>, b: Seq<char>)
    ensures
        js_escape(a + b) == js_escape(a) + js_escape(b),
    decreases b.len(),
{
    if b.len() == 0 {
        assert(a + b =~= a);
        assert(js_escape(a) + js_escape(b) =~= js_escape(a));
    } else {
        lemma_js_escape_concat(a, b.drop_last());
        assert((a + b).drop_last() =~= a + b.drop_last());
        assert((a + b).last() == b.last());
        assert(js_escape(a + b) =~= js_escape(a) + js_escape(b));
    }
}

/// The key is written as a JavaScript string literal: the script text taken
/// from it stays inside the literal, and the literal's value is the key.
pub proof fn lemma_key_literal_round_trip(key: Seq<char>)
    ensures
        js_literal_body(js_escape(key)),
        js_unescape(js_escape(key)) == key,
    decreases key.len(),
{
    if key.len() > 0 {
        let c = key[0];
        let rest = key.drop_first();
        lemma_key_literal_round_trip(rest);
        lemma_js_escape_concat(seq![c], rest);
        assert(seq![c] + rest =~= key);
        assert(seq![c].drop_last() =~= Seq::<char>::empty());
        assert(seq![c].last() == c);
        assert(js_escape(Seq::<char>::empty()) =~= Seq::<char>::empty());
        assert(js_escape(seq![c]) =~= js_escape_char(c));
        let e = js_escape(key);
        let er = js_escape(rest);
        assert(e =~= js_escape_char(c) + er);
        if c == '\\' || c == '\'' || c == '\n' || c == '\r' {
            assert(e.subrange(2, e.len() as int) =~= er);
        } else {
            assert(e.drop_first() =~= er);
        }
        assert(js_unescape(e) =~= key);
    }
}

/// The script that dispatches a `keydown` event for `key` on the active
/// element, the key written as a JavaScript string literal.
pub open spec fn dispatch_script_view(key: Seq<char>) -> Seq<char> {
    "document.activeElement&&document.activeElement.dispatchEvent(new KeyboardEvent('keydown',{key:'"@
        + js_escape(key) + "',bubbles:true,cancelable:true}))"@
}

/// `pressed <key>`, with ` (js)` when the key went through the script.
pub open spec fn pressed_text(key: Seq<char>, by_script: bool) -> Seq<char> {
    if by_script {
        "pressed "@ + key + " (js)"@
    } else {
        "pressed "@ + key
    }
}

/// How the key is pressed.
pub enum PressStep {
    /// Press it on the focused element that was found.
    OnElement,
    /// No focused element was found: evaluate this script.
    Dispatch(String),
}

/// The abstract value of a [`PressStep`].
pub enum PressStepView {
    OnElement,
    Dispatch(Seq<char>),
}

impl View for PressStep {
    type V = PressStepView;

    open spec fn view(&self) -> PressStepView {
        match self {
            PressStep::OnElement => PressStepView::OnElement,
            PressStep::Dispatch(s) => PressStepView::Dispatch(s@),
        }
    }
}

fn escaped_char(key: &str, i: usize) -> (s: &str)
    requires
        i < key@.len() <= usize::MAX,
    ensures
        s@ == js_escape_char(key@[i as int]),
{
    let c = key.get_char(i);
    if c == '\\' {
        proof { reveal_strlit("\\\\"); }
        "\\\\"
    } else if c == '\'' {
        proof { reveal_strlit("\\'"); }
        "\\'"
    } else if c == '\n' {
        proof { reveal_strlit("\\n"); }
        "\\n"
    } else if c == '\r' {
        proof { reveal_strlit("\\r"); }
        "\\r"
    } else {
        key.substring_char(i, i + 1)
    }
}

/// The script that dispatches a `keydown` event for `key` on the active
/// element, the key written as a JavaScript string literal.
pub fn dispatch_script(key: &str) -> (s: String)
    ensures
        s@ == dispatch_script_view(key@),
{
    let mut s = String::from_str(
        "document.activeElement&&document.activeElement.dispatchEvent(new KeyboardEvent('keydown',{key:'",
    );
    let ghost head = s@;
    let n: usize = key.unicode_len();
    let mut i: usize = 0;
    while i < n
        invariant
            i <= n,
            n == key@.len(),
            s@ == head + js_escape(key@.take(i as int)),
        decreases n - i,
    {
        s.append(escaped_char(key, i));
        assert(key@.take(i + 1).drop_last() =~= key@.take(i as int));
        i = i + 1;
    }
    assert(key@.take(n as int) =~= key@);
    s.append("',bubbles:true,cancelable:true}))");
    s
}

/// The reaction to looking up the focused element: press on it when found,
/// else fall back to the script, whatever the lookup's error.
pub fn press_on_lookup(p: &PressKeyParams, found: Result<(), String>) -> (s: PressStep)
    ensures
        found is Ok ==> s@ == PressStepView::OnElement,
        found is Err ==> s@ == PressStepView::Dispatch(dispatch_script_view(p.key@)),
{
    match found {
        Ok(()) => PressStep::OnElement,
        Err(_) => PressStep::Dispatch(dispatch_script(p.key.as_str())),
    }
}

/// The answer of `press_key`: success naming the key (marked ` (js)` when
/// it went through the script), or the error's text.
pub fn press_reply(p: &PressKeyParams, pressed: Result<(), String>, by_script: bool) -> (o: ToolOutcome)
    ensures
        pressed is Ok ==> o@ == success_text_view(pressed_text(p.key@, by_script)),
        pressed matches Err(e) ==> o@ == error_text_view(e@),
{
    match pressed {
        Ok(()) => {
            let mut t = String::from_str("pressed ");
            t.append(p.key.as_str());
            if by_script {
                t.append(" (js)");
            }
            ToolOutcome::success_text(t)
        },
        Err(e) => ToolOutcome::error_text(e),
    }
}

/// A key pressed on the element is answered `pressed <key>`, and one that
/// went through the script the same text followed by ` (js)`, for every key.
pub proof fn lemma_pressed_text(key: Seq<char>)
    ensures
        pressed_text(key, false) == "pressed "@ + key,
        pressed_text(key, true) == pressed_text(key, false) + " (js)"@,
        pressed_text(key, false).subrange(8, pressed_text(key, false).len() as int) == key,
{
    assert(("pressed "@ + key + " (js)"@) =~= ("pressed "@ + key) + " (js)"@);
    reveal_strlit("pressed ");
    assert(("pressed "@ + key).subrange(8, ("pressed "@ + key).len() as int) =~= key);
}

} // verus!
