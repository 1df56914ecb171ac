//! The session of the server: the page the tools act on, and the answers
//! of the tools that read the page.

use vstd::prelude::*;
use vstd::string::StringSliceAdditionalSpecFns;
use vstd::utf8::*;
use crate::outcome::{ToolOutcome, OutcomeView, ContentView, success_text_view, error_text_view};

verus! {

/// The instructions the server announces to its clients.
pub const SERVER_INSTRUCTIONS: &'static str = "Browser agent MCP server";

/// The script whose value is the visible text of the page.
pub const CONTENT_SCRIPT: &'static str = "document.body.innerText";

/// The most bytes of page text a tool answers with.
pub const CONTENT_LIMIT: usize = 100_000;

/// The MIME type of screenshots.
pub const PNG_MIME: &'static str = "image/png";

/// The script that collects contacts from the page (Telegram handles,
/// e-mail addresses, phone numbers and site URLs) and returns them as a
/// JSON object of four deduplicated lists.
pub const JS_FIND_CONTACTS: &'static str = r#"(() => {
    const t = document.body.innerText || '';
    const r = {telegram:[],email:[],phone:[],url:[]};
    let m;

    // Telegram handles from text: @username
    const tg1 = /(?<![A-Za-z0-9])@([A-Za-z][A-Za-z0-9_]{4,31})(?![A-Za-z0-9_])/g;
    while((m=tg1.exec(t))!==null){
        const u=m[1].toLowerCase();
        if(!['media','keyframes','import','charset','font-face','supports','page'].includes(u))
            r.telegram.push(u);
    }
    // t.me/ links from text
    const tg2 = /(?:https?:\/\/)?t(?:elegram)?\.me\/([A-Za-z][A-Za-z0-9_]{4,31})/gi;
    while((m=tg2.exec(t))!==null) r.telegram.push(m[1].toLowerCase());
    // t.me/ links from <a> href
    document.querySelectorAll('a[href]').forEach(a=>{
        const h=a.href||'';
        const u=h.match(/t(?:elegram)?\.me\/([A-Za-z][A-Za-z0-9_]{4,31})/i);
        if(u) r.telegram.push(u[1].toLowerCase());
    });

    // Emails from text
    const em = /[A-Za-z0-9._%+\-]+@[A-Za-z0-9.\-]+\.[A-Za-z]{2,}/g;
    while((m=em.exec(t))!==null) r.email.push(m[0].toLowerCase());
    // mailto: links
    document.querySelectorAll('a[href^="mailto:"]').forEach(a=>{
        const e=(a.href||'').replace('mailto:','').split('?')[0];
        if(e) r.email.push(e.toLowerCase());
    });

    // Phone numbers (international, +prefix required)
    const ph = /\+\d[\d\s\-().]{7,18}\d/g;
    while((m=ph.exec(t))!==null) r.phone.push(m[0].replace(/[\s\-().]/g,''));

    // Site URLs from <a> links
    document.querySelectorAll('a[href^="http"]').forEach(a=>{
        try{
            const u=new URL(a.href);
            if(!u.hostname.includes('t.me')&&!u.hostname.includes('telegram.me'))
                r.url.push(u.origin+u.pathname);
        }catch{}
    });

    for(const k of Object.keys(r)) r[k]=[...new Set(r[k])];
    return JSON.stringify(r);
})()"#;

/// The text of the answer when no page has been opened yet.
pub open spec fn no_page_text() -> Seq<char> {
    "no page - call navigate first"@
}

/// The page the tools act on, if one has been opened. It is opened by the
/// first navigation and reused by the following ones. Outside this crate
/// only the steps of a navigation (`Navigation::on_goto`, `on_open`) can
/// change it; every other tool only reads it.
pub struct PageSlot<P> {
    page: Option<P>,
}

impl<P> View for PageSlot<P> {
    type V = Option<P>;

    closed spec fn view(&self) -> Option<P> {
        self.page
    }
}

/// What looking up the page gives: the page, or the text of the error.
pub open spec fn page_lookup<P>(slot: Option<P>) -> Result<P, Seq<char>> {
    match slot {
        Some(p) => Ok(p),
        None => Err(no_page_text()),
    }
}

impl<P> PageSlot<P> {
    /// A session with no page.
    pub fn new() -> (s: PageSlot<P>)
        ensures
            s@ is None,
    {
        PageSlot { page: None }
    }

    /// The current page, or the error text when there is none.
    pub fn page(&self) -> (r: Result<&P, String>)
        ensures
            r matches Ok(p) ==> page_lookup(self@) == Ok::<P, Seq<char>>(*p),
            r matches Err(m) ==> page_lookup(self@) == Err::<P, Seq<char>>(m@),
    {
        match &self.page {
            Some(p) => Ok(p),
            None => Err(String::from_str("no page - call navigate first")),
        }
    }

    /// Makes `p` the current page. Only a navigation does this.
    pub(crate) fn set(&mut self, p: P)
        ensures
            final(self)@ == Some(p),
    {
        self.page = Some(p);
    }

    /// Forgets the current page. Only a failed navigation does this.
    pub(crate) fn clear(&mut self)
        ensures
            final(self)@ is None,
    {
        self.page = None;
    }
}

/// The answer of a tool whose only step can fail: success with `ok_text`
/// or an error with the failure's text.
pub open spec fn reply_view(r: Result<Seq<char>, Seq<char>>) -> OutcomeView {
    match r {
        Ok(t) => success_text_view(t),
        Err(e) => error_text_view(e),
    }
}

/// Whether the next step of a tool that acts on an element goes on, or the
/// tool answers now.
pub enum ElementStep {
    Proceed,
    Reply(ToolOutcome),
}

/// The abstract value of an [`ElementStep`].
pub enum ElementStepView {
    Proceed,
    Reply(OutcomeView),
}

impl View for ElementStep {
    type V = ElementStepView;

    open spec fn view(&self) -> ElementStepView {
        match self {
            ElementStep::Proceed => ElementStepView::Proceed,
            ElementStep::Reply(o) => ElementStepView::Reply(o@),
        }
    }
}

/// `selector not found: <selector> -- <error>`.
pub open spec fn selector_missing_text(selector: Seq<char>, err: Seq<char>) -> Seq<char> {
    "selector not found: "@ + selector + " -- "@ + err
}

/// A tool that needs a page and has none answers `no page - call navigate
/// first`; a selector that matches nothing is answered with the selector and
/// the lookup's error, exactly as given.
pub proof fn lemma_lookup_texts(selector: Seq<char>, err: Seq<char>)
    ensures
        page_lookup(None::<int>) == Err::<int, Seq<char>>("no page - call navigate first"@),
        selector_missing_text(selector, err) == "selector not found: "@ + selector + " -- "@ + err,
{
}

/// The reaction to looking up the element a tool acts on: go on when it
/// was found, else answer with an error that names the selector.
pub fn on_element_lookup(selector: &str, found: Result<(), String>) -> (s: ElementStep)
    ensures
        found is Ok ==> s@ == ElementStepView::Proceed,
        found matches Err(e) ==> s@ == ElementStepView::Reply(
            error_text_view(selector_missing_text(selector@, e@)),
        ),
{
    match found {
        Ok(()) => ElementStep::Proceed,
        Err(e) => {
            let mut t = String::from_str("selector not found: ");
            t.append(selector);
            t.append(" -- ");
            t.append(e.as_str());
            ElementStep::Reply(ToolOutcome::error_text(t))
        },
    }
}

/// The reaction to an intermediate step: go on when it succeeded, else
/// answer with the failure's text.
pub fn on_step(r: Result<(), String>) -> (s: ElementStep)
    ensures
        r is Ok ==> s@ == ElementStepView::Proceed,
        r matches Err(e) ==> s@ == ElementStepView::Reply(error_text_view(e@)),
{
    match r {
        Ok(()) => ElementStep::Proceed,
        Err(e) => ElementStep::Reply(ToolOutcome::error_text(e)),
    }
}

/// The length of the longest prefix of `b` that has at most `k` bytes and
/// ends on a character boundary.
pub open spec fn boundary_at_or_below(b: Seq<u8>, k: int) -> int
    decreases k,
{
    if k <= 0 {
        0
    } else if is_char_boundary(b, k) {
        k
    } else {
        boundary_at_or_below(b, k - 1)
    }
}

/// The page text kept in an answer: all of it when it has at most
/// [`CONTENT_LIMIT`] bytes, else its longest prefix of at most
/// [`CONTENT_LIMIT`] bytes that ends on a character boundary (a character
/// cut by the limit is dropped whole).
pub open spec fn truncated_bytes(b: Seq<u8>) -> Seq<u8> {
    if b.len() > CONTENT_LIMIT {
        b.subrange(0, boundary_at_or_below(b, CONTENT_LIMIT as int))
    } else {
        b
    }
}

/// The characters kept in an answer: those whose encoding is [`truncated_bytes`].
pub open spec fn truncated_text(t: Seq<char>) -> Seq<char> {
    decode_utf8(truncated_bytes(encode_utf8(t)))
}

proof fn lemma_boundary_at_or_below(b: Seq<u8>, k: int)
    requires
        valid_utf8(b),
        0 <= k <= b.len(),
    ensures
        0 <= boundary_at_or_below(b, k) <= k,
        is_char_boundary(b, boundary_at_or_below(b, k)),
        forall|j: int| boundary_at_or_below(b, k) < j <= k ==> !is_char_boundary(b, j),
    decreases k,
{
    broadcast use vstd::utf8::group_utf8_lib;

    if k > 0 && !is_char_boundary(b, k) {
        lemma_boundary_at_or_below(b, k - 1);
    }
}

proof fn lemma_boundary_within_four(b: Seq<u8>, k: int)
    requires
        valid_utf8(b),
        0 <= k <= b.len(),
    ensures
        exists|j: int| k - 3 <= j <= k && 0 <= j && is_char_boundary(b, j),
    decreases b.len(),
{
    if k <= 3 {
        assert(is_char_boundary(b, 0));
    } else {
        let l = length_of_first_scalar(b);
        let tail = pop_first_scalar(b);
        assert(1 <= l <= 4);
        assert(tail.len() == b.len() - l);
        lemma_boundary_within_four(tail, k - l);
        let j2 = choose|j: int| (k - l) - 3 <= j <= k - l && 0 <= j && is_char_boundary(tail, j);
        assert(is_char_boundary(b, j2 + l));
    }
}

/// Cuts the page text to at most [`CONTENT_LIMIT`] bytes, dropping a
/// character that the limit would cut in two.
pub fn truncate_content(text: &str) -> (r: String)
    ensures
        encode_utf8(r@) == truncated_bytes(text.spec_bytes()),
        r@ == decode_utf8(truncated_bytes(text.spec_bytes())),
{
    broadcast use vstd::utf8::group_utf8_lib;

    let n: usize = text.as_bytes().len();
    assert(text.spec_bytes() == encode_utf8(text@));
    if n > CONTENT_LIMIT {
        let ghost b = text.spec_bytes();
        let mut k: usize = CONTENT_LIMIT;
        while k > 0 && !text.is_char_boundary(k)
            invariant
                k <= CONTENT_LIMIT < n,
                n == b.len(),
                b == text.spec_bytes(),
                boundary_at_or_below(b, k as int) == boundary_at_or_below(b, CONTENT_LIMIT as int),
            decreases k,
        {
            k = k - 1;
        }
        proof {
            lemma_boundary_at_or_below(b, k as int);
        }
        let (head, _tail) = text.split_at(k);
        let r = head.to_owned();
        assert(head.spec_bytes() == encode_utf8(head@));
        r
    } else {
        text.to_owned()
    }
}

/// The text answered with has at most [`CONTENT_LIMIT`] bytes, is a prefix
/// of the page text ending on a character boundary, is the longest such
/// prefix (so at most one character, of at most three bytes below the limit,
/// is dropped), and is all of the text when the text is short enough.
pub proof fn lemma_truncated_is_bounded_prefix(t: Seq<char>)
    ensures
        ({
            let b = encode_utf8(t);
            let kept = truncated_bytes(b);
            &&& kept.len() <= CONTENT_LIMIT
            &&& kept.is_prefix_of(b)
            &&& is_char_boundary(b, kept.len() as int)
            &&& encode_utf8(truncated_text(t)) == kept
            &&& b.len() > CONTENT_LIMIT ==> forall|j: int|
                kept.len() < j <= CONTENT_LIMIT ==> !is_char_boundary(b, j)
            &&& b.len() > CONTENT_LIMIT ==> kept.len() >= CONTENT_LIMIT - 3
            &&& b.len() <= CONTENT_LIMIT ==> truncated_text(t) == t
        }),
{
    broadcast use vstd::utf8::group_utf8_lib;

    let b = encode_utf8(t);
    if b.len() > CONTENT_LIMIT {
        lemma_boundary_at_or_below(b, CONTENT_LIMIT as int);
        lemma_boundary_within_four(b, CONTENT_LIMIT as int);
        let k = boundary_at_or_below(b, CONTENT_LIMIT as int);
        assert(truncated_bytes(b) =~= b.subrange(0, k));
        assert(valid_utf8(b.subrange(0, k)));
    }
    assert(truncated_bytes(b) =~= b.subrange(0, truncated_bytes(b).len() as int));
}

/// The answer of `get_content`: the page text cut as [`truncated_text`]
/// says, or the error's text.
pub fn content_reply(text: Result<String, String>) -> (o: ToolOutcome)
    ensures
        text matches Ok(t) ==> o@ == success_text_view(truncated_text(t@)),
        text matches Err(e) ==> o@ == error_text_view(e@),
{
    match text {
        Ok(t) => {
            let s = t.as_str();
            assert(s.spec_bytes() == encode_utf8(t@));
            ToolOutcome::success_text(truncate_content(s))
        },
        Err(e) => ToolOutcome::error_text(e),
    }
}

/// The character for a 6-bit value in the standard base64 alphabet.
pub open spec fn base64_char(i: int) -> char {
    if i < 26 {
        (65 + i) as char
    } else if i < 52 {
        (97 + (i - 26)) as char
    } else if i < 62 {
        (48 + (i - 52)) as char
    } else if i == 62 {
        '+'
    } else {
        '/'
    }
}

/// Standard base64 (RFC 4648 alphabet, with `=` padding) of a byte sequence:
/// each group of three bytes gives four characters, a last group of one or
/// two bytes gives two or three characters and the padding.
pub open spec fn base64_view(b: Seq<u8>) -> Seq<char>
    decreases b.len(),
{
    if b.len() == 0 {
        seq![]
    } else if b.len() == 1 {
        let b0 = b[0] as int;
        seq![base64_char(b0 / 4), base64_char((b0 % 4) * 16), '=', '=']
    } else if b.len() == 2 {
        let b0 = b[0] as int;
        let b1 = b[1] as int;
        seq![base64_char(b0 / 4), base64_char((b0 % 4) * 16 + b1 / 16), base64_char((b1 % 16) * 4), '=']
    } else {
        let b0 = b[0] as int;
        let b1 = b[1] as int;
        let b2 = b[2] as int;
        seq![
            base64_char(b0 / 4),
            base64_char((b0 % 4) * 16 + b1 / 16),
            base64_char((b1 % 16) * 4 + b2 / 64),
            base64_char(b2 % 64),
        ] + base64_view(b.subrange(3, b.len() as int))
    }
}

/// The 6-bit value of a character of the standard base64 alphabet.
pub open spec fn base64_index(c: char) -> int {
    let x = c as int;
    if 65 <= x <= 90 {
        x - 65
    } else if 97 <= x <= 122 {
        x - 97 + 26
    } else if 48 <= x <= 57 {
        x - 48 + 52
    } else if c == '+' {
        62
    } else {
        63
    }
}

/// Standard base64 decoding of padded text: each group of four characters
/// gives three bytes, or one or two when the group ends in `==` or `=`.
pub open spec fn base64_decode_view(s: Seq<char>) -> Seq<u8>
    decreases s.len(),
{
    if s.len() < 4 {
        seq![]
    } else {
        let i0 = base64_index(s[0]);
        let i1 = base64_index(s[1]);
        let i2 = base64_index(s[2]);
        let i3 = base64_index(s[3]);
        let b0 = (i0 * 4 + i1 / 16) as u8;
        let b1 = ((i1 % 16) * 16 + i2 / 4) as u8;
        let b2 = ((i2 % 4) * 64 + i3) as u8;
        if s[2] == '=' {
            seq![b0]
        } else if s[3] == '=' {
            seq![b0, b1]
        } else {
            seq![b0, b1, b2] + base64_decode_view(s.subrange(4, s.len() as int))
        }
    }
}

proof fn lemma_base64_char_index(i: int)
    requires
        0 <= i < 64,
    ensures
        base64_index(base64_char(i)) == i,
        base64_char(i) != '=',
{
}

/// Decoding the base64 text of a screenshot gives its bytes back.
pub proof fn lemma_base64_round_trip(b: Seq<u8>)
    ensures
        base64_decode_view(base64_view(b)) == b,
    decreases b.len(),
{
    if b.len() == 0 {
    } else if b.len() == 1 {
        let b0 = b[0] as int;
        lemma_base64_char_index(b0 / 4);
        lemma_base64_char_index((b0 % 4) * 16);
        assert(base64_decode_view(base64_view(b)) =~= b);
    } else if b.len() == 2 {
        let b0 = b[0] as int;
        let b1 = b[1] as int;
        lemma_base64_char_index(b0 / 4);
        lemma_base64_char_index((b0 % 4) * 16 + b1 / 16);
        lemma_base64_char_index((b1 % 16) * 4);
        assert(base64_decode_view(base64_view(b)) =~= b);
    } else {
        let b0 = b[0] as int;
        let b1 = b[1] as int;
        let b2 = b[2] as int;
        lemma_base64_char_index(b0 / 4);
        lemma_base64_char_index((b0 % 4) * 16 + b1 / 16);
        lemma_base64_char_index((b1 % 16) * 4 + b2 / 64);
        lemma_base64_char_index(b2 % 64);
        let rest = b.subrange(3, b.len() as int);
        lemma_base64_round_trip(rest);
        let e = base64_view(b);
        assert(e.subrange(4, e.len() as int) =~= base64_view(rest));
        assert(base64_decode_view(e) =~= b);
    }
}

/// Whether the length of the base64 text of `n` bytes fits in a `usize`;
/// the encoder panics otherwise.
pub open spec fn base64_len_fits(n: nat) -> bool {
    (n / 3) * 4 + (if n % 3 == 0 { 0int } else { 4int }) <= usize::MAX
}

/// Encodes bytes with `base64::engine::general_purpose::STANDARD`
/// (`Engine::encode`): the standard alphabet with padding, as
/// [`base64_view`] spells out. The crate panics when the output length
/// overflows a `usize`, which `requires` leaves out.
#[verifier::external_body]
fn base64_standard(data: &[u8]) -> (s: String)
    requires
        base64_len_fits(data@.len()),
    ensures
        s@ == base64_view(data@),
{
    base64::Engine::encode(&base64::engine::general_purpose::STANDARD, data)
}

/// The answer of `screenshot`: the PNG bytes in base64 as an image, or the
/// error's text.
pub fn screenshot_reply(png: Result<Vec<u8>, String>) -> (o: ToolOutcome)
    requires
        png matches Ok(b) ==> base64_len_fits(b@.len()),
    ensures
        png matches Ok(b) ==> o@ == (OutcomeView {
            is_error: false,
            content: seq![ContentView::Image { data: base64_view(b@), mime_type: PNG_MIME@ }],
        }),
        png matches Err(e) ==> o@ == error_text_view(e@),
{
    match png {
        Ok(b) => {
            let data = base64_standard(b.as_slice());
            ToolOutcome::image(data, String::from_str(PNG_MIME))
        },
        Err(e) => ToolOutcome::error_text(e),
    }
}

/// The answer of `find_contacts`: the JSON text the script returned, or
/// the error's text.
pub fn contacts_reply(json: Result<String, String>) -> (o: ToolOutcome)
    ensures
        json matches Ok(j) ==> o@ == success_text_view(j@),
        json matches Err(e) ==> o@ == error_text_view(e@),
{
    match json {
        Ok(j) => ToolOutcome::success_text(j),
        Err(e) => ToolOutcome::error_text(e),
    }
}

} // verus!
