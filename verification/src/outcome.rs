//! What a tool answers: a list of contents, flagged as a success or an error.
//! Every failure of the browser is answered this way, never as a protocol error.

use vstd::prelude::*;

verus! {

/// One piece of a tool's answer.
#[derive(Debug, Clone, PartialEq, Eq)]
pub enum Content {
    /// Plain text.
    Text(String),
    /// An image, its bytes in base64, with its MIME type.
    Image { data: String, mime_type: String },
}

/// The abstract value of a [`Content`].
pub enum ContentView {
    Text(Seq<char>),
    Image { data: Seq<char>, mime_type: Seq<char> },
}

impl View for Content {
    type V = ContentView;

    open spec fn view(&self) -> ContentView {
        match self {
            Content::Text(t) => ContentView::Text(t@),
            Content::Image { data, mime_type } => ContentView::Image { data: data@, mime_type: mime_type@ },
        }
    }
}

/// The answer of one tool call.
#[derive(Debug, Clone, PartialEq, Eq)]
pub struct ToolOutcome {
    pub is_error: bool,
    pub content: Vec<Content>,
}

/// The abstract value of a [`ToolOutcome`].
pub struct OutcomeView {
    pub is_error: bool,
    pub content: Seq<ContentView>,
}

impl View for ToolOutcome {
    type V = OutcomeView;

    open spec fn view(&self) -> OutcomeView {
        OutcomeView { is_error: self.is_error, content: self.content@.map_values(|c: Content| c@) }
    }
}

/// A successful answer made of one text.
pub open spec fn success_text_view(t: Seq<char>) -> OutcomeView {
    OutcomeView { is_error: false, content: seq![ContentView::Text(t)] }
}

/// An error answer made of one text.
pub open spec fn error_text_view(t: Seq<char>) -> OutcomeView {
    OutcomeView { is_error: true, content: seq![ContentView::Text(t)] }
}

impl ToolOutcome {
    /// A successful answer made of one text.
    pub fn success_text(t: String) -> (o: ToolOutcome)
        ensures
            o@ == success_text_view(t@),
    {
        let mut content = Vec::new();
        content.push(Content::Text(t));
        let o = ToolOutcome { is_error: false, content };
        assert(o@.content =~= seq![ContentView::Text(t@)]);
        o
    }

    /// An error answer made of one text.
    pub fn error_text(t: String) -> (o: ToolOutcome)
        ensures
            o@ == error_text_view(t@),
    {
        let mut content = Vec::new();
        content.push(Content::Text(t));
        let o = ToolOutcome { is_error: true, content };
        assert(o@.content =~= seq![ContentView::Text(t@)]);
        o
    }

    /// A successful answer made of one image.
    pub fn image(data: String, mime_type: String) -> (o: ToolOutcome)
        ensures
            o@ == (OutcomeView {
                is_error: false,
                content: seq![ContentView::Image { data: data@, mime_type: mime_type@ }],
            }),
    {
        let mut content = Vec::new();
        content.push(Content::Image { data, mime_type });
        let o = ToolOutcome { is_error: false, content };
        assert(o@.content =~= seq![ContentView::Image { data: data@, mime_type: mime_type@ }]);
        o
    }
}

} // verus!
