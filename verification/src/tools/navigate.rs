//! Navigating to a URL. A navigation without a kept page first makes sure a
//! browser runs (launching one when none listens) and then opens the page
//! the session keeps; later ones reuse it, and a failed navigation forgets it.

use vstd::prelude::*;
use crate::outcome::{ToolOutcome, OutcomeView, ContentView, success_text_view, error_text_view};
use crate::srv::{PageSlot, page_lookup, no_page_text};
use crate::err::{Error, ErrorView, is_message_of};

verus! {

/// The parameters of `navigate`.
#[derive(Debug, Clone, PartialEq, Eq)]
pub struct NavParams {
    /// URL to navigate to.
    pub url: String,
}

/// What the application does next while navigating.
pub enum NavAction {
    /// Load this URL in the current page and report the outcome.
    Goto(String),
    /// Make sure a browser runs and is connected: run the launch
    /// ([`crate::chrome::Launcher`]) and the wait for its port
    /// ([`crate::chrome::ReadyPoll`]), connect to its DevTools endpoint,
    /// and report the outcome.
    StartBrowser,
    /// Open a new page at this URL and report it, or the error.
    OpenPage(String),
    /// Read the current page's URL and report it.
    ReadUrl,
    /// Answer the tool call.
    Reply(ToolOutcome),
}

/// The abstract value of a [`NavAction`].
pub enum NavActionView {
    Goto(Seq<char>),
    StartBrowser,
    OpenPage(Seq<char>),
    ReadUrl,
    Reply(OutcomeView),
}

impl View for NavAction {
    type V = NavActionView;

    open spec fn view(&self) -> NavActionView {
        match self {
            NavAction::Goto(u) => NavActionView::Goto(u@),
            NavAction::StartBrowser => NavActionView::StartBrowser,
            NavAction::OpenPage(u) => NavActionView::OpenPage(u@),
            NavAction::ReadUrl => NavActionView::ReadUrl,
            NavAction::Reply(o) => NavActionView::Reply(o@),
        }
    }
}

/// The abstract value of an outcome that carries nothing or an error text.
pub open spec fn unit_result_view(r: Result<(), String>) -> Result<(), Seq<char>> {
    match r {
        Ok(()) => Ok(()),
        Err(e) => Err(e@),
    }
}

/// The abstract value of an opened page or an error text.
pub open spec fn page_result_view<P>(r: Result<P, String>) -> Result<P, Seq<char>> {
    match r {
        Ok(p) => Ok(p),
        Err(e) => Err(e@),
    }
}

/// The abstract value of a URL read back from the page.
pub open spec fn url_result_view(r: Result<Option<String>, String>) -> Result<Option<Seq<char>>, Seq<char>> {
    match r {
        Ok(Some(u)) => Ok(Some(u@)),
        Ok(None) => Ok(None),
        Err(e) => Err(e@),
    }
}

/// `navigated to <url>`.
pub open spec fn navigated_text(url: Seq<char>) -> Seq<char> {
    "navigated to "@ + url
}

/// The first step: reuse the current page; else open one in the connected
/// browser, or start the browser first when none is connected.
pub open spec fn nav_start<P>(url: Seq<char>, slot: Option<P>, connected: bool) -> NavActionView {
    match slot {
        Some(_) => NavActionView::Goto(url),
        None => if connected {
            NavActionView::OpenPage(url)
        } else {
            NavActionView::StartBrowser
        },
    }
}

/// After starting the browser: open the page, or answer with the error's text.
pub open spec fn nav_on_browser(url: Seq<char>, started: Result<(), ErrorView>, a: NavActionView) -> bool {
    match started {
        Ok(()) => a == NavActionView::OpenPage(url),
        Err(e) => exists|m: Seq<char>| is_message_of(e, m) && a == NavActionView::Reply(error_text_view(m)),
    }
}

/// After loading the URL in the current page: read its URL back, or
/// forget the page and answer with the error.
pub open spec fn nav_on_goto<P>(slot: Option<P>, r: Result<(), Seq<char>>) -> (Option<P>, NavActionView) {
    match r {
        Ok(()) => (slot, NavActionView::ReadUrl),
        Err(e) => (None, NavActionView::Reply(error_text_view(e))),
    }
}

/// After opening a page: keep it and read its URL, or answer with the error.
pub open spec fn nav_on_open<P>(slot: Option<P>, r: Result<P, Seq<char>>) -> (Option<P>, NavActionView) {
    match r {
        Ok(p) => (Some(p), NavActionView::ReadUrl),
        Err(e) => (slot, NavActionView::Reply(error_text_view(e))),
    }
}

/// After reading the page's URL: name it, or the requested URL when the
/// page has none, or answer with the error.
pub open spec fn nav_on_url(url: Seq<char>, r: Result<Option<Seq<char>>, Seq<char>>) -> NavActionView {
    match r {
        Ok(Some(u)) => NavActionView::Reply(success_text_view(navigated_text(u))),
        Ok(None) => NavActionView::Reply(success_text_view(navigated_text(url))),
        Err(e) => NavActionView::Reply(error_text_view(e)),
    }
}

/// One call of `navigate`.
pub struct Navigation {
    url: String,
}

impl View for Navigation {
    type V = Seq<char>;

    closed spec fn view(&self) -> Seq<char> {
        self.url@
    }
}

impl Navigation {
    /// A navigation to the URL of the parameters.
    pub fn new(p: NavParams) -> (n: Navigation)
        ensures
            n@ == p.url@,
    {
        Navigation { url: p.url }
    }

    /// The first action; `connected` tells whether the session holds a
    /// connection to a browser.
    pub fn start<P>(&self, slot: &PageSlot<P>, connected: bool) -> (a: NavAction)
        ensures
            a@ == nav_start(self@, slot@, connected),
    {
        match slot.page() {
            Ok(_) => NavAction::Goto(self.url.clone()),
            Err(_) => if connected {
                NavAction::OpenPage(self.url.clone())
            } else {
                NavAction::StartBrowser
            },
        }
    }

    /// Reacts to the outcome of starting the browser.
    pub fn on_browser(&self, started: Result<(), Error>) -> (a: NavAction)
        ensures
            nav_on_browser(
                self@,
                match started {
                    Ok(()) => Ok(()),
                    Err(e) => Err(e@),
                },
                a@,
            ),
    {
        match started {
            Ok(()) => NavAction::OpenPage(self.url.clone()),
            Err(e) => {
                let m = e.message();
                NavAction::Reply(ToolOutcome::error_text(m))
            },
        }
    }

    /// Reacts to loading the URL in the current page.
    pub fn on_goto<P>(&self, slot: &mut PageSlot<P>, loaded: Result<(), String>) -> (a: NavAction)
        ensures
            (final(slot)@, a@) == nav_on_goto(old(slot)@, unit_result_view(loaded)),
    {
        match loaded {
            Ok(()) => NavAction::ReadUrl,
            Err(e) => {
                slot.clear();
                NavAction::Reply(ToolOutcome::error_text(e))
            },
        }
    }

    /// Reacts to opening a new page.
    pub fn on_open<P>(&self, slot: &mut PageSlot<P>, opened: Result<P, String>) -> (a: NavAction)
        ensures
            (final(slot)@, a@) == nav_on_open(old(slot)@, page_result_view(opened)),
    {
        match opened {
            Ok(p) => {
                slot.set(p);
                NavAction::ReadUrl
            },
            Err(e) => NavAction::Reply(ToolOutcome::error_text(e)),
        }
    }

    /// Reacts to reading the page's URL.
    pub fn on_url(&self, read: Result<Option<String>, String>) -> (a: NavAction)
        ensures
            a@ == nav_on_url(self@, url_result_view(read)),
    {
        match read {
            Ok(Some(u)) => {
                let mut t = String::from_str("navigated to ");
                t.append(u.as_str());
                NavAction::Reply(ToolOutcome::success_text(t))
            },
            Ok(None) => {
                let mut t = String::from_str("navigated to ");
                t.append(self.url.as_str());
                NavAction::Reply(ToolOutcome::success_text(t))
            },
            Err(e) => NavAction::Reply(ToolOutcome::error_text(e)),
        }
    }
}

/// A session keeps one page: while it has one, navigation loads the URL in
/// it and never opens another, and a successful load keeps it.
pub proof fn lemma_navigation_reuses_page<P>(url: Seq<char>, page: P, connected: bool)
    ensures
        nav_start(url, Some(page), connected) == NavActionView::Goto(url),
        nav_on_goto(Some(page), Ok(())) == (Some(page), NavActionView::ReadUrl),
{
}

/// A failed load forgets the page: the tools that need one answer
/// `no page - call navigate first`, and the next navigation opens a new
/// page in the browser that is still connected.
pub proof fn lemma_failed_navigation_forgets_page<P>(page: P, err: Seq<char>, next_url: Seq<char>)
    ensures
        ({
            let (slot, action) = nav_on_goto(Some(page), Err(err));
            &&& slot is None
            &&& action == NavActionView::Reply(error_text_view(err))
            &&& page_lookup(slot) == Err::<P, Seq<char>>(no_page_text())
            &&& nav_start(next_url, slot, true) == NavActionView::OpenPage(next_url)
        }),
{
}

/// The first navigation of a session, with no page kept and no browser
/// connected, starts the browser (which launches one only when none listens
/// on the port), then opens the page at the requested URL; if the browser
/// cannot be started, it answers with the error's text and keeps no page.
pub proof fn lemma_first_navigation_starts_browser<P>(url: Seq<char>, a_ok: NavActionView, e: ErrorView, a_err: NavActionView)
    requires
        nav_on_browser(url, Ok(()), a_ok),
        nav_on_browser(url, Err(e), a_err),
    ensures
        nav_start(url, None::<P>, false) == NavActionView::StartBrowser,
        a_ok == NavActionView::OpenPage(url),
        a_err is Reply && a_err->Reply_0.is_error,
{
}

/// Only a navigation changes the session's page: a load that succeeds keeps
/// it, a load that fails forgets it, a page opened becomes it, and every
/// other step leaves it as it was.
pub proof fn lemma_navigation_slot_changes<P>(slot: Option<P>, page: P, err: Seq<char>)
    ensures
        nav_on_goto(slot, Ok(())).0 == slot,
        nav_on_goto(slot, Err(err)).0 == None::<P>,
        nav_on_open(slot, Ok(page)).0 == Some(page),
        nav_on_open(slot, Err(err)).0 == slot,
{
}

/// The page a navigation opens becomes the session's page: the other tools
/// act on it and the next navigation reuses it.
pub proof fn lemma_opened_page_is_kept<P>(slot: Option<P>, page: P, next_url: Seq<char>, connected: bool)
    ensures
        ({
            let (after, action) = nav_on_open(slot, Ok(page));
            &&& after == Some(page)
            &&& action == NavActionView::ReadUrl
            &&& page_lookup(after) == Ok::<P, Seq<char>>(page)
            &&& nav_start(next_url, after, connected) == NavActionView::Goto(next_url)
        }),
{
}

/// The answer of a navigation names the URL the page reports, whatever URL
/// was asked for (after a redirect it differs); only when the page reports
/// none does it name the requested URL. A failure to read the URL answers
/// with the failure's text.
pub proof fn lemma_navigation_reports_page_url(url: Seq<char>, other: Seq<char>, u: Seq<char>, e: Seq<char>)
    ensures
        nav_on_url(url, Ok(Some(u))) == NavActionView::Reply(
            OutcomeView { is_error: false, content: seq![ContentView::Text("navigated to "@ + u)] },
        ),
        nav_on_url(url, Ok(Some(u))) == nav_on_url(other, Ok(Some(u))),
        nav_on_url(url, Ok(None)) == NavActionView::Reply(
            OutcomeView { is_error: false, content: seq![ContentView::Text("navigated to "@ + url)] },
        ),
        nav_on_url(url, Err(e)) == NavActionView::Reply(
            OutcomeView { is_error: true, content: seq![ContentView::Text(e)] },
        ),
{
}

} // verus!
