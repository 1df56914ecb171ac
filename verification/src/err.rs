//! The library's error type and the text each error reads as.

use vstd::prelude::*;
use crate::text::{decimal, push_decimal};

verus! {

/// `std::io::Error`, carried opaquely by [`Error::Launch`].
#[verifier::external_type_specification]
#[verifier::external_body]
pub struct ExIoError(std::io::Error);

/// `chromiumoxide::error::CdpError`, the error of every DevTools call.
#[verifier::external_type_specification]
#[verifier::external_body]
pub struct ExCdpError(chromiumoxide::error::CdpError);

/// Errors of launching and connecting to the browser.
#[derive(Debug)]
pub enum Error {
    /// A failure reported by the browser or its DevTools connection.
    Chrome(String),
    /// A failure of the MCP service.
    Mcp(String),
    /// The browser process could not be started.
    Launch(std::io::Error),
    /// The debugging port did not answer within the given number of probes.
    Timeout { port: u16, attempts: u8 },
}

/// The abstract value of an [`Error`]; the I/O error of a failed launch is opaque.
pub enum ErrorView {
    Chrome(Seq<char>),
    Mcp(Seq<char>),
    Launch,
    Timeout { port: u16, attempts: u8 },
}

impl View for Error {
    type V = ErrorView;

    open spec fn view(&self) -> ErrorView {
        match self {
            Error::Chrome(m) => ErrorView::Chrome(m@),
            Error::Mcp(m) => ErrorView::Mcp(m@),
            Error::Launch(_) => ErrorView::Launch,
            Error::Timeout { port, attempts } => ErrorView::Timeout { port: *port, attempts: *attempts },
        }
    }
}

/// Renders an I/O error with its `Display` implementation. The text comes
/// from the operating system where the error does, so nothing is stated of it.
#[verifier::external_body]
fn io_error_text(e: &std::io::Error) -> String {
    e.to_string()
}

/// Renders a DevTools error with its `Display` implementation
/// (`CdpError` derives it with thiserror). Some variants carry operating
/// system or socket messages, so nothing is stated of the text.
#[verifier::external_body]
fn cdp_error_text(e: &chromiumoxide::error::CdpError) -> String {
    e.to_string()
}

/// The text of a timeout error: `timeout: port=<port> after <attempts> attempts`.
pub open spec fn timeout_text(port: u16, attempts: u8) -> Seq<char> {
    "timeout: port="@ + decimal(port as nat) + " after "@ + decimal(attempts as nat) + " attempts"@
}

/// A failure to start the browser process is a launch error.
impl From<std::io::Error> for Error {
    fn from(e: std::io::Error) -> (r: Error) {
        Error::Launch(e)
    }
}

impl vstd::std_specs::convert::FromSpecImpl<std::io::Error> for Error {
    open spec fn obeys_from_spec() -> bool {
        true
    }

    open spec fn from_spec(e: std::io::Error) -> Error {
        Error::Launch(e)
    }
}

/// Whether `m` is the text of an error with view `e`: exact for every
/// variant but a launch error, whose text after `launch: ` comes from the
/// operating system.
pub open spec fn is_message_of(e: ErrorView, m: Seq<char>) -> bool {
    match e {
        ErrorView::Chrome(x) => m == "chrome: "@ + x,
        ErrorView::Mcp(x) => m == "mcp: "@ + x,
        ErrorView::Launch => "launch: "@.is_prefix_of(m),
        ErrorView::Timeout { port, attempts } => m == timeout_text(port, attempts),
    }
}

impl Error {
    /// The text of the error, as it is displayed:
    /// `chrome: <msg>`, `mcp: <msg>`, `launch: <io error>` or
    /// `timeout: port=<port> after <attempts> attempts`.
    pub fn message(&self) -> (s: String)
        ensures
            self matches Error::Chrome(m) ==> s@ == "chrome: "@ + m@,
            self matches Error::Mcp(m) ==> s@ == "mcp: "@ + m@,
            self matches Error::Launch(_) ==> "launch: "@.is_prefix_of(s@),
            self matches Error::Timeout { port, attempts } ==> s@ == timeout_text(*port, *attempts),
            is_message_of(self@, s@),
    {
        match self {
            Error::Chrome(m) => {
                let mut s = String::from_str("chrome: ");
                s.append(m.as_str());
                s
            },
            Error::Mcp(m) => {
                let mut s = String::from_str("mcp: ");
                s.append(m.as_str());
                s
            },
            Error::Launch(e) => {
                let mut s = String::from_str("launch: ");
                let t = io_error_text(e);
                s.append(t.as_str());
                assert("launch: "@ =~= s@.subrange(0, "launch: "@.len() as int));
                s
            },
            Error::Timeout { port, attempts } => {
                let mut s = String::from_str("timeout: port=");
                push_decimal(&mut s, *port as u64);
                s.append(" after ");
                push_decimal(&mut s, *attempts as u64);
                s.append(" attempts");
                s
            },
        }
    }

    /// A DevTools error becomes a [`Error::Chrome`] holding its displayed
    /// text. That text can carry socket or operating-system messages, so the
    /// contract says only which variant comes out, not the text.
    pub fn from_cdp(e: &chromiumoxide::error::CdpError) -> (r: Error)
        ensures
            r is Chrome,
    {
        Error::Chrome(cdp_error_text(e))
    }
}

/// The text of each error, spelled out: `chrome: `, `mcp: ` or `launch: `
/// before the cause, and for a timeout the port and the number of attempts
/// in decimal.
pub proof fn lemma_message_texts(x: Seq<char>, m: Seq<char>, port: u16, attempts: u8)
    ensures
        is_message_of(ErrorView::Chrome(x), m) <==> m == "chrome: "@ + x,
        is_message_of(ErrorView::Mcp(x), m) <==> m == "mcp: "@ + x,
        is_message_of(ErrorView::Launch, m) <==> "launch: "@.is_prefix_of(m),
        is_message_of(ErrorView::Timeout { port, attempts }, m) <==> m == "timeout: port="@ + decimal(
            port as nat,
        ) + " after "@ + decimal(attempts as nat) + " attempts"@,
{
}

} // verus!
