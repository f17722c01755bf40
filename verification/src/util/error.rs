use crate::util::generic_json::{view_of, Json, JsonView};
use crate::util::text::{append_decimal, decimal_text};
use vstd::prelude::*;
use vstd::string::*;

verus! {

/// Why a request did not yield a value.
#[derive(Debug, PartialEq, Eq)]
pub enum Error {
    /// The request could not be carried out: the transport's own words.
    Client(String),
    /// The body was not JSON, or not of the expected shape: the path of the
    /// member that did not fit, or `body` for the document as a whole.
    Parse(String),
    /// The server answered with a status other than 200, and this cause.
    Status(u16, String),
    /// The quota is exhausted for this many more seconds.
    RateLimit(i64),
    Unknown(String),
    /// The endpoint asked for is not one of the resource endpoints.
    UnknownResource,
}

pub enum ErrorView {
    Client(Seq<char>),
    Parse(Seq<char>),
    Status(u16, Seq<char>),
    RateLimit(i64),
    Unknown(Seq<char>),
    UnknownResource,
}

impl View for Error {
    type V = ErrorView;

    open spec fn view(&self) -> ErrorView {
        match self {
            Error::Client(text) => ErrorView::Client(text@),
            Error::Parse(path) => ErrorView::Parse(path@),
            Error::Status(code, cause) => ErrorView::Status(*code, cause@),
            Error::RateLimit(seconds) => ErrorView::RateLimit(*seconds),
            Error::Unknown(text) => ErrorView::Unknown(text@),
            Error::UnknownResource => ErrorView::UnknownResource,
        }
    }
}

impl From<String> for Error {
    /// An error of no other kind, from the words for it.
    fn from(words: String) -> (r: Error) {
        Error::Unknown(words)
    }
}

impl vstd::std_specs::convert::FromSpecImpl<String> for Error {
    open spec fn obeys_from_spec() -> bool {
        true
    }

    open spec fn from_spec(words: String) -> Error {
        Error::Unknown(words)
    }
}

impl ErrorView {
    /// The error as a line of text.
    pub open spec fn message(self) -> Seq<char> {
        match self {
            ErrorView::Client(text) => text,
            ErrorView::Parse(path) => path,
            ErrorView::Status(code, cause) => decimal_text(code as int) + " "@ + cause,
            ErrorView::RateLimit(seconds) => "Reached the rate limit; "@ + decimal_text(
                seconds as int,
            ) + " seconds till reset"@,
            ErrorView::Unknown(text) => text,
            ErrorView::UnknownResource => "Unknown resource"@,
        }
    }
}

impl Error {
    /// The error as a line of text.
    pub fn message(&self) -> (r: String)
        ensures
            r@ == self@.message(),
    {
        match self {
            Error::Client(text) => text.clone(),
            Error::Parse(path) => path.clone(),
            Error::Status(code, cause) => {
                let mut out = String::new();
                append_decimal(&mut out, *code as i64);
                out.append(" ");
                out.append(cause.as_str());
                assert(out@ =~= self@.message());
                out
            },
            Error::RateLimit(seconds) => {
                let mut out = String::from_str("Reached the rate limit; ");
                append_decimal(&mut out, *seconds);
                out.append(" seconds till reset");
                out
            },
            Error::Unknown(text) => text.clone(),
            Error::UnknownResource => String::from_str("Unknown resource"),
        }
    }
}

/// The cause that a failed answer states, or a fixed text where it states
/// none or is no JSON.
pub open spec fn stated_cause(body: Option<JsonView>, member: Seq<char>) -> Seq<char> {
    match body {
        Some(json) => match json.member(member) {
            Some(JsonView::Str(cause)) => cause,
            _ => "Unknown fail cause"@,
        },
        None => "Unknown fail cause"@,
    }
}

/// The cause that a failed answer states, or a fixed text.
pub fn fail_cause(body: Option<&Json>, member: &str) -> (r: String)
    ensures
        r@ == stated_cause(view_of(body), member@),
{
    match body {
        Some(json) => match json.get(member) {
            Some(Json::Str(cause)) => cause.clone(),
            _ => String::from_str("Unknown fail cause"),
        },
        None => String::from_str("Unknown fail cause"),
    }
}

} // verus!
