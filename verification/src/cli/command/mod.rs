use vstd::prelude::*;
use crate::http_client::error::ClientError;

pub mod file;
pub mod login;
pub mod logout;
pub mod signup;
pub mod upload;

verus! {

/// A line that a command shows.
#[derive(Debug)]
pub enum Line {
    /// This text.
    Text(String),
    /// This text, followed by the error as `Debug` writes it.
    Failure { prefix: String, error: ClientError },
}

/// The command shows exactly this one line of text.
pub open spec fn shows_text(out: Seq<Line>, text: Seq<char>) -> bool {
    &&& out.len() == 1
    &&& out[0] matches Line::Text(t)
    &&& t@ == text
}

/// The command shows nothing.
pub open spec fn shows_nothing(out: Seq<Line>) -> bool {
    out.len() == 0
}

/// The command shows `prefix` followed by the error.
pub open spec fn shows_failure(out: Seq<Line>, prefix: Seq<char>, e: ClientError) -> bool {
    &&& out.len() == 1
    &&& out[0] matches Line::Failure { prefix: p, error }
    &&& p@ == prefix
    &&& error == e
}

/// The command shows `prefix` followed by the error, then one line of text.
pub open spec fn shows_failure_then_text(out: Seq<Line>, prefix: Seq<char>, e: ClientError, text: Seq<char>) -> bool {
    &&& out.len() == 2
    &&& out[0] matches Line::Failure { prefix: p, error }
    &&& p@ == prefix
    &&& error == e
    &&& out[1] matches Line::Text(t)
    &&& t@ == text
}

/// One line of text.
pub fn text_line(text: &str) -> (out: Vec<Line>)
    ensures
        shows_text(out@, text@),
{
    let mut out = Vec::new();
    out.push(Line::Text(text.to_owned()));
    out
}

/// No line.
pub fn no_line() -> (out: Vec<Line>)
    ensures
        shows_nothing(out@),
{
    Vec::new()
}

/// `prefix` followed by the error.
pub fn failure_line(prefix: &str, error: ClientError) -> (out: Vec<Line>)
    ensures
        shows_failure(out@, prefix@, error),
{
    let mut out = Vec::new();
    out.push(Line::Failure { prefix: prefix.to_owned(), error });
    out
}

/// `prefix` followed by the error, then a line of text.
pub fn failure_then_text_lines(prefix: &str, error: ClientError, text: &str) -> (out: Vec<Line>)
    ensures
        shows_failure_then_text(out@, prefix@, error, text@),
{
    let mut out = Vec::new();
    out.push(Line::Failure { prefix: prefix.to_owned(), error });
    out.push(Line::Text(text.to_owned()));
    out
}

} // verus!
