//! What a request is answered with.

use vstd::prelude::*;

verus! {

/// The answer to a request: an HTML page, a redirect, or a status code
/// with a plain-text message.
#[derive(Debug, Clone, PartialEq, Eq)]
pub enum Reply {
    /// `200 OK` with an HTML document.
    Page(String),
    /// A redirect to the given path.
    Redirect(String),
    /// The given status code with a plain-text body.
    Status(u16, String),
}

/// The view of a reply: the same shape, with texts as character sequences.
pub enum ReplyView {
    Page(Seq<char>),
    Redirect(Seq<char>),
    Status(u16, Seq<char>),
}

impl View for Reply {
    type V = ReplyView;

    open spec fn view(&self) -> ReplyView {
        match self {
            Reply::Page(s) => ReplyView::Page(s@),
            Reply::Redirect(s) => ReplyView::Redirect(s@),
            Reply::Status(c, s) => ReplyView::Status(*c, s@),
        }
    }
}

/// A plain-text answer with the status code `code`.
pub fn status(code: u16, msg: &str) -> (r: Reply)
    ensures
        r@ == ReplyView::Status(code, msg@),
{
    Reply::Status(code, String::from_str(msg))
}

/// A redirect to `path`.
pub fn redirect(path: &str) -> (r: Reply)
    ensures
        r@ == ReplyView::Redirect(path@),
{
    Reply::Redirect(String::from_str(path))
}

/// A `500 Internal Server Error` answer with the text `msg`.
pub fn server_error(msg: &str) -> (r: Reply)
    ensures
        r@ == ReplyView::Status(500, msg@),
{
    status(500, msg)
}

/// The answer to a failed step: the status code `code` and `prefix`
/// followed by the error's text.
pub open spec fn failure_reply(code: u16, prefix: Seq<char>, e: Seq<char>) -> ReplyView {
    ReplyView::Status(code, prefix + e)
}

/// The answer to a failed step: the status code `code` and `prefix`
/// followed by the error's text.
pub fn fail_with(code: u16, prefix: &str, e: &str) -> (r: Reply)
    ensures
        r@ == failure_reply(code, prefix@, e@),
{
    let mut m = String::from_str(prefix);
    m.append(e);
    Reply::Status(code, m)
}

} // verus!
