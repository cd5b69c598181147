//! Responses to HTTP requests.

use vstd::prelude::*;

use crate::text;

verus! {

/// A response: its status, the headers `Location` and `Set-Cookie` where it has
/// them, and its body.
pub struct HttpReply {
    pub status: u16,
    pub location: Option<String>,
    pub set_cookie: Option<String>,
    pub body: String,
}

/// The view of [`HttpReply`].
pub struct HttpReplyView {
    pub status: u16,
    pub location: Option<Seq<char>>,
    pub set_cookie: Option<Seq<char>>,
    pub body: Seq<char>,
}

impl View for HttpReply {
    type V = HttpReplyView;

    open spec fn view(&self) -> HttpReplyView {
        HttpReplyView {
            status: self.status,
            location: text::opt_text(self.location),
            set_cookie: text::opt_text(self.set_cookie),
            body: self.body@,
        }
    }
}

/// A response with a message and nothing else.
pub open spec fn plain_reply(status: u16, message: Seq<char>) -> HttpReplyView {
    HttpReplyView { status, location: None, set_cookie: None, body: message }
}

/// A response that leads to a URL.
pub open spec fn redirect_reply(url: Seq<char>) -> HttpReplyView {
    HttpReplyView { status: 302, location: Some(url), set_cookie: None, body: seq![] }
}

/// A response that leads to a URL and sets a cookie.
pub open spec fn cookie_reply(url: Seq<char>, cookie: Seq<char>) -> HttpReplyView {
    HttpReplyView { status: 302, location: Some(url), set_cookie: Some(cookie), body: seq![] }
}

/// Whether a response refuses a request: an error status, no cookie and no
/// redirect.
pub open spec fn is_refusal(reply: HttpReplyView) -> bool {
    &&& 400 <= reply.status <= 599
    &&& reply.set_cookie is None
    &&& reply.location is None
}

/// A response with a message and nothing else.
pub fn plain(status: u16, message: &str) -> (r: HttpReply)
    ensures
        r@ == plain_reply(status, message@),
{
    HttpReply { status, location: None, set_cookie: None, body: message.to_string() }
}

/// A response that leads to a URL.
pub fn redirect(url: String) -> (r: HttpReply)
    ensures
        r@ == redirect_reply(url@),
{
    HttpReply { status: 302, location: Some(url), set_cookie: None, body: String::new() }
}

/// A response that leads to a URL and sets a cookie.
pub fn redirect_with_cookie(url: String, cookie: String) -> (r: HttpReply)
    ensures
        r@ == cookie_reply(url@, cookie@),
{
    HttpReply { status: 302, location: Some(url), set_cookie: Some(cookie), body: String::new() }
}

} // verus!
