//! Plain-value descriptions of outbound calls and their outcomes.  A
//! tool builds an `HttpPlan` from validated parameters; the process
//! edge performs the call and hands back what it saw; the tool's
//! interpreter turns every outcome into display text or an error
//! message.  Nothing here performs any transfer.

use vstd::prelude::*;
use crate::json::JsonVal;

verus! {

/// The HTTP method of a planned call.
#[derive(PartialEq, Eq, Structural, Clone, Copy, Debug)]
pub enum Method {
    Get,
    Post,
    Put,
    Delete,
}

/// One planned outbound call: method, full URL, extra headers, and an
/// optional JSON body.
pub struct HttpPlan {
    pub method: Method,
    pub url: String,
    pub headers: Vec<(String, String)>,
    pub body: Option<JsonVal>,
}

/// The header pairs of a plan, as character sequences.
pub open spec fn headers_view(h: Seq<(String, String)>) -> Seq<(Seq<char>, Seq<char>)> {
    h.map_values(|p: (String, String)| (p.0@, p.1@))
}

/// What came back from a call whose reply is decoded as structured
/// data when the status signals success.
pub enum JsonFetch {
    /// The request could not be sent; the transport's error text.
    ConnectError(String),
    /// A non-success status arrived: its display text and the reply
    /// body's text, empty where the body could not be read.
    HttpError(String, String),
    /// A success status arrived: the decoded body, or the decoder's
    /// error text.
    Parsed(Result<JsonVal, String>),
}

/// What came back from a call whose reply is used as plain text.
pub enum TextFetch {
    /// The request could not be sent; the transport's error text.
    ConnectError(String),
    /// A response arrived: whether its status signalled success, the
    /// status display text, and the body text or the error reading it.
    Response { ok: bool, status: String, body: Result<String, String> },
}

/// The body text of a response, or empty where reading it failed.
pub open spec fn body_or_empty(b: Result<String, String>) -> Seq<char> {
    match b {
        Ok(t) => t@,
        Err(_) => Seq::<char>::empty(),
    }
}

/// The body text of a response, defaulting to empty.
pub fn body_text(b: Result<String, String>) -> (r: String)
    ensures
        r@ == body_or_empty(b),
{
    match b {
        Ok(t) => t,
        Err(_) => String::new(),
    }
}

} // verus!
