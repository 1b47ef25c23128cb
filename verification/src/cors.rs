//! Cross-origin headers for every response, and the answer to preflight
//! requests that no route takes.

use vstd::prelude::*;
use crate::http::{header_views, Header, Method, NO_CONTENT};

verus! {

/// The fairing that opens the API to pages of other origins.
#[derive(Debug, Clone, Copy, PartialEq, Eq)]
pub struct CORS;

/// What is shown of a fairing when the server starts.
#[derive(Debug, Clone, Copy, PartialEq, Eq)]
pub struct Info {
    pub name: &'static str,
    /// Whether the fairing acts on responses.
    pub on_response: bool,
}

/// What the fairing changes in an outgoing response.
#[derive(Debug, Clone, PartialEq, Eq)]
pub struct ResponseEdit {
    /// Headers to set, each in place of what the response holds under its
    /// name.
    pub headers: Vec<Header>,
    /// The status to answer with instead of the handler's, if any.
    pub status: Option<u16>,
    /// Whether the body is taken out of the response.
    pub drop_body: bool,
}

/// The four cross-origin headers, in the order in which they are set.
pub open spec fn cors_headers() -> Seq<(Seq<char>, Seq<char>)> {
    seq![
        ("Access-Control-Allow-Origin"@, "*"@),
        ("Access-Control-Allow-Methods"@, "POST, GET, PATCH, OPTIONS"@),
        ("Access-Control-Allow-Headers"@, "*"@),
        ("Access-Control-Allow-Credentials"@, "true"@),
    ]
}

/// Whether a request is a preflight that no route answered.
pub open spec fn is_unmatched_preflight(method: Method, routed: bool) -> bool {
    method == Method::Options && !routed
}

impl CORS {
    /// Name and kind of the fairing.
    pub fn info(&self) -> (info: Info)
        ensures
            info.name@ == "Attaching CORS headers to responses"@,
            info.on_response,
    {
        Info { name: "Attaching CORS headers to responses", on_response: true }
    }

    /// The edit for the response to a request of the given method, which a
    /// route matched or not. Every response gets the four cross-origin
    /// headers. A preflight that no route matched is answered with 204 and
    /// without a body; any other response keeps its status and body.
    pub fn on_response(&self, method: Method, routed: bool) -> (edit: ResponseEdit)
        ensures
            header_views(edit.headers@) == cors_headers(),
            is_unmatched_preflight(method, routed) ==> edit.status == Some(NO_CONTENT)
                && edit.drop_body,
            !is_unmatched_preflight(method, routed) ==> edit.status is None && !edit.drop_body,
    {
        let mut headers: Vec<Header> = Vec::new();
        headers.push(Header::new("Access-Control-Allow-Origin", "*"));
        headers.push(Header::new("Access-Control-Allow-Methods", "POST, GET, PATCH, OPTIONS"));
        headers.push(Header::new("Access-Control-Allow-Headers", "*"));
        headers.push(Header::new("Access-Control-Allow-Credentials", "true"));
        assert(header_views(headers@) =~= cors_headers());
        if method == Method::Options && !routed {
            ResponseEdit { headers, status: Some(NO_CONTENT), drop_body: true }
        } else {
            ResponseEdit { headers, status: None, drop_body: false }
        }
    }
}

} // verus!
