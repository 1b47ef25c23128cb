//! Plain values for what the transport carries: methods, status codes,
//! headers and the two shapes of a refused request.

use vstd::prelude::*;

verus! {

/// Status code of a response without content.
pub const NO_CONTENT: u16 = 204;

/// Status code of a request that cannot be served as it was sent.
pub const BAD_REQUEST: u16 = 400;

/// Status code of a request that did not prove who sent it.
pub const UNAUTHORIZED: u16 = 401;

/// The method of a request.
#[derive(Debug, Clone, Copy, PartialEq, Eq, Structural)]
pub enum Method {
    Get,
    Put,
    Post,
    Delete,
    Options,
    Head,
    Trace,
    Connect,
    Patch,
}

/// One header of a response. Setting it replaces what the response held
/// under the same name.
#[derive(Debug, Clone, PartialEq, Eq)]
pub struct Header {
    pub name: String,
    pub value: String,
}

impl View for Header {
    type V = (Seq<char>, Seq<char>);

    open spec fn view(&self) -> (Seq<char>, Seq<char>) {
        (self.name@, self.value@)
    }
}

impl Header {
    /// A header with the given name and value.
    pub fn new(name: &str, value: &str) -> (h: Header)
        ensures
            h@ == (name@, value@),
    {
        Header { name: name.to_owned(), value: value.to_owned() }
    }
}

/// The headers of a list as pairs of name and value, in order.
pub open spec fn header_views(headers: Seq<Header>) -> Seq<(Seq<char>, Seq<char>)> {
    Seq::new(headers.len(), |i: int| headers[i]@)
}

/// A request answered with status 400 and a message for the client.
#[derive(Debug, Clone, PartialEq, Eq)]
pub struct BadRequest {
    pub message: String,
}

impl View for BadRequest {
    type V = Seq<char>;

    open spec fn view(&self) -> Seq<char> {
        self.message@
    }
}

impl BadRequest {
    /// A refusal that carries `message`.
    pub fn new(message: &str) -> (e: BadRequest)
        ensures
            e@ == message@,
    {
        BadRequest { message: message.to_owned() }
    }
}

/// A request refused with a status of the handler's choice and a message.
#[derive(Debug, Clone, PartialEq, Eq)]
pub struct Rejection {
    pub status: u16,
    pub message: String,
}

impl View for Rejection {
    type V = (u16, Seq<char>);

    open spec fn view(&self) -> (u16, Seq<char>) {
        (self.status, self.message@)
    }
}

impl Rejection {
    /// The same refusal as `error`, with status 400 spelled out.
    pub fn bad_request(error: BadRequest) -> (e: Rejection)
        ensures
            e@ == (BAD_REQUEST, error@),
    {
        Rejection { status: BAD_REQUEST, message: error.message }
    }
}

} // verus!
