//! What is sent back on a connection: a status class and a body.

use vstd::prelude::*;
use vstd::string::*;

verus! {

/// The status class of a response. No other class is ever produced.
#[derive(Clone, Copy, Debug, PartialEq, Eq, Structural)]
pub enum Status {
    /// `200 OK`
    Success,
    /// `404 Not Found`
    NotFound,
}

/// The numeric code of a status.
pub open spec fn status_code(status: Status) -> u16 {
    match status {
        Status::Success => 200,
        Status::NotFound => 404,
    }
}

/// The status line and the blank line that stand before the body.
pub open spec fn head_of(status: Status) -> Seq<char> {
    match status {
        Status::Success => "HTTP/1.1 200 OK\r\n\r\n"@,
        Status::NotFound => "HTTP/1.1 404 Not Found\r\n\r\n"@,
    }
}

/// The body that confirms a completed challenge.
pub open spec fn started_body() -> Seq<char> {
    "Killswitch is started\n"@
}

/// The diagnostic body of a rejected request.
pub open spec fn not_found_body() -> Seq<char> {
    "404 - Url path not found or secret is not valid\n"@
}

impl Status {
    /// The numeric code: 200 or 404.
    pub fn code(self) -> (code: u16)
        ensures
            code == status_code(self),
    {
        match self {
            Status::Success => 200,
            Status::NotFound => 404,
        }
    }

    /// The status line followed by the blank line that ends the header.
    pub fn head(self) -> (head: &'static str)
        ensures
            head@ == head_of(self),
    {
        match self {
            Status::Success => "HTTP/1.1 200 OK\r\n\r\n",
            Status::NotFound => "HTTP/1.1 404 Not Found\r\n\r\n",
        }
    }
}

/// One response: exactly one is written per request.
#[derive(Clone, Debug, PartialEq, Eq)]
pub struct Response {
    pub status: Status,
    pub body: String,
}

/// A response as plain values.
pub struct ResponseView {
    pub status: Status,
    pub body: Seq<char>,
}

impl View for Response {
    type V = ResponseView;

    open spec fn view(&self) -> ResponseView {
        ResponseView { status: self.status, body: self.body@ }
    }
}

/// The characters that go on the wire for a response: head, then the body
/// verbatim.
pub open spec fn wire_of(response: ResponseView) -> Seq<char> {
    head_of(response.status) + response.body
}

impl Response {
    /// A success response that delivers `body` verbatim.
    pub fn ok(body: String) -> (response: Response)
        ensures
            response@ == (ResponseView { status: Status::Success, body: body@ }),
    {
        Response { status: Status::Success, body }
    }

    /// The success response of a completed challenge.
    pub fn started() -> (response: Response)
        ensures
            response@ == (ResponseView { status: Status::Success, body: started_body() }),
    {
        Response { status: Status::Success, body: String::from_str("Killswitch is started\n") }
    }

    /// The failure response, with its fixed diagnostic.
    pub fn not_found() -> (response: Response)
        ensures
            response@ == (ResponseView { status: Status::NotFound, body: not_found_body() }),
    {
        Response {
            status: Status::NotFound,
            body: String::from_str("404 - Url path not found or secret is not valid\n"),
        }
    }

    /// The text to write to the connection.
    pub fn to_http(&self) -> (wire: String)
        ensures
            wire@ == wire_of(self@),
    {
        let head = String::from_str(self.status.head());
        head.concat(self.body.as_str())
    }
}

} // verus!
