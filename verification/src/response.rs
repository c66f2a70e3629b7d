//! Responses as plain values: a status, header lines and a body.

use vstd::prelude::*;

verus! {

/// The request succeeded.
pub const OK: u16 = 200;

/// The response carries one window of the resource.
pub const PARTIAL_CONTENT: u16 = 206;

/// The request cannot be read or cannot be met.
pub const BAD_REQUEST: u16 = 400;

/// The client has to authenticate.
pub const UNAUTHORIZED: u16 = 401;

/// The client is not admitted.
pub const FORBIDDEN: u16 = 403;

/// Nothing is served under the path.
pub const NOT_FOUND: u16 = 404;

/// The server failed.
pub const INTERNAL_ERROR: u16 = 500;

/// What is sent as the body of a response.
#[derive(Debug, PartialEq, Eq)]
pub enum Body {
    /// Nothing.
    Empty,
    /// The given text.
    Text(String),
    /// The opened file from its first byte on; `length` is its size where
    /// the file system could tell it.
    Whole { length: Option<u64> },
    /// The opened file from byte `start` on: `limit` bytes of it, or all
    /// that is left where there is no limit. The bytes are streamed from the
    /// file, which is positioned at `start` first.
    Window { start: u64, limit: Option<u64> },
}

/// The value of a body.
pub enum BodyView {
    Empty,
    Text(Seq<char>),
    Whole { length: Option<u64> },
    Window { start: u64, limit: Option<u64> },
}

impl View for Body {
    type V = BodyView;

    open spec fn view(&self) -> BodyView {
        match self {
            Body::Empty => BodyView::Empty,
            Body::Text(text) => BodyView::Text(text@),
            Body::Whole { length } => BodyView::Whole { length: *length },
            Body::Window { start, limit } => BodyView::Window { start: *start, limit: *limit },
        }
    }
}

/// A response: status, header lines as pairs of name and value, body.
#[derive(Debug, PartialEq, Eq)]
pub struct Response {
    pub status: u16,
    pub headers: Vec<(String, String)>,
    pub body: Body,
}

/// The value of a response.
pub struct ResponseView {
    pub status: u16,
    pub headers: Seq<(Seq<char>, Seq<char>)>,
    pub body: BodyView,
}

/// The values of a list of header lines.
pub open spec fn header_views(headers: Seq<(String, String)>) -> Seq<(Seq<char>, Seq<char>)> {
    Seq::new(headers.len(), |i: int| (headers[i].0@, headers[i].1@))
}

impl View for Response {
    type V = ResponseView;

    open spec fn view(&self) -> ResponseView {
        ResponseView {
            status: self.status,
            headers: header_views(self.headers@),
            body: self.body@,
        }
    }
}

/// The response that refuses a request: the status, no header, no body.
pub open spec fn refusal(status: u16) -> ResponseView {
    ResponseView { status, headers: Seq::empty(), body: BodyView::Empty }
}

/// The response that carries `text`, with one header line where `header` is
/// given and none where it is not.
pub open spec fn text_response(
    status: u16,
    header: Option<(Seq<char>, Seq<char>)>,
    text: Seq<char>,
) -> ResponseView {
    ResponseView {
        status,
        headers: match header {
            Some(line) => seq![line],
            None => Seq::empty(),
        },
        body: BodyView::Text(text),
    }
}

/// A response with the given status, no header and no body.
pub fn refuse(status: u16) -> (response: Response)
    ensures
        response@ == refusal(status),
{
    let response = Response { status, headers: Vec::new(), body: Body::Empty };
    assert(response@.headers =~= Seq::empty());
    response
}

/// A response that carries `text` and no header.
pub fn plain(status: u16, text: String) -> (response: Response)
    ensures
        response@ == text_response(status, None, text@),
{
    let response = Response { status, headers: Vec::new(), body: Body::Text(text) };
    assert(response@.headers =~= Seq::empty());
    response
}

/// A response that carries `text` and the header line `name: value`.
pub fn with_header(status: u16, name: &str, value: &str, text: String) -> (response: Response)
    ensures
        response@ == text_response(status, Some((name@, value@)), text@),
{
    let mut headers: Vec<(String, String)> = Vec::new();
    headers.push((name.to_owned(), value.to_owned()));
    let response = Response { status, headers, body: Body::Text(text) };
    assert(response@.headers =~= seq![(name@, value@)]);
    response
}

} // verus!
