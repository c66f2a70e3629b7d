//! Serving the bytes of a stored file: who is admitted, which file is
//! opened, and which response answers a request with or without a `Range`
//! header.
//!
//! Nothing here touches a file. A request is answered in two rounds: the
//! first decides, from the request alone, whether a file is to be opened at
//! all; the second decides, from what opening it gave, what is sent.

use vstd::prelude::*;
use crate::decimal::{decimal, decimal_text};
use crate::response::{
    refusal, refuse, Body, BodyView, Response, ResponseView, BAD_REQUEST, FORBIDDEN,
    INTERNAL_ERROR, NOT_FOUND, OK, PARTIAL_CONTENT,
};
use crate::range::{
    content_range, content_range_text, parse_range_header, parsed_range, window, window_of,
    HttpRange, Window,
};
use crate::text::{split, split_on, texts};
use crate::whitelist::{member, WhitelistDatabase};

verus! {

/// The response to a request without a `Range` header: the whole file, with
/// the notice that ranges are accepted.
pub open spec fn whole_file(total: Option<u64>) -> ResponseView {
    ResponseView {
        status: OK,
        headers: seq![("Accept-Ranges"@, "bytes"@)],
        body: BodyView::Whole { length: total },
    }
}

/// The response that sends window `w` of a file of `total` bytes. `bounded`
/// tells whether the body ends after the bytes of the window or runs to the
/// end of the file.
pub open spec fn partial_content(w: Window, total: u64, bounded: bool) -> ResponseView {
    ResponseView {
        status: PARTIAL_CONTENT,
        headers: seq![
            ("Content-Length"@, decimal(w.size() as nat)),
            ("Content-Range"@, content_range(w, total)),
        ],
        body: BodyView::Window {
            start: w.start,
            limit: if bounded {
                Some(w.size() as u64)
            } else {
                None
            },
        },
    }
}

/// The response for a file that was opened, given the value of the `Range`
/// header, if the request has one, and the size of the file, if the file
/// system could tell it.
///
/// Without a `Range` header the whole file is sent. With one, the request is
/// refused as a bad request when the header cannot be read, when the size
/// is unknown, or when the range has no window in the file. An open range
/// runs to the end of the file; every other range ends with its window.
pub open spec fn negotiated(range: Option<Seq<char>>, total: Option<u64>) -> ResponseView {
    match range {
        None => whole_file(total),
        Some(value) => match (parsed_range(value), total) {
            (Ok(asked), Some(size)) => match window_of(asked, size) {
                Some(w) => partial_content(w, size, !(asked is Open)),
                None => refusal(BAD_REQUEST),
            },
            _ => refusal(BAD_REQUEST),
        },
    }
}

/// The name of the stored file that a request path asks for: the third of
/// the pieces that `/` cuts the path into. `/data/a.mp3` asks for `a.mp3`.
pub open spec fn blob_of(url: Seq<char>) -> Option<Seq<char>> {
    let pieces = split_on(url, '/');
    if pieces.len() > 2 {
        Some(pieces[2])
    } else {
        None
    }
}

/// The path under which the stored file `blob` is opened.
pub open spec fn blob_path(blob: Seq<char>) -> Seq<char> {
    "./songs/"@ + blob
}

/// What the caller is to do next for a request.
#[derive(Debug, PartialEq, Eq)]
pub enum Directive {
    /// Open the file at `path` for reading and report what came of it.
    Open { path: String },
    /// Send the response; the request is done.
    Respond(Response),
}

/// The value of a directive.
pub enum DirectiveView {
    Open { path: Seq<char> },
    Respond(ResponseView),
}

impl View for Directive {
    type V = DirectiveView;

    open spec fn view(&self) -> DirectiveView {
        match self {
            Directive::Open { path } => DirectiveView::Open { path: path@ },
            Directive::Respond(response) => DirectiveView::Respond(response@),
        }
    }
}

/// The first round. A request without a client address is a bad request; a
/// client address that the whitelist does not admit is forbidden; a path
/// that names no stored file is not found. Only a request that passes all
/// three has a file opened for it.
pub open spec fn admission(
    whitelist: Seq<Option<Seq<Seq<char>>>>,
    ip: Option<Seq<char>>,
    url: Seq<char>,
) -> DirectiveView {
    match ip {
        None => DirectiveView::Respond(refusal(BAD_REQUEST)),
        Some(address) => if !member(whitelist, address) {
            DirectiveView::Respond(refusal(FORBIDDEN))
        } else {
            match blob_of(url) {
                None => DirectiveView::Respond(refusal(NOT_FOUND)),
                Some(blob) => DirectiveView::Open { path: blob_path(blob) },
            }
        },
    }
}

/// What came of opening the file.
#[derive(Clone, Copy, Debug, PartialEq, Eq)]
pub enum Opened {
    /// The file could not be opened.
    Missing,
    /// The file is open; `size` is its size where the file system could
    /// tell it.
    File { size: Option<u64> },
}

/// The second round: the response once the file was opened or found
/// missing.
pub open spec fn answer(range: Option<Seq<char>>, opened: Opened) -> ResponseView {
    match opened {
        Opened::Missing => refusal(NOT_FOUND),
        Opened::File { size } => negotiated(range, size),
    }
}

/// The response that a failed positioning of the file is answered with.
pub fn seek_failed() -> (response: Response)
    ensures
        response@ == refusal(INTERNAL_ERROR),
{
    refuse(INTERNAL_ERROR)
}

/// The response for an opened file; see [`negotiated`].
pub fn negotiate(range: Option<&str>, total: Option<u64>) -> (response: Response)
    ensures
        response@ == negotiated(
            match range {
                Some(value) => Some(value@),
                None => None,
            },
            total,
        ),
{
    match range {
        None => {
            let mut headers: Vec<(String, String)> = Vec::new();
            headers.push(("Accept-Ranges".to_owned(), "bytes".to_owned()));
            let response = Response { status: OK, headers, body: Body::Whole { length: total } };
            assert(response@.headers =~= whole_file(total).headers);
            response
        },
        Some(value) => {
            let asked = match parse_range_header(value) {
                Ok(asked) => asked,
                Err(_) => {
                    return refuse(BAD_REQUEST);
                },
            };
            let size = match total {
                Some(size) => size,
                None => {
                    return refuse(BAD_REQUEST);
                },
            };
            let w = match window(asked, size) {
                Some(w) => w,
                None => {
                    return refuse(BAD_REQUEST);
                },
            };
            let length = w.len();
            let limit = match asked {
                HttpRange::Open { start: _ } => None,
                _ => Some(length),
            };
            let mut headers: Vec<(String, String)> = Vec::new();
            headers.push(("Content-Length".to_owned(), decimal_text(length)));
            headers.push(("Content-Range".to_owned(), content_range_text(w, size)));
            let response = Response {
                status: PARTIAL_CONTENT,
                headers,
                body: Body::Window { start: w.start, limit },
            };
            assert(response@.headers =~= partial_content(w, size, !(asked is Open)).headers);
            response
        },
    }
}

/// The first round of a request for stored bytes: decides from the client
/// address, the whitelist and the request path whether a file is opened.
/// `ip` is the value of the client-address header, if the request has one.
pub fn get_audio_data(whitelist: &WhitelistDatabase, ip: Option<&str>, url: &str) -> (directive:
    Directive)
    ensures
        directive@ == admission(
            whitelist.rows(),
            match ip {
                Some(address) => Some(address@),
                None => None,
            },
            url@,
        ),
{
    let address = match ip {
        Some(address) => address,
        None => {
            return Directive::Respond(refuse(BAD_REQUEST));
        },
    };
    if !whitelist.is_allowed(address) {
        return Directive::Respond(refuse(FORBIDDEN));
    }
    let pieces = split(url, '/');
    if pieces.len() > 2 {
        let mut path = "./songs/".to_owned();
        path.push_str(pieces[2].as_str());
        Directive::Open { path }
    } else {
        Directive::Respond(refuse(NOT_FOUND))
    }
}

/// The second round of a request for stored bytes: the response, given the
/// value of the `Range` header, if the request has one, and what came of
/// opening the file.
pub fn serve_opened(range: Option<&str>, opened: Opened) -> (response: Response)
    ensures
        response@ == answer(
            match range {
                Some(value) => Some(value@),
                None => None,
            },
            opened,
        ),
{
    match opened {
        Opened::Missing => refuse(NOT_FOUND),
        Opened::File { size } => negotiate(range, size),
    }
}

/// No file is opened for a request that is not admitted: a request without
/// a client address is answered as a bad request, one whose address the
/// whitelist does not admit is answered as forbidden, and whenever a file is
/// opened the request carries an address that the whitelist admits.
pub proof fn lemma_unadmitted_opens_nothing(
    whitelist: Seq<Option<Seq<Seq<char>>>>,
    ip: Option<Seq<char>>,
    url: Seq<char>,
)
    ensures
        ip.is_none() ==> admission(whitelist, ip, url) == DirectiveView::Respond(
            refusal(BAD_REQUEST),
        ),
        ip matches Some(address) && !member(whitelist, address) ==> admission(whitelist, ip, url)
            == DirectiveView::Respond(refusal(FORBIDDEN)),
        admission(whitelist, ip, url) is Open ==> (ip matches Some(address) && member(
            whitelist,
            address,
        )),
{
}

/// A request that asks for a range is answered with the bytes of one window
/// of the file or refused: with a `Range` header the answer is never the
/// whole file, and its status is 206 or 400.
pub proof fn lemma_range_is_partial_or_refused(value: Seq<char>, total: Option<u64>)
    ensures
        negotiated(Some(value), total).status == PARTIAL_CONTENT || negotiated(Some(value), total)
            == refusal(BAD_REQUEST),
{
}

} // verus!
