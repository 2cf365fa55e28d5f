//! HTTP responses as plain values: a status code, an optional content type and
//! the body bytes.
use vstd::prelude::*;
use vstd::string::StrSliceExecFns;

verus! {

pub const STATUS_OK: u16 = 200;

pub const STATUS_NOT_FOUND: u16 = 404;

pub const STATUS_INTERNAL_ERROR: u16 = 500;

/// A response; `content_type` is `None` where the server's default applies.
pub struct Response {
    pub status: u16,
    pub content_type: Option<String>,
    pub body: Vec<u8>,
}

pub struct ResponseView {
    pub status: u16,
    pub content_type: Option<Seq<char>>,
    pub body: Seq<u8>,
}

impl View for Response {
    type V = ResponseView;

    open spec fn view(&self) -> ResponseView {
        ResponseView {
            status: self.status,
            content_type: match self.content_type {
                Some(t) => Some(t@),
                None => None,
            },
            body: self.body@,
        }
    }
}

/// The UTF-8 bytes of a text.
pub open spec fn text_bytes(s: Seq<char>) -> Seq<u8> {
    vstd::utf8::encode_utf8(s)
}

/// A response with the default content type and `msg` as its body.
pub open spec fn text_response(status: u16, msg: Seq<char>) -> ResponseView {
    ResponseView { status, content_type: None, body: text_bytes(msg) }
}

/// A response with the default content type and no body.
pub open spec fn empty_response(status: u16) -> ResponseView {
    ResponseView { status, content_type: None, body: Seq::empty() }
}

/// Builds a response whose body is the UTF-8 text of `msg`.
pub fn text(status: u16, msg: &str) -> (r: Response)
    ensures
        r@ == text_response(status, msg@),
{
    Response { status, content_type: None, body: msg.as_bytes_vec() }
}

/// Builds a response with no body.
pub fn empty(status: u16) -> (r: Response)
    ensures
        r@ == empty_response(status),
{
    let r = Response { status, content_type: None, body: Vec::new() };
    assert(r@.body =~= Seq::<u8>::empty());
    r
}

/// A request path that cannot be read as text: internal error, empty body.
pub fn path_encoding_error() -> (r: Response)
    ensures
        r@ == empty_response(STATUS_INTERNAL_ERROR),
{
    empty(STATUS_INTERNAL_ERROR)
}

} // verus!
