//! What the server is asked and what it answers.

use vstd::prelude::*;

verus! {

/// The status code of an answer that carries the file asked for.
pub const STATUS_OK: u16 = 200;

/// The status code of an answer to a request that names nothing servable.
pub const STATUS_NOT_FOUND: u16 = 404;

/// A request as far as the server looks at it. Only `path` decides the
/// answer; `method` is carried along and never inspected.
pub struct Request {
    pub method: String,
    pub path: String,
}

/// The mathematical value of a [`Request`].
pub ghost struct RequestView {
    pub method: Seq<char>,
    pub path: Seq<char>,
}

impl View for Request {
    type V = RequestView;

    open spec fn view(&self) -> RequestView {
        RequestView { method: self.method@, path: self.path@ }
    }
}

impl Request {
    /// A request for `path` made with `method`.
    pub fn new(method: String, path: String) -> (request: Request)
        ensures
            request.method == method,
            request.path == path,
    {
        Request { method, path }
    }
}

/// An answer: a status, the content type where a file is served, and the
/// body.
pub struct Response {
    pub status: u16,
    pub content_type: Option<String>,
    pub body: Vec<u8>,
}

/// The mathematical value of a [`Response`].
pub ghost struct ResponseView {
    pub status: int,
    pub content_type: Option<Seq<char>>,
    pub body: Seq<u8>,
}

/// The answer that serves `body` as `content_type`.
pub open spec fn found(content_type: Seq<char>, body: Seq<u8>) -> ResponseView {
    ResponseView { status: 200, content_type: Some(content_type), body }
}

/// The answer to a request that names nothing servable: no content type, an
/// empty body.
pub open spec fn not_found() -> ResponseView {
    ResponseView { status: 404, content_type: None, body: Seq::empty() }
}

impl View for Response {
    type V = ResponseView;

    open spec fn view(&self) -> ResponseView {
        ResponseView {
            status: self.status as int,
            content_type: match self.content_type {
                Some(t) => Some(t@),
                None => None,
            },
            body: self.body@,
        }
    }
}

impl Response {
    /// Whether this is one of the two answers the server gives: a file with
    /// its content type, or the empty not-found answer.
    pub open spec fn wf(&self) -> bool {
        ||| (self@.content_type is Some && self@ == found(self@.content_type->0, self@.body))
        ||| self@ == not_found()
    }

    /// The answer that serves `body` as `content_type`.
    pub fn ok(content_type: String, body: Vec<u8>) -> (response: Response)
        ensures
            response@ == found(content_type@, body@),
            response.wf(),
    {
        Response { status: STATUS_OK, content_type: Some(content_type), body }
    }

    /// The not-found answer.
    pub fn not_found() -> (response: Response)
        ensures
            response@ == not_found(),
            response.wf(),
    {
        Response { status: STATUS_NOT_FOUND, content_type: None, body: Vec::new() }
    }

    /// Whether a file is served.
    pub fn is_ok(&self) -> (b: bool)
        ensures
            b == (self@.status == 200),
    {
        self.status == STATUS_OK
    }
}

} // verus!
