//! The two answers this server gives.

use vstd::prelude::*;

verus! {

/// An HTTP response, held as plain values: the status code, the headers in
/// the order in which they are sent, and the body.
#[derive(Debug, Clone, PartialEq, Eq)]
pub struct Response {
    /// The HTTP status code.
    pub status_code: u16,
    /// The headers, each a name and a value.
    pub headers: Vec<(String, String)>,
    /// The body, sent as UTF-8.
    pub body: String,
}

/// The mathematical value of a [`Response`].
#[verifier::ext_equal]
pub struct ResponseView {
    pub status_code: u16,
    pub headers: Seq<(Seq<char>, Seq<char>)>,
    pub body: Seq<char>,
}

impl View for Response {
    type V = ResponseView;

    open spec fn view(&self) -> ResponseView {
        ResponseView {
            status_code: self.status_code,
            headers: self.headers.deep_view(),
            body: self.body@,
        }
    }
}

/// A plain-text page: status 200, one `Content-Type` header that announces
/// UTF-8 text, and `text` as the body, unchanged.
pub open spec fn text_response(text: Seq<char>) -> ResponseView {
    ResponseView {
        status_code: 200,
        headers: seq![("Content-Type"@, "text/plain; charset=utf-8"@)],
        body: text,
    }
}

/// The answer to a request that no route takes: status 404, no header and
/// an empty body.
pub open spec fn empty_404_response() -> ResponseView {
    ResponseView { status_code: 404, headers: Seq::empty(), body: Seq::empty() }
}

impl Response {
    /// Builds the response that serves `text` as a plain-text page.
    pub fn text(text: String) -> (response: Response)
        ensures
            response@ == text_response(text@),
    {
        let mut headers: Vec<(String, String)> = Vec::new();
        headers.push(("Content-Type".to_owned(), "text/plain; charset=utf-8".to_owned()));
        Response { status_code: 200, headers, body: text }
    }

    /// Builds the empty response with status 404.
    pub fn empty_404() -> (response: Response)
        ensures
            response@ == empty_404_response(),
    {
        Response { status_code: 404, headers: Vec::new(), body: String::new() }
    }
}

} // verus!
