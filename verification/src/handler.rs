//! Answering one request.
//!
//! The metrics themselves are read by the caller: [`handle`] is given the
//! scrape as a closure and calls it where the route table asks for the
//! metrics page, and nowhere else.

use crate::response::{empty_404_response, text_response, Response};
use crate::route::{path_of, route, route_of, Request, RequestView, Route};
use vstd::prelude::*;

verus! {

/// Why a request could not be served.
#[derive(Debug, Clone, Copy, PartialEq, Eq, Structural)]
pub enum Failure {
    /// A thread panicked while it held the gatherer's lock.
    RegistryPoisoned,
}

/// What may be answered to a request.
///
/// A request that the route table does not send to the metrics page is owed
/// the empty 404 response. A request for the metrics page is answered with a
/// plain-text page, whatever its text, or fails on a poisoned gatherer.
pub open spec fn answers(req: RequestView, answer: Result<Response, Failure>) -> bool {
    match route_of(req) {
        Route::NotFound => answer matches Ok(reply) && reply@ == empty_404_response(),
        Route::Metrics => match answer {
            Ok(page) => page@ == text_response(page@.body),
            Err(failure) => failure == Failure::RegistryPoisoned,
        },
    }
}

/// What the outcome of a scrape is answered with: the scraped text, whole,
/// as a plain-text page, or the failure of the scrape.
pub open spec fn page_of(scraped: Result<String, Failure>, answer: Result<Response, Failure>) -> bool {
    match scraped {
        Ok(text) => answer matches Ok(page) && page@ == text_response(text@),
        Err(failure) => answer == Err::<Response, Failure>(failure),
    }
}

/// A request whose method is not `GET`, or whose path is not `/metrics`, is
/// answered with status 404, no header and an empty body.
pub proof fn lemma_other_requests_get_404(req: RequestView, answer: Result<Response, Failure>)
    requires
        answers(req, answer),
        req.method != "GET"@ || path_of(req.raw_url) != "/metrics"@,
    ensures
        answer is Ok,
        answer->Ok_0.status_code == 404,
        answer->Ok_0.headers@.len() == 0,
        answer->Ok_0.body@.len() == 0,
{
    let reply = answer->Ok_0;
    assert(reply@.headers.len() == 0);
}

/// A `GET` of `/metrics` that is answered at all is answered with status 200
/// and a single header, which announces plain text in UTF-8.
pub proof fn lemma_scrape_gets_200(req: RequestView, answer: Result<Response, Failure>)
    requires
        answers(req, answer),
        req.method == "GET"@,
        path_of(req.raw_url) == "/metrics"@,
        answer is Ok,
    ensures
        answer->Ok_0.status_code == 200,
        answer->Ok_0.headers@.len() == 1,
        answer->Ok_0.headers@[0].0@ == "Content-Type"@,
        answer->Ok_0.headers@[0].1@ == "text/plain; charset=utf-8"@,
{
    let page = answer->Ok_0;
    assert(page@.headers.len() == 1);
    assert(page@.headers[0] == ("Content-Type"@, "text/plain; charset=utf-8"@));
}

/// A scrape that gave a text is answered with status 200 and that text as
/// the body: as long as the text, and so not empty where the text is not.
pub proof fn lemma_scraped_text_is_served_whole(
    scraped: Result<String, Failure>,
    answer: Result<Response, Failure>,
)
    requires
        scraped is Ok,
        page_of(scraped, answer),
    ensures
        answer is Ok,
        answer->Ok_0.status_code == 200,
        answer->Ok_0.body@ == scraped->Ok_0@,
        scraped->Ok_0@.len() > 0 ==> answer->Ok_0.body@.len() > 0,
{
}

/// Two scrapes that gave the same text are answered alike: both with status
/// 200 and with the same headers and body. Nothing of one request is kept
/// for the next.
pub proof fn lemma_same_text_same_page(
    first: Result<String, Failure>,
    second: Result<String, Failure>,
    first_answer: Result<Response, Failure>,
    second_answer: Result<Response, Failure>,
)
    requires
        first is Ok,
        second is Ok,
        first->Ok_0@ == second->Ok_0@,
        page_of(first, first_answer),
        page_of(second, second_answer),
    ensures
        first_answer is Ok,
        second_answer is Ok,
        first_answer->Ok_0.status_code == 200,
        second_answer->Ok_0.status_code == 200,
        first_answer->Ok_0@ == second_answer->Ok_0@,
        first_answer->Ok_0.body@ == second_answer->Ok_0.body@,
{
}

/// Turns the outcome of a scrape into the answer to `GET /metrics`: the
/// scraped text is served whole as a plain-text page, and a failed scrape
/// fails the request with the same failure.
pub fn metrics_page(scraped: Result<String, Failure>) -> (answer: Result<Response, Failure>)
    ensures
        page_of(scraped, answer),
{
    match scraped {
        Ok(text) => Ok(Response::text(text)),
        Err(failure) => Err(failure),
    }
}

/// Answers one request.
///
/// `scrape` reads the metrics and renders them. It is called, once, only
/// where the request is for the metrics page, and what it returns is then
/// answered as [`page_of`] says. Any other request gets the empty 404
/// response without `scrape` being called.
pub fn handle<F: FnOnce() -> Result<String, Failure>>(req: &Request, scrape: F) -> (answer: Result<
    Response,
    Failure,
>)
    requires
        scrape.requires(()),
    ensures
        answers(req@, answer),
        route_of(req@) == Route::Metrics ==> exists|scraped: Result<String, Failure>|
            scrape.ensures((), scraped) && page_of(scraped, answer),
{
    match route(req) {
        Route::Metrics => metrics_page(scrape()),
        Route::NotFound => Ok(Response::empty_404()),
    }
}

} // verus!
