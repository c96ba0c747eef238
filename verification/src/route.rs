//! The route table: which requests are answered with the metrics page.
//!
//! A request is looked at through two strings only, its method and its
//! target as the client wrote it. The target's query string plays no part in
//! routing, and nothing in the target is decoded.

use crate::text::same_text;
use vstd::prelude::*;
use vstd::std_specs::iter::IteratorSpec;

verus! {

/// What routing reads of an HTTP request.
#[derive(Debug, Clone, Copy, PartialEq, Eq)]
pub struct Request<'a> {
    /// The method, as sent: `GET`, `POST`, ...
    pub method: &'a str,
    /// The request target, as sent: percent-escapes are not decoded and the
    /// query string, if any, is still attached.
    pub raw_url: &'a str,
}

/// The mathematical value of a [`Request`].
pub struct RequestView {
    pub method: Seq<char>,
    pub raw_url: Seq<char>,
}

impl View for Request<'_> {
    type V = RequestView;

    open spec fn view(&self) -> RequestView {
        RequestView { method: self.method@, raw_url: self.raw_url@ }
    }
}

/// Where a request is sent.
#[derive(Debug, Clone, Copy, PartialEq, Eq, Structural)]
pub enum Route {
    /// `GET /metrics`: the rendered metrics are served.
    Metrics,
    /// Anything else.
    NotFound,
}

/// The path of a request target: what stands before the first `?`, or the
/// whole target where it holds no `?`.
pub open spec fn path_of(raw_url: Seq<char>) -> Seq<char> {
    match raw_url.index_of_first('?') {
        Some(at) => raw_url.take(at),
        None => raw_url,
    }
}

/// The route table. It has one entry: method `GET`, compared letter for
/// letter, and path `/metrics`, compared letter for letter.
pub open spec fn route_of(req: RequestView) -> Route {
    if req.method == "GET"@ && path_of(req.raw_url) == "/metrics"@ {
        Route::Metrics
    } else {
        Route::NotFound
    }
}

/// The path is a prefix of the target, holds no `?`, and ends either where
/// the target ends or just before a `?`.
pub proof fn lemma_path_of(raw_url: Seq<char>)
    ensures
        path_of(raw_url).len() <= raw_url.len(),
        path_of(raw_url) == raw_url.take(path_of(raw_url).len() as int),
        forall|i: int| 0 <= i < path_of(raw_url).len() ==> path_of(raw_url)[i] != '?',
        path_of(raw_url).len() < raw_url.len() ==> raw_url[path_of(raw_url).len() as int] == '?',
{
    raw_url.index_of_first_ensures('?');
    if raw_url.index_of_first('?') is None {
        assert(raw_url.take(raw_url.len() as int) =~= raw_url);
        assert forall|i: int| 0 <= i < raw_url.len() implies raw_url[i] != '?' by {
            if raw_url[i] == '?' {
                assert(raw_url.contains('?'));
            }
        }
    }
}

/// Only one prefix of a target has these three properties: its path.
pub proof fn lemma_path_of_unique(raw_url: Seq<char>, path: Seq<char>)
    requires
        path.len() <= raw_url.len(),
        path == raw_url.take(path.len() as int),
        forall|i: int| 0 <= i < path.len() ==> path[i] != '?',
        path.len() < raw_url.len() ==> raw_url[path.len() as int] == '?',
    ensures
        path_of(raw_url) == path,
{
    lemma_path_of(raw_url);
    let found = path_of(raw_url);
    if found.len() < path.len() {
        // The target has a `?` where `found` ends, and `path` would hold it.
        assert(path[found.len() as int] == raw_url[found.len() as int]);
    } else if path.len() < found.len() {
        // The target has a `?` where `path` ends, and `found` would hold it.
        assert(found[path.len() as int] == raw_url[path.len() as int]);
    }
}

/// A request reaches the metrics page exactly when its method is `GET` and
/// its target is `/metrics`, alone or with a query string behind it.
pub proof fn lemma_metrics_route(req: RequestView)
    ensures
        route_of(req) == Route::Metrics <==> req.method == "GET"@ && (req.raw_url == "/metrics"@
            || "/metrics?"@.is_prefix_of(req.raw_url)),
{
    reveal_strlit("/metrics");
    reveal_strlit("/metrics?");
    let url = req.raw_url;
    let page = "/metrics"@;
    lemma_path_of(url);
    if url == page {
        assert(url.take(8) =~= page);
        lemma_path_of_unique(url, page);
    } else if "/metrics?"@.is_prefix_of(url) {
        let head = url.take(9);
        assert(url[8] == head[8]);
        assert(url.take(8) =~= head.take(8));
        assert(head.take(8) =~= page);
        lemma_path_of_unique(url, page);
    } else if path_of(url) == page {
        // The path ends before the target does, since the target is not the
        // path: a `?` follows.
        assert(url.len() > 8) by {
            assert(url.take(url.len() as int) =~= url);
        }
        assert forall|i: int| 0 <= i < 8 implies url[i] == page[i] by {
            assert(url[i] == url.take(8)[i]);
        }
        assert(url.take(9) =~= "/metrics?"@);
    }
}

/// Tells whether the path of `raw_url` is `path`.
///
/// The two strings are walked side by side and the walk ends at the first
/// character that settles the answer, so the query string is never visited.
pub fn has_path(raw_url: &str, path: &str) -> (hit: bool)
    ensures
        hit == (path_of(raw_url@) == path@),
{
    let mut wanted = path.chars();
    let mut given = raw_url.chars();
    let ghost mut seen: int = 0;
    loop
        invariant
            0 <= seen <= path@.len(),
            seen <= raw_url@.len(),
            wanted.obeys_prophetic_iter_laws(),
            given.obeys_prophetic_iter_laws(),
            wanted.remaining() == path@.skip(seen),
            given.remaining() == raw_url@.skip(seen),
            path@.take(seen) == raw_url@.take(seen),
            forall|i: int| 0 <= i < seen ==> path@[i] != '?',
        decreases path@.len() - seen,
    {
        proof {
            lemma_path_of(raw_url@);
        }
        match wanted.next() {
            None => {
                // All of `path` stands at the head of the target: it is the
                // target's path if the target ends here or its query begins.
                let hit = match given.next() {
                    None => true,
                    Some(next) => next == '?',
                };
                proof {
                    assert(path@.take(seen) =~= path@);
                    if hit {
                        lemma_path_of_unique(raw_url@, path@);
                    }
                }
                return hit;
            },
            Some(want) => {
                if want == '?' {
                    // No path holds a `?`.
                    return false;
                }
                match given.next() {
                    None => {
                        return false;
                    },
                    Some(got) => {
                        if got != want {
                            return false;
                        }
                    },
                }
                proof {
                    seen = seen + 1;
                }
            },
        }
    }
}

/// Routes a request.
pub fn route(req: &Request) -> (r: Route)
    ensures
        r == route_of(req@),
{
    if same_text(req.method, "GET") && has_path(req.raw_url, "/metrics") {
        Route::Metrics
    } else {
        Route::NotFound
    }
}

} // verus!
