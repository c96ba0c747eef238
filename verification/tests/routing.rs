use prometrics_exporter::route::{has_path, route, Request, Route};
use prometrics_exporter::text::same_text;

fn request<'a>(method: &'a str, raw_url: &'a str) -> Request<'a> {
    Request { method, raw_url }
}

#[test]
fn get_metrics_is_routed_to_the_metrics_page() {
    assert_eq!(route(&request("GET", "/metrics")), Route::Metrics);
}

#[test]
fn query_string_is_ignored() {
    assert_eq!(route(&request("GET", "/metrics?")), Route::Metrics);
    assert_eq!(route(&request("GET", "/metrics?name=tasks")), Route::Metrics);
    assert_eq!(route(&request("GET", "/metrics?a=1&b=2")), Route::Metrics);
    assert_eq!(route(&request("GET", "/metrics??")), Route::Metrics);
    assert_eq!(route(&request("GET", "/metrics?/other")), Route::Metrics);
}

#[test]
fn other_methods_are_not_found() {
    assert_eq!(route(&request("POST", "/metrics")), Route::NotFound);
    assert_eq!(route(&request("PUT", "/metrics")), Route::NotFound);
    assert_eq!(route(&request("DELETE", "/metrics")), Route::NotFound);
    assert_eq!(route(&request("HEAD", "/metrics")), Route::NotFound);
    assert_eq!(route(&request("OPTIONS", "/metrics")), Route::NotFound);
    assert_eq!(route(&request("", "/metrics")), Route::NotFound);
}

#[test]
fn method_is_compared_letter_for_letter() {
    assert_eq!(route(&request("get", "/metrics")), Route::NotFound);
    assert_eq!(route(&request("Get", "/metrics")), Route::NotFound);
    assert_eq!(route(&request("GE", "/metrics")), Route::NotFound);
    assert_eq!(route(&request("GETS", "/metrics")), Route::NotFound);
    assert_eq!(route(&request(" GET", "/metrics")), Route::NotFound);
}

#[test]
fn other_paths_are_not_found() {
    for method in ["GET", "POST", "PUT", "DELETE", "HEAD"] {
        assert_eq!(route(&request(method, "/")), Route::NotFound);
        assert_eq!(route(&request(method, "")), Route::NotFound);
        assert_eq!(route(&request(method, "/unknown")), Route::NotFound);
        assert_eq!(route(&request(method, "/metric")), Route::NotFound);
        assert_eq!(route(&request(method, "/metricss")), Route::NotFound);
        assert_eq!(route(&request(method, "/metrics/")), Route::NotFound);
        assert_eq!(route(&request(method, "/metrics/tasks")), Route::NotFound);
        assert_eq!(route(&request(method, "metrics")), Route::NotFound);
        assert_eq!(route(&request(method, "//metrics")), Route::NotFound);
        assert_eq!(route(&request(method, "/Metrics")), Route::NotFound);
        assert_eq!(route(&request(method, "/unknown?/metrics")), Route::NotFound);
        assert_eq!(route(&request(method, "?/metrics")), Route::NotFound);
    }
}

#[test]
fn target_is_not_decoded() {
    assert_eq!(route(&request("GET", "/%6Detrics")), Route::NotFound);
    assert_eq!(route(&request("GET", "/metrics%3Fx")), Route::NotFound);
    assert_eq!(route(&request("GET", "/metrics#top")), Route::NotFound);
    assert_eq!(route(&request("GET", "/metrics;v=1")), Route::NotFound);
}

#[test]
fn targets_beyond_ascii_are_compared_by_character() {
    assert_eq!(route(&request("GET", "/m\u{e9}trics")), Route::NotFound);
    assert_eq!(route(&request("GET", "/metrics\u{2753}")), Route::NotFound);
    assert_eq!(route(&request("GET", "/metrics?q=\u{e9}\u{4e2d}")), Route::Metrics);
}

#[test]
fn has_path_compares_what_stands_before_the_query() {
    assert!(has_path("/metrics", "/metrics"));
    assert!(has_path("/metrics?x", "/metrics"));
    assert!(has_path("/a/b?c?d", "/a/b"));
    assert!(!has_path("/a/b?c?d", "/a/b?c"));
    assert!(!has_path("/metrics", "/metric"));
    assert!(!has_path("/metric", "/metrics"));
    assert!(!has_path("/metrics/", "/metrics"));
    assert!(!has_path("/x", "/y"));
}

#[test]
fn has_path_on_empty_strings() {
    assert!(has_path("", ""));
    assert!(has_path("?", ""));
    assert!(has_path("?a=b", ""));
    assert!(!has_path("a", ""));
    assert!(!has_path("", "a"));
}

#[test]
fn a_path_with_a_query_mark_is_never_matched() {
    assert!(!has_path("/a?b", "/a?b"));
    assert!(!has_path("?", "?"));
    assert!(!has_path("/a", "/a?"));
}

#[test]
fn same_text_agrees_with_equality() {
    let samples = ["", "G", "GET", "GETS", "get", "POST", "/metrics", "/metrics?", "\u{e9}", "e\u{301}"];
    for a in samples {
        for b in samples {
            assert_eq!(same_text(a, b), a == b, "{:?} against {:?}", a, b);
        }
    }
}

#[test]
fn same_text_stops_at_the_first_difference() {
    assert!(!same_text("abcdef", "abcxef"));
    assert!(!same_text("abc", "abcd"));
    assert!(!same_text("abcd", "abc"));
    assert!(same_text("abcd", "abcd"));
}

#[test]
fn a_request_of_rouille_is_routed_by_its_method_and_raw_url() {
    let scrape = rouille::Request::fake_http("GET", "/metrics?job=node", vec![], vec![]);
    let by_query = request(scrape.method(), scrape.raw_url());
    assert_eq!(route(&by_query), Route::Metrics);

    let escaped = rouille::Request::fake_http("GET", "/%6Detrics", vec![], vec![]);
    assert_eq!(escaped.url(), "/metrics");
    assert_eq!(route(&request(escaped.method(), escaped.raw_url())), Route::NotFound);

    let post = rouille::Request::fake_http("POST", "/metrics", vec![], vec![]);
    assert_eq!(route(&request(post.method(), post.raw_url())), Route::NotFound);
}
