use kube_stats_exporter::collect::CollectionError;
use kube_stats_exporter::handler::{
    handler, health_response, metrics_response, not_found_response, route, text_equals, Response,
    Route, Step, LISTEN_ADDRESS,
};

fn not_found() -> Step {
    Step::Reply(Response { status: 404, content_type: None, body: "Not found".to_string() })
}

#[test]
fn unknown_path_is_not_found() {
    assert_eq!(handler("GET", "/unknown"), not_found());
}

#[test]
fn health_is_always_ok() {
    assert_eq!(
        handler("GET", "/health"),
        Step::Reply(Response { status: 200, content_type: None, body: "ok".to_string() })
    );
}

#[test]
fn health_does_not_wait_for_a_collection() {
    let scrape = handler("GET", "/metrics");
    let health = handler("GET", "/health");
    assert_eq!(scrape, Step::Collect);
    assert_eq!(health, Step::Reply(health_response()));
    assert_eq!(health_response().status, 200);
    assert_eq!(health_response().body, "ok");
}

#[test]
fn scrape_asks_for_a_collection() {
    assert_eq!(handler("GET", "/metrics"), Step::Collect);
}

#[test]
fn other_methods_have_no_route() {
    for method in ["POST", "PUT", "DELETE", "HEAD", "OPTIONS", "PATCH", "get", "Get", ""] {
        assert_eq!(handler(method, "/metrics"), not_found());
        assert_eq!(handler(method, "/health"), not_found());
    }
}

#[test]
fn paths_are_compared_exactly() {
    for path in ["/", "", "/metrics/", "/health/", "/Metrics", "metrics", "/metrics?x=1", "/healthz"]
    {
        assert_eq!(handler("GET", path), not_found());
    }
}

#[test]
fn routes() {
    assert_eq!(route("GET", "/metrics"), Route::Metrics);
    assert_eq!(route("GET", "/health"), Route::Health);
    assert_eq!(route("GET", "/other"), Route::NotFound);
    assert_eq!(route("POST", "/metrics"), Route::NotFound);
}

#[test]
fn successful_scrape_is_200_with_content_type() {
    assert_eq!(
        metrics_response(Ok("# EOF\n".to_string())),
        Response {
            status: 200,
            content_type: Some(
                "application/openmetrics-text; version=1.0.0; charset=utf-8".to_string()
            ),
            body: "# EOF\n".to_string(),
        }
    );
}

#[test]
fn failed_collection_is_bad_gateway() {
    assert_eq!(
        metrics_response(Err(CollectionError::Directory)),
        Response { status: 502, content_type: None, body: "Bad gateway".to_string() }
    );
}

#[test]
fn not_found_response_is_404() {
    let response = not_found_response();
    assert_eq!(response.status, 404);
    assert_eq!(response.content_type, None);
    assert_eq!(response.body, "Not found");
}

#[test]
fn texts_are_compared_whole() {
    assert!(text_equals("", ""));
    assert!(text_equals("GET", "GET"));
    assert!(!text_equals("GET", "GE"));
    assert!(!text_equals("GE", "GET"));
    assert!(!text_equals("GET", "get"));
}

#[test]
fn endpoint_listens_on_all_interfaces() {
    assert_eq!(LISTEN_ADDRESS, "0.0.0.0:9100");
}
