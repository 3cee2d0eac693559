//! The scrape endpoint: which request is answered how.

use crate::collect::CollectionError;
use vstd::prelude::*;

verus! {

/// The address on which the endpoint listens: all interfaces, port 9100.
pub const LISTEN_ADDRESS: &'static str = "0.0.0.0:9100";

/// What a request asks for.
#[derive(Debug, Clone, Copy, PartialEq, Eq)]
pub enum Route {
    /// `GET /metrics`.
    Metrics,
    /// `GET /health`.
    Health,
    /// Anything else.
    NotFound,
}

/// An HTTP response, as far as the endpoint decides it.
#[derive(Debug, Clone, PartialEq, Eq)]
pub struct Response {
    /// The status code.
    pub status: u16,
    /// The value of the `Content-Type` header, if the response has one.
    pub content_type: Option<String>,
    /// The body.
    pub body: String,
}

/// Mathematical model of a [`Response`].
pub struct ResponseView {
    pub status: u16,
    pub content_type: Option<Seq<char>>,
    pub body: Seq<char>,
}

impl View for Response {
    type V = ResponseView;

    open spec fn view(&self) -> ResponseView {
        ResponseView {
            status: self.status,
            content_type: match self.content_type {
                Some(value) => Some(value@),
                None => None,
            },
            body: self.body@,
        }
    }
}

/// What the endpoint does with a request.
#[derive(Debug, Clone, PartialEq, Eq)]
pub enum Step {
    /// Answer at once.
    Reply(Response),
    /// Run a collection, then answer with [`metrics_response`].
    Collect,
}

/// The model of a [`Step`].
pub enum StepView {
    Reply(ResponseView),
    Collect,
}

impl View for Step {
    type V = StepView;

    open spec fn view(&self) -> StepView {
        match self {
            Step::Reply(response) => StepView::Reply(response@),
            Step::Collect => StepView::Collect,
        }
    }
}

/// The route of a request, by its method and path.
pub open spec fn route_of(method: Seq<char>, path: Seq<char>) -> Route {
    if method == "GET"@ && path == "/metrics"@ {
        Route::Metrics
    } else if method == "GET"@ && path == "/health"@ {
        Route::Health
    } else {
        Route::NotFound
    }
}

/// The answer to a health check: 200 with body `ok`.
pub open spec fn health_view() -> ResponseView {
    ResponseView { status: 200, content_type: None, body: "ok"@ }
}

/// The answer to a request that has no route: 404 with body `Not found`.
pub open spec fn not_found_view() -> ResponseView {
    ResponseView { status: 404, content_type: None, body: "Not found"@ }
}

/// The answer to a scrape: 200 with the encoded metrics and their content
/// type, or 502 with body `Bad gateway` where the collection failed.
pub open spec fn metrics_view(stats: Result<String, CollectionError>) -> ResponseView {
    match stats {
        Ok(body) => ResponseView {
            status: 200,
            content_type: Some("application/openmetrics-text; version=1.0.0; charset=utf-8"@),
            body: body@,
        },
        Err(_) => ResponseView { status: 502, content_type: None, body: "Bad gateway"@ },
    }
}

/// What the endpoint does with a request, by its method and path.
pub open spec fn step_of(method: Seq<char>, path: Seq<char>) -> StepView {
    match route_of(method, path) {
        Route::Metrics => StepView::Collect,
        Route::Health => StepView::Reply(health_view()),
        Route::NotFound => StepView::Reply(not_found_view()),
    }
}

/// Whether two texts are the same.
pub fn text_equals(left: &str, right: &str) -> (same: bool)
    ensures
        same == (left@ == right@),
{
    let left = String::from_str(left);
    let right = String::from_str(right);
    left == right
}

/// Finds the route of a request. Methods and paths are compared as they
/// are written: only `GET`, in capitals, has routes.
pub fn route(method: &str, path: &str) -> (found: Route)
    ensures
        found == route_of(method@, path@),
{
    if !text_equals(method, "GET") {
        Route::NotFound
    } else if text_equals(path, "/metrics") {
        Route::Metrics
    } else if text_equals(path, "/health") {
        Route::Health
    } else {
        Route::NotFound
    }
}

/// The answer to a health check. It is made from nothing: no collection,
/// running or finished, has a part in it.
pub fn health_response() -> (response: Response)
    ensures
        response@ == health_view(),
{
    Response { status: 200, content_type: None, body: String::from_str("ok") }
}

/// The answer to a request that has no route.
pub fn not_found_response() -> (response: Response)
    ensures
        response@ == not_found_view(),
{
    Response { status: 404, content_type: None, body: String::from_str("Not found") }
}

/// The answer to a scrape, from what the collection came to.
pub fn metrics_response(stats: Result<String, CollectionError>) -> (response: Response)
    ensures
        response@ == metrics_view(stats),
{
    match stats {
        Ok(body) => Response {
            status: 200,
            content_type: Some(
                String::from_str("application/openmetrics-text; version=1.0.0; charset=utf-8"),
            ),
            body,
        },
        Err(_) => Response {
            status: 502,
            content_type: None,
            body: String::from_str("Bad gateway"),
        },
    }
}

/// Handles a request as far as that takes no collection: a health check
/// and a request without a route are answered at once, a scrape asks for
/// a collection first.
pub fn handler(method: &str, path: &str) -> (step: Step)
    ensures
        step@ == step_of(method@, path@),
{
    match route(method, path) {
        Route::Metrics => Step::Collect,
        Route::Health => Step::Reply(health_response()),
        Route::NotFound => Step::Reply(not_found_response()),
    }
}

} // verus!
