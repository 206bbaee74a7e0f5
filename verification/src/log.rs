//! What is written to the log for each request and each response.

use vstd::prelude::*;

verus! {

/// The log filter used when none is configured.
pub open spec fn default_filter() -> Seq<char> {
    "sample-app=debug,http=info,tower_http=info"@
}

/// The log target of request and response lines.
pub open spec fn http_target() -> Seq<char> {
    "http"@
}

/// The line logged when a request arrives.
#[derive(Debug, PartialEq, Eq)]
pub struct RequestLine {
    pub target: String,
    pub message: String,
    pub method: String,
    pub path: String,
    pub route: String,
}

/// The line logged when a response leaves.
#[derive(Debug, PartialEq, Eq)]
pub struct ResponseLine {
    pub target: String,
    pub message: String,
    pub status: u16,
    pub latency_ms: u128,
}

/// Logs requests.
#[derive(Clone, Copy, Debug, PartialEq, Eq)]
pub struct LogOnRequest;

impl LogOnRequest {
    /// The line for a request: its method, its path, and the route that
    /// matched it, or `<unmatched>` where none did.
    pub fn on_request(&mut self, method: &str, path: &str, route: Option<&str>) -> (line: RequestLine)
        ensures
            line.target@ == http_target(),
            line.message@ == "request"@,
            line.method@ == method@,
            line.path@ == path@,
            line.route@ == match route {
                Some(r) => r@,
                None => "<unmatched>"@,
            },
    {
        let route = match route {
            Some(r) => r,
            None => "<unmatched>",
        };
        RequestLine {
            target: "http".to_owned(),
            message: "request".to_owned(),
            method: method.to_owned(),
            path: path.to_owned(),
            route: route.to_owned(),
        }
    }
}

/// Logs responses.
#[derive(Clone, Copy, Debug, PartialEq, Eq)]
pub struct LogOnResponse;

impl LogOnResponse {
    /// The line for a response: its status and how long it took, in
    /// milliseconds.
    pub fn on_response(self, status: u16, latency_ms: u128) -> (line: ResponseLine)
        ensures
            line.target@ == http_target(),
            line.message@ == "response"@,
            line.status == status,
            line.latency_ms == latency_ms,
    {
        ResponseLine { target: "http".to_owned(), message: "response".to_owned(), status, latency_ms }
    }
}

/// The log filter: as configured, or the default where none is.
pub fn setup_logging(configured: Option<String>) -> (filter: String)
    ensures
        filter@ == match configured {
            Some(f) => f@,
            None => default_filter(),
        },
{
    match configured {
        Some(f) => f,
        None => "sample-app=debug,http=info,tower_http=info".to_owned(),
    }
}

} // verus!
