//! The scrape target: what is answered to a request, by its path. Listening
//! and sending are the caller's; this module decides the answer.

use vstd::prelude::*;
use vstd::string::{StrSliceExecFns, StringExecFns, StringSliceAdditionalSpecFns};
use crate::metrics::{gathered, gathers, GatherError, Metrics};

verus! {

/// An answer to a request: the status, the content type if one is set, and
/// the body.
#[derive(Debug)]
pub struct HttpResponse {
    pub status: u16,
    pub content_type: Option<String>,
    pub body: Vec<u8>,
}

/// Whether a path is the one that the metrics are served at.
pub open spec fn is_metrics_path(path: Seq<char>) -> bool {
    path == "/metrics"@
}

impl HttpResponse {
    /// Whether this is the answer to any path but that of the metrics:
    /// status 404 and the plain words `Not found.`.
    pub open spec fn is_not_found(&self) -> bool {
        &&& self.status == 404
        &&& self.content_type is None
        &&& self.body@ == "Not found.".spec_bytes()
    }

    /// Whether this is an answer that serves the metrics: status 200 and
    /// the content type of the text exposition.
    pub open spec fn is_exposition(&self) -> bool {
        &&& self.status == 200
        &&& self.content_type matches Some(format) && format@ == "text/plain; version=0.0.4"@
    }
}

/// The answer to any path but that of the metrics.
pub fn not_found() -> (response: HttpResponse)
    ensures
        response.is_not_found(),
{
    HttpResponse { status: 404, content_type: None, body: "Not found.".as_bytes_vec() }
}

/// The answer at the path of the metrics, from what gathering and encoding
/// them came to: the text is served with the given content type, and a
/// failure is handed back.
pub fn metrics_response(format: String, encoded: Result<Vec<u8>, GatherError>) -> (answer: Result<
    HttpResponse,
    GatherError,
>)
    ensures
        match encoded {
            Ok(text) => answer matches Ok(response) && response.status == 200
                && response.content_type == Some(format) && response.body == text,
            Err(error) => answer matches Err(inner) && inner == error,
        },
{
    match encoded {
        Ok(text) => Ok(HttpResponse { status: 200, content_type: Some(format), body: text }),
        Err(error) => Err(error),
    }
}

/// What the answer at the path of the metrics is for given families: where
/// they are encoded, status 200, the content type of the text exposition
/// and their text exposition as the body; where they are not, the failure.
pub open spec fn serves(
    families: Seq<prometheus::proto::MetricFamily>,
    answer: Result<HttpResponse, GatherError>,
) -> bool {
    match answer {
        Ok(response) => response.is_exposition() && gathers(
            families,
            Ok::<Vec<u8>, GatherError>(response.body),
        ),
        Err(error) => gathers(families, Err::<Vec<u8>, GatherError>(error)),
    }
}

/// Answers a request by its path. At `/metrics` every registered collector
/// is gathered, and the answer serves the text exposition of the families
/// gathered, the six of the process's own figures always among them; where
/// the families are not encoded, the failure is handed back. Any other path
/// is answered with status 404.
pub fn respond(metrics: &Metrics, path: &str) -> (answer: Result<HttpResponse, GatherError>)
    ensures
        !is_metrics_path(path@) ==> (answer matches Ok(response) && response.is_not_found()),
        is_metrics_path(path@) ==> exists|families: Seq<prometheus::proto::MetricFamily>|
            gathered(metrics@.registry, families) && #[trigger] serves(families, answer),
{
    if String::from_str(path) == String::from_str("/metrics") {
        let encoded = metrics.gather_text();
        let ghost families = choose|families: Seq<prometheus::proto::MetricFamily>|
            gathered(metrics@.registry, families) && #[trigger] gathers(families, encoded);
        let answer = metrics_response(metrics.content_type(), encoded);
        assert(gathered(metrics@.registry, families) && serves(families, answer));
        answer
    } else {
        Ok(not_found())
    }
}

} // verus!
