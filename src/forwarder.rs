//! The forwarder: backend credentials and endpoint, the request that one
//! delivery sends, and the decision taken on the backend's answer.
use crate::json::{json_encode, json_text, json_tree};
use crate::json::JsonTree;
use crate::metrics::{lemma_empty_snapshot, payload_tree, serialize, series_of, Metric};
use rustc_serialize::json::Json;
use vstd::prelude::*;

verus! {

/// The backend's production API endpoint.
pub const DEFAULT_BASE_URL: &'static str = "https://app.datadoghq.com/api";

/// The path of the series API, below the base URL.
pub const SERIES_PATH: &'static str = "/v1/series";

/// The content type of every request body.
pub const JSON_CONTENT_TYPE: &'static str = "application/json";

/// A client of the backend: its API key and base URL. Both stay fixed for
/// the forwarder's life, so concurrent deliveries share nothing mutable.
pub struct DatadogForwarder {
    api_key: String,
    base_url: String,
}

/// The model of a forwarder.
pub ghost struct ForwarderModel {
    pub api_key: Seq<char>,
    pub base_url: Seq<char>,
}

impl View for DatadogForwarder {
    type V = ForwarderModel;

    closed spec fn view(&self) -> ForwarderModel {
        ForwarderModel { api_key: self.api_key@, base_url: self.base_url@ }
    }
}

/// The URL of `path` on the backend: `{base_url}{path}?api_key={api_key}`.
pub open spec fn url_of(f: ForwarderModel, path: Seq<char>) -> Seq<char> {
    f.base_url + path + "?api_key="@ + f.api_key
}

/// One HTTP POST to the backend, built anew by each delivery.
pub struct SeriesRequest {
    pub url: String,
    pub content_type: String,
    pub body: String,
}

/// `req` posts `body` as JSON to the series API of `f`.
pub open spec fn is_series_request(f: ForwarderModel, body: Seq<char>, req: SeriesRequest) -> bool {
    &&& req.url@ == url_of(f, SERIES_PATH@)
    &&& req.content_type@ == JSON_CONTENT_TYPE@
    &&& req.body@ == body
}

/// The JSON text of the series that `metrics` become at time `now`.
pub open spec fn body_of(metrics: Seq<Metric>, now: i64) -> Seq<char> {
    json_text(payload_tree(series_of(metrics, now)))
}

/// The request for an empty snapshot still carries a document: the text of
/// `{"series": []}`, whatever the time.
pub proof fn lemma_empty_snapshot_body(now: i64)
    ensures
        body_of(Seq::empty(), now) == json_text(
            JsonTree::Obj(map!["series"@ => JsonTree::Arr(Seq::empty())]),
        ),
{
    lemma_empty_snapshot(now);
}

/// Why a delivery did not reach the backend. Building the request cannot
/// fail; only the exchange with the backend can.
#[derive(Clone, Copy, Debug, PartialEq, Eq, Structural)]
pub enum ForwardError {
    /// The request could not be sent, or no response came back.
    Transport,
}

/// What the backend's answer means for a delivery.
#[derive(Clone, Copy, Debug, PartialEq, Eq, Structural)]
pub enum Delivery {
    /// A 2xx status: nothing more to do.
    Accepted,
    /// Any other status: to be reported, then dropped.
    Rejected { status: u16 },
}

/// A status in the 2xx class.
pub open spec fn is_success_status(status: u16) -> bool {
    200 <= status < 300
}

/// Whether `status` is in the 2xx class.
pub fn is_success(status: u16) -> (r: bool)
    ensures
        r == is_success_status(status),
{
    200 <= status && status < 300
}

/// The outcome of a delivery that got `status` back.
pub fn delivery_outcome(status: u16) -> (r: Delivery)
    ensures
        r == (if is_success_status(status) {
            Delivery::Accepted
        } else {
            Delivery::Rejected { status }
        }),
{
    if is_success(status) {
        Delivery::Accepted
    } else {
        Delivery::Rejected { status }
    }
}

impl DatadogForwarder {
    /// A forwarder for the production endpoint.
    pub fn new(api_key: String) -> (r: DatadogForwarder)
        ensures
            r@ == (ForwarderModel { api_key: api_key@, base_url: DEFAULT_BASE_URL@ }),
    {
        DatadogForwarder { api_key, base_url: String::from_str(DEFAULT_BASE_URL) }
    }

    /// A forwarder for another endpoint (a staging or test backend).
    pub fn with_base_url(api_key: String, base_url: String) -> (r: DatadogForwarder)
        ensures
            r@ == (ForwarderModel { api_key: api_key@, base_url: base_url@ }),
    {
        DatadogForwarder { api_key, base_url }
    }

    /// The API key.
    pub fn api_key(&self) -> (r: &String)
        ensures
            r@ == self@.api_key,
    {
        &self.api_key
    }

    /// The base URL.
    pub fn base_url(&self) -> (r: &String)
        ensures
            r@ == self@.base_url,
    {
        &self.base_url
    }

    /// The URL of `path` on the backend, with the API key as query.
    pub fn url(&self, path: &str) -> (r: String)
        ensures
            r@ == url_of(self@, path@),
    {
        let mut u = self.base_url.clone();
        u.append(path);
        u.append("?api_key=");
        u.append(self.api_key.as_str());
        u
    }

    /// The JSON document of `metrics` at time `now`.
    pub fn serialize_metrics(metrics: Vec<Metric>, now: i64) -> (r: Json)
        ensures
            json_tree(r) == payload_tree(series_of(metrics@, now)),
    {
        serialize(metrics, now).to_json()
    }

    /// The series request that carries `body`.
    pub fn post(&self, body: String) -> (r: SeriesRequest)
        ensures
            is_series_request(self@, body@, r),
    {
        SeriesRequest {
            url: self.url(SERIES_PATH),
            content_type: String::from_str(JSON_CONTENT_TYPE),
            body,
        }
    }

    /// The request that delivers `metrics`, observed at time `now`: every
    /// point carries that one time.
    pub fn build_request(&self, metrics: Vec<Metric>, now: i64) -> (r: SeriesRequest)
        ensures
            is_series_request(self@, body_of(metrics@, now), r),
    {
        let doc = DatadogForwarder::serialize_metrics(metrics, now);
        let encoded = json_encode(&doc);
        match encoded {
            Ok(body) => self.post(body),
            Err(_) => {
                // json_encode never fails, so this arm is never taken.
                proof {
                    assert(false);
                }
                self.post(String::new())
            },
        }
    }
}

} // verus!
