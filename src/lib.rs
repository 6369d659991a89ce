//! Forwarding of aggregated application metrics to a monitoring backend's
//! HTTPS series API: the wire payload of a snapshot, the request that
//! carries it, and what the backend's answer means.
pub mod forwarder;
pub mod json;
pub mod metrics;

pub use forwarder::{
    delivery_outcome, is_success, DatadogForwarder, Delivery, ForwardError, SeriesRequest,
    DEFAULT_BASE_URL, JSON_CONTENT_TYPE, SERIES_PATH,
};
pub use metrics::{serialize, wire_type, AggregatedMetrics, Metric, MetricType, Payload, SeriesPoint};
