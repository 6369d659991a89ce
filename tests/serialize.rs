use metrics_forwarder::{serialize, wire_type, DatadogForwarder, Metric, MetricType};
use rustc_serialize::json::Json;

fn metric(kind: MetricType, name: &str, value: f64) -> Metric {
    Metric { kind, name: name.to_string(), value: Json::F64(value) }
}

#[test]
fn wire_type_mapping_is_total() {
    assert_eq!(wire_type(MetricType::Count), "counter");
    assert_eq!(wire_type(MetricType::Measure), "gauge");
    assert_eq!(wire_type(MetricType::Sample), "gauge");
}

#[test]
fn one_point_per_metric_in_order() {
    let metrics = vec![
        metric(MetricType::Sample, "b", 1.5),
        metric(MetricType::Count, "a", 2.0),
        metric(MetricType::Measure, "c", -3.25),
    ];
    let payload = serialize(metrics, 42);
    assert_eq!(payload.series.len(), 3);
    let names: Vec<&str> = payload.series.iter().map(|p| p.metric.as_str()).collect();
    assert_eq!(names, vec!["b", "a", "c"]);
    let kinds: Vec<&str> = payload.series.iter().map(|p| p.kind.as_str()).collect();
    assert_eq!(kinds, vec!["gauge", "counter", "gauge"]);
    assert_eq!(payload.series[2].value, Json::F64(-3.25));
}

#[test]
fn all_points_share_the_timestamp() {
    let metrics = vec![
        metric(MetricType::Count, "x", 1.0),
        metric(MetricType::Count, "y", 2.0),
        metric(MetricType::Sample, "z", 3.0),
    ];
    let payload = serialize(metrics, 1_700_000_123);
    assert!(payload.series.iter().all(|p| p.timestamp == 1_700_000_123));
}

#[test]
fn empty_snapshot_gives_empty_series() {
    let doc = DatadogForwarder::serialize_metrics(Vec::new(), 1_700_000_000);
    assert_eq!(doc, Json::from_str(r#"{"series": []}"#).unwrap());
    let payload = serialize(Vec::new(), -5);
    assert!(payload.series.is_empty());
}

#[test]
fn scenario_two_metrics_serialize_to_literal_document() {
    let metrics = vec![
        metric(MetricType::Count, "requests", 5.0),
        metric(MetricType::Measure, "latency_ms", 12.3),
    ];
    let forwarder = DatadogForwarder::new("key".to_string());
    let request = forwarder.build_request(metrics, 1700000000);
    let expected = r#"{"series":[{"metric":"requests","type":"counter","points":[[1700000000,5.0]]},{"metric":"latency_ms","type":"gauge","points":[[1700000000,12.3]]}]}"#;
    assert_eq!(Json::from_str(&request.body).unwrap(), Json::from_str(expected).unwrap());
    assert!(request.body.contains("[[1700000000,5.0]]"));
    assert!(request.body.contains("[[1700000000,12.3]]"));
}

#[test]
fn decoded_body_follows_schema() {
    let metrics = vec![
        metric(MetricType::Sample, "s", 0.5),
        metric(MetricType::Count, "c", 7.0),
    ];
    let forwarder = DatadogForwarder::new("key".to_string());
    let request = forwarder.build_request(metrics, 99);
    let doc = Json::from_str(&request.body).unwrap();
    let top = doc.as_object().unwrap();
    assert_eq!(top.len(), 1);
    let series = top.get("series").unwrap().as_array().unwrap();
    assert_eq!(series.len(), 2);
    for point in series {
        let obj = point.as_object().unwrap();
        assert_eq!(obj.len(), 3);
        assert!(obj.get("metric").unwrap().is_string());
        let kind = obj.get("type").unwrap().as_string().unwrap();
        assert!(kind == "counter" || kind == "gauge");
        let points = obj.get("points").unwrap().as_array().unwrap();
        assert_eq!(points.len(), 1);
        let pair = points[0].as_array().unwrap();
        assert_eq!(pair.len(), 2);
        assert_eq!(pair[0].as_i64(), Some(99));
        assert!(pair[1].is_number());
    }
}

#[test]
fn point_document_has_three_members() {
    let payload = serialize(vec![metric(MetricType::Count, "n", 1.0)], 3);
    let doc = payload.series[0].to_json();
    let expected = Json::from_str(r#"{"metric":"n","type":"counter","points":[[3,1.0]]}"#).unwrap();
    assert_eq!(Json::from_str(&doc.to_string()).unwrap(), expected);
}

#[test]
fn empty_snapshot_still_builds_a_request() {
    let forwarder = DatadogForwarder::with_base_url("k".to_string(), "http://h".to_string());
    let request = forwarder.build_request(Vec::new(), 1_700_000_000);
    assert_eq!(request.body, r#"{"series":[]}"#);
    assert_eq!(request.url, "http://h/v1/series?api_key=k");
    assert_eq!(request.content_type, "application/json");
}

#[test]
fn non_finite_values_still_encode() {
    let forwarder = DatadogForwarder::new("k".to_string());
    let request = forwarder.build_request(vec![metric(MetricType::Measure, "", f64::NAN)], 1);
    assert_eq!(request.body, r#"{"series":[{"metric":"","points":[[1,null]],"type":"gauge"}]}"#);
}
