//! Aggregated metrics and their wire representation: one series point per
//! metric, all stamped with the same observation time.
use crate::json::{
    entries_map, json_array, json_clone, json_i64, json_object, json_string, json_tree,
    keys_distinct, trees_of, JsonTree,
};
use rustc_serialize::json::Json;
use vstd::prelude::*;

verus! {

/// The kind of an aggregated metric.
#[derive(Clone, Copy, Debug, PartialEq, Eq, Structural)]
pub enum MetricType {
    Count,
    Measure,
    Sample,
}

/// One aggregated observation: its kind, its name and its numeric value
/// (carried as a JSON number, passed through unchanged).
pub struct Metric {
    pub kind: MetricType,
    pub name: String,
    pub value: Json,
}

/// A snapshot of metrics for one reporting interval.
pub type AggregatedMetrics = Vec<Metric>;

/// One wire-level series: a metric's name, its wire type, and a single
/// `[timestamp, value]` point.
pub struct SeriesPoint {
    pub metric: String,
    pub kind: String,
    pub timestamp: i64,
    pub value: Json,
}

/// The whole request body: one series point per metric.
pub struct Payload {
    pub series: Vec<SeriesPoint>,
}

/// The model of a series point.
pub ghost struct PointModel {
    pub metric: Seq<char>,
    pub kind: Seq<char>,
    pub timestamp: i64,
    pub value: JsonTree,
}

impl View for SeriesPoint {
    type V = PointModel;

    open spec fn view(&self) -> PointModel {
        PointModel {
            metric: self.metric@,
            kind: self.kind@,
            timestamp: self.timestamp,
            value: json_tree(self.value),
        }
    }
}

impl View for Payload {
    type V = Seq<PointModel>;

    open spec fn view(&self) -> Seq<PointModel> {
        self.series@.map_values(|p: SeriesPoint| p@)
    }
}

/// The wire type of a metric kind: counts are counters, the others gauges.
pub open spec fn wire_type_of(t: MetricType) -> Seq<char> {
    match t {
        MetricType::Count => "counter"@,
        MetricType::Measure => "gauge"@,
        MetricType::Sample => "gauge"@,
    }
}

/// The series point that a metric becomes at time `now`.
pub open spec fn point_of(m: Metric, now: i64) -> PointModel {
    PointModel { metric: m.name@, kind: wire_type_of(m.kind), timestamp: now, value: json_tree(m.value) }
}

/// The series that a snapshot becomes at time `now`, in input order.
pub open spec fn series_of(metrics: Seq<Metric>, now: i64) -> Seq<PointModel> {
    metrics.map_values(|m: Metric| point_of(m, now))
}

/// The wire type string of a metric kind.
pub fn wire_type(t: MetricType) -> (r: &'static str)
    ensures
        r@ == wire_type_of(t),
        r@ == "counter"@ || r@ == "gauge"@,
{
    match t {
        MetricType::Count => "counter",
        MetricType::Measure => "gauge",
        MetricType::Sample => "gauge",
    }
}

/// Turns a snapshot into its series, every point stamped with `now`.
pub fn serialize(metrics: Vec<Metric>, now: i64) -> (r: Payload)
    ensures
        r@ == series_of(metrics@, now),
        r@.len() == metrics@.len(),
        forall|i: int| 0 <= i < metrics@.len() ==> (#[trigger] r@[i]) == point_of(metrics@[i], now),
        forall|i: int| 0 <= i < r@.len() ==> (#[trigger] r@[i]).timestamp == now,
{
    let mut series: Vec<SeriesPoint> = Vec::new();
    let mut i: usize = 0;
    while i < metrics.len()
        invariant
            i <= metrics@.len(),
            series@.len() == i,
            forall|k: int| 0 <= k < i ==> (#[trigger] series@[k])@ == point_of(metrics@[k], now),
        decreases metrics@.len() - i,
    {
        let m = &metrics[i];
        let point = SeriesPoint {
            metric: m.name.clone(),
            kind: String::from_str(wire_type(m.kind)),
            timestamp: now,
            value: json_clone(&m.value),
        };
        series.push(point);
        i = i + 1;
    }
    let r = Payload { series };
    assert(r@ =~= series_of(metrics@, now));
    r
}

/// The JSON object of one series point:
/// `{"metric": name, "type": wire type, "points": [[timestamp, value]]}`.
pub open spec fn point_tree(p: PointModel) -> JsonTree {
    JsonTree::Obj(
        map![
            "metric"@ => JsonTree::Str(p.metric),
            "type"@ => JsonTree::Str(p.kind),
            "points"@ => JsonTree::Arr(seq![JsonTree::Arr(seq![JsonTree::I64(p.timestamp), p.value])]),
        ],
    )
}

/// The JSON document of a payload: `{"series": [point, ...]}`.
pub open spec fn payload_tree(series: Seq<PointModel>) -> JsonTree {
    JsonTree::Obj(map!["series"@ => JsonTree::Arr(series.map_values(|p: PointModel| point_tree(p)))])
}

impl SeriesPoint {
    /// The JSON object of this point.
    pub fn to_json(&self) -> (r: Json)
        ensures
            json_tree(r) == point_tree(self@),
    {
        let mut pair_items: Vec<Json> = Vec::new();
        pair_items.push(json_i64(self.timestamp));
        pair_items.push(json_clone(&self.value));
        let pair = json_array(pair_items);
        assert(trees_of(pair_items@) =~= seq![JsonTree::I64(self.timestamp), json_tree(self.value)]);
        let mut point_items: Vec<Json> = Vec::new();
        point_items.push(pair);
        let points = json_array(point_items);
        assert(trees_of(point_items@) =~= seq![json_tree(pair)]);
        let metric = json_string(self.metric.clone());
        let kind = json_string(self.kind.clone());
        let mut entries: Vec<(String, Json)> = Vec::new();
        entries.push((String::from_str("metric"), metric));
        entries.push((String::from_str("type"), kind));
        entries.push((String::from_str("points"), points));
        proof {
            reveal_strlit("metric");
            reveal_strlit("type");
            reveal_strlit("points");
            assert(entries@[0].0@ == "metric"@);
            assert(entries@[1].0@ == "type"@);
            assert(entries@[2].0@ == "points"@);
            lemma_point_keys_distinct();
            assert(keys_distinct(entries@));
            assert(entries_map(entries@) =~= map![
                "metric"@ => JsonTree::Str(self.metric@),
                "type"@ => JsonTree::Str(self.kind@),
                "points"@ => JsonTree::Arr(seq![JsonTree::Arr(seq![JsonTree::I64(self.timestamp), json_tree(self.value)])]),
            ]) by {
                let e = entries@;
                assert(e.drop_last().drop_last().drop_last() =~= Seq::<(String, Json)>::empty());
                assert(e.drop_last().drop_last().last() == e[0]);
                assert(e.drop_last().last() == e[1]);
                reveal_with_fuel(entries_map, 4);
            };
        }
        json_object(entries)
    }
}

impl Payload {
    /// The JSON document of this payload.
    pub fn to_json(&self) -> (r: Json)
        ensures
            json_tree(r) == payload_tree(self@),
    {
        let mut items: Vec<Json> = Vec::new();
        let mut i: usize = 0;
        while i < self.series.len()
            invariant
                i <= self.series@.len(),
                items@.len() == i,
                forall|k: int| 0 <= k < i ==> json_tree(#[trigger] items@[k]) == point_tree(self.series@[k]@),
            decreases self.series@.len() - i,
        {
            items.push(self.series[i].to_json());
            i = i + 1;
        }
        let series = json_array(items);
        assert(trees_of(items@) =~= self@.map_values(|p: PointModel| point_tree(p)));
        let mut entries: Vec<(String, Json)> = Vec::new();
        entries.push((String::from_str("series"), series));
        proof {
            assert(entries_map(entries@) =~= map!["series"@ => json_tree(series)]) by {
                assert(entries@.drop_last() =~= Seq::<(String, Json)>::empty());
                reveal_with_fuel(entries_map, 2);
            };
        }
        json_object(entries)
    }
}

/// The literal schema of a series point:
/// `{"metric": <string>, "type": "counter"|"gauge", "points": [[<int>, <value>]]}`,
/// with no other member.
pub open spec fn point_conforms(t: JsonTree) -> bool {
    &&& t is Obj
    &&& t->Obj_0.dom() =~= set!["metric"@, "type"@, "points"@]
    &&& t->Obj_0["metric"@] is Str
    &&& (t->Obj_0["type"@] == JsonTree::Str("counter"@) || t->Obj_0["type"@] == JsonTree::Str("gauge"@))
    &&& t->Obj_0["points"@] is Arr
    &&& t->Obj_0["points"@]->Arr_0.len() == 1
    &&& t->Obj_0["points"@]->Arr_0[0] is Arr
    &&& t->Obj_0["points"@]->Arr_0[0]->Arr_0.len() == 2
    &&& t->Obj_0["points"@]->Arr_0[0]->Arr_0[0] is I64
}

/// The literal schema of a document: `{"series": [<point>, ...]}` with
/// `n` points and no other member.
pub open spec fn document_conforms(t: JsonTree, n: nat) -> bool {
    &&& t is Obj
    &&& t->Obj_0.dom() =~= set!["series"@]
    &&& t->Obj_0["series"@] is Arr
    &&& t->Obj_0["series"@]->Arr_0.len() == n
    &&& forall|i: int| 0 <= i < n ==> point_conforms(#[trigger] t->Obj_0["series"@]->Arr_0[i])
}

/// The document of any snapshot at any time follows the literal schema, and
/// its `i`-th point holds the `i`-th metric's name, wire type and value,
/// stamped with that one time.
pub proof fn lemma_document_schema(metrics: Seq<Metric>, now: i64)
    ensures
        document_conforms(payload_tree(series_of(metrics, now)), metrics.len()),
        forall|i: int| 0 <= i < metrics.len() ==>
            (#[trigger] payload_tree(series_of(metrics, now))->Obj_0["series"@]->Arr_0[i])
                == point_tree(point_of(metrics[i], now)),
{
    let doc = payload_tree(series_of(metrics, now));
    let items = doc->Obj_0["series"@]->Arr_0;
    lemma_point_keys_distinct();
    assert forall|i: int| 0 <= i < metrics.len() implies point_conforms(#[trigger] items[i]) by {
        let p = point_of(metrics[i], now);
        assert(items[i] == point_tree(p));
        assert(wire_type_of(metrics[i].kind) == "counter"@ || wire_type_of(metrics[i].kind) == "gauge"@);
        assert(point_tree(p)->Obj_0.dom() =~= set!["metric"@, "type"@, "points"@]);
    }
}

proof fn lemma_point_keys_distinct()
    ensures
        "metric"@ != "type"@,
        "metric"@ != "points"@,
        "type"@ != "points"@,
{
    reveal_strlit("metric");
    reveal_strlit("type");
    reveal_strlit("points");
    assert("metric"@.len() != "type"@.len());
    assert("metric"@[0] != "points"@[0]);
    assert("type"@.len() != "points"@.len());
}

/// A JSON number: an integer or a float.
pub open spec fn is_number(t: JsonTree) -> bool {
    t is I64 || t is U64 || t is F64Bits
}

/// The value of the only point of a series point's tree.
pub open spec fn point_value(t: JsonTree) -> JsonTree {
    t->Obj_0["points"@]->Arr_0[0]->Arr_0[1]
}

/// When every metric's value is a JSON number, the document follows the
/// literal schema in full: besides the shape, each point is
/// `[<integer>, <number>]`.
pub proof fn lemma_points_are_numbers(metrics: Seq<Metric>, now: i64)
    requires
        forall|i: int| 0 <= i < metrics.len() ==> is_number(#[trigger] json_tree(metrics[i].value)),
    ensures
        document_conforms(payload_tree(series_of(metrics, now)), metrics.len()),
        forall|i: int| 0 <= i < metrics.len() ==> is_number(
            point_value(#[trigger] payload_tree(series_of(metrics, now))->Obj_0["series"@]->Arr_0[i]),
        ),
{
    lemma_document_schema(metrics, now);
    lemma_point_keys_distinct();
    let items = payload_tree(series_of(metrics, now))->Obj_0["series"@]->Arr_0;
    assert forall|i: int| 0 <= i < metrics.len() implies is_number(point_value(#[trigger] items[i])) by {
        assert(items[i] == point_tree(point_of(metrics[i], now)));
        assert(is_number(json_tree(metrics[i].value)));
    }
}

/// The empty snapshot becomes `{"series": []}`, whatever the time.
pub proof fn lemma_empty_snapshot(now: i64)
    ensures
        series_of(Seq::empty(), now) == Seq::<PointModel>::empty(),
        payload_tree(series_of(Seq::empty(), now))
            == JsonTree::Obj(map!["series"@ => JsonTree::Arr(Seq::empty())]),
{
    assert(series_of(Seq::empty(), now) =~= Seq::<PointModel>::empty());
    assert(Seq::<PointModel>::empty().map_values(|p: PointModel| point_tree(p))
        =~= Seq::<JsonTree>::empty());
}

/// Every point of one snapshot carries the same timestamp.
pub proof fn lemma_shared_timestamp(metrics: Seq<Metric>, now: i64, i: int, k: int)
    requires
        0 <= i < metrics.len(),
        0 <= k < metrics.len(),
    ensures
        series_of(metrics, now)[i].timestamp == series_of(metrics, now)[k].timestamp,
{
}

} // verus!
