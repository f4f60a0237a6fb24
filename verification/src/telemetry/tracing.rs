//! Span records and their JSON rendering for the file reporter.

use vstd::prelude::*;
use crate::text::{hex_digits, push_hex};

verus! {

/// A property list as text pairs.
pub open spec fn pairs_view(v: Seq<(String, String)>) -> Seq<(Seq<char>, Seq<char>)> {
    v.map_values(|p: (String, String)| (p.0@, p.1@))
}

/// The JSON object that collecting `ps` gives: each pair is inserted in
/// order, so a later pair with the same key replaces an earlier one.
pub open spec fn collect_map(ps: Seq<(Seq<char>, Seq<char>)>) -> Map<Seq<char>, Seq<char>>
    decreases ps.len(),
{
    if ps.len() == 0 {
        Map::empty()
    } else {
        collect_map(ps.drop_last()).insert(ps.last().0, ps.last().1)
    }
}

/// Collecting pairs keeps, for each key, the value of the last pair with
/// that key; a key no pair has is absent.
pub proof fn lemma_collect_last_wins(ps: Seq<(Seq<char>, Seq<char>)>, k: Seq<char>)
    ensures
        (exists|i: int| 0 <= i < ps.len() && ps[i].0 == k) <==> collect_map(ps).dom().contains(k),
        forall|i: int|
            0 <= i < ps.len() && ps[i].0 == k && (forall|j: int| i < j < ps.len() ==> ps[j].0 != k)
                ==> collect_map(ps)[k] == #[trigger] ps[i].1,
    decreases ps.len(),
{
    if ps.len() > 0 {
        let init = ps.drop_last();
        lemma_collect_last_wins(init, k);
        if exists|i: int| 0 <= i < ps.len() && ps[i].0 == k {
            let i = choose|i: int| 0 <= i < ps.len() && ps[i].0 == k;
            if i < ps.len() - 1 {
                assert(init[i].0 == k);
            }
        }
        if collect_map(init).dom().contains(k) {
            let i = choose|i: int| 0 <= i < init.len() && init[i].0 == k;
            assert(ps[i].0 == k);
        }
        assert forall|i: int|
            0 <= i < ps.len() && ps[i].0 == k && (forall|j: int| i < j < ps.len() ==> ps[j].0 != k)
                implies collect_map(ps)[k] == #[trigger] ps[i].1 by {
            if i < ps.len() - 1 {
                assert(ps[ps.len() - 1].0 != k);
                assert(init[i] == ps[i]);
                assert(forall|j: int| i < j < init.len() ==> init[j] == ps[j]);
            }
        }
    }
}

// ── JSON objects ───────────────────────────────────────────────────────────

#[verifier::external_type_specification]
#[verifier::external_body]
#[verifier::reject_recursive_types(K)]
#[verifier::reject_recursive_types(V)]
pub struct ExJsonMap<K, V>(serde_json::Map<K, V>);

#[verifier::external_type_specification]
#[verifier::external_body]
pub struct ExJsonValue(serde_json::Value);

/// A JSON object.
pub type JsonObject = serde_json::Map<String, serde_json::Value>;

/// The string-valued entries of a JSON object: each key whose value is a
/// JSON string, with that string.
pub uninterp spec fn json_string_entries(m: JsonObject) -> Map<Seq<char>, Seq<char>>;

/// Every key of a JSON object, whatever its value.
pub uninterp spec fn json_keys(m: JsonObject) -> Set<Seq<char>>;

/// No keys at all.
pub open spec fn no_keys() -> Set<Seq<char>> {
    Set::empty()
}

/// No entries at all.
pub open spec fn no_entries() -> Map<Seq<char>, Seq<char>> {
    Map::empty()
}

/// `serde_json::Map::new`: an empty JSON object.
#[verifier::external_body]
fn json_object_new() -> (obj: JsonObject)
    ensures
        json_string_entries(obj) == no_entries(),
        json_keys(obj) == no_keys(),
{
    serde_json::Map::new()
}

/// `serde_json::Map::insert` of a JSON string: the key now holds that
/// string, whatever it held before; the other entries stay, and no other
/// key is added.
#[verifier::external_body]
fn json_insert_string(m: &mut JsonObject, key: String, value: String)
    ensures
        json_string_entries(*final(m)) == json_string_entries(*old(m)).insert(key@, value@),
        json_keys(*final(m)) == json_keys(*old(m)).insert(key@),
{
    m.insert(key, serde_json::Value::String(value));
}

/// The JSON object that collecting `pairs` gives: every value a string,
/// later pairs replacing earlier ones with the same key, and no key that
/// no pair has.
pub fn object_from_pairs(pairs: &Vec<(String, String)>) -> (m: JsonObject)
    ensures
        json_string_entries(m) == collect_map(pairs_view(pairs@)),
        json_keys(m) == collect_map(pairs_view(pairs@)).dom(),
{
    let n = pairs.len();
    let mut m = json_object_new();
    let mut i: usize = 0;
    while i < n
        invariant
            n == pairs@.len(),
            i <= n,
            json_string_entries(m) == collect_map(pairs_view(pairs@).take(i as int)),
            json_keys(m) == collect_map(pairs_view(pairs@).take(i as int)).dom(),
        decreases n - i,
    {
        let k = pairs[i].0.clone();
        let v = pairs[i].1.clone();
        let ghost target = pairs_view(pairs@).take(i + 1);
        assert(target.drop_last() =~= pairs_view(pairs@).take(i as int));
        assert(target.last() == (k@, v@));
        json_insert_string(&mut m, k, v);
        i = i + 1;
    }
    assert(pairs_view(pairs@).take(n as int) =~= pairs_view(pairs@));
    m
}

// ── Span records ───────────────────────────────────────────────────────────

/// An event recorded during a span.
#[derive(Debug)]
pub struct EventRecord {
    pub name: String,
    pub timestamp_unix_ns: u64,
    pub properties: Vec<(String, String)>,
}

/// A finished span, as the tracer hands it to a reporter.
#[derive(Debug)]
pub struct SpanRecord {
    pub trace_id: u128,
    pub span_id: u64,
    pub parent_id: u64,
    pub begin_time_unix_ns: u64,
    pub duration_ns: u64,
    pub name: String,
    pub properties: Vec<(String, String)>,
    pub events: Vec<EventRecord>,
}

/// The JSON object written for an event.
#[derive(Debug)]
pub struct EventJson {
    pub name: String,
    pub timestamp_unix_ns: u64,
    pub properties: JsonObject,
}

/// The JSON object written for a span (one line of a trace file).
#[derive(Debug)]
pub struct SpanJson {
    pub trace_id: String,
    pub span_id: String,
    pub parent_id: String,
    pub begin_time_unix_ns: u64,
    pub duration_ns: u64,
    pub name: String,
    pub properties: JsonObject,
    pub events: Vec<EventJson>,
}

/// `e` is the JSON object of event `r`.
pub open spec fn renders_event(r: EventRecord, e: EventJson) -> bool {
    &&& e.name@ == r.name@
    &&& e.timestamp_unix_ns == r.timestamp_unix_ns
    &&& json_string_entries(e.properties) == collect_map(pairs_view(r.properties@))
    &&& json_keys(e.properties) == collect_map(pairs_view(r.properties@)).dom()
}

/// `j` is the JSON object of span `s`: the ids in fixed-width lowercase
/// hexadecimal (32 digits for the trace, 16 for spans), the times and name
/// as they are, the properties collected into an object, and one object per
/// event, in order.
pub open spec fn renders_span(s: SpanRecord, j: SpanJson) -> bool {
    &&& j.trace_id@ == hex_digits(s.trace_id as nat, 32)
    &&& j.span_id@ == hex_digits(s.span_id as nat, 16)
    &&& j.parent_id@ == hex_digits(s.parent_id as nat, 16)
    &&& j.begin_time_unix_ns == s.begin_time_unix_ns
    &&& j.duration_ns == s.duration_ns
    &&& j.name@ == s.name@
    &&& json_string_entries(j.properties) == collect_map(pairs_view(s.properties@))
    &&& json_keys(j.properties) == collect_map(pairs_view(s.properties@)).dom()
    &&& j.events@.len() == s.events@.len()
    &&& forall|i: int| 0 <= i < s.events@.len() ==> renders_event(s.events@[i], #[trigger] j.events@[i])
}

fn hex_string(v: u128, w: usize) -> (s: String)
    ensures
        s@ == hex_digits(v as nat, w as nat),
{
    let mut s = String::new();
    push_hex(&mut s, v, w);
    assert(s@ =~= hex_digits(v as nat, w as nat));
    s
}

/// The JSON object for an event.
pub fn event_to_json(e: &EventRecord) -> (j: EventJson)
    ensures
        renders_event(*e, j),
{
    EventJson {
        name: e.name.clone(),
        timestamp_unix_ns: e.timestamp_unix_ns,
        properties: object_from_pairs(&e.properties),
    }
}

/// The JSON object for a span.
pub fn span_to_json(span: &SpanRecord) -> (j: SpanJson)
    ensures
        renders_span(*span, j),
{
    let properties = object_from_pairs(&span.properties);
    let n = span.events.len();
    let mut events: Vec<EventJson> = Vec::new();
    let mut i: usize = 0;
    while i < n
        invariant
            n == span.events@.len(),
            i <= n,
            events@.len() == i,
            forall|t: int| 0 <= t < i ==> renders_event(span.events@[t], #[trigger] events@[t]),
        decreases n - i,
    {
        events.push(event_to_json(&span.events[i]));
        i = i + 1;
    }
    SpanJson {
        trace_id: hex_string(span.trace_id, 32),
        span_id: hex_string(span.span_id as u128, 16),
        parent_id: hex_string(span.parent_id as u128, 16),
        begin_time_unix_ns: span.begin_time_unix_ns,
        duration_ns: span.duration_ns,
        name: span.name.clone(),
        properties,
        events,
    }
}

} // verus!
