use serde_json::Value;
use tapir::http::BadRequest;
use tapir::node::{NodeFacts, NodeId, NodeOption, NodeState};
use tapir::search::{
    entry, merged, query, timeline, window, Instant, QueryInfo, TimeInfo, TimeRange, TimelineEntry,
};

fn id(index1: usize) -> NodeId {
    NodeId { index1, stamp: 0 }
}

fn document(text: &str) -> Value {
    serde_json::from_str(text).unwrap()
}

fn facts(name: &str) -> NodeFacts {
    NodeFacts {
        name: name.to_string(),
        path: format!("/root/{name}"),
        attributes: document("{\"modified\":\"2020-01-01T00:00:00Z\"}"),
        children: vec![],
        has_children: false,
    }
}

fn info(index1: usize, secs: i64) -> TimeInfo {
    TimeInfo { id: id(index1), attribute_name: "modified".to_string(), time: Instant { secs, nanos: 0 } }
}

fn range(after: &str, before: &str) -> TimeRange {
    TimeRange { after: after.to_string(), before: before.to_string(), option: None }
}

fn refused(message: &str) -> BadRequest {
    BadRequest { message: message.to_string() }
}

#[test]
fn query_answers_with_the_ids_found() {
    let request = QueryInfo { query: "name=\"a.bin\"".to_string(), root: "/root".to_string() };
    assert_eq!(request.root, "/root");
    let found = query(Ok(vec![NodeId { index1: 4, stamp: 1 }])).unwrap();
    assert!(!found.is_empty());
    assert!(found.contains(&NodeId { index1: 4, stamp: 1 }));
}

#[test]
fn query_keeps_order_and_repeats() {
    assert_eq!(query(Ok(vec![id(3), id(1), id(3)])), Ok(vec![id(3), id(1), id(3)]));
    assert_eq!(query(Ok(vec![])), Ok(vec![]));
}

#[test]
fn failed_query_is_refused() {
    assert_eq!(query(Err("unexpected token".to_string())), Err(refused("unexpected token")));
}

#[test]
fn window_is_parsed_as_rfc_3339() {
    let request = range("1970-01-01T00:00:00Z", "2001-09-09T01:46:40.5Z");
    assert_eq!(
        request.window(),
        Ok((Instant { secs: 0, nanos: 0 }, Instant { secs: 1_000_000_000, nanos: 500_000_000 }))
    );
}

#[test]
fn window_ends_are_read_in_utc() {
    let request = range("1996-12-19T16:39:57-08:00", "1996-12-20T00:39:57Z");
    let (after, before) = request.window().unwrap();
    assert_eq!(after, Instant { secs: 851_042_397, nanos: 0 });
    assert_eq!(after, before);
    let request = range("1969-12-31T23:59:59.000000001+00:00", "1970-01-01t01:00:00+01:00");
    assert_eq!(
        request.window(),
        Ok((Instant { secs: -1, nanos: 1 }, Instant { secs: 0, nanos: 0 }))
    );
}

#[test]
fn window_may_run_backwards() {
    let request = range("2020-01-01T00:00:00Z", "2010-01-01T00:00:00Z");
    let (after, before) = request.window().unwrap();
    assert!(after.secs > before.secs);
}

#[test]
fn window_with_a_bad_end_is_refused() {
    assert_eq!(
        range("yesterday", "2020-01-01T00:00:00Z").window(),
        Err(refused("premature end of input"))
    );
    assert_eq!(
        range("2020-01-01T00:00:00Z", "2020-01-01 00:00:00 UTC, more").window(),
        Err(refused("input contains invalid characters"))
    );
    assert_eq!(
        range("2020-13-01T00:00:00Z", "2020-01-01T00:00:00Z").window(),
        Err(refused("input is out of range"))
    );
    assert_eq!(
        range("2020-01-01T00:00:00Ztail", "2020-01-01T00:00:00Z").window(),
        Err(refused("trailing input"))
    );
}

#[test]
fn first_bad_end_gives_the_message() {
    assert_eq!(
        range("2020-13-01T00:00:00Z", "yesterday").window(),
        Err(refused("input is out of range"))
    );
    let after = Err("first".to_string());
    let before = Err("second".to_string());
    assert_eq!(window(after, before), Err(refused("first")));
    assert_eq!(
        window(Ok(Instant { secs: 1, nanos: 2 }), Err("second".to_string())),
        Err(refused("second"))
    );
    assert_eq!(
        window(Err("first".to_string()), Ok(Instant { secs: 1, nanos: 2 })),
        Err(refused("first"))
    );
    assert_eq!(
        window(Ok(Instant { secs: 1, nanos: 2 }), Ok(Instant { secs: 3, nanos: 4 })),
        Ok((Instant { secs: 1, nanos: 2 }, Instant { secs: 3, nanos: 4 }))
    );
}

#[test]
fn entry_without_fields_holds_no_node() {
    assert_eq!(
        entry(&None, info(1, 10), None),
        Ok(TimelineEntry {
            id: id(1),
            attribute_name: "modified".to_string(),
            time: Instant { secs: 10, nanos: 0 },
            node: None,
        })
    );
    assert_eq!(entry(&None, info(1, 10), Some(facts("a.bin"))).unwrap().node, None);
}

#[test]
fn entry_with_fields_holds_the_node() {
    let fields = NodeOption { name: true, path: true, attributes: false, children: false };
    assert_eq!(
        entry(&Some(fields), info(1, 10), Some(facts("a.bin"))),
        Ok(TimelineEntry {
            id: id(1),
            attribute_name: "modified".to_string(),
            time: Instant { secs: 10, nanos: 0 },
            node: Some(NodeState {
                id: id(1),
                name: Some("a.bin".to_string()),
                path: Some("/root/a.bin".to_string()),
                attributes: None,
                children: None,
                has_children: false,
            }),
        })
    );
    assert_eq!(entry(&Some(fields), info(1, 10), None), Err(refused("Node didn't exist")));
}

#[test]
fn timeline_keeps_the_order_of_the_times() {
    let found = vec![(info(3, 30), None), (info(1, 10), None), (info(2, 20), None)];
    let entries = timeline(&None, found).unwrap();
    let shown: Vec<(NodeId, i64)> = entries.iter().map(|e| (e.id, e.time.secs)).collect();
    assert_eq!(shown, vec![(id(3), 30), (id(1), 10), (id(2), 20)]);
    assert!(entries.iter().all(|e| e.node.is_none()));
    assert_eq!(timeline(&None, vec![]), Ok(vec![]));
}

#[test]
fn timeline_with_fields_realizes_every_node() {
    let fields = Some(NodeOption { name: true, path: false, attributes: false, children: false });
    let found = vec![(info(1, 10), Some(facts("one"))), (info(2, 20), Some(facts("two")))];
    let entries = timeline(&fields, found).unwrap();
    let names: Vec<Option<String>> =
        entries.into_iter().map(|e| e.node.and_then(|node| node.name)).collect();
    assert_eq!(names, vec![Some("one".to_string()), Some("two".to_string())]);
}

#[test]
fn timeline_with_a_node_that_is_gone_is_refused() {
    let fields = Some(NodeOption::root());
    let found = vec![(info(1, 10), Some(facts("one"))), (info(2, 20), None)];
    assert_eq!(timeline(&fields, found), Err(refused("Node didn't exist")));
    assert_eq!(timeline(&fields, vec![]), Ok(vec![]));
}

#[test]
fn node_fields_are_merged_into_the_entry() {
    let entry = document(
        "{\"id\":{\"index1\":1,\"stamp\":0},\"attribute_name\":\"modified\",\"time\":\"2020-01-01T00:00:00Z\"}",
    );
    let node = document(
        "{\"id\":{\"index1\":1,\"stamp\":0},\"name\":\"a.bin\",\"path\":null,\"has_children\":false}",
    );
    let document = merged(entry, Some(&node));
    assert_eq!(
        document.to_string(),
        "{\"attribute_name\":\"modified\",\"has_children\":false,\"id\":{\"index1\":1,\"stamp\":0},\"name\":\"a.bin\",\"path\":null,\"time\":\"2020-01-01T00:00:00Z\"}"
    );
}

#[test]
fn entry_without_a_node_is_sent_as_it_is() {
    let entry = document("{\"attribute_name\":\"modified\",\"time\":\"2020-01-01T00:00:00Z\"}");
    assert_eq!(merged(entry.clone(), None), entry);
}

#[test]
fn merging_replaces_what_both_hold() {
    let document = merged(document("{\"a\":1,\"b\":[1]}"), Some(&document("{\"a\":2,\"b\":[2]}")));
    assert_eq!(document.to_string(), "{\"a\":2,\"b\":[1,2]}");
}
