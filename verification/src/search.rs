//! Finding nodes: by a query over their attributes, and by the times that
//! their attributes hold.

use vstd::prelude::*;
use crate::http::BadRequest;
use crate::json::{json_merged, json_text, merge};
use crate::node::{facts_view, realize, realized, NodeFacts, NodeId, NodeOption, NodeState, NodeStateView};

verus! {

/// A query and the path of the node below which it is run.
#[derive(Debug, Clone, PartialEq, Eq)]
pub struct QueryInfo {
    pub query: String,
    pub root: String,
}

/// A window of time, each end written as RFC 3339 asks, and the fields to
/// show of the nodes found in it.
#[derive(Debug, Clone, PartialEq, Eq)]
pub struct TimeRange {
    pub after: String,
    pub before: String,
    pub option: Option<NodeOption>,
}

/// A point in time: seconds since the start of 1970 in UTC, and the
/// nanoseconds into that second (a thousand million or more within a leap
/// second).
#[derive(Debug, Clone, Copy, PartialEq, Eq, Structural)]
pub struct Instant {
    pub secs: i64,
    pub nanos: u32,
}

/// One time found in the tree: the node, the attribute that holds the
/// time, and the time.
#[derive(Debug, Clone, PartialEq, Eq)]
pub struct TimeInfo {
    pub id: NodeId,
    pub attribute_name: String,
    pub time: Instant,
}

/// One entry of a timeline: a time that was found and, where the request
/// names fields to show, the node it was found on. A client reads the
/// node's fields beside the three of the entry, in one object.
#[derive(Debug, PartialEq, Eq)]
pub struct TimelineEntry {
    pub id: NodeId,
    pub attribute_name: String,
    pub time: Instant,
    pub node: Option<NodeState>,
}

/// Model of `TimelineEntry`.
pub struct TimelineEntryView {
    pub id: NodeId,
    pub attribute_name: Seq<char>,
    pub time: Instant,
    pub node: Option<NodeStateView>,
}

impl View for TimelineEntry {
    type V = TimelineEntryView;

    open spec fn view(&self) -> TimelineEntryView {
        TimelineEntryView {
            id: self.id,
            attribute_name: self.attribute_name@,
            time: self.time,
            node: match self.node {
                Some(state) => Some(state@),
                None => None,
            },
        }
    }
}

/// What `chrono::DateTime::parse_from_rfc3339` makes of a text: the point
/// in time it names, as seconds and nanoseconds in UTC, or the message of
/// the error it is rejected with.
pub uninterp spec fn rfc3339_parsed(text: Seq<char>) -> Result<(i64, u32), Seq<char>>;

/// The model of a parsed end of a window.
pub open spec fn parsed_view(parsed: Result<Instant, String>) -> Result<(i64, u32), Seq<char>> {
    match parsed {
        Ok(time) => Ok((time.secs, time.nanos)),
        Err(message) => Err(message@),
    }
}

/// Calls `chrono::DateTime::parse_from_rfc3339`. A time is handed out as
/// what `timestamp` and `timestamp_subsec_nanos` return for it, which name
/// one point in time whatever offset the text was written with; an error
/// as what it displays. The outcome depends on the text alone.
#[verifier::external_body]
fn parse_rfc3339(text: &str) -> (parsed: Result<Instant, String>)
    ensures
        parsed_view(parsed) == rfc3339_parsed(text@),
{
    match chrono::DateTime::parse_from_rfc3339(text) {
        Ok(time) => Ok(Instant { secs: time.timestamp(), nanos: time.timestamp_subsec_nanos() }),
        Err(error) => Err(error.to_string()),
    }
}

/// The window between two parsed ends, or the message of the first end
/// that did not parse.
pub open spec fn window_of(
    after: Result<(i64, u32), Seq<char>>,
    before: Result<(i64, u32), Seq<char>>,
) -> Result<((i64, u32), (i64, u32)), Seq<char>> {
    match after {
        Ok(start) => match before {
            Ok(end) => Ok((start, end)),
            Err(message) => Err(message),
        },
        Err(message) => Err(message),
    }
}

/// The model of a window or its refusal.
pub open spec fn window_view(window: Result<(Instant, Instant), BadRequest>) -> Result<
    ((i64, u32), (i64, u32)),
    Seq<char>,
> {
    match window {
        Ok((start, end)) => Ok(((start.secs, start.nanos), (end.secs, end.nanos))),
        Err(error) => Err(error@),
    }
}

/// The entry for one time that was found. Without fields to show it holds
/// no node; with them it holds the node realized, and a node that the tree
/// does not hold refuses the entry.
pub open spec fn entry_of(option: Option<NodeOption>, info: TimeInfo, facts: Option<NodeFacts>) -> Result<
    TimelineEntryView,
    Seq<char>,
> {
    match option {
        Some(fields) => match realized(info.id, fields, facts_view(facts)) {
            Ok(state) => Ok(
                TimelineEntryView {
                    id: info.id,
                    attribute_name: info.attribute_name@,
                    time: info.time,
                    node: Some(state),
                },
            ),
            Err(message) => Err(message),
        },
        None => Ok(
            TimelineEntryView {
                id: info.id,
                attribute_name: info.attribute_name@,
                time: info.time,
                node: None,
            },
        ),
    }
}

/// The answer to a query: the ids it found, or a refusal with the text of
/// the error that the query ended with.
pub fn query(outcome: Result<Vec<NodeId>, String>) -> (answer: Result<Vec<NodeId>, BadRequest>)
    ensures
        match outcome {
            Ok(ids) => answer == Ok::<Vec<NodeId>, BadRequest>(ids),
            Err(error) => answer is Err && answer->Err_0.message == error,
        },
{
    match outcome {
        Ok(ids) => Ok(ids),
        Err(error) => Err(BadRequest { message: error }),
    }
}

/// The window between two ends that were parsed already. An end that did
/// not parse refuses the request with its message; where neither did, the
/// message is that of `after`.
pub fn window(after: Result<Instant, String>, before: Result<Instant, String>) -> (answer: Result<
    (Instant, Instant),
    BadRequest,
>)
    ensures
        window_view(answer) == window_of(parsed_view(after), parsed_view(before)),
{
    let start = match after {
        Ok(start) => start,
        Err(message) => {
            return Err(BadRequest { message });
        },
    };
    let end = match before {
        Ok(end) => end,
        Err(message) => {
            return Err(BadRequest { message });
        },
    };
    Ok((start, end))
}

impl TimeRange {
    /// The window that the request names, both ends parsed as RFC 3339.
    pub fn window(&self) -> (answer: Result<(Instant, Instant), BadRequest>)
        ensures
            window_view(answer) == window_of(
                rfc3339_parsed(self.after@),
                rfc3339_parsed(self.before@),
            ),
    {
        let after = parse_rfc3339(self.after.as_str());
        let before = parse_rfc3339(self.before.as_str());
        window(after, before)
    }
}

/// One entry of a timeline. `facts` is what the tree holds of the node of
/// `info`; it is read only where `option` names fields to show.
pub fn entry(option: &Option<NodeOption>, info: TimeInfo, facts: Option<NodeFacts>) -> (answer: Result<
    TimelineEntry,
    BadRequest,
>)
    ensures
        match answer {
            Ok(entry) => entry_of(*option, info, facts) == Ok::<TimelineEntryView, Seq<char>>(
                entry@,
            ),
            Err(error) => entry_of(*option, info, facts) == Err::<TimelineEntryView, Seq<char>>(
                error@,
            ),
        },
{
    let node = match option {
        Some(fields) => match realize(info.id, fields, facts) {
            Ok(state) => Some(state),
            Err(error) => {
                return Err(error);
            },
        },
        None => None,
    };
    Ok(TimelineEntry { id: info.id, attribute_name: info.attribute_name, time: info.time, node })
}

/// The timeline for the times found in a window, in the order in which
/// they were found. Each time comes with what the tree holds of its node.
/// One node that the tree does not hold refuses the whole request.
pub fn timeline(option: &Option<NodeOption>, found: Vec<(TimeInfo, Option<NodeFacts>)>) -> (answer:
    Result<Vec<TimelineEntry>, BadRequest>)
    ensures
        match answer {
            Ok(entries) => entries@.len() == found@.len() && forall|i: int|
                0 <= i < entries@.len() ==> entry_of(*option, found@[i].0, found@[i].1) == Ok::<
                    TimelineEntryView,
                    Seq<char>,
                >((#[trigger] entries@[i])@),
            Err(error) => exists|i: int|
                0 <= i < found@.len() && entry_of(
                    *option,
                    (#[trigger] found@[i]).0,
                    found@[i].1,
                ) == Err::<TimelineEntryView, Seq<char>>(error@),
        },
{
    let ghost all = found@;
    let mut entries: Vec<TimelineEntry> = Vec::new();
    for pair in it: found.into_iter()
        invariant
            it.seq() == all,
            entries@.len() == it.index(),
            forall|i: int|
                0 <= i < entries@.len() ==> entry_of(*option, all[i].0, all[i].1) == Ok::<
                    TimelineEntryView,
                    Seq<char>,
                >((#[trigger] entries@[i])@),
    {
        let (info, facts) = pair;
        match entry(option, info, facts) {
            Ok(entry) => {
                entries.push(entry);
            },
            Err(error) => {
                return Err(error);
            },
        }
    }
    Ok(entries)
}

/// The object that a client reads for one entry of a timeline: the entry's
/// own three fields, given as `entry`, with the fields of its node, given
/// as `node`, merged into them. Without a node it is the entry as it is.
pub fn merged(entry: serde_json::Value, node: Option<&serde_json::Value>) -> (document:
    serde_json::Value)
    ensures
        match node {
            Some(fields) => json_text(document) == json_merged(entry, *fields),
            None => document == entry,
        },
{
    let mut document = entry;
    match node {
        Some(fields) => {
            merge(&mut document, fields);
        },
        None => {},
    }
    document
}

} // verus!
