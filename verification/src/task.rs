//! Runs of plugins: what a client sends to start one, and how the state of a
//! task is reported back.

use vstd::prelude::*;
use crate::http::BadRequest;
use crate::json::{decode, json_decoded, json_text};

verus! {

/// A request to run a plugin, now or when the scheduler gets to it.
#[derive(Debug, Clone, PartialEq, Eq)]
pub struct PluginArgs {
    pub name: String,
    /// The plugin's arguments, as the text of a JSON document.
    pub arguments: String,
    pub relaunch: bool,
}

/// The ids of the tasks that a client asks about.
#[derive(Debug, Clone, PartialEq, Eq)]
pub struct TasksParameters {
    pub ids: Vec<u32>,
}

/// One run of a plugin as the scheduler knows it.
#[derive(Debug, Clone, PartialEq, Eq)]
pub struct Task {
    pub id: u32,
    pub plugin_name: String,
    /// The arguments of the run, as the text of a JSON document.
    pub argument: String,
    pub relaunch: bool,
}

/// Where a task stands in its life. A finished task holds what the plugin
/// returned, or the text of the error it ended with.
#[derive(Debug, PartialEq, Eq)]
pub enum TaskState {
    Waiting(Task),
    Launched(Task),
    Finished(Task, Result<serde_json::Value, String>),
}

/// The three states that a client is told of.
#[derive(Debug, Clone, Copy, PartialEq, Eq, Structural)]
pub enum Phase {
    Waiting,
    Running,
    Finished,
}

/// The answer to a question about one task: its state, the task as the
/// scheduler holds it and, once it has finished, how it ended.
#[derive(Debug, PartialEq, Eq)]
pub struct TaskStatus {
    pub state: Phase,
    pub task: Task,
    pub outcome: Option<Result<serde_json::Value, String>>,
}

/// One entry of the answer to a question about several tasks. Unlike
/// `TaskStatus` it shows the arguments of the run as a document.
#[derive(Debug, PartialEq, Eq)]
pub struct TaskSummary {
    pub state: Phase,
    pub id: u32,
    pub plugin: String,
    pub argument: serde_json::Value,
    pub outcome: Option<Result<serde_json::Value, String>>,
}

/// The answer to a run that the client waited for. Both are sent with
/// status 200: the request was served, whatever became of the plugin.
#[derive(Debug, PartialEq, Eq)]
pub enum RunReply {
    /// Sent as `{"result": ..}`.
    Result(serde_json::Value),
    /// Sent as `{"error": ..}`.
    Error(String),
}

impl Phase {
    /// The word that a client reads for the state.
    pub fn name(self) -> (word: &'static str)
        ensures
            word@ == match self {
                Phase::Waiting => "waiting"@,
                Phase::Running => "running"@,
                Phase::Finished => "finished"@,
            },
    {
        match self {
            Phase::Waiting => "waiting",
            Phase::Running => "running",
            Phase::Finished => "finished",
        }
    }
}

impl TaskState {
    /// The task that the state is of.
    pub open spec fn task(self) -> Task {
        match self {
            TaskState::Waiting(task) => task,
            TaskState::Launched(task) => task,
            TaskState::Finished(task, _) => task,
        }
    }

    /// The state as a client is told of it.
    pub open spec fn phase(self) -> Phase {
        match self {
            TaskState::Waiting(_) => Phase::Waiting,
            TaskState::Launched(_) => Phase::Running,
            TaskState::Finished(_, _) => Phase::Finished,
        }
    }

    /// How the task ended, if it has.
    pub open spec fn outcome(self) -> Option<Result<serde_json::Value, String>> {
        match self {
            TaskState::Finished(_, outcome) => Some(outcome),
            _ => None,
        }
    }

    /// What is reported of one task.
    pub open spec fn status(self) -> TaskStatus {
        TaskStatus { state: self.phase(), task: self.task(), outcome: self.outcome() }
    }

    /// The entry for the task in a report on several, given its arguments
    /// as a document.
    pub open spec fn summary(self, argument: serde_json::Value) -> TaskSummary {
        TaskSummary {
            state: self.phase(),
            id: self.task().id,
            plugin: self.task().plugin_name,
            argument,
            outcome: self.outcome(),
        }
    }

    /// Splits the state into the task, the state's name and how it ended.
    fn parts(self) -> (parts: (Task, Phase, Option<Result<serde_json::Value, String>>))
        ensures
            parts == (self.task(), self.phase(), self.outcome()),
    {
        match self {
            TaskState::Waiting(task) => (task, Phase::Waiting, None),
            TaskState::Launched(task) => (task, Phase::Running, None),
            TaskState::Finished(task, outcome) => (task, Phase::Finished, Some(outcome)),
        }
    }
}

/// What a synchronous run answers with.
pub open spec fn reply_of(outcome: Result<serde_json::Value, String>) -> RunReply {
    match outcome {
        Ok(result) => RunReply::Result(result),
        Err(error) => RunReply::Error(error),
    }
}

/// The answer to a run that the client waited for: the plugin's result, or
/// the text of its error.
pub fn run(outcome: Result<serde_json::Value, String>) -> (reply: RunReply)
    ensures
        reply == reply_of(outcome),
{
    match outcome {
        Ok(result) => RunReply::Result(result),
        Err(error) => RunReply::Error(error),
    }
}

/// The answer to a request to schedule a run: the id of the new task, or a
/// refusal with the text of the scheduler's error.
pub fn schedule(outcome: Result<u32, String>) -> (answer: Result<u32, BadRequest>)
    ensures
        match outcome {
            Ok(id) => answer == Ok::<u32, BadRequest>(id),
            Err(error) => answer is Err && answer->Err_0.message == error,
        },
{
    match outcome {
        Ok(id) => Ok(id),
        Err(error) => Err(BadRequest { message: error }),
    }
}

/// The answer to a question about one task; `None`, sent as `null`, where
/// the scheduler knows no task of the id.
pub fn task(found: Option<TaskState>) -> (answer: Option<TaskStatus>)
    ensures
        match found {
            Some(state) => answer == Some(state.status()),
            None => answer is None,
        },
{
    match found {
        Some(state) => {
            let (task, phase, outcome) = state.parts();
            Some(TaskStatus { state: phase, task, outcome })
        },
        None => None,
    }
}

/// The entry for one task in a report on several, from the state of the
/// task and its arguments decoded into a document.
pub fn summary(state: TaskState, argument: serde_json::Value) -> (entry: TaskSummary)
    ensures
        entry == state.summary(argument),
{
    let (task, phase, outcome) = state.parts();
    TaskSummary { state: phase, id: task.id, plugin: task.plugin_name, argument, outcome }
}

/// The entry for one task, with its arguments decoded here. `None` says
/// that the arguments are no JSON document.
pub fn summarize(state: TaskState) -> (entry: Option<TaskSummary>)
    ensures
        match entry {
            Some(entry) => json_decoded(state.task().argument@) == Some(json_text(entry.argument))
                && entry == state.summary(entry.argument),
            None => json_decoded(state.task().argument@) is None,
        },
{
    let (task, phase, outcome) = state.parts();
    match decode(task.argument.as_str()) {
        Some(argument) => Some(
            TaskSummary { state: phase, id: task.id, plugin: task.plugin_name, argument, outcome },
        ),
        None => None,
    }
}

/// The report on several tasks: one entry for each state, in the order in
/// which the scheduler returned them, whatever state a task is in. `None`
/// says that the arguments of one of the tasks are no JSON document.
pub fn tasks(states: Vec<TaskState>) -> (report: Option<Vec<TaskSummary>>)
    ensures
        match report {
            Some(entries) => {
                &&& entries@.len() == states@.len()
                &&& forall|i: int|
                    0 <= i < entries@.len() ==> json_decoded(states@[i].task().argument@) == Some(
                        json_text((#[trigger] entries@[i]).argument),
                    ) && entries@[i] == states@[i].summary(entries@[i].argument)
            },
            None => exists|i: int|
                0 <= i < states@.len() && json_decoded(
                    (#[trigger] states@[i]).task().argument@,
                ) is None,
        },
{
    let ghost all = states@;
    let mut entries: Vec<TaskSummary> = Vec::new();
    for state in it: states.into_iter()
        invariant
            it.seq() == all,
            entries@.len() == it.index(),
            forall|i: int|
                0 <= i < entries@.len() ==> json_decoded(all[i].task().argument@) == Some(
                    json_text((#[trigger] entries@[i]).argument),
                ) && entries@[i] == all[i].summary(entries@[i].argument),
    {
        match summarize(state) {
            Some(entry) => {
                entries.push(entry);
            },
            None => {
                return None;
            },
        }
    }
    Some(entries)
}

/// A task that has finished is reported with the outcome that a run the
/// client waited for would have answered with: the same result, or the same
/// error.
pub proof fn lemma_finished_task_reports_run(task: Task, outcome: Result<serde_json::Value, String>)
    ensures
        TaskState::Finished(task, outcome).status().state == Phase::Finished,
        TaskState::Finished(task, outcome).status().outcome == Some(outcome),
        reply_of(TaskState::Finished(task, outcome).status().outcome->0) == reply_of(outcome),
        forall|argument: serde_json::Value|
            reply_of(
                (#[trigger] TaskState::Finished(task, outcome).summary(argument)).outcome->0,
            ) == reply_of(outcome),
{
}

} // verus!
