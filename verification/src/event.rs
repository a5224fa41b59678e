use vstd::prelude::*;

verus! {

/// One observation delivered to the event sink during an invocation.
///
/// `Stdout` and `Stderr` carry one decoded line each, without the trailing
/// newline. `Finished` and `Error` are terminal: exactly one of them ends an
/// invocation's event sequence, and nothing follows it.
#[derive(Debug, Clone, PartialEq)]
pub enum AgentEvent {
    Stdout { line: String },
    Stderr { line: String },
    Finished { success: bool },
    Error { message: String },
}

/// Mathematical image of an [`AgentEvent`]: lines and messages as
/// character sequences.
#[verifier::ext_equal]
pub enum EventModel {
    Stdout { line: Seq<char> },
    Stderr { line: Seq<char> },
    Finished { success: bool },
    Error { message: Seq<char> },
}

impl View for AgentEvent {
    type V = EventModel;

    open spec fn view(&self) -> EventModel {
        match self {
            AgentEvent::Stdout { line } => EventModel::Stdout { line: line@ },
            AgentEvent::Stderr { line } => EventModel::Stderr { line: line@ },
            AgentEvent::Finished { success } => EventModel::Finished { success: *success },
            AgentEvent::Error { message } => EventModel::Error { message: message@ },
        }
    }
}

/// A terminal event ends the invocation: no event may follow it.
pub open spec fn is_terminal(e: EventModel) -> bool {
    e is Finished || e is Error
}

/// An output event reports one line read from one of the child's streams.
pub open spec fn is_output(e: EventModel) -> bool {
    e is Stdout || e is Stderr
}

/// Every event in the sequence is an output event.
pub open spec fn all_output(events: Seq<EventModel>) -> bool {
    forall|i: int| 0 <= i < events.len() ==> is_output(#[trigger] events[i])
}

/// The standard-output lines reported by a sequence of events, in order.
pub open spec fn stdout_lines_of(events: Seq<EventModel>) -> Seq<Seq<char>>
    decreases events.len(),
{
    if events.len() == 0 {
        Seq::empty()
    } else {
        let rest = stdout_lines_of(events.drop_last());
        match events.last() {
            EventModel::Stdout { line } => rest.push(line),
            _ => rest,
        }
    }
}

/// The standard-error lines reported by a sequence of events, in order.
pub open spec fn stderr_lines_of(events: Seq<EventModel>) -> Seq<Seq<char>>
    decreases events.len(),
{
    if events.len() == 0 {
        Seq::empty()
    } else {
        let rest = stderr_lines_of(events.drop_last());
        match events.last() {
            EventModel::Stderr { line } => rest.push(line),
            _ => rest,
        }
    }
}

} // verus!
