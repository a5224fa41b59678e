use vstd::prelude::*;

use crate::event::{
    all_output, AgentEvent, EventModel,
};
use crate::messages::{
    launch_error_message, spec_launch_error_message, spec_wait_error_message, wait_error_message,
};

verus! {

/// Where an invocation stands: not yet launched, streaming the child's
/// output, or one of the three terminal conditions.
#[derive(Clone, Copy, Debug, PartialEq, Eq, Structural)]
pub enum Phase {
    /// The child has not been spawned yet; no event has been produced.
    Launching,
    /// The child is running; its two streams are being drained.
    Streaming,
    /// The executable could not be started; one `Error` event was produced.
    LaunchFailed,
    /// The child exited; one `Finished` event ended the sequence.
    Completed,
    /// Waiting for the child's exit failed; the call fails with no
    /// terminal event of its own.
    WaitFailed,
}

/// The invocation's result as the caller of the runner sees it.
#[verifier::ext_equal]
pub enum CallOutcome {
    /// The invocation is still in progress.
    Pending,
    /// The invocation ran to completion (whatever the child's exit code).
    Succeeded,
    /// The call fails with this message.
    Failed { message: Seq<char> },
}

/// Mathematical state of one invocation: its phase, every event produced so
/// far in order, and the call's outcome.
#[verifier::ext_equal]
pub struct RunModel {
    pub phase: Phase,
    pub events: Seq<EventModel>,
    pub outcome: CallOutcome,
}

impl RunModel {
    /// Shape every reachable state has. In particular: events stop at a
    /// terminal event, a launch failure produces exactly one `Error` event
    /// carrying the same message as the failed call result, and a completed
    /// run ends in exactly one `Finished` event.
    pub open spec fn wf(self) -> bool {
        &&& (self.phase == Phase::Launching ==> self.events.len() == 0 && self.outcome
            == CallOutcome::Pending)
        &&& (self.phase == Phase::Streaming ==> all_output(self.events) && self.outcome
            == CallOutcome::Pending)
        &&& (self.phase == Phase::LaunchFailed ==> self.events.len() == 1 && (self.outcome matches
        CallOutcome::Failed { message } && self.events[0] == (EventModel::Error { message })))
        &&& (self.phase == Phase::Completed ==> self.events.len() >= 1 && self.events.last()
            is Finished && all_output(self.events.drop_last()) && self.outcome
            == CallOutcome::Succeeded)
        &&& (self.phase == Phase::WaitFailed ==> all_output(self.events) && self.outcome
            is Failed)
    }
}

/// The state before anything has happened.
pub open spec fn init_model() -> RunModel {
    RunModel { phase: Phase::Launching, events: Seq::empty(), outcome: CallOutcome::Pending }
}

/// One thing the runner observes from the outside world during an
/// invocation.
pub enum RunStep {
    /// Spawning the executable failed; `detail` is the system's description.
    SpawnFailed { detail: Seq<char> },
    /// The executable was spawned with both streams piped.
    SpawnOk,
    /// One line was read from the child's standard output.
    StdoutLine { line: Seq<char> },
    /// One line was read from the child's standard error.
    StderrLine { line: Seq<char> },
    /// Both streams are drained and the child exited with this code
    /// (`None` when the process was terminated without an exit code).
    Exited { code: Option<int> },
    /// Both streams are drained but waiting for the child's exit failed.
    WaitFailed { detail: Seq<char> },
}

/// In which states each observation may be recorded.
pub open spec fn step_allowed(m: RunModel, s: RunStep) -> bool {
    match s {
        RunStep::SpawnFailed { .. } => m.phase == Phase::Launching,
        RunStep::SpawnOk => m.phase == Phase::Launching,
        RunStep::StdoutLine { .. } => m.phase == Phase::Streaming,
        RunStep::StderrLine { .. } => m.phase == Phase::Streaming,
        RunStep::Exited { .. } => m.phase == Phase::Streaming,
        RunStep::WaitFailed { .. } => m.phase == Phase::Streaming,
    }
}

/// What each observation does to the state: which event it appends, where
/// the phase moves, and what the call will return.
pub open spec fn step_model(m: RunModel, s: RunStep) -> RunModel {
    match s {
        RunStep::SpawnFailed { detail } => RunModel {
            phase: Phase::LaunchFailed,
            events: m.events.push(
                EventModel::Error { message: spec_launch_error_message(detail) },
            ),
            outcome: CallOutcome::Failed { message: spec_launch_error_message(detail) },
        },
        RunStep::SpawnOk => RunModel { phase: Phase::Streaming, events: m.events, outcome: m.outcome },
        RunStep::StdoutLine { line } => RunModel {
            phase: m.phase,
            events: m.events.push(EventModel::Stdout { line }),
            outcome: m.outcome,
        },
        RunStep::StderrLine { line } => RunModel {
            phase: m.phase,
            events: m.events.push(EventModel::Stderr { line }),
            outcome: m.outcome,
        },
        RunStep::Exited { code } => RunModel {
            phase: Phase::Completed,
            events: m.events.push(EventModel::Finished { success: code == Some(0int) }),
            outcome: CallOutcome::Succeeded,
        },
        RunStep::WaitFailed { detail } => RunModel {
            phase: Phase::WaitFailed,
            events: m.events,
            outcome: CallOutcome::Failed { message: spec_wait_error_message(detail) },
        },
    }
}

/// The mathematical image of an exit code, with `None` for termination
/// without a code.
pub open spec fn code_model(code: Option<i32>) -> Option<int> {
    match code {
        Some(c) => Some(c as int),
        None => None,
    }
}

/// Records the progress of one invocation and decides every event the
/// runner produces.
///
/// The embedding application performs the operating-system work — spawning
/// the child, reading its pipes, delivering events to the sink — and reports
/// each observation here; the runner hands back the event to deliver, or the
/// message the call must fail with. Each method moves the state exactly as
/// [`step_model`] says, so the sequencing laws proved in [`crate::laws`]
/// hold of every run the application can drive.
pub struct Runner {
    phase: Phase,
    events: Ghost<Seq<EventModel>>,
    outcome: Ghost<CallOutcome>,
}

impl View for Runner {
    type V = RunModel;

    closed spec fn view(&self) -> RunModel {
        RunModel { phase: self.phase, events: self.events@, outcome: self.outcome@ }
    }
}

impl Runner {
    /// A fresh invocation: nothing observed, no event produced.
    pub fn new() -> (r: Runner)
        ensures
            r@ == init_model(),
            r@.wf(),
    {
        Runner {
            phase: Phase::Launching,
            events: Ghost(Seq::empty()),
            outcome: Ghost(CallOutcome::Pending),
        }
    }

    /// The invocation's current phase.
    pub fn current_phase(&self) -> (p: Phase)
        ensures
            p == self@.phase,
    {
        self.phase
    }

    /// Records that the executable could not be started. Returns the one
    /// `Error` event to deliver and the message the call fails with; the
    /// two carry the same text, built around the system's description.
    pub fn on_spawn_failure(&mut self, detail: &str) -> (r: (AgentEvent, String))
        requires
            old(self)@.wf(),
            old(self)@.phase == Phase::Launching,
        ensures
            final(self)@ == step_model(old(self)@, RunStep::SpawnFailed { detail: detail@ }),
            final(self)@.wf(),
            r.0@ == (EventModel::Error { message: spec_launch_error_message(detail@) }),
            r.1@ == spec_launch_error_message(detail@),
    {
        let message = launch_error_message(detail);
        let returned = message.clone();
        proof {
            self.events@ = self.events@.push(
                EventModel::Error { message: spec_launch_error_message(detail@) },
            );
            self.outcome@ = CallOutcome::Failed { message: spec_launch_error_message(detail@) };
        }
        self.phase = Phase::LaunchFailed;
        (AgentEvent::Error { message }, returned)
    }

    /// Records that the executable was spawned with both streams piped.
    pub fn on_spawn_ok(&mut self)
        requires
            old(self)@.wf(),
            old(self)@.phase == Phase::Launching,
        ensures
            final(self)@ == step_model(old(self)@, RunStep::SpawnOk),
            final(self)@.wf(),
    {
        self.phase = Phase::Streaming;
    }

    /// Records one line read from the child's standard output and returns
    /// the event to deliver for it.
    pub fn on_stdout_line(&mut self, line: String) -> (ev: AgentEvent)
        requires
            old(self)@.wf(),
            old(self)@.phase == Phase::Streaming,
        ensures
            final(self)@ == step_model(old(self)@, RunStep::StdoutLine { line: line@ }),
            final(self)@.wf(),
            ev@ == (EventModel::Stdout { line: line@ }),
    {
        proof {
            self.events@ = self.events@.push(EventModel::Stdout { line: line@ });
        }
        AgentEvent::Stdout { line }
    }

    /// Records one line read from the child's standard error and returns
    /// the event to deliver for it.
    pub fn on_stderr_line(&mut self, line: String) -> (ev: AgentEvent)
        requires
            old(self)@.wf(),
            old(self)@.phase == Phase::Streaming,
        ensures
            final(self)@ == step_model(old(self)@, RunStep::StderrLine { line: line@ }),
            final(self)@.wf(),
            ev@ == (EventModel::Stderr { line: line@ }),
    {
        proof {
            self.events@ = self.events@.push(EventModel::Stderr { line: line@ });
        }
        AgentEvent::Stderr { line }
    }

    /// Records the child's exit once both streams are drained. Returns the
    /// terminal `Finished` event: success exactly when the exit code is
    /// zero, failure for any other code and for termination without a code.
    pub fn on_exit(&mut self, code: Option<i32>) -> (ev: AgentEvent)
        requires
            old(self)@.wf(),
            old(self)@.phase == Phase::Streaming,
        ensures
            final(self)@ == step_model(old(self)@, RunStep::Exited { code: code_model(code) }),
            final(self)@.wf(),
            ev@ == (EventModel::Finished { success: code == Some(0i32) }),
    {
        let success = match code {
            Some(c) => c == 0,
            None => false,
        };
        proof {
            assert(success == (code_model(code) == Some(0int)));
            self.events@ = self.events@.push(EventModel::Finished { success });
            self.outcome@ = CallOutcome::Succeeded;
        }
        self.phase = Phase::Completed;
        AgentEvent::Finished { success }
    }

    /// Records that waiting for the child's exit failed. No event is
    /// produced for this condition; the call fails with the returned
    /// message.
    pub fn on_wait_failure(&mut self, detail: &str) -> (msg: String)
        requires
            old(self)@.wf(),
            old(self)@.phase == Phase::Streaming,
        ensures
            final(self)@ == step_model(old(self)@, RunStep::WaitFailed { detail: detail@ }),
            final(self)@.wf(),
            msg@ == spec_wait_error_message(detail@),
    {
        proof {
            self.outcome@ = CallOutcome::Failed { message: spec_wait_error_message(detail@) };
        }
        self.phase = Phase::WaitFailed;
        wait_error_message(detail)
    }
}

} // verus!
