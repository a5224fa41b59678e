use vstd::prelude::*;

use crate::event::{
    is_output, is_terminal, stderr_lines_of, stdout_lines_of, EventModel,
};
use crate::runner::{
    init_model, step_allowed, step_model, CallOutcome, Phase, RunModel, RunStep,
};

verus! {

/// The state after a whole sequence of observations, starting from
/// [`init_model`].
pub open spec fn run_model(steps: Seq<RunStep>) -> RunModel
    decreases steps.len(),
{
    if steps.len() == 0 {
        init_model()
    } else {
        step_model(run_model(steps.drop_last()), steps.last())
    }
}

/// Every observation in the sequence arrives in a state that admits it.
pub open spec fn steps_allowed(steps: Seq<RunStep>) -> bool
    decreases steps.len(),
{
    if steps.len() == 0 {
        true
    } else {
        steps_allowed(steps.drop_last()) && step_allowed(
            run_model(steps.drop_last()),
            steps.last(),
        )
    }
}

/// The standard-output lines among a sequence of observations, in order.
pub open spec fn stdout_lines_fed(steps: Seq<RunStep>) -> Seq<Seq<char>>
    decreases steps.len(),
{
    if steps.len() == 0 {
        Seq::empty()
    } else {
        let rest = stdout_lines_fed(steps.drop_last());
        match steps.last() {
            RunStep::StdoutLine { line } => rest.push(line),
            _ => rest,
        }
    }
}

/// The standard-error lines among a sequence of observations, in order.
pub open spec fn stderr_lines_fed(steps: Seq<RunStep>) -> Seq<Seq<char>>
    decreases steps.len(),
{
    if steps.len() == 0 {
        Seq::empty()
    } else {
        let rest = stderr_lines_fed(steps.drop_last());
        match steps.last() {
            RunStep::StderrLine { line } => rest.push(line),
            _ => rest,
        }
    }
}

/// One admissible observation keeps the state well-formed.
pub proof fn lemma_step_preserves_wf(m: RunModel, s: RunStep)
    requires
        m.wf(),
        step_allowed(m, s),
    ensures
        step_model(m, s).wf(),
{
    match s {
        RunStep::SpawnFailed { detail } => {
        },
        RunStep::SpawnOk => {
        },
        RunStep::StdoutLine { line } => {
            let es = m.events.push(EventModel::Stdout { line });
            assert forall|i: int| 0 <= i < es.len() implies is_output(#[trigger] es[i]) by {
                if i < m.events.len() {
                    assert(is_output(m.events[i]));
                }
            }
        },
        RunStep::StderrLine { line } => {
            let es = m.events.push(EventModel::Stderr { line });
            assert forall|i: int| 0 <= i < es.len() implies is_output(#[trigger] es[i]) by {
                if i < m.events.len() {
                    assert(is_output(m.events[i]));
                }
            }
        },
        RunStep::Exited { code } => {
            let es = m.events.push(EventModel::Finished { success: code == Some(0int) });
            assert(es.drop_last() =~= m.events);
        },
        RunStep::WaitFailed { detail } => {
        },
    }
}

/// Every state reachable by admissible observations is well-formed.
pub proof fn lemma_run_wf(steps: Seq<RunStep>)
    requires
        steps_allowed(steps),
    ensures
        run_model(steps).wf(),
    decreases steps.len(),
{
    if steps.len() > 0 {
        lemma_run_wf(steps.drop_last());
        lemma_step_preserves_wf(run_model(steps.drop_last()), steps.last());
    }
}

/// In a run that completed, the event sequence ends with exactly one
/// terminal event — the `Finished` report — and no event follows it.
pub proof fn lemma_finished_is_last(steps: Seq<RunStep>)
    requires
        steps_allowed(steps),
        run_model(steps).phase == Phase::Completed,
    ensures
        run_model(steps).events.len() >= 1,
        run_model(steps).events.last() is Finished,
        forall|i: int|
            0 <= i < run_model(steps).events.len() - 1 ==> !is_terminal(
                #[trigger] run_model(steps).events[i],
            ),
{
    lemma_run_wf(steps);
    let es = run_model(steps).events;
    assert forall|i: int| 0 <= i < es.len() - 1 implies !is_terminal(#[trigger] es[i]) by {
        assert(es.drop_last()[i] == es[i]);
        assert(is_output(es.drop_last()[i]));
    }
}

/// In a run where the executable could not be launched, exactly one event
/// was delivered: an `Error` event carrying the same message as the failed
/// call result.
pub proof fn lemma_launch_failure_single_error(steps: Seq<RunStep>)
    requires
        steps_allowed(steps),
        run_model(steps).phase == Phase::LaunchFailed,
    ensures
        run_model(steps).events.len() == 1,
        run_model(steps).events[0] is Error,
        run_model(steps).outcome matches CallOutcome::Failed { message } && run_model(
            steps,
        ).events[0] == (EventModel::Error { message }),
{
    lemma_run_wf(steps);
}

/// Within each stream, the runner reports exactly the lines it observed, in
/// the order it observed them, whatever the interleaving of the two streams
/// and of the other observations.
pub proof fn lemma_streams_reported_in_order(steps: Seq<RunStep>)
    requires
        steps_allowed(steps),
    ensures
        stdout_lines_of(run_model(steps).events) == stdout_lines_fed(steps),
        stderr_lines_of(run_model(steps).events) == stderr_lines_fed(steps),
    decreases steps.len(),
{
    if steps.len() > 0 {
        lemma_streams_reported_in_order(steps.drop_last());
        let m = run_model(steps.drop_last());
        let s = steps.last();
        match s {
            RunStep::SpawnFailed { detail } => {
                let e = EventModel::Error { message: crate::messages::spec_launch_error_message(detail) };
                assert(m.events.push(e).drop_last() =~= m.events);
            },
            RunStep::SpawnOk => {
            },
            RunStep::StdoutLine { line } => {
                let e = EventModel::Stdout { line };
                assert(m.events.push(e).drop_last() =~= m.events);
            },
            RunStep::StderrLine { line } => {
                let e = EventModel::Stderr { line };
                assert(m.events.push(e).drop_last() =~= m.events);
            },
            RunStep::Exited { code } => {
                let e = EventModel::Finished { success: code == Some(0int) };
                assert(m.events.push(e).drop_last() =~= m.events);
            },
            RunStep::WaitFailed { detail } => {
            },
        }
    }
}

/// The terminal event of a completed run reports success exactly when the
/// child's exit code was zero; any non-zero code — and termination without
/// a code — reports failure.
pub proof fn lemma_exit_code_decides_success(steps: Seq<RunStep>, code: Option<int>)
    requires
        steps_allowed(steps.push(RunStep::Exited { code })),
    ensures
        run_model(steps.push(RunStep::Exited { code })).events.last() == (EventModel::Finished {
            success: code == Some(0int),
        }),
{
    assert(steps.push(RunStep::Exited { code }).drop_last() =~= steps);
}

} // verus!
