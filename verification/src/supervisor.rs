//! The decisions of a coordinator that runs one trigger in a child context:
//! from the phase it is in and the event it is handed, the next phase and
//! what to do next. To launch, to wait and to kill is the caller's part.

use vstd::prelude::*;
use crate::harness::LaunchFailure;
use crate::probe::Artifacts;
use crate::runner::{ExecutionResult, Outcome, OutcomeView, ResultView};
use crate::status::{decode, spec_decode, Termination};
use crate::taxonomy::SignalKind;
use crate::triggers::{Value, ValueView};

verus! {

/// The number of the signal for an invalid memory access.
pub const SIGNAL_SEGV: i32 = 11;

/// The number of the signal that an abort raises.
pub const SIGNAL_ABRT: i32 = 6;

/// The number of the signal that kills by force.
pub const SIGNAL_KILL: i32 = 9;

/// How the supervision of one child ended.
#[derive(Clone, Copy, PartialEq, Eq, Structural, Debug)]
pub enum Ending {
    /// The child exited by itself, with this exit code.
    Exited(i32),
    /// A signal of this number terminated the child.
    Signaled(i32),
    /// The time bound expired and the child was killed.
    TimedOut,
    /// The time bound expired and the child outlived the kill.
    Hung,
    /// The child could not be created.
    LaunchFailed,
    /// The evaluation was called off before the launch.
    Cancelled,
}

/// Where the supervision of one child stands.
#[derive(Clone, Copy, PartialEq, Eq, Structural, Debug)]
pub enum Phase {
    /// Waiting for a slot of the admission gate.
    Waiting,
    /// A slot is held and the child is being created.
    Launching,
    /// The child runs.
    Running,
    /// The time bound expired and the child was sent a kill.
    Terminating,
    /// Over.
    Done(Ending),
}

/// What the coordinator is told.
#[derive(Clone, Copy, PartialEq, Eq, Structural, Debug)]
pub enum Event {
    /// The admission gate granted a slot.
    Admitted,
    /// The evaluation was called off.
    Cancelled,
    /// The child was created.
    Launched,
    /// The child could not be created.
    LaunchFailed,
    /// A wait on the child returned this wait status.
    Reaped(i32),
    /// A wait on the child ran into its time bound.
    DeadlineExpired,
}

/// What the coordinator is to do next.
#[derive(Clone, Copy, PartialEq, Eq, Structural, Debug)]
pub enum Action {
    /// Nothing.
    Idle,
    /// Create the child.
    Launch,
    /// Wait for the child, no longer than the time bound.
    Await,
    /// Kill the child, then wait for it, no longer than the time bound.
    Kill,
    /// Give the slot back to the admission gate.
    ReleaseSlot,
}

/// The next phase and the next action. An event that the phase has no use
/// for changes nothing.
pub open spec fn spec_step(phase: Phase, event: Event) -> (Phase, Action) {
    match (phase, event) {
        (Phase::Waiting, Event::Admitted) => (Phase::Launching, Action::Launch),
        (Phase::Waiting, Event::Cancelled) => (Phase::Done(Ending::Cancelled), Action::Idle),
        (Phase::Launching, Event::Launched) => (Phase::Running, Action::Await),
        (Phase::Launching, Event::LaunchFailed) => (
            Phase::Done(Ending::LaunchFailed),
            Action::ReleaseSlot,
        ),
        (Phase::Running, Event::Reaped(status)) => match spec_decode(status) {
            Termination::Exited(code) => (Phase::Done(Ending::Exited(code)), Action::ReleaseSlot),
            Termination::Signaled(signal) => (
                Phase::Done(Ending::Signaled(signal)),
                Action::ReleaseSlot,
            ),
            Termination::NotTerminated => (Phase::Running, Action::Await),
        },
        (Phase::Running, Event::DeadlineExpired) => (Phase::Terminating, Action::Kill),
        (Phase::Terminating, Event::Reaped(status)) => match spec_decode(status) {
            Termination::NotTerminated => (Phase::Terminating, Action::Await),
            _ => (Phase::Done(Ending::TimedOut), Action::ReleaseSlot),
        },
        (Phase::Terminating, Event::DeadlineExpired) => (
            Phase::Done(Ending::Hung),
            Action::ReleaseSlot,
        ),
        _ => (phase, Action::Idle),
    }
}

/// Whether a phase holds a slot of the admission gate.
pub open spec fn spec_holds_slot(phase: Phase) -> bool {
    phase == Phase::Launching || phase == Phase::Running || phase == Phase::Terminating
}

/// How far a phase is from the end, in phases.
pub open spec fn spec_rank(phase: Phase) -> nat {
    match phase {
        Phase::Waiting => 4,
        Phase::Launching => 3,
        Phase::Running => 2,
        Phase::Terminating => 1,
        Phase::Done(_) => 0,
    }
}

/// The next phase and the next action.
pub fn step(phase: Phase, event: Event) -> (next: (Phase, Action))
    ensures
        next == spec_step(phase, event),
{
    match phase {
        Phase::Waiting => match event {
            Event::Admitted => (Phase::Launching, Action::Launch),
            Event::Cancelled => (Phase::Done(Ending::Cancelled), Action::Idle),
            _ => (phase, Action::Idle),
        },
        Phase::Launching => match event {
            Event::Launched => (Phase::Running, Action::Await),
            Event::LaunchFailed => (Phase::Done(Ending::LaunchFailed), Action::ReleaseSlot),
            _ => (phase, Action::Idle),
        },
        Phase::Running => match event {
            Event::Reaped(status) => match decode(status) {
                Termination::Exited(code) => (
                    Phase::Done(Ending::Exited(code)),
                    Action::ReleaseSlot,
                ),
                Termination::Signaled(signal) => (
                    Phase::Done(Ending::Signaled(signal)),
                    Action::ReleaseSlot,
                ),
                Termination::NotTerminated => (Phase::Running, Action::Await),
            },
            Event::DeadlineExpired => (Phase::Terminating, Action::Kill),
            _ => (phase, Action::Idle),
        },
        Phase::Terminating => match event {
            Event::Reaped(status) => match decode(status) {
                Termination::NotTerminated => (Phase::Terminating, Action::Await),
                _ => (Phase::Done(Ending::TimedOut), Action::ReleaseSlot),
            },
            Event::DeadlineExpired => (Phase::Done(Ending::Hung), Action::ReleaseSlot),
            _ => (phase, Action::Idle),
        },
        Phase::Done(_) => (phase, Action::Idle),
    }
}

/// The kind of a terminating signal. An abort is told apart by what the
/// instrumentation counted: a second release makes it an invalid release,
/// failing that a refused request makes it a failed allocation.
pub open spec fn spec_signal_kind(signal: i32, evidence: Artifacts) -> SignalKind {
    if signal == SIGNAL_SEGV {
        SignalKind::SegmentationFault
    } else if signal == SIGNAL_ABRT {
        if evidence.double_releases > 0 {
            SignalKind::InvalidFree
        } else if evidence.unbounded_requests > 0 {
            SignalKind::OutOfMemory
        } else {
            SignalKind::Abort
        }
    } else if signal == SIGNAL_KILL {
        SignalKind::Killed
    } else {
        SignalKind::Other(signal)
    }
}

/// The kind of a terminating signal.
pub fn signal_kind(signal: i32, evidence: &Artifacts) -> (kind: SignalKind)
    ensures
        kind == spec_signal_kind(signal, *evidence),
{
    if signal == SIGNAL_SEGV {
        SignalKind::SegmentationFault
    } else if signal == SIGNAL_ABRT {
        if evidence.double_releases > 0 {
            SignalKind::InvalidFree
        } else if evidence.unbounded_requests > 0 {
            SignalKind::OutOfMemory
        } else {
            SignalKind::Abort
        }
    } else if signal == SIGNAL_KILL {
        SignalKind::Killed
    } else {
        SignalKind::Other(signal)
    }
}

/// What an ending amounts to, given the value that the child reported and
/// the evidence that its instrumentation gathered: an exit with code zero
/// is a completed run; any other exit is an abort; a cancelled evaluation
/// amounts to nothing.
pub open spec fn spec_conclude(ending: Ending, value: Option<ValueView>, evidence: Artifacts) -> Option<
    Result<ResultView, LaunchFailure>,
> {
    match ending {
        Ending::Cancelled => None,
        Ending::LaunchFailed => Some(Err(LaunchFailure {  })),
        Ending::Exited(code) => Some(
            Ok(
                ResultView {
                    outcome: if code == 0 {
                        OutcomeView::Completed(value)
                    } else {
                        OutcomeView::AbnormalTermination(SignalKind::Abort)
                    },
                    observed_artifacts: evidence,
                },
            ),
        ),
        Ending::Signaled(signal) => Some(
            Ok(
                ResultView {
                    outcome: OutcomeView::AbnormalTermination(spec_signal_kind(signal, evidence)),
                    observed_artifacts: evidence,
                },
            ),
        ),
        Ending::TimedOut => Some(
            Ok(ResultView { outcome: OutcomeView::TimedOut, observed_artifacts: evidence }),
        ),
        Ending::Hung => Some(
            Ok(ResultView { outcome: OutcomeView::Hung, observed_artifacts: evidence }),
        ),
    }
}

/// The content of an optional value.
pub open spec fn spec_value_view(value: Option<Value>) -> Option<ValueView> {
    match value {
        Some(v) => Some(v@),
        None => None,
    }
}

/// The content of what an ending amounts to.
pub open spec fn spec_conclusion_view(conclusion: Option<Result<ExecutionResult, LaunchFailure>>) -> Option<
    Result<ResultView, LaunchFailure>,
> {
    match conclusion {
        Some(Ok(result)) => Some(Ok(result@)),
        Some(Err(failure)) => Some(Err(failure)),
        None => None,
    }
}

/// What an ending amounts to.
pub fn conclude(ending: Ending, value: Option<Value>, evidence: Artifacts) -> (conclusion: Option<
    Result<ExecutionResult, LaunchFailure>,
>)
    ensures
        spec_conclusion_view(conclusion) == spec_conclude(
            ending,
            spec_value_view(value),
            evidence,
        ),
{
    let outcome = match ending {
        Ending::Cancelled => {
            return None;
        },
        Ending::LaunchFailed => {
            return Some(Err(LaunchFailure {  }));
        },
        Ending::Exited(code) => {
            if code == 0 {
                Outcome::Completed(value)
            } else {
                Outcome::AbnormalTermination(SignalKind::Abort)
            }
        },
        Ending::Signaled(signal) => Outcome::AbnormalTermination(signal_kind(signal, &evidence)),
        Ending::TimedOut => Outcome::TimedOut,
        Ending::Hung => Outcome::Hung,
    };
    Some(Ok(ExecutionResult { outcome, observed_artifacts: evidence }))
}

/// Supervision never leaves its end, never moves away from it, and gives
/// the slot back exactly when a phase that holds one reaches the end.
pub proof fn lemma_step_progress(phase: Phase, event: Event)
    ensures
        phase is Done ==> spec_step(phase, event) == (phase, Action::Idle),
        spec_rank(spec_step(phase, event).0) <= spec_rank(phase),
        spec_step(phase, event).1 == Action::ReleaseSlot <==> spec_holds_slot(phase) && spec_step(
            phase,
            event,
        ).0 is Done,
{
}

/// The wait on a child is bounded: an expired time bound brings a phase
/// that holds a slot strictly nearer to the end, so the second one ends
/// the supervision of a running child.
pub proof fn lemma_deadline_bounds_wait(phase: Phase)
    requires
        spec_holds_slot(phase),
        phase != Phase::Launching,
    ensures
        spec_rank(spec_step(phase, Event::DeadlineExpired).0) < spec_rank(phase),
        spec_step(spec_step(phase, Event::DeadlineExpired).0, Event::DeadlineExpired).0 is Done,
{
}

} // verus!
