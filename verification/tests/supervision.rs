use defect_corpus::harness::LaunchFailure;
use defect_corpus::probe::{no_artifacts, Artifacts};
use defect_corpus::runner::{ExecutionResult, Outcome};
use defect_corpus::status::{decode, Termination};
use defect_corpus::supervisor::{
    conclude, signal_kind, step, Action, Ending, Event, Phase, SIGNAL_ABRT, SIGNAL_KILL,
    SIGNAL_SEGV,
};
use defect_corpus::taxonomy::SignalKind;
use defect_corpus::triggers::Value;

const EVENTS: [Event; 7] = [
    Event::Admitted,
    Event::Cancelled,
    Event::Launched,
    Event::LaunchFailed,
    Event::Reaped(0),
    Event::Reaped(0x137f),
    Event::DeadlineExpired,
];

#[test]
fn wait_statuses_are_decoded() {
    assert_eq!(decode(0), Termination::Exited(0));
    assert_eq!(decode(0x0100), Termination::Exited(1));
    assert_eq!(decode(0x6500), Termination::Exited(101));
    assert_eq!(decode(0xff00), Termination::Exited(255));
    assert_eq!(decode(0x1_2300), Termination::Exited(0x23));
    assert_eq!(decode(11), Termination::Signaled(11));
    assert_eq!(decode(6), Termination::Signaled(6));
    // With the core-dump flag set.
    assert_eq!(decode(0x8b), Termination::Signaled(11));
    assert_eq!(decode(0x86), Termination::Signaled(6));
    assert_eq!(decode(126), Termination::Signaled(126));
    assert_eq!(decode(1), Termination::Signaled(1));
    // Stopped by signal 19, and continued.
    assert_eq!(decode(0x137f), Termination::NotTerminated);
    assert_eq!(decode(0xffff), Termination::NotTerminated);
    assert_eq!(decode(0x7f), Termination::NotTerminated);
    assert_eq!(decode(-1), Termination::NotTerminated);
    assert_eq!(decode(i32::MIN), Termination::Exited(0));
}

#[test]
fn wait_statuses_agree_with_the_platform() {
    for status in [0, 0x0100, 0x6500, 11, 0x8b, 6, 9, 0x137f, 0xffff, 0x7f, 0x1_2300, -1] {
        let wanted = if libc::WIFEXITED(status) {
            Termination::Exited(libc::WEXITSTATUS(status))
        } else if libc::WIFSIGNALED(status) {
            Termination::Signaled(libc::WTERMSIG(status))
        } else {
            Termination::NotTerminated
        };
        assert_eq!(decode(status), wanted, "{:#x}", status);
    }
    assert_eq!(SIGNAL_SEGV, libc::SIGSEGV);
    assert_eq!(SIGNAL_ABRT, libc::SIGABRT);
    assert_eq!(SIGNAL_KILL, libc::SIGKILL);
}

#[test]
fn a_child_that_exits_ends_the_supervision() {
    let (phase, action) = step(Phase::Waiting, Event::Admitted);
    assert_eq!((phase, action), (Phase::Launching, Action::Launch));
    let (phase, action) = step(phase, Event::Launched);
    assert_eq!((phase, action), (Phase::Running, Action::Await));
    let (phase, action) = step(phase, Event::Reaped(0x137f));
    assert_eq!((phase, action), (Phase::Running, Action::Await));
    let (phase, action) = step(phase, Event::Reaped(0x8b));
    assert_eq!((phase, action), (Phase::Done(Ending::Signaled(11)), Action::ReleaseSlot));
    assert_eq!(
        step(Phase::Running, Event::Reaped(0x0200)),
        (Phase::Done(Ending::Exited(2)), Action::ReleaseSlot)
    );
}

#[test]
fn a_child_that_outlives_its_bound_is_killed() {
    let (phase, action) = step(Phase::Running, Event::DeadlineExpired);
    assert_eq!((phase, action), (Phase::Terminating, Action::Kill));
    assert_eq!(step(phase, Event::Reaped(0x137f)), (Phase::Terminating, Action::Await));
    assert_eq!(step(phase, Event::Reaped(9)), (Phase::Done(Ending::TimedOut), Action::ReleaseSlot));
    assert_eq!(step(phase, Event::Reaped(0)), (Phase::Done(Ending::TimedOut), Action::ReleaseSlot));
    assert_eq!(
        step(phase, Event::DeadlineExpired),
        (Phase::Done(Ending::Hung), Action::ReleaseSlot)
    );
}

#[test]
fn a_launch_can_fail_or_be_called_off() {
    assert_eq!(
        step(Phase::Launching, Event::LaunchFailed),
        (Phase::Done(Ending::LaunchFailed), Action::ReleaseSlot)
    );
    assert_eq!(step(Phase::Waiting, Event::Cancelled), (Phase::Done(Ending::Cancelled), Action::Idle));
    // Once launched, an evaluation is called off by its time bound only.
    assert_eq!(step(Phase::Launching, Event::Cancelled), (Phase::Launching, Action::Idle));
    assert_eq!(step(Phase::Running, Event::Cancelled), (Phase::Running, Action::Idle));
}

#[test]
fn events_out_of_place_change_nothing() {
    let done = [
        Phase::Done(Ending::Exited(0)),
        Phase::Done(Ending::Signaled(11)),
        Phase::Done(Ending::TimedOut),
        Phase::Done(Ending::Hung),
        Phase::Done(Ending::LaunchFailed),
        Phase::Done(Ending::Cancelled),
    ];
    for phase in done {
        for event in EVENTS {
            assert_eq!(step(phase, event), (phase, Action::Idle));
        }
    }
    assert_eq!(step(Phase::Waiting, Event::Launched), (Phase::Waiting, Action::Idle));
    assert_eq!(step(Phase::Waiting, Event::Reaped(0)), (Phase::Waiting, Action::Idle));
    assert_eq!(step(Phase::Waiting, Event::DeadlineExpired), (Phase::Waiting, Action::Idle));
    assert_eq!(step(Phase::Launching, Event::Admitted), (Phase::Launching, Action::Idle));
    assert_eq!(step(Phase::Launching, Event::Reaped(0)), (Phase::Launching, Action::Idle));
    assert_eq!(step(Phase::Running, Event::Launched), (Phase::Running, Action::Idle));
    assert_eq!(step(Phase::Terminating, Event::Admitted), (Phase::Terminating, Action::Idle));
}

#[test]
fn the_slot_is_given_back_exactly_at_the_end() {
    let phases = [Phase::Waiting, Phase::Launching, Phase::Running, Phase::Terminating];
    for phase in phases {
        for event in EVENTS {
            let (next, action) = step(phase, event);
            let ended = matches!(next, Phase::Done(_));
            let held = phase != Phase::Waiting;
            assert_eq!(action == Action::ReleaseSlot, held && ended, "{:?} {:?}", phase, event);
        }
    }
}

#[test]
fn signals_are_told_apart() {
    let none = no_artifacts();
    assert_eq!(signal_kind(11, &none), SignalKind::SegmentationFault);
    assert_eq!(signal_kind(6, &none), SignalKind::Abort);
    assert_eq!(signal_kind(9, &none), SignalKind::Killed);
    assert_eq!(signal_kind(7, &none), SignalKind::Other(7));
    assert_eq!(signal_kind(15, &none), SignalKind::Other(15));
    let freed = Artifacts { double_releases: 1, ..none };
    assert_eq!(signal_kind(6, &freed), SignalKind::InvalidFree);
    assert_eq!(signal_kind(11, &freed), SignalKind::SegmentationFault);
    let refused = Artifacts { unbounded_requests: 1, ..none };
    assert_eq!(signal_kind(6, &refused), SignalKind::OutOfMemory);
    let both = Artifacts { double_releases: 1, unbounded_requests: 1, ..none };
    assert_eq!(signal_kind(6, &both), SignalKind::InvalidFree);
}

#[test]
fn endings_amount_to_results() {
    let seen = Artifacts { missed_releases: 1, ..no_artifacts() };
    let value = Some(Value::Number(4));
    assert_eq!(conclude(Ending::Cancelled, value.clone(), seen), None);
    assert_eq!(conclude(Ending::LaunchFailed, value.clone(), seen), Some(Err(LaunchFailure {})));
    assert_eq!(
        conclude(Ending::Exited(0), value.clone(), seen),
        Some(Ok(ExecutionResult { outcome: Outcome::Completed(value.clone()), observed_artifacts: seen }))
    );
    assert_eq!(
        conclude(Ending::Exited(101), value.clone(), seen),
        Some(Ok(ExecutionResult {
            outcome: Outcome::AbnormalTermination(SignalKind::Abort),
            observed_artifacts: seen
        }))
    );
    assert_eq!(
        conclude(Ending::Signaled(11), None, seen),
        Some(Ok(ExecutionResult {
            outcome: Outcome::AbnormalTermination(SignalKind::SegmentationFault),
            observed_artifacts: seen
        }))
    );
    assert_eq!(
        conclude(Ending::TimedOut, None, seen),
        Some(Ok(ExecutionResult { outcome: Outcome::TimedOut, observed_artifacts: seen }))
    );
    assert_eq!(
        conclude(Ending::Hung, None, seen),
        Some(Ok(ExecutionResult { outcome: Outcome::Hung, observed_artifacts: seen }))
    );
}
