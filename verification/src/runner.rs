//! The isolation runner: one trigger per call, in an execution context of its
//! own, with what the context saw captured as an execution result.

use vstd::prelude::*;
use crate::probe::{spec_finish, spec_fresh, Artifacts, LockKind, Probe, Stop};
use crate::taxonomy::SignalKind;
use crate::triggers::{run, spec_run, Trigger, Value, ValueView, Yield, YieldView};

verus! {

/// How an execution context ended.
#[derive(Clone, Debug, PartialEq, Eq)]
pub enum Outcome {
    /// The trigger returned, with a value or without one.
    Completed(Option<Value>),
    /// The context terminated abnormally.
    AbnormalTermination(SignalKind),
    /// The time bound expired and the context was terminated by force.
    TimedOut,
    /// The time bound expired and the context could not be terminated.
    Hung,
}

/// The mathematical content of an outcome.
pub enum OutcomeView {
    Completed(Option<ValueView>),
    AbnormalTermination(SignalKind),
    TimedOut,
    Hung,
}

impl View for Outcome {
    type V = OutcomeView;

    open spec fn view(&self) -> OutcomeView {
        match *self {
            Outcome::Completed(Some(v)) => OutcomeView::Completed(Some(v@)),
            Outcome::Completed(None) => OutcomeView::Completed(None),
            Outcome::AbnormalTermination(signal) => OutcomeView::AbnormalTermination(signal),
            Outcome::TimedOut => OutcomeView::TimedOut,
            Outcome::Hung => OutcomeView::Hung,
        }
    }
}

/// What one invocation of a trigger produced.
#[derive(Clone, Debug, PartialEq, Eq)]
pub struct ExecutionResult {
    pub outcome: Outcome,
    /// The evidence that the instrumentation gathered.
    pub observed_artifacts: Artifacts,
}

/// The mathematical content of an execution result.
pub struct ResultView {
    pub outcome: OutcomeView,
    pub observed_artifacts: Artifacts,
}

impl View for ExecutionResult {
    type V = ResultView;

    open spec fn view(&self) -> ResultView {
        ResultView { outcome: self.outcome@, observed_artifacts: self.observed_artifacts }
    }
}

/// What an execution context is provided with.
#[derive(Clone, Debug, PartialEq, Eq)]
pub struct Sandbox {
    /// The semantics of the lock that the context runs under.
    pub lock: LockKind,
    /// The largest allocation that the context's allocator serves.
    pub budget: usize,
    /// The path of the build tool, where one was recorded.
    pub tool_path: Option<String>,
}

/// The mathematical content of a sandbox.
pub struct SandboxView {
    pub lock: LockKind,
    pub budget: usize,
    pub tool_path: Option<Seq<char>>,
}

impl View for Sandbox {
    type V = SandboxView;

    open spec fn view(&self) -> SandboxView {
        SandboxView {
            lock: self.lock,
            budget: self.budget,
            tool_path: match self.tool_path {
                Some(path) => Some(path@),
                None => None,
            },
        }
    }
}

/// The default allocation budget of a context.
pub const DEFAULT_BUDGET: usize = 1048576;

impl Sandbox {
    /// The sandbox that the corpus is meant for: a lock that is not
    /// reentrant, the default budget and no recorded tool path.
    pub fn new() -> (s: Sandbox)
        ensures
            s@ == (SandboxView {
                lock: LockKind::NonReentrant,
                budget: DEFAULT_BUDGET,
                tool_path: None,
            }),
    {
        Sandbox { lock: LockKind::NonReentrant, budget: DEFAULT_BUDGET, tool_path: None }
    }
}

/// The outcome that the runner reports for the way a trigger ended: a
/// context that blocks for ever is terminated when its time bound expires.
pub open spec fn spec_settle(y: YieldView) -> OutcomeView {
    match y {
        Ok(value) => OutcomeView::Completed(value),
        Err(Stop::Crashed(signal)) => OutcomeView::AbnormalTermination(signal),
        Err(Stop::Blocked) => OutcomeView::TimedOut,
    }
}

/// The result of running `trigger` in a fresh context of this sandbox.
pub open spec fn spec_execute(trigger: Trigger, sandbox: SandboxView) -> ResultView {
    let (probe, ended) = spec_run(
        trigger,
        spec_fresh(sandbox.lock, sandbox.budget),
        sandbox.tool_path,
    );
    ResultView { outcome: spec_settle(ended), observed_artifacts: spec_finish(probe) }
}

/// The outcome that the runner reports for the way a trigger ended.
pub fn settle(y: Yield) -> (outcome: Outcome)
    ensures
        outcome@ == spec_settle(crate::triggers::spec_yield_view(y)),
{
    match y {
        Ok(value) => Outcome::Completed(value),
        Err(Stop::Crashed(signal)) => Outcome::AbnormalTermination(signal),
        Err(Stop::Blocked) => Outcome::TimedOut,
    }
}

/// Runs `trigger` in a fresh context of this sandbox and captures how the
/// context ended and what its instrumentation saw.
pub fn execute(trigger: Trigger, sandbox: &Sandbox) -> (result: ExecutionResult)
    ensures
        result@ == spec_execute(trigger, sandbox@),
{
    let mut probe = Probe::new(sandbox.lock, sandbox.budget);
    let tool_path: Option<&str> = match &sandbox.tool_path {
        Some(path) => Some(path.as_str()),
        None => None,
    };
    let ended = run(trigger, &mut probe, tool_path);
    let outcome = settle(ended);
    ExecutionResult { outcome, observed_artifacts: probe.finish() }
}

/// The admission gate: it bounds the number of contexts that run at a time.
pub struct AdmissionGate {
    limit: usize,
    in_flight: usize,
}

/// The mathematical content of a gate.
pub struct GateView {
    pub limit: nat,
    pub in_flight: nat,
}

impl View for AdmissionGate {
    type V = GateView;

    closed spec fn view(&self) -> GateView {
        GateView { limit: self.limit as nat, in_flight: self.in_flight as nat }
    }
}

impl AdmissionGate {
    /// What holds of every gate: no more contexts are in flight than the limit allows.
    pub open spec fn wf(&self) -> bool {
        self@.in_flight <= self@.limit
    }

    /// A gate with every slot free.
    pub fn new(limit: usize) -> (gate: AdmissionGate)
        ensures
            gate@ == (GateView { limit: limit as nat, in_flight: 0 }),
            gate.wf(),
    {
        AdmissionGate { limit, in_flight: 0 }
    }

    /// Takes a slot where one is free, and tells whether it did.
    pub fn acquire(&mut self) -> (granted: bool)
        requires
            old(self).wf(),
        ensures
            final(self).wf(),
            granted == (old(self)@.in_flight < old(self)@.limit),
            final(self)@.limit == old(self)@.limit,
            final(self)@.in_flight == old(self)@.in_flight + if granted {
                1nat
            } else {
                0nat
            },
    {
        if self.in_flight < self.limit {
            self.in_flight = self.in_flight + 1;
            true
        } else {
            false
        }
    }

    /// Gives a slot back, where one is taken.
    pub fn release(&mut self)
        requires
            old(self).wf(),
        ensures
            final(self).wf(),
            final(self)@.limit == old(self)@.limit,
            final(self)@.in_flight == if old(self)@.in_flight > 0 {
                (old(self)@.in_flight - 1) as nat
            } else {
                0nat
            },
    {
        if self.in_flight > 0 {
            self.in_flight = self.in_flight - 1;
        }
    }

    /// The number of contexts in flight.
    pub fn in_flight(&self) -> (n: usize)
        ensures
            n == self@.in_flight,
    {
        self.in_flight
    }
}

} // verus!
