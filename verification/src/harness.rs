//! The corpus driver: it takes patterns from the registry, has each one's
//! trigger run in a context of its own and grades what came back.

use vstd::prelude::*;
use crate::classifier::{classify, spec_classify};
use crate::comparator::{
    compare, launch_failure, record, spec_compare, spec_launch_failure, spec_record,
    RecordView, ReportRecord, Verdict, VerdictView,
};
use crate::config::{spec_selects, spec_validate, Config, ConfigError, ConfigView};
use crate::registry::{spec_contains_id, spec_index_of, DefectPattern, PatternView, Registry};
use crate::runner::{
    execute, spec_execute, AdmissionGate, ExecutionResult, ResultView, Sandbox, SandboxView,
};

verus! {

/// No execution context could be created for a trigger.
#[derive(Clone, Copy, PartialEq, Eq, Structural, Debug)]
pub struct LaunchFailure {}

/// Why the driver refused a call.
#[derive(Clone, Copy, PartialEq, Eq, Structural, Debug)]
pub enum HarnessError {
    /// The configuration cannot govern a run.
    InvalidConfig(ConfigError),
    /// No pattern of that id is registered.
    NotFound,
}

/// The content of an attempt to run a trigger.
pub open spec fn spec_attempt_view(attempt: Result<ExecutionResult, LaunchFailure>) -> Result<
    ResultView,
    LaunchFailure,
> {
    match attempt {
        Ok(result) => Ok(result@),
        Err(failure) => Err(failure),
    }
}

/// The verdict on a pattern, given what the attempt to run its trigger
/// brought: a result is classified for the category that the pattern
/// declares and graded; a failed launch is reported as such.
pub open spec fn spec_evaluate(pattern: PatternView, attempt: Result<ResultView, LaunchFailure>) -> VerdictView {
    match attempt {
        Ok(result) => spec_compare(pattern, spec_classify(result, pattern.category)),
        Err(_) => spec_launch_failure(pattern),
    }
}

/// The verdict on a pattern that is run in a fresh context of `sandbox`.
/// A pattern without a trigger has nothing to launch.
pub open spec fn spec_verdict(pattern: PatternView, sandbox: SandboxView) -> VerdictView {
    match pattern.trigger {
        Some(trigger) => spec_evaluate(pattern, Ok(spec_execute(trigger, sandbox))),
        None => spec_evaluate(pattern, Err(LaunchFailure {  })),
    }
}

/// The verdicts on those of `patterns` that the configuration selects, in
/// the order of the patterns.
pub open spec fn spec_run_all(patterns: Seq<PatternView>, config: ConfigView, sandbox: SandboxView) -> Seq<VerdictView>
    decreases patterns.len(),
{
    if patterns.len() == 0 {
        Seq::empty()
    } else {
        let before = spec_run_all(patterns.drop_last(), config, sandbox);
        if spec_selects(config, patterns.last().id) {
            before.push(spec_verdict(patterns.last(), sandbox))
        } else {
            before
        }
    }
}

/// The content of each verdict of a list.
pub open spec fn spec_verdicts(verdicts: Seq<Verdict>) -> Seq<VerdictView> {
    verdicts.map_values(|v: Verdict| v@)
}

/// The content of each record of a list.
pub open spec fn spec_records(records: Seq<ReportRecord>) -> Seq<RecordView> {
    records.map_values(|r: ReportRecord| r@)
}

/// Grades what the attempt to run the trigger of `pattern` brought.
pub fn evaluate(pattern: &DefectPattern, attempt: Result<ExecutionResult, LaunchFailure>) -> (verdict: Verdict)
    ensures
        verdict@ == spec_evaluate(pattern@, spec_attempt_view(attempt)),
{
    match attempt {
        Ok(result) => compare(pattern, classify(&result, pattern.category)),
        Err(_) => launch_failure(pattern),
    }
}

/// Runs the trigger of `pattern` in a fresh context and grades the result.
pub fn run_pattern(pattern: &DefectPattern, sandbox: &Sandbox) -> (verdict: Verdict)
    ensures
        verdict@ == spec_verdict(pattern@, sandbox@),
{
    match pattern.trigger {
        Some(trigger) => evaluate(pattern, Ok(execute(trigger, sandbox))),
        None => evaluate(pattern, Err(LaunchFailure {  })),
    }
}

/// Runs the pattern of this id. The configuration is checked first; an id
/// that is not registered is refused with `NotFound`.
pub fn run_one(registry: &Registry, id: &str, config: &Config, sandbox: &Sandbox) -> (r: Result<
    Verdict,
    HarnessError,
>)
    requires
        registry.wf(),
    ensures
        match spec_validate(config@) {
            Err(e) => r == Err::<Verdict, HarnessError>(HarnessError::InvalidConfig(e)),
            Ok(()) => if spec_contains_id(registry@, id@) {
                r matches Ok(verdict) && verdict@ == spec_verdict(
                    registry@[spec_index_of(registry@, id@)],
                    sandbox@,
                )
            } else {
                r == Err::<Verdict, HarnessError>(HarnessError::NotFound)
            },
        },
{
    match config.validate() {
        Err(e) => {
            return Err(HarnessError::InvalidConfig(e));
        },
        Ok(()) => {},
    }
    match registry.get(id) {
        Ok(pattern) => Ok(run_pattern(pattern, sandbox)),
        Err(_) => Err(HarnessError::NotFound),
    }
}

/// Runs every pattern that the configuration selects, in registration
/// order, each in a context of its own and behind the admission gate. The
/// configuration is checked before any pattern is run.
pub fn run_all(registry: &Registry, config: &Config, sandbox: &Sandbox) -> (r: Result<
    Vec<Verdict>,
    ConfigError,
>)
    ensures
        match spec_validate(config@) {
            Err(e) => r == Err::<Vec<Verdict>, ConfigError>(e),
            Ok(()) => r matches Ok(verdicts) && spec_verdicts(verdicts@) == spec_run_all(
                registry@,
                config@,
                sandbox@,
            ),
        },
{
    match config.validate() {
        Err(e) => {
            return Err(e);
        },
        Ok(()) => {},
    }
    let mut gate = AdmissionGate::new(config.max_concurrency);
    let mut verdicts: Vec<Verdict> = Vec::new();
    let n = registry.len();
    let mut i: usize = 0;
    assert(registry@.take(0) =~= Seq::empty());
    while i < n
        invariant
            i <= n,
            n == registry@.len(),
            gate.wf(),
            gate@.in_flight == 0,
            gate@.limit == config.max_concurrency,
            config.max_concurrency > 0,
            spec_verdicts(verdicts@) == spec_run_all(registry@.take(i as int), config@, sandbox@),
        decreases n - i,
    {
        let pattern = registry.at(i);
        proof {
            assert(registry@.take(i + 1).drop_last() =~= registry@.take(i as int));
            assert(registry@.take(i + 1).last() == registry@[i as int]);
        }
        if config.selects(pattern.id.as_str()) {
            let granted = gate.acquire();
            assert(granted);
            let verdict = run_pattern(pattern, sandbox);
            gate.release();
            let ghost before = verdicts@;
            verdicts.push(verdict);
            assert(spec_verdicts(verdicts@) =~= spec_verdicts(before).push(verdict@));
        }
        i = i + 1;
    }
    assert(registry@.take(n as int) =~= registry@);
    Ok(verdicts)
}

/// The records that report `verdicts`, in their order. The category of a
/// record is that of the registered pattern of the verdict's id; a verdict
/// whose id is not registered has no record.
pub open spec fn spec_report(patterns: Seq<PatternView>, verdicts: Seq<VerdictView>) -> Seq<RecordView>
    decreases verdicts.len(),
{
    if verdicts.len() == 0 {
        Seq::empty()
    } else {
        let before = spec_report(patterns, verdicts.drop_last());
        let verdict = verdicts.last();
        if spec_contains_id(patterns, verdict.pattern_id) {
            before.push(
                spec_record(
                    patterns[spec_index_of(patterns, verdict.pattern_id)].category,
                    verdict,
                ),
            )
        } else {
            before
        }
    }
}

/// The report on `verdicts`: one record for each, in their order.
pub fn report(registry: &Registry, verdicts: &Vec<Verdict>) -> (records: Vec<ReportRecord>)
    requires
        registry.wf(),
    ensures
        spec_records(records@) == spec_report(registry@, spec_verdicts(verdicts@)),
{
    let mut records: Vec<ReportRecord> = Vec::new();
    let n = verdicts.len();
    let mut i: usize = 0;
    assert(spec_verdicts(verdicts@).take(0) =~= Seq::empty());
    while i < n
        invariant
            i <= n,
            n == verdicts@.len(),
            registry.wf(),
            spec_records(records@) == spec_report(
                registry@,
                spec_verdicts(verdicts@).take(i as int),
            ),
        decreases n - i,
    {
        let verdict = &verdicts[i];
        proof {
            let all = spec_verdicts(verdicts@);
            assert(all.take(i + 1).drop_last() =~= all.take(i as int));
            assert(all.take(i + 1).last() == verdict@);
        }
        match registry.get(verdict.pattern_id.as_str()) {
            Ok(pattern) => {
                let ghost before = records@;
                let r = record(pattern.category, verdict);
                records.push(r);
                assert(spec_records(records@) =~= spec_records(before).push(r@));
            },
            Err(_) => {},
        }
        i = i + 1;
    }
    assert(spec_verdicts(verdicts@).take(n as int) =~= spec_verdicts(verdicts@));
    records
}

} // verus!
