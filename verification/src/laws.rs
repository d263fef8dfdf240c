//! What holds of the pipeline as a whole: of the runner, the classifier and
//! the comparator taken together.

use vstd::prelude::*;
use vstd::string::*;
use crate::classifier::{spec_classify, spec_raises_signal_of};
use crate::comparator::{Observed, VerdictView};
use crate::config::{spec_selects, ConfigView};
use crate::corpus::spec_corpus;
use crate::harness::{spec_evaluate, spec_run_all, spec_verdict};
use crate::ieee::{lemma_sentinel_is_nan, spec_float_eq, spec_is_nan, NAN_SENTINEL};
use crate::paths::{spec_join, spec_leaves_root, spec_parent_at};
use crate::probe::{spec_live_blocks, Block, LockKind};
use crate::registry::PatternView;
use crate::runner::{spec_execute, OutcomeView, ResultView, SandboxView};
use crate::taxonomy::{
    spec_implied_severity, spec_is_silent_class, Category, ClassifiedFault, Classification,
    Confidence, Severity,
};
use crate::triggers::{Trigger, ValueView, CONTAINED_DATUM, GUARDED_DATUM, LEAKED_DATUM};

verus! {

/// A pattern whose oracle declares a crash, and whose run carries the
/// canonical signal of the declared category, is matched, and its
/// classification is certain.
pub proof fn lemma_crash_is_matched_with_certainty(pattern: PatternView, result: ResultView)
    requires
        pattern.expected_fault matches Some(oracle) && oracle.severity == Severity::Crash
            && spec_raises_signal_of(oracle.category, result),
    ensures
        spec_evaluate(pattern, Ok(result)).matched,
        spec_evaluate(pattern, Ok(result)).observed == Observed::Fault(
            ClassifiedFault {
                category: Classification::Fault(pattern.expected_fault->0.category),
                confidence: Confidence::Certain,
            },
        ),
{
}

/// A run that returned is never matched by an oracle that declares a
/// category outside the silent class: such a pattern is expected to end
/// abnormally, not to hand a value to the comparator.
pub proof fn lemma_returned_run_matches_no_crash(pattern: PatternView, result: ResultView)
    requires
        pattern.expected_fault matches Some(oracle) && !spec_is_silent_class(oracle.category),
        result.outcome is Completed,
    ensures
        !spec_evaluate(pattern, Ok(result)).matched,
{
}

/// A pattern whose oracle declares a crash, as the declared category
/// implies, is never matched by a run that returned.
pub proof fn lemma_crash_severity_expects_no_value(pattern: PatternView, result: ResultView)
    requires
        pattern.expected_fault matches Some(oracle) && oracle.severity == Severity::Crash
            && spec_implied_severity(oracle.category) == Severity::Crash,
        result.outcome is Completed,
    ensures
        !spec_evaluate(pattern, Ok(result)).matched,
{
    lemma_returned_run_matches_no_crash(pattern, result);
}

/// The classification of the double-lock trigger follows the lock, not the
/// trigger: under a lock that is not reentrant the run times out and is a
/// double lock with certainty; under a reentrant lock the same trigger
/// returns the incremented datum and is not classified.
pub proof fn lemma_double_lock_follows_the_lock(sandbox: SandboxView)
    ensures
        sandbox.lock == LockKind::NonReentrant ==> {
            &&& spec_execute(Trigger::DoubleLock, sandbox).outcome == OutcomeView::TimedOut
            &&& spec_classify(spec_execute(Trigger::DoubleLock, sandbox), Category::DoubleLock)
                == (ClassifiedFault {
                category: Classification::Fault(Category::DoubleLock),
                confidence: Confidence::Certain,
            })
        },
        sandbox.lock == LockKind::Reentrant ==> {
            &&& spec_execute(Trigger::DoubleLock, sandbox).outcome == OutcomeView::Completed(
                Some(ValueView::Number((GUARDED_DATUM + 1) as u32)),
            )
            &&& spec_classify(
                spec_execute(Trigger::DoubleLock, sandbox),
                Category::DoubleLock,
            ).category == Classification::Unknown
        },
{
}

/// The comparison trigger answers `false` on every input, the sentinel
/// itself included, and every run of it is classified as a floating-point
/// comparison; a number that is not a not-a-number equals itself, which is
/// what the trigger's answer is held against.
pub proof fn lemma_nan_comparison_is_always_false(bits: u32, sandbox: SandboxView)
    ensures
        !spec_float_eq(bits, NAN_SENTINEL),
        spec_execute(Trigger::CompareToNan { bits }, sandbox).outcome == OutcomeView::Completed(
            Some(ValueView::Flag(false)),
        ),
        spec_classify(
            spec_execute(Trigger::CompareToNan { bits }, sandbox),
            Category::FloatComparison,
        ).category == Classification::Fault(Category::FloatComparison),
        !spec_is_nan(bits) ==> spec_float_eq(bits, bits),
{
    lemma_sentinel_is_nan();
}

/// To adjoin the absolute segment `/local/bin` to the base `/usr` gives the
/// segment alone, and the run that does so is classified as a
/// path-construction error; to adjoin the relative segment `bin` keeps the
/// base.
pub proof fn lemma_absolute_segment_escapes(sandbox: SandboxView)
    ensures
        spec_join("/usr"@, "/local/bin"@) == "/local/bin"@,
        spec_leaves_root("/usr"@, spec_join("/usr"@, "/local/bin"@)),
        spec_execute(Trigger::AbsPathInJoin, sandbox).outcome == OutcomeView::Completed(
            Some(ValueView::Text("/local/bin"@)),
        ),
        spec_classify(
            spec_execute(Trigger::AbsPathInJoin, sandbox),
            Category::PathConstruction,
        ).category == Classification::Fault(Category::PathConstruction),
        spec_join("/usr"@, "bin"@) == "/usr/bin"@,
        !spec_leaves_root("/usr"@, spec_join("/usr"@, "bin"@)),
{
    reveal_strlit("/usr");
    reveal_strlit("/local/bin");
    reveal_strlit("bin");
    reveal_strlit("/usr/bin");
    let joined = spec_join("/usr"@, "bin"@);
    assert(joined =~= "/usr/bin"@);
    assert(joined.subrange(0, 4) =~= "/usr"@);
    assert forall|i: int| !spec_parent_at(joined, i) by {
        if 0 <= i && i + 2 <= joined.len() {
            assert(joined[i] != '.');
        }
    }
    assert("/usr"@[1] != "/local/bin"@.subrange(0, 4)[1]);
}

/// Two runs of the same patterns under the same configuration, each in
/// fresh contexts of the same sandbox, bring the same verdicts, and so the
/// same matches at every place.
pub proof fn lemma_runs_agree(
    patterns: Seq<PatternView>,
    config: ConfigView,
    sandbox: SandboxView,
    first: Seq<VerdictView>,
    second: Seq<VerdictView>,
)
    requires
        first == spec_run_all(patterns, config, sandbox),
        second == spec_run_all(patterns, config, sandbox),
    ensures
        first == second,
        forall|i: int| 0 <= i < first.len() ==> first[i].matched == second[i].matched,
{
}

/// A run holds one verdict for each pattern that the configuration
/// selects, and none else: where it selects every pattern, the verdict at
/// each place is the verdict on the pattern at that place.
pub proof fn lemma_run_of_everything(
    patterns: Seq<PatternView>,
    config: ConfigView,
    sandbox: SandboxView,
)
    requires
        forall|i: int| 0 <= i < patterns.len() ==> spec_selects(config, (#[trigger] patterns[i]).id),
    ensures
        spec_run_all(patterns, config, sandbox).len() == patterns.len(),
        forall|i: int|
            0 <= i < patterns.len() ==> (#[trigger] spec_run_all(patterns, config, sandbox)[i])
                == spec_verdict(patterns[i], sandbox),
    decreases patterns.len(),
{
    if patterns.len() > 0 {
        let front = patterns.drop_last();
        assert forall|i: int| 0 <= i < front.len() implies spec_selects(
            config,
            (#[trigger] front[i]).id,
        ) by {
            assert(front[i] == patterns[i]);
        }
        lemma_run_of_everything(front, config, sandbox);
        assert(spec_selects(config, patterns[patterns.len() - 1].id));
    }
}

/// A run never holds more verdicts than there are patterns.
pub proof fn lemma_run_is_bounded(
    patterns: Seq<PatternView>,
    config: ConfigView,
    sandbox: SandboxView,
)
    ensures
        spec_run_all(patterns, config, sandbox).len() <= patterns.len(),
    decreases patterns.len(),
{
    if patterns.len() > 0 {
        lemma_run_is_bounded(patterns.drop_last(), config, sandbox);
    }
}

/// What a run of `trigger` in a fresh context is classified as, for a
/// pattern that declares `declared`.
pub open spec fn spec_finding(trigger: Trigger, declared: Category, sandbox: SandboxView) -> Classification {
    spec_classify(spec_execute(trigger, sandbox), declared).category
}

/// The verdict on a complete pattern is a match exactly where the run of
/// its trigger is classified as the category that its oracle declares.
pub proof fn lemma_match_is_reproduction(pattern: PatternView, sandbox: SandboxView)
    requires
        pattern.expected_fault is Some,
        pattern.trigger is Some,
    ensures
        spec_verdict(pattern, sandbox).matched == (spec_finding(
            pattern.trigger->0,
            pattern.category,
            sandbox,
        ) == Classification::Fault(pattern.expected_fault->0.category)),
{
}

/// The triggers that misuse memory are classified by what they did to it,
/// whatever category is declared for them.
pub proof fn lemma_memory_findings(declared: Category, sandbox: SandboxView)
    ensures
        spec_finding(Trigger::DoubleFree, declared, sandbox) == Classification::Fault(
            Category::DoubleFree,
        ),
        spec_finding(Trigger::Flm1, declared, sandbox) == Classification::Fault(
            Category::DanglingReference,
        ),
        spec_finding(Trigger::Flm2, declared, sandbox) == Classification::Fault(
            Category::DanglingReference,
        ),
        spec_finding(Trigger::Uaf1, declared, sandbox) == Classification::Fault(
            Category::UseAfterFree,
        ),
        spec_finding(Trigger::Uaf2, declared, sandbox) == Classification::Fault(
            Category::UseAfterFree,
        ),
        spec_finding(Trigger::Uaf3, declared, sandbox) == Classification::Fault(
            Category::UseAfterFree,
        ),
{
}

/// The triggers that dereference a null reference are classified as
/// null-pointer misuse, whatever category is declared for them.
pub proof fn lemma_null_findings(declared: Category, sandbox: SandboxView)
    ensures
        spec_finding(Trigger::NullToCFunc, declared, sandbox) == Classification::Fault(
            Category::NullPointerMisuse,
        ),
        spec_finding(Trigger::NullReturnFromCFunc, declared, sandbox) == Classification::Fault(
            Category::NullPointerMisuse,
        ),
        spec_finding(Trigger::NullableArg, declared, sandbox) == Classification::Fault(
            Category::NullPointerMisuse,
        ),
{
}

/// The triggers that skip a cleanup leave a live block behind and are
/// classified as an ownership bypass where that is what is declared.
pub proof fn lemma_leak_findings(sandbox: SandboxView)
    ensures
        spec_finding(Trigger::Fml1, Category::OwnershipBypass, sandbox) == Classification::Fault(
            Category::OwnershipBypass,
        ),
        spec_finding(Trigger::Fml2, Category::OwnershipBypass, sandbox) == Classification::Fault(
            Category::OwnershipBypass,
        ),
        spec_finding(Trigger::Fml3 { consume: false }, Category::OwnershipBypass, sandbox)
            == Classification::Fault(Category::OwnershipBypass),
        spec_finding(Trigger::Fml3 { consume: true }, Category::OwnershipBypass, sandbox)
            == Classification::Unknown,
        spec_finding(Trigger::Fml4, Category::OwnershipBypass, sandbox) == Classification::Fault(
            Category::OwnershipBypass,
        ),
{
    reveal_with_fuel(spec_live_blocks, 3);
    let live = seq![Block { live: true, stashed: false, value: LEAKED_DATUM }];
    assert(Seq::<Block>::empty().push(Block { live: true, stashed: false, value: LEAKED_DATUM })
        =~= live);
    assert(live.drop_last() =~= Seq::<Block>::empty());
    assert(spec_live_blocks(live) == 1);
    let kept = seq![Block { live: true, stashed: false, value: CONTAINED_DATUM }];
    assert(Seq::<Block>::empty().push(
        Block { live: true, stashed: false, value: CONTAINED_DATUM },
    ) =~= kept);
    assert(kept.drop_last() =~= Seq::<Block>::empty());
    assert(spec_live_blocks(kept) == 1);
    let gone = seq![Block { live: false, stashed: false, value: CONTAINED_DATUM }];
    assert(Seq::<Block>::empty().push(
        Block { live: false, stashed: false, value: CONTAINED_DATUM },
    ) =~= gone);
    assert(gone.drop_last() =~= Seq::<Block>::empty());
    assert(spec_live_blocks(gone) == 0);
}

/// The allocation triggers, asked for as much as the machine can name, are
/// refused by the allocator and classified as resource exhaustion,
/// whatever the budget.
pub proof fn lemma_allocation_findings(declared: Category, sandbox: SandboxView)
    ensures
        spec_finding(Trigger::IntOverflow { units: usize::MAX }, declared, sandbox)
            == Classification::Fault(Category::ResourceExhaustion),
        spec_finding(Trigger::ResourceExhaustion { additional: usize::MAX }, declared, sandbox)
            == Classification::Fault(Category::ResourceExhaustion),
{
}

/// The triggers that return a wrong value are classified as the category
/// that is declared for them where the instrumentation saw the defect; the
/// tool path taken from the build leaves no trace and is not classified.
pub proof fn lemma_silent_findings(bits: u32, sandbox: SandboxView)
    ensures
        spec_finding(Trigger::ConstPathJoin, Category::PathConstruction, sandbox)
            == Classification::Fault(Category::PathConstruction),
        spec_finding(Trigger::AbsPathInJoin, Category::PathConstruction, sandbox)
            == Classification::Fault(Category::PathConstruction),
        spec_finding(Trigger::Shadowing, Category::Shadowing, sandbox) == Classification::Fault(
            Category::Shadowing,
        ),
        spec_finding(Trigger::CompareToNan { bits }, Category::FloatComparison, sandbox)
            == Classification::Fault(Category::FloatComparison),
        spec_finding(Trigger::RuntimePathValue, Category::PathConstruction, sandbox)
            == Classification::Unknown,
{
}

/// The place in the corpus of the one pattern whose defect leaves no trace
/// at run time: the tool path taken from the build.
pub const UNOBSERVABLE_PLACE: usize = 20;

/// Under a lock that is not reentrant, every pattern of the corpus
/// reproduces the fault that its oracle declares, whatever the budget and
/// the tool path of the sandbox, but for the one whose defect leaves no
/// trace at run time.
pub proof fn lemma_corpus_reproduces_its_oracles(sandbox: SandboxView)
    requires
        sandbox.lock == LockKind::NonReentrant,
    ensures
        forall|k: int|
            0 <= k < spec_corpus().len() ==> (#[trigger] spec_verdict(
                spec_corpus()[k],
                sandbox,
            )).matched == (k != UNOBSERVABLE_PLACE),
{
    lemma_double_lock_follows_the_lock(sandbox);
    lemma_leak_findings(sandbox);
    lemma_silent_findings(NAN_SENTINEL, sandbox);
    assert forall|k: int| 0 <= k < spec_corpus().len() implies (#[trigger] spec_verdict(
        spec_corpus()[k],
        sandbox,
    )).matched == (k != UNOBSERVABLE_PLACE) by {
        let pattern = spec_corpus()[k];
        lemma_match_is_reproduction(pattern, sandbox);
        lemma_memory_findings(pattern.category, sandbox);
        lemma_null_findings(pattern.category, sandbox);
        lemma_allocation_findings(pattern.category, sandbox);
    }
}

} // verus!
