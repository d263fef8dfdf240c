//! The fault classifier: from one execution result to a classified fault.

use vstd::prelude::*;
use crate::probe::Artifacts;
use crate::runner::{ExecutionResult, Outcome, OutcomeView, ResultView};
use crate::taxonomy::{
    spec_is_lock_related, spec_is_silent_class, Category, ClassifiedFault, Classification,
    Confidence, SignalKind,
};
use crate::triggers::{Value, ValueView};

verus! {

/// The category that an abnormal termination points to without ambiguity,
/// where it points to one. An invalid release is a double free and a failed
/// allocation is resource exhaustion. An invalid access is told apart by
/// what the instrumentation counted: an access to a released block is a use
/// after free, or a dangling reference where a stored reference outlived
/// its block; failing that, the dereference of a null reference is
/// null-pointer misuse.
pub open spec fn spec_signal_category(signal: SignalKind, evidence: Artifacts) -> Option<
    Category,
> {
    match signal {
        SignalKind::InvalidFree => Some(Category::DoubleFree),
        SignalKind::OutOfMemory => Some(Category::ResourceExhaustion),
        SignalKind::SegmentationFault => if evidence.poisoned_accesses > 0 {
            if evidence.escaped_references > 0 {
                Some(Category::DanglingReference)
            } else {
                Some(Category::UseAfterFree)
            }
        } else if evidence.null_dereferences > 0 {
            Some(Category::NullPointerMisuse)
        } else {
            None
        },
        SignalKind::Abort => None,
        SignalKind::Killed => None,
        SignalKind::Other(_) => None,
    }
}

/// The oracle predicate of a silent-class category: whether what a trigger
/// returned, with what the instrumentation counted, shows the defect.
/// Of every other category it holds of nothing.
pub open spec fn spec_oracle(declared: Category, value: Option<ValueView>, evidence: Artifacts) -> bool {
    match declared {
        Category::FloatComparison => value == Some(ValueView::Flag(false))
            && evidence.nan_comparisons > 0,
        Category::PathConstruction => value matches Some(ValueView::Text(_))
            && evidence.base_escapes > 0,
        Category::Shadowing => value matches Some(ValueView::Text(_))
            && evidence.shadowed_bindings > 0,
        Category::OwnershipBypass => evidence.missed_releases > 0 || evidence.double_releases > 0,
        _ => false,
    }
}

/// The classification of a result, for a pattern that declares `declared`.
/// In this order: an abnormal termination is classified by its signal, with
/// certainty where the signal is unambiguous; a timeout is a double lock,
/// with certainty where the lock manager counted a second acquisition, and
/// by presumption where it did not and the declared category is
/// lock-related, and is a hang in any other case; a completed run is
/// classified as the declared category where that is silent-class and its
/// oracle predicate holds. Whatever is left is unknown.
pub open spec fn spec_classify(result: ResultView, declared: Category) -> ClassifiedFault {
    match result.outcome {
        OutcomeView::AbnormalTermination(signal) => match spec_signal_category(
            signal,
            result.observed_artifacts,
        ) {
            Some(category) => ClassifiedFault {
                category: Classification::Fault(category),
                confidence: Confidence::Certain,
            },
            None => ClassifiedFault {
                category: Classification::Unknown,
                confidence: Confidence::Heuristic,
            },
        },
        OutcomeView::TimedOut => if result.observed_artifacts.lock_reacquires > 0 {
            ClassifiedFault {
                category: Classification::Fault(Category::DoubleLock),
                confidence: Confidence::Certain,
            }
        } else if spec_is_lock_related(declared) {
            ClassifiedFault {
                category: Classification::Fault(Category::DoubleLock),
                confidence: Confidence::Heuristic,
            }
        } else {
            ClassifiedFault { category: Classification::Hung, confidence: Confidence::Heuristic }
        },
        OutcomeView::Hung => ClassifiedFault {
            category: Classification::Hung,
            confidence: Confidence::Heuristic,
        },
        OutcomeView::Completed(value) => if spec_is_silent_class(declared) && spec_oracle(
            declared,
            value,
            result.observed_artifacts,
        ) {
            ClassifiedFault {
                category: Classification::Fault(declared),
                confidence: Confidence::Heuristic,
            }
        } else {
            ClassifiedFault {
                category: Classification::Unknown,
                confidence: Confidence::Heuristic,
            }
        },
    }
}

/// The category that an abnormal termination points to, where it points to one.
pub fn signal_category(signal: SignalKind, evidence: &Artifacts) -> (category: Option<Category>)
    ensures
        category == spec_signal_category(signal, *evidence),
{
    match signal {
        SignalKind::InvalidFree => Some(Category::DoubleFree),
        SignalKind::OutOfMemory => Some(Category::ResourceExhaustion),
        SignalKind::SegmentationFault => {
            if evidence.poisoned_accesses > 0 {
                if evidence.escaped_references > 0 {
                    Some(Category::DanglingReference)
                } else {
                    Some(Category::UseAfterFree)
                }
            } else if evidence.null_dereferences > 0 {
                Some(Category::NullPointerMisuse)
            } else {
                None
            }
        },
        _ => None,
    }
}

/// Whether what a trigger returned shows the defect of a silent-class category.
pub fn oracle(declared: Category, value: &Option<Value>, evidence: &Artifacts) -> (holds: bool)
    ensures
        holds == spec_oracle(
            declared,
            match *value {
                Some(v) => Some(v@),
                None => None,
            },
            *evidence,
        ),
{
    match declared {
        Category::FloatComparison => {
            let refuted = match value {
                Some(Value::Flag(equal)) => !*equal,
                _ => false,
            };
            refuted && evidence.nan_comparisons > 0
        },
        Category::PathConstruction => {
            let text = match value {
                Some(Value::Text(_)) => true,
                _ => false,
            };
            text && evidence.base_escapes > 0
        },
        Category::Shadowing => {
            let text = match value {
                Some(Value::Text(_)) => true,
                _ => false,
            };
            text && evidence.shadowed_bindings > 0
        },
        Category::OwnershipBypass => evidence.missed_releases > 0 || evidence.double_releases > 0,
        _ => false,
    }
}

/// Classifies one execution result, for a pattern that declares `declared`.
pub fn classify(result: &ExecutionResult, declared: Category) -> (fault: ClassifiedFault)
    ensures
        fault == spec_classify(result@, declared),
{
    let unknown = ClassifiedFault {
        category: Classification::Unknown,
        confidence: Confidence::Heuristic,
    };
    let hung = ClassifiedFault { category: Classification::Hung, confidence: Confidence::Heuristic };
    match &result.outcome {
        Outcome::AbnormalTermination(signal) => {
            match signal_category(*signal, &result.observed_artifacts) {
                Some(category) => ClassifiedFault {
                    category: Classification::Fault(category),
                    confidence: Confidence::Certain,
                },
                None => unknown,
            }
        },
        Outcome::TimedOut => {
            if result.observed_artifacts.lock_reacquires > 0 {
                ClassifiedFault {
                    category: Classification::Fault(Category::DoubleLock),
                    confidence: Confidence::Certain,
                }
            } else if declared.is_lock_related() {
                ClassifiedFault {
                    category: Classification::Fault(Category::DoubleLock),
                    confidence: Confidence::Heuristic,
                }
            } else {
                hung
            }
        },
        Outcome::Hung => hung,
        Outcome::Completed(value) => {
            if declared.is_silent_class() && oracle(declared, value, &result.observed_artifacts) {
                ClassifiedFault {
                    category: Classification::Fault(declared),
                    confidence: Confidence::Heuristic,
                }
            } else {
                unknown
            }
        },
    }
}

/// Whether a result carries the canonical signal of a category: an abnormal
/// termination that points to it, or, for a double lock, a timeout under a
/// lock manager that counted a second acquisition.
pub open spec fn spec_raises_signal_of(category: Category, result: ResultView) -> bool {
    ||| result.outcome matches OutcomeView::AbnormalTermination(signal) && spec_signal_category(
        signal,
        result.observed_artifacts,
    ) == Some(category)
    ||| category == Category::DoubleLock && result.outcome == OutcomeView::TimedOut
        && result.observed_artifacts.lock_reacquires > 0
}

/// A result that carries the canonical signal of a category is classified
/// as that category, with certainty, whatever category the pattern declares.
pub proof fn lemma_canonical_signal_is_certain(
    category: Category,
    declared: Category,
    result: ResultView,
)
    requires
        spec_raises_signal_of(category, result),
    ensures
        spec_classify(result, declared) == (ClassifiedFault {
            category: Classification::Fault(category),
            confidence: Confidence::Certain,
        }),
{
}

/// A classification never depends on the declared category where the run
/// ended abnormally: the signal and the evidence decide alone.
pub proof fn lemma_abnormal_ignores_declared(
    result: ResultView,
    declared: Category,
    other: Category,
)
    requires
        result.outcome is AbnormalTermination,
    ensures
        spec_classify(result, declared) == spec_classify(result, other),
{
}

/// A run that completed is never classified as a crash-class category.
pub proof fn lemma_completed_is_never_a_crash(result: ResultView, declared: Category)
    requires
        result.outcome is Completed,
    ensures
        spec_classify(result, declared).category matches Classification::Fault(category)
            ==> spec_is_silent_class(category),
        spec_classify(result, declared).confidence == Confidence::Heuristic,
{
}

} // verus!
