//! The oracle comparator: a classified fault against the declared oracle of
//! a pattern, which yields the verdict on the pattern.

use vstd::prelude::*;
use crate::registry::{DefectPattern, ExpectedFault, PatternView};
use crate::taxonomy::{Category, ClassifiedFault, Classification, Confidence};

verus! {

/// What was observed of a pattern.
#[derive(Clone, Copy, PartialEq, Eq, Structural, Debug)]
pub enum Observed {
    /// The trigger ran and its result was classified.
    Fault(ClassifiedFault),
    /// No execution context could be created for the trigger.
    LaunchFailure,
}

/// The verdict on one pattern.
#[derive(Clone, Debug, PartialEq, Eq)]
pub struct Verdict {
    pub pattern_id: String,
    /// Whether what was observed is what the oracle declares.
    pub matched: bool,
    pub expected: Option<ExpectedFault>,
    pub observed: Observed,
}

/// The mathematical content of a verdict.
pub struct VerdictView {
    pub pattern_id: Seq<char>,
    pub matched: bool,
    pub expected: Option<ExpectedFault>,
    pub observed: Observed,
}

impl View for Verdict {
    type V = VerdictView;

    open spec fn view(&self) -> VerdictView {
        VerdictView {
            pattern_id: self.pattern_id@,
            matched: self.matched,
            expected: self.expected,
            observed: self.observed,
        }
    }
}

/// Whether a classified fault is the fault that an oracle declares: the two
/// categories are the same one. The confidence has no say.
pub open spec fn spec_matches(expected: Option<ExpectedFault>, fault: ClassifiedFault) -> bool {
    expected matches Some(oracle) && fault.category == Classification::Fault(oracle.category)
}

/// The verdict on `pattern`, given the fault that its run was classified as.
pub open spec fn spec_compare(pattern: PatternView, fault: ClassifiedFault) -> VerdictView {
    VerdictView {
        pattern_id: pattern.id,
        matched: spec_matches(pattern.expected_fault, fault),
        expected: pattern.expected_fault,
        observed: Observed::Fault(fault),
    }
}

/// The verdict on `pattern`, given that no context could be created for it.
pub open spec fn spec_launch_failure(pattern: PatternView) -> VerdictView {
    VerdictView {
        pattern_id: pattern.id,
        matched: false,
        expected: pattern.expected_fault,
        observed: Observed::LaunchFailure,
    }
}

/// Grades a classified fault against the oracle of `pattern`.
pub fn compare(pattern: &DefectPattern, fault: ClassifiedFault) -> (verdict: Verdict)
    ensures
        verdict@ == spec_compare(pattern@, fault),
{
    let matched = match pattern.expected_fault {
        Some(oracle) => fault.category == Classification::Fault(oracle.category),
        None => false,
    };
    Verdict {
        pattern_id: pattern.id.clone(),
        matched,
        expected: pattern.expected_fault,
        observed: Observed::Fault(fault),
    }
}

/// The verdict on a pattern whose execution context could not be created.
pub fn launch_failure(pattern: &DefectPattern) -> (verdict: Verdict)
    ensures
        verdict@ == spec_launch_failure(pattern@),
{
    Verdict {
        pattern_id: pattern.id.clone(),
        matched: false,
        expected: pattern.expected_fault,
        observed: Observed::LaunchFailure,
    }
}

/// One record of the report.
#[derive(Clone, Debug, PartialEq, Eq)]
pub struct ReportRecord {
    pub id: String,
    pub category: Category,
    pub expected: Option<ExpectedFault>,
    pub observed: Observed,
    pub matched: bool,
    /// The confidence of the classification, where there was one.
    pub confidence: Option<Confidence>,
}

/// The mathematical content of a record.
pub struct RecordView {
    pub id: Seq<char>,
    pub category: Category,
    pub expected: Option<ExpectedFault>,
    pub observed: Observed,
    pub matched: bool,
    pub confidence: Option<Confidence>,
}

impl View for ReportRecord {
    type V = RecordView;

    open spec fn view(&self) -> RecordView {
        RecordView {
            id: self.id@,
            category: self.category,
            expected: self.expected,
            observed: self.observed,
            matched: self.matched,
            confidence: self.confidence,
        }
    }
}

/// The record that reports `verdict` on a pattern of category `category`.
pub open spec fn spec_record(category: Category, verdict: VerdictView) -> RecordView {
    RecordView {
        id: verdict.pattern_id,
        category,
        expected: verdict.expected,
        observed: verdict.observed,
        matched: verdict.matched,
        confidence: match verdict.observed {
            Observed::Fault(fault) => Some(fault.confidence),
            Observed::LaunchFailure => None,
        },
    }
}

/// The record that reports `verdict` on a pattern of category `category`.
pub fn record(category: Category, verdict: &Verdict) -> (r: ReportRecord)
    ensures
        r@ == spec_record(category, verdict@),
{
    ReportRecord {
        id: verdict.pattern_id.clone(),
        category,
        expected: verdict.expected,
        observed: verdict.observed,
        matched: verdict.matched,
        confidence: match verdict.observed {
            Observed::Fault(fault) => Some(fault.confidence),
            Observed::LaunchFailure => None,
        },
    }
}

/// Comparison is a function of its inputs: two verdicts that `compare` may
/// return for the same pattern and the same fault have the same content.
pub proof fn lemma_compare_is_deterministic(
    pattern: PatternView,
    fault: ClassifiedFault,
    first: VerdictView,
    second: VerdictView,
)
    requires
        first == spec_compare(pattern, fault),
        second == spec_compare(pattern, fault),
    ensures
        first == second,
{
}

/// The confidence of a classification has no say in whether it matches.
pub proof fn lemma_confidence_does_not_affect_matched(
    pattern: PatternView,
    fault: ClassifiedFault,
    confidence: Confidence,
)
    ensures
        spec_compare(pattern, ClassifiedFault { confidence, ..fault }).matched == spec_compare(
            pattern,
            fault,
        ).matched,
{
}

} // verus!
