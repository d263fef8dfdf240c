//! The closed fault taxonomy: defect categories, severities, confidence levels
//! and the abnormal-termination signals that identify a fault.

use vstd::prelude::*;

verus! {

/// A defect category.
#[derive(Clone, Copy, PartialEq, Eq, Structural, Debug)]
pub enum Category {
    /// Access through a reference whose referent was released.
    UseAfterFree,
    /// A release operation invoked twice on the same resource handle.
    DoubleFree,
    /// A non-reentrant lock acquired twice by one execution context.
    DoubleLock,
    /// A reference that outlives its owner through a longer-lived structure.
    DanglingReference,
    /// A null reference dereferenced without a guard.
    NullPointerMisuse,
    /// An allocation size taken unchecked from input.
    ResourceExhaustion,
    /// An equality comparison against the not-a-number sentinel.
    FloatComparison,
    /// A trusted base path joined with a segment that escapes it.
    PathConstruction,
    /// A shadowed or generic binding that resolves to an unintended implementation.
    Shadowing,
    /// A cleanup step that is skipped or duplicated.
    OwnershipBypass,
}

/// What a run was classified as.
#[derive(Clone, Copy, PartialEq, Eq, Structural, Debug)]
pub enum Classification {
    /// The run shows a defect of this category.
    Fault(Category),
    /// The run exceeded its time bound and no category explains it.
    Hung,
    /// The run fits no category.
    Unknown,
}

/// A classification with the confidence it was made with.
#[derive(Clone, Copy, PartialEq, Eq, Structural, Debug)]
pub struct ClassifiedFault {
    pub category: Classification,
    pub confidence: Confidence,
}

/// How a defect shows itself.
#[derive(Clone, Copy, PartialEq, Eq, Structural, Debug)]
pub enum Severity {
    Crash,
    SilentCorruption,
    ResourceLeak,
    LogicError,
}

/// How directly a classification follows from what was observed.
#[derive(Clone, Copy, PartialEq, Eq, Structural, Debug)]
pub enum Confidence {
    /// Derived from an unambiguous signal.
    Certain,
    /// Derived from indirect evidence.
    Heuristic,
}

/// The reason an execution context terminated abnormally.
#[derive(Clone, Copy, PartialEq, Eq, Structural, Debug)]
pub enum SignalKind {
    /// An invalid memory access.
    SegmentationFault,
    /// An abort raised by the allocator for an invalid release.
    InvalidFree,
    /// An abort raised because an allocation could not be served.
    OutOfMemory,
    /// Any other abort.
    Abort,
    /// A forced kill.
    Killed,
    /// Any other signal, by number.
    Other(i32),
}

/// The categories whose defect ends the execution context abnormally.
pub open spec fn spec_is_crash_class(c: Category) -> bool {
    c == Category::UseAfterFree || c == Category::DoubleFree || c == Category::DoubleLock
        || c == Category::NullPointerMisuse || c == Category::ResourceExhaustion
}

/// The categories whose defect yields wrong output without ending the context.
pub open spec fn spec_is_silent_class(c: Category) -> bool {
    c == Category::FloatComparison || c == Category::PathConstruction || c == Category::Shadowing
        || c == Category::OwnershipBypass
}

/// The categories that a bare timeout can be attributed to.
pub open spec fn spec_is_lock_related(c: Category) -> bool {
    c == Category::DoubleLock
}

/// The severity a category implies. A dangling reference shows as a use
/// after free, and so implies a crash as that does.
pub open spec fn spec_implied_severity(c: Category) -> Severity {
    match c {
        Category::UseAfterFree => Severity::Crash,
        Category::DoubleFree => Severity::Crash,
        Category::DoubleLock => Severity::Crash,
        Category::DanglingReference => Severity::Crash,
        Category::NullPointerMisuse => Severity::Crash,
        Category::ResourceExhaustion => Severity::Crash,
        Category::FloatComparison => Severity::LogicError,
        Category::PathConstruction => Severity::SilentCorruption,
        Category::Shadowing => Severity::LogicError,
        Category::OwnershipBypass => Severity::ResourceLeak,
    }
}

impl Category {
    pub fn is_crash_class(self) -> (r: bool)
        ensures
            r == spec_is_crash_class(self),
    {
        match self {
            Category::UseAfterFree
            | Category::DoubleFree
            | Category::DoubleLock
            | Category::NullPointerMisuse
            | Category::ResourceExhaustion => true,
            _ => false,
        }
    }

    pub fn is_silent_class(self) -> (r: bool)
        ensures
            r == spec_is_silent_class(self),
    {
        match self {
            Category::FloatComparison
            | Category::PathConstruction
            | Category::Shadowing
            | Category::OwnershipBypass => true,
            _ => false,
        }
    }

    pub fn is_lock_related(self) -> (r: bool)
        ensures
            r == spec_is_lock_related(self),
    {
        self == Category::DoubleLock
    }

    pub fn implied_severity(self) -> (r: Severity)
        ensures
            r == spec_implied_severity(self),
    {
        match self {
            Category::UseAfterFree
            | Category::DoubleFree
            | Category::DoubleLock
            | Category::DanglingReference
            | Category::NullPointerMisuse
            | Category::ResourceExhaustion => Severity::Crash,
            Category::FloatComparison | Category::Shadowing => Severity::LogicError,
            Category::PathConstruction => Severity::SilentCorruption,
            Category::OwnershipBypass => Severity::ResourceLeak,
        }
    }
}

/// No category is both crash-class and silent-class; a crash-class category
/// implies a crash, and a lock-related category is crash-class.
pub proof fn lemma_classes_disjoint(c: Category)
    ensures
        !(spec_is_crash_class(c) && spec_is_silent_class(c)),
        spec_is_crash_class(c) ==> spec_implied_severity(c) == Severity::Crash,
        spec_is_silent_class(c) ==> spec_implied_severity(c) != Severity::Crash,
        spec_is_lock_related(c) ==> spec_is_crash_class(c),
{
}

} // verus!
