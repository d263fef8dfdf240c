//! The pattern registry: the metadata of every defect pattern, in the order
//! in which the patterns were registered.

use vstd::prelude::*;
use crate::taxonomy::{Category, Severity};
use crate::text::same_text;
use crate::triggers::Trigger;

verus! {

/// The declared oracle of a pattern: the fault that its trigger is meant to
/// show, and how severe that fault is.
#[derive(Clone, Copy, PartialEq, Eq, Structural, Debug)]
pub struct ExpectedFault {
    pub category: Category,
    pub severity: Severity,
}

/// One defect pattern.
#[derive(Clone, Debug, PartialEq, Eq)]
pub struct DefectPattern {
    /// The name of the pattern, unique within a registry.
    pub id: String,
    pub category: Category,
    pub description: String,
    /// The oracle; a pattern without one cannot be registered.
    pub expected_fault: Option<ExpectedFault>,
    /// The handle of the trigger; a pattern without one cannot be registered.
    pub trigger: Option<Trigger>,
}

/// The mathematical content of a pattern.
pub struct PatternView {
    pub id: Seq<char>,
    pub category: Category,
    pub description: Seq<char>,
    pub expected_fault: Option<ExpectedFault>,
    pub trigger: Option<Trigger>,
}

impl View for DefectPattern {
    type V = PatternView;

    open spec fn view(&self) -> PatternView {
        PatternView {
            id: self.id@,
            category: self.category,
            description: self.description@,
            expected_fault: self.expected_fault,
            trigger: self.trigger,
        }
    }
}

/// Why the registry refused a call.
#[derive(Clone, Copy, PartialEq, Eq, Structural, Debug)]
pub enum RegistryError {
    /// A pattern of the same id is registered already.
    DuplicateId,
    /// No pattern of that id is registered.
    NotFound,
    /// The pattern lacks its oracle or its trigger.
    IncompletePattern,
}

/// Whether a pattern has both its oracle and its trigger.
pub open spec fn spec_complete(p: PatternView) -> bool {
    p.expected_fault is Some && p.trigger is Some
}

/// Whether a pattern of this id is among `patterns`.
pub open spec fn spec_contains_id(patterns: Seq<PatternView>, id: Seq<char>) -> bool {
    exists|i: int| 0 <= i < patterns.len() && (#[trigger] patterns[i]).id == id
}

/// The place of a pattern of this id among `patterns`, where there is one.
pub open spec fn spec_index_of(patterns: Seq<PatternView>, id: Seq<char>) -> int {
    choose|i: int| 0 <= i < patterns.len() && (#[trigger] patterns[i]).id == id
}

/// Whether no two of `patterns` share an id.
pub open spec fn spec_unique_ids(patterns: Seq<PatternView>) -> bool {
    forall|i: int, j: int|
        0 <= i < patterns.len() && 0 <= j < patterns.len() && (#[trigger] patterns[i]).id == (
        #[trigger] patterns[j]).id ==> i == j
}

/// Whether every one of `patterns` is complete.
pub open spec fn spec_all_complete(patterns: Seq<PatternView>) -> bool {
    forall|i: int| 0 <= i < patterns.len() ==> spec_complete(#[trigger] patterns[i])
}

/// The registry of a corpus.
pub struct Registry {
    patterns: Vec<DefectPattern>,
}

impl View for Registry {
    type V = Seq<PatternView>;

    closed spec fn view(&self) -> Seq<PatternView> {
        self.patterns@.map_values(|p: DefectPattern| p@)
    }
}

impl Registry {
    /// What holds of every registry: ids are unique and every pattern is complete.
    pub open spec fn wf(&self) -> bool {
        spec_unique_ids(self@) && spec_all_complete(self@)
    }

    /// A registry without patterns.
    pub fn new() -> (r: Registry)
        ensures
            r@ == Seq::<PatternView>::empty(),
            r.wf(),
    {
        let r = Registry { patterns: Vec::new() };
        assert(r@ =~= Seq::<PatternView>::empty());
        r
    }

    /// The number of registered patterns.
    pub fn len(&self) -> (n: usize)
        ensures
            n == self@.len(),
    {
        self.patterns.len()
    }

    /// The place of the pattern of this id, in registration order.
    pub fn position(&self, id: &str) -> (at: Option<usize>)
        ensures
            match at {
                Some(i) => i < self@.len() && self@[i as int].id == id@ && forall|k: int|
                    0 <= k < i ==> (#[trigger] self@[k]).id != id@,
                None => !spec_contains_id(self@, id@),
            },
    {
        let mut i: usize = 0;
        while i < self.patterns.len()
            invariant
                i <= self.patterns@.len(),
                forall|k: int| 0 <= k < i ==> (#[trigger] self@[k]).id != id@,
            decreases self.patterns@.len() - i,
        {
            if same_text(self.patterns[i].id.as_str(), id) {
                return Some(i);
            }
            i = i + 1;
        }
        None
    }

    /// Adds a pattern at the end. A pattern whose id is taken is refused with
    /// `DuplicateId`, any other that lacks its oracle or its trigger with
    /// `IncompletePattern`; a refused call leaves the registry as it was.
    pub fn register(&mut self, pattern: DefectPattern) -> (r: Result<(), RegistryError>)
        requires
            old(self).wf(),
        ensures
            final(self).wf(),
            r == spec_register(old(self)@, pattern@).1,
            final(self)@ == spec_register(old(self)@, pattern@).0,
    {
        if self.position(pattern.id.as_str()).is_some() {
            return Err(RegistryError::DuplicateId);
        }
        if pattern.expected_fault.is_none() || pattern.trigger.is_none() {
            return Err(RegistryError::IncompletePattern);
        }
        self.patterns.push(pattern);
        assert(self@ =~= old(self)@.push(pattern@));
        Ok(())
    }

    /// The pattern of this id.
    pub fn get(&self, id: &str) -> (r: Result<&DefectPattern, RegistryError>)
        requires
            self.wf(),
        ensures
            match r {
                Ok(p) => spec_contains_id(self@, id@) && p@ == self@[spec_index_of(self@, id@)],
                Err(e) => e == RegistryError::NotFound && !spec_contains_id(self@, id@),
            },
    {
        match self.position(id) {
            Some(i) => Ok(&self.patterns[i]),
            None => Err(RegistryError::NotFound),
        }
    }

    /// The pattern at place `i` of the registration order.
    pub fn at(&self, i: usize) -> (p: &DefectPattern)
        requires
            i < self@.len(),
        ensures
            p@ == self@[i as int],
    {
        &self.patterns[i]
    }

    /// Every pattern, in registration order.
    pub fn all(&self) -> (patterns: &Vec<DefectPattern>)
        ensures
            patterns@.map_values(|p: DefectPattern| p@) == self@,
    {
        &self.patterns
    }
}

/// What `register` makes of the patterns and what it returns.
pub open spec fn spec_register(patterns: Seq<PatternView>, pattern: PatternView) -> (
    Seq<PatternView>,
    Result<(), RegistryError>,
) {
    if spec_contains_id(patterns, pattern.id) {
        (patterns, Err(RegistryError::DuplicateId))
    } else if !spec_complete(pattern) {
        (patterns, Err(RegistryError::IncompletePattern))
    } else {
        (patterns.push(pattern), Ok(()))
    }
}

/// A second pattern under an id that is taken is refused with `DuplicateId`,
/// and the patterns stay as they were; so they do after any refused call.
pub proof fn lemma_duplicate_is_refused(patterns: Seq<PatternView>, pattern: PatternView)
    ensures
        spec_contains_id(patterns, pattern.id) ==> spec_register(patterns, pattern) == (
            patterns,
            Err::<(), RegistryError>(RegistryError::DuplicateId),
        ),
        spec_register(patterns, pattern).1 is Err ==> spec_register(patterns, pattern).0
            == patterns,
        spec_register(patterns, pattern).1 is Ok ==> spec_contains_id(
            spec_register(patterns, pattern).0,
            pattern.id,
        ),
{
    if spec_register(patterns, pattern).1 is Ok {
        let after = patterns.push(pattern);
        assert(after[patterns.len() as int].id == pattern.id);
    }
}

} // verus!
