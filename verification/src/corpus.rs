//! The corpus: every defect pattern with its oracle and its trigger, in the
//! order in which a report lists them.

use vstd::prelude::*;
use vstd::string::*;
use crate::ieee::NAN_SENTINEL;
use crate::registry::{
    spec_complete, spec_unique_ids, DefectPattern, ExpectedFault, PatternView, Registry,
};
use crate::taxonomy::{Category, Severity};
use crate::triggers::Trigger;

verus! {

/// The number of patterns in the corpus.
pub const CORPUS_SIZE: usize = 21;

/// The content of a pattern whose oracle declares the pattern's own category.
pub open spec fn spec_entry(
    id: Seq<char>,
    category: Category,
    severity: Severity,
    trigger: Trigger,
    description: Seq<char>,
) -> PatternView {
    PatternView {
        id,
        category,
        description,
        expected_fault: Some(ExpectedFault { category, severity }),
        trigger: Some(trigger),
    }
}

/// The content of the corpus.
pub open spec fn spec_corpus() -> Seq<PatternView> {
    seq![
        spec_entry(
            "CPJ-1"@,
            Category::PathConstruction,
            Severity::SilentCorruption,
            Trigger::ConstPathJoin,
            "a path put together from constant pieces on top of the parent directory"@,
        ),
        spec_entry(
            "FDF-1"@,
            Category::DoubleFree,
            Severity::Crash,
            Trigger::DoubleFree,
            "an owner duplicated bit by bit, so that its block is released twice"@,
        ),
        spec_entry(
            "FDL-1"@,
            Category::DoubleLock,
            Severity::Crash,
            Trigger::DoubleLock,
            "a lock acquired again while the first hold on it is alive"@,
        ),
        spec_entry(
            "FLM-1"@,
            Category::DanglingReference,
            Severity::Crash,
            Trigger::Flm1,
            "a reference returned under a lifetime that its referent does not have"@,
        ),
        spec_entry(
            "FLM-2"@,
            Category::DanglingReference,
            Severity::Crash,
            Trigger::Flm2,
            "a reference to an inner scope stored in a structure of the outer one"@,
        ),
        spec_entry(
            "FLSC-1"@,
            Category::FloatComparison,
            Severity::LogicError,
            Trigger::CompareToNan { bits: NAN_SENTINEL },
            "an equality comparison against the not-a-number sentinel"@,
        ),
        spec_entry(
            "FML-1"@,
            Category::OwnershipBypass,
            Severity::ResourceLeak,
            Trigger::Fml1,
            "a block allocated and written by hand and never released"@,
        ),
        spec_entry(
            "FML-2"@,
            Category::OwnershipBypass,
            Severity::ResourceLeak,
            Trigger::Fml2,
            "a block turned into a bare handle that is dropped on the floor"@,
        ),
        spec_entry(
            "FML-3"@,
            Category::OwnershipBypass,
            Severity::ResourceLeak,
            Trigger::Fml3 { consume: false },
            "a block whose cleanup is switched off and never switched on again"@,
        ),
        spec_entry(
            "FML-4"@,
            Category::OwnershipBypass,
            Severity::ResourceLeak,
            Trigger::Fml4,
            "a block that is forgotten"@,
        ),
        spec_entry(
            "FT-22"@,
            Category::ResourceExhaustion,
            Severity::Crash,
            Trigger::IntOverflow { units: usize::MAX },
            "a buffer whose size is an unchecked multiple of an input"@,
        ),
        spec_entry(
            "FT-23"@,
            Category::ResourceExhaustion,
            Severity::ResourceLeak,
            Trigger::ResourceExhaustion { additional: usize::MAX },
            "a reservation of as many elements as an input says"@,
        ),
        spec_entry(
            "FT-24"@,
            Category::NullPointerMisuse,
            Severity::Crash,
            Trigger::NullToCFunc,
            "a null destination handed to a foreign copy routine"@,
        ),
        spec_entry(
            "FT-25"@,
            Category::NullPointerMisuse,
            Severity::Crash,
            Trigger::NullReturnFromCFunc,
            "a null reference returned by a foreign routine and read unguarded"@,
        ),
        spec_entry(
            "FT-26"@,
            Category::NullPointerMisuse,
            Severity::Crash,
            Trigger::NullableArg,
            "a reference handed over by a foreign caller and read unguarded"@,
        ),
        spec_entry(
            "SGT-1"@,
            Category::Shadowing,
            Severity::LogicError,
            Trigger::Shadowing,
            "a type parameter that shadows the record a reader takes it for"@,
        ),
        spec_entry(
            "UAF-1"@,
            Category::UseAfterFree,
            Severity::Crash,
            Trigger::Uaf1,
            "a reference to a temporary read after the temporary is gone"@,
        ),
        spec_entry(
            "UAF-2"@,
            Category::UseAfterFree,
            Severity::Crash,
            Trigger::Uaf2,
            "a raw reference into an owner read after the owner is gone"@,
        ),
        spec_entry(
            "UAF-3"@,
            Category::UseAfterFree,
            Severity::Crash,
            Trigger::Uaf3,
            "a raw mutable reference into an owner read after the owner is gone"@,
        ),
        spec_entry(
            "URP-1"@,
            Category::PathConstruction,
            Severity::SilentCorruption,
            Trigger::AbsPathInJoin,
            "an absolute segment adjoined to a base"@,
        ),
        spec_entry(
            "URPV-1"@,
            Category::PathConstruction,
            Severity::SilentCorruption,
            Trigger::RuntimePathValue,
            "a tool path taken from the build where the run should say it"@,
        ),
    ]
}

/// A pattern whose oracle declares the pattern's own category.
pub fn pattern(
    id: &str,
    category: Category,
    severity: Severity,
    trigger: Trigger,
    description: &str,
) -> (p: DefectPattern)
    ensures
        p@ == spec_entry(id@, category, severity, trigger, description@),
{
    DefectPattern {
        id: String::from_str(id),
        category,
        description: String::from_str(description),
        expected_fault: Some(ExpectedFault { category, severity }),
        trigger: Some(trigger),
    }
}

/// What tells the ids of the corpus apart: the length of an id, its first
/// three characters and its last.
pub open spec fn spec_key(id: Seq<char>) -> (nat, char, char, char, char) {
    (id.len(), id[0], id[1], id[2], id.last())
}

/// The key of the id at each place of the corpus.
pub open spec fn spec_corpus_keys() -> Seq<(nat, char, char, char, char)> {
    seq![
        (5nat, 'C', 'P', 'J', '1'),
        (5nat, 'F', 'D', 'F', '1'),
        (5nat, 'F', 'D', 'L', '1'),
        (5nat, 'F', 'L', 'M', '1'),
        (5nat, 'F', 'L', 'M', '2'),
        (6nat, 'F', 'L', 'S', '1'),
        (5nat, 'F', 'M', 'L', '1'),
        (5nat, 'F', 'M', 'L', '2'),
        (5nat, 'F', 'M', 'L', '3'),
        (5nat, 'F', 'M', 'L', '4'),
        (5nat, 'F', 'T', '-', '2'),
        (5nat, 'F', 'T', '-', '3'),
        (5nat, 'F', 'T', '-', '4'),
        (5nat, 'F', 'T', '-', '5'),
        (5nat, 'F', 'T', '-', '6'),
        (5nat, 'S', 'G', 'T', '1'),
        (5nat, 'U', 'A', 'F', '1'),
        (5nat, 'U', 'A', 'F', '2'),
        (5nat, 'U', 'A', 'F', '3'),
        (5nat, 'U', 'R', 'P', '1'),
        (6nat, 'U', 'R', 'P', '1'),
    ]
}

proof fn lemma_corpus_keys()
    ensures
        spec_corpus().len() == CORPUS_SIZE,
        spec_corpus_keys().len() == CORPUS_SIZE,
        forall|i: int|
            0 <= i < CORPUS_SIZE ==> spec_key((#[trigger] spec_corpus()[i]).id)
                == spec_corpus_keys()[i],
        forall|i: int| 0 <= i < CORPUS_SIZE ==> spec_complete(#[trigger] spec_corpus()[i]),
{
    reveal_strlit("CPJ-1");
    reveal_strlit("FDF-1");
    reveal_strlit("FDL-1");
    reveal_strlit("FLM-1");
    reveal_strlit("FLM-2");
    reveal_strlit("FLSC-1");
    reveal_strlit("FML-1");
    reveal_strlit("FML-2");
    reveal_strlit("FML-3");
    reveal_strlit("FML-4");
    reveal_strlit("FT-22");
    reveal_strlit("FT-23");
    reveal_strlit("FT-24");
    reveal_strlit("FT-25");
    reveal_strlit("FT-26");
    reveal_strlit("SGT-1");
    reveal_strlit("UAF-1");
    reveal_strlit("UAF-2");
    reveal_strlit("UAF-3");
    reveal_strlit("URP-1");
    reveal_strlit("URPV-1");
    assert(spec_key(spec_corpus()[0].id) == spec_corpus_keys()[0]);
    assert(spec_key(spec_corpus()[1].id) == spec_corpus_keys()[1]);
    assert(spec_key(spec_corpus()[2].id) == spec_corpus_keys()[2]);
    assert(spec_key(spec_corpus()[3].id) == spec_corpus_keys()[3]);
    assert(spec_key(spec_corpus()[4].id) == spec_corpus_keys()[4]);
    assert(spec_key(spec_corpus()[5].id) == spec_corpus_keys()[5]);
    assert(spec_key(spec_corpus()[6].id) == spec_corpus_keys()[6]);
    assert(spec_key(spec_corpus()[7].id) == spec_corpus_keys()[7]);
    assert(spec_key(spec_corpus()[8].id) == spec_corpus_keys()[8]);
    assert(spec_key(spec_corpus()[9].id) == spec_corpus_keys()[9]);
    assert(spec_key(spec_corpus()[10].id) == spec_corpus_keys()[10]);
    assert(spec_key(spec_corpus()[11].id) == spec_corpus_keys()[11]);
    assert(spec_key(spec_corpus()[12].id) == spec_corpus_keys()[12]);
    assert(spec_key(spec_corpus()[13].id) == spec_corpus_keys()[13]);
    assert(spec_key(spec_corpus()[14].id) == spec_corpus_keys()[14]);
    assert(spec_key(spec_corpus()[15].id) == spec_corpus_keys()[15]);
    assert(spec_key(spec_corpus()[16].id) == spec_corpus_keys()[16]);
    assert(spec_key(spec_corpus()[17].id) == spec_corpus_keys()[17]);
    assert(spec_key(spec_corpus()[18].id) == spec_corpus_keys()[18]);
    assert(spec_key(spec_corpus()[19].id) == spec_corpus_keys()[19]);
    assert(spec_key(spec_corpus()[20].id) == spec_corpus_keys()[20]);
}

proof fn lemma_keys_differ(i: int, j: int)
    requires
        0 <= i < j < CORPUS_SIZE,
    ensures
        spec_corpus_keys()[i] != spec_corpus_keys()[j],
{
}

/// No two patterns of the corpus share an id, and each has its oracle and its trigger.
pub proof fn lemma_corpus_is_well_formed()
    ensures
        spec_corpus().len() == CORPUS_SIZE,
        spec_unique_ids(spec_corpus()),
        forall|i: int| 0 <= i < spec_corpus().len() ==> spec_complete(#[trigger] spec_corpus()[i]),
{
    lemma_corpus_keys();
    assert forall|i: int, j: int|
        0 <= i < spec_corpus().len() && 0 <= j < spec_corpus().len() && (
        #[trigger] spec_corpus()[i]).id == (#[trigger] spec_corpus()[j]).id implies i == j by {
        if i < j {
            lemma_keys_differ(i, j);
        } else if j < i {
            lemma_keys_differ(j, i);
        }
    }
}

/// Registers the pattern that the corpus has at place `k`.
fn enlist(
    registry: &mut Registry,
    Ghost(k): Ghost<int>,
    id: &str,
    category: Category,
    severity: Severity,
    trigger: Trigger,
    description: &str,
)
    requires
        old(registry).wf(),
        0 <= k < spec_corpus().len(),
        old(registry)@ == spec_corpus().take(k),
        spec_corpus()[k] == spec_entry(id@, category, severity, trigger, description@),
    ensures
        final(registry).wf(),
        final(registry)@ == spec_corpus().take(k + 1),
{
    proof {
        lemma_corpus_is_well_formed();
        assert forall|i: int| 0 <= i < k implies (#[trigger] spec_corpus().take(k)[i]).id != id@ by {
            assert(spec_corpus()[i].id != spec_corpus()[k].id);
        }
        assert(spec_corpus().take(k + 1) =~= spec_corpus().take(k).push(spec_corpus()[k]));
    }
    let _ = registry.register(pattern(id, category, severity, trigger, description));
}

/// The registry of the corpus.
pub fn corpus() -> (registry: Registry)
    ensures
        registry.wf(),
        registry@ == spec_corpus(),
{
    let mut registry = Registry::new();
    proof {
        lemma_corpus_is_well_formed();
        assert(spec_corpus().take(0) =~= Seq::<PatternView>::empty());
    }
    enlist(
        &mut registry,
        Ghost(0),
        "CPJ-1",
        Category::PathConstruction,
        Severity::SilentCorruption,
        Trigger::ConstPathJoin,
        "a path put together from constant pieces on top of the parent directory",
    );
    enlist(
        &mut registry,
        Ghost(1),
        "FDF-1",
        Category::DoubleFree,
        Severity::Crash,
        Trigger::DoubleFree,
        "an owner duplicated bit by bit, so that its block is released twice",
    );
    enlist(
        &mut registry,
        Ghost(2),
        "FDL-1",
        Category::DoubleLock,
        Severity::Crash,
        Trigger::DoubleLock,
        "a lock acquired again while the first hold on it is alive",
    );
    enlist(
        &mut registry,
        Ghost(3),
        "FLM-1",
        Category::DanglingReference,
        Severity::Crash,
        Trigger::Flm1,
        "a reference returned under a lifetime that its referent does not have",
    );
    enlist(
        &mut registry,
        Ghost(4),
        "FLM-2",
        Category::DanglingReference,
        Severity::Crash,
        Trigger::Flm2,
        "a reference to an inner scope stored in a structure of the outer one",
    );
    enlist(
        &mut registry,
        Ghost(5),
        "FLSC-1",
        Category::FloatComparison,
        Severity::LogicError,
        Trigger::CompareToNan { bits: NAN_SENTINEL },
        "an equality comparison against the not-a-number sentinel",
    );
    enlist(
        &mut registry,
        Ghost(6),
        "FML-1",
        Category::OwnershipBypass,
        Severity::ResourceLeak,
        Trigger::Fml1,
        "a block allocated and written by hand and never released",
    );
    enlist(
        &mut registry,
        Ghost(7),
        "FML-2",
        Category::OwnershipBypass,
        Severity::ResourceLeak,
        Trigger::Fml2,
        "a block turned into a bare handle that is dropped on the floor",
    );
    enlist(
        &mut registry,
        Ghost(8),
        "FML-3",
        Category::OwnershipBypass,
        Severity::ResourceLeak,
        Trigger::Fml3 { consume: false },
        "a block whose cleanup is switched off and never switched on again",
    );
    enlist(
        &mut registry,
        Ghost(9),
        "FML-4",
        Category::OwnershipBypass,
        Severity::ResourceLeak,
        Trigger::Fml4,
        "a block that is forgotten",
    );
    enlist(
        &mut registry,
        Ghost(10),
        "FT-22",
        Category::ResourceExhaustion,
        Severity::Crash,
        Trigger::IntOverflow { units: usize::MAX },
        "a buffer whose size is an unchecked multiple of an input",
    );
    enlist(
        &mut registry,
        Ghost(11),
        "FT-23",
        Category::ResourceExhaustion,
        Severity::ResourceLeak,
        Trigger::ResourceExhaustion { additional: usize::MAX },
        "a reservation of as many elements as an input says",
    );
    enlist(
        &mut registry,
        Ghost(12),
        "FT-24",
        Category::NullPointerMisuse,
        Severity::Crash,
        Trigger::NullToCFunc,
        "a null destination handed to a foreign copy routine",
    );
    enlist(
        &mut registry,
        Ghost(13),
        "FT-25",
        Category::NullPointerMisuse,
        Severity::Crash,
        Trigger::NullReturnFromCFunc,
        "a null reference returned by a foreign routine and read unguarded",
    );
    enlist(
        &mut registry,
        Ghost(14),
        "FT-26",
        Category::NullPointerMisuse,
        Severity::Crash,
        Trigger::NullableArg,
        "a reference handed over by a foreign caller and read unguarded",
    );
    enlist(
        &mut registry,
        Ghost(15),
        "SGT-1",
        Category::Shadowing,
        Severity::LogicError,
        Trigger::Shadowing,
        "a type parameter that shadows the record a reader takes it for",
    );
    enlist(
        &mut registry,
        Ghost(16),
        "UAF-1",
        Category::UseAfterFree,
        Severity::Crash,
        Trigger::Uaf1,
        "a reference to a temporary read after the temporary is gone",
    );
    enlist(
        &mut registry,
        Ghost(17),
        "UAF-2",
        Category::UseAfterFree,
        Severity::Crash,
        Trigger::Uaf2,
        "a raw reference into an owner read after the owner is gone",
    );
    enlist(
        &mut registry,
        Ghost(18),
        "UAF-3",
        Category::UseAfterFree,
        Severity::Crash,
        Trigger::Uaf3,
        "a raw mutable reference into an owner read after the owner is gone",
    );
    enlist(
        &mut registry,
        Ghost(19),
        "URP-1",
        Category::PathConstruction,
        Severity::SilentCorruption,
        Trigger::AbsPathInJoin,
        "an absolute segment adjoined to a base",
    );
    enlist(
        &mut registry,
        Ghost(20),
        "URPV-1",
        Category::PathConstruction,
        Severity::SilentCorruption,
        Trigger::RuntimePathValue,
        "a tool path taken from the build where the run should say it",
    );
    proof {
        assert(spec_corpus().take(CORPUS_SIZE as int) =~= spec_corpus());
    }
    registry
}

} // verus!
