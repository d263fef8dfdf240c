use defect_corpus::classifier::{classify, oracle, signal_category};
use defect_corpus::comparator::{compare, launch_failure, record, Observed, Verdict};
use defect_corpus::config::{listed, Config, ConfigError};
use defect_corpus::corpus::{corpus, pattern, CORPUS_SIZE};
use defect_corpus::harness::{
    evaluate, report, run_all, run_one, run_pattern, HarnessError, LaunchFailure,
};
use defect_corpus::ieee::NAN_SENTINEL;
use defect_corpus::probe::{no_artifacts, Artifacts, LockKind};
use defect_corpus::registry::{DefectPattern, ExpectedFault, Registry, RegistryError};
use defect_corpus::runner::{
    execute, settle, AdmissionGate, ExecutionResult, Outcome, Sandbox, DEFAULT_BUDGET,
};
use defect_corpus::probe::Stop;
use defect_corpus::taxonomy::{
    Category, ClassifiedFault, Classification, Confidence, Severity, SignalKind,
};
use defect_corpus::triggers::{Trigger, Value};

const CATEGORIES: [Category; 10] = [
    Category::UseAfterFree,
    Category::DoubleFree,
    Category::DoubleLock,
    Category::DanglingReference,
    Category::NullPointerMisuse,
    Category::ResourceExhaustion,
    Category::FloatComparison,
    Category::PathConstruction,
    Category::Shadowing,
    Category::OwnershipBypass,
];

fn sample(id: &str, category: Category, severity: Severity, trigger: Trigger) -> DefectPattern {
    pattern(id, category, severity, trigger, "a sample")
}

fn result(outcome: Outcome, observed_artifacts: Artifacts) -> ExecutionResult {
    ExecutionResult { outcome, observed_artifacts }
}

fn certain(category: Category) -> ClassifiedFault {
    ClassifiedFault { category: Classification::Fault(category), confidence: Confidence::Certain }
}

fn presumed(category: Category) -> ClassifiedFault {
    ClassifiedFault { category: Classification::Fault(category), confidence: Confidence::Heuristic }
}

fn unknown() -> ClassifiedFault {
    ClassifiedFault { category: Classification::Unknown, confidence: Confidence::Heuristic }
}

fn hung() -> ClassifiedFault {
    ClassifiedFault { category: Classification::Hung, confidence: Confidence::Heuristic }
}

#[test]
fn taxonomy_classes_follow_the_table() {
    let crash = [
        Category::UseAfterFree,
        Category::DoubleFree,
        Category::DoubleLock,
        Category::NullPointerMisuse,
        Category::ResourceExhaustion,
    ];
    let silent = [
        Category::FloatComparison,
        Category::PathConstruction,
        Category::Shadowing,
        Category::OwnershipBypass,
    ];
    for c in CATEGORIES {
        assert_eq!(c.is_crash_class(), crash.contains(&c), "{:?}", c);
        assert_eq!(c.is_silent_class(), silent.contains(&c), "{:?}", c);
        assert_eq!(c.is_lock_related(), c == Category::DoubleLock, "{:?}", c);
        if c.is_crash_class() {
            assert_eq!(c.implied_severity(), Severity::Crash);
        }
        if c.is_silent_class() {
            assert_ne!(c.implied_severity(), Severity::Crash);
        }
    }
    assert_eq!(Category::DanglingReference.implied_severity(), Severity::Crash);
    assert_eq!(Category::FloatComparison.implied_severity(), Severity::LogicError);
    assert_eq!(Category::Shadowing.implied_severity(), Severity::LogicError);
    assert_eq!(Category::PathConstruction.implied_severity(), Severity::SilentCorruption);
    assert_eq!(Category::OwnershipBypass.implied_severity(), Severity::ResourceLeak);
}

#[test]
fn registry_keeps_registration_order() {
    let mut registry = Registry::new();
    assert_eq!(registry.len(), 0);
    let first = sample("B", Category::DoubleFree, Severity::Crash, Trigger::DoubleFree);
    let second = sample("A", Category::Shadowing, Severity::LogicError, Trigger::Shadowing);
    assert_eq!(registry.register(first.clone()), Ok(()));
    assert_eq!(registry.register(second.clone()), Ok(()));
    assert_eq!(registry.len(), 2);
    assert_eq!(registry.at(0), &first);
    assert_eq!(registry.at(1), &second);
    assert_eq!(registry.all(), &vec![first.clone(), second.clone()]);
    // The sequence can be walked again from its start.
    assert_eq!(registry.all(), &vec![first.clone(), second.clone()]);
    assert_eq!(registry.position("A"), Some(1));
    assert_eq!(registry.position("B"), Some(0));
    assert_eq!(registry.position("C"), None);
    assert_eq!(registry.get("A"), Ok(&second));
    assert_eq!(registry.get("B"), Ok(&first));
}

#[test]
fn registry_refuses_a_duplicate_id_and_stays_as_it_was() {
    let mut registry = Registry::new();
    let first = sample("X-1", Category::DoubleFree, Severity::Crash, Trigger::DoubleFree);
    assert_eq!(registry.register(first.clone()), Ok(()));
    let before = registry.all().clone();
    let again = sample("X-1", Category::UseAfterFree, Severity::Crash, Trigger::Uaf1);
    assert_eq!(registry.register(again), Err(RegistryError::DuplicateId));
    assert_eq!(registry.all(), &before);
    assert_eq!(registry.get("X-1"), Ok(&first));
    // A duplicate is reported as a duplicate even where it is incomplete too.
    let mut bare = sample("X-1", Category::UseAfterFree, Severity::Crash, Trigger::Uaf1);
    bare.trigger = None;
    assert_eq!(registry.register(bare), Err(RegistryError::DuplicateId));
    assert_eq!(registry.all(), &before);
}

#[test]
fn registry_refuses_an_incomplete_pattern() {
    let mut registry = Registry::new();
    let mut no_oracle = sample("X-1", Category::DoubleFree, Severity::Crash, Trigger::DoubleFree);
    no_oracle.expected_fault = None;
    assert_eq!(registry.register(no_oracle), Err(RegistryError::IncompletePattern));
    let mut no_trigger = sample("X-2", Category::DoubleFree, Severity::Crash, Trigger::DoubleFree);
    no_trigger.trigger = None;
    assert_eq!(registry.register(no_trigger), Err(RegistryError::IncompletePattern));
    assert_eq!(registry.len(), 0);
}

#[test]
fn registry_reports_an_absent_id() {
    let mut registry = Registry::new();
    assert_eq!(registry.get("X-1"), Err(RegistryError::NotFound));
    let first = sample("X-1", Category::DoubleFree, Severity::Crash, Trigger::DoubleFree);
    assert_eq!(registry.register(first), Ok(()));
    assert_eq!(registry.get("X-2"), Err(RegistryError::NotFound));
    assert_eq!(registry.get("X-"), Err(RegistryError::NotFound));
    assert_eq!(registry.get(""), Err(RegistryError::NotFound));
}

#[test]
fn config_is_checked_before_a_run() {
    let good = Config::new();
    assert_eq!(good.timeout_ms, 5000);
    assert_eq!(good.max_concurrency, 4);
    assert_eq!(good.validate(), Ok(()));
    let no_time = Config { timeout_ms: 0, ..Config::new() };
    assert_eq!(no_time.validate(), Err(ConfigError::ZeroTimeout));
    let no_slot = Config { max_concurrency: 0, ..Config::new() };
    assert_eq!(no_slot.validate(), Err(ConfigError::ZeroConcurrency));
    let neither = Config { timeout_ms: 0, max_concurrency: 0, ..Config::new() };
    assert_eq!(neither.validate(), Err(ConfigError::ZeroTimeout));
}

#[test]
fn config_selects_by_its_lists() {
    let all = Config::new();
    assert!(all.selects("FML-1"));
    let only = Config { only: vec!["FML-1".to_string(), "FML-2".to_string()], ..Config::new() };
    assert!(only.selects("FML-1"));
    assert!(only.selects("FML-2"));
    assert!(!only.selects("FML-3"));
    let skip = Config { skip: vec!["FML-1".to_string()], ..Config::new() };
    assert!(!skip.selects("FML-1"));
    assert!(skip.selects("FML-2"));
    let both = Config {
        only: vec!["FML-1".to_string(), "FML-2".to_string()],
        skip: vec!["FML-1".to_string()],
        ..Config::new()
    };
    assert!(!both.selects("FML-1"));
    assert!(both.selects("FML-2"));
    assert!(!both.selects("FML-3"));
    assert!(listed(&both.only, "FML-2"));
    assert!(!listed(&both.only, "FML"));
    assert!(!listed(&Vec::new(), ""));
}

#[test]
fn gate_bounds_the_contexts_in_flight() {
    let mut gate = AdmissionGate::new(2);
    assert_eq!(gate.in_flight(), 0);
    assert!(gate.acquire());
    assert!(gate.acquire());
    assert!(!gate.acquire());
    assert_eq!(gate.in_flight(), 2);
    gate.release();
    assert_eq!(gate.in_flight(), 1);
    assert!(gate.acquire());
    gate.release();
    gate.release();
    gate.release();
    assert_eq!(gate.in_flight(), 0);
    let mut shut = AdmissionGate::new(0);
    assert!(!shut.acquire());
}

#[test]
fn signals_point_to_categories() {
    let none = no_artifacts();
    assert_eq!(signal_category(SignalKind::InvalidFree, &none), Some(Category::DoubleFree));
    assert_eq!(signal_category(SignalKind::OutOfMemory, &none), Some(Category::ResourceExhaustion));
    assert_eq!(signal_category(SignalKind::SegmentationFault, &none), None);
    assert_eq!(signal_category(SignalKind::Abort, &none), None);
    assert_eq!(signal_category(SignalKind::Killed, &none), None);
    assert_eq!(signal_category(SignalKind::Other(7), &none), None);
    let poisoned = Artifacts { poisoned_accesses: 1, ..none };
    assert_eq!(
        signal_category(SignalKind::SegmentationFault, &poisoned),
        Some(Category::UseAfterFree)
    );
    let escaped = Artifacts { escaped_references: 1, ..poisoned };
    assert_eq!(
        signal_category(SignalKind::SegmentationFault, &escaped),
        Some(Category::DanglingReference)
    );
    let null = Artifacts { null_dereferences: 3, ..none };
    assert_eq!(
        signal_category(SignalKind::SegmentationFault, &null),
        Some(Category::NullPointerMisuse)
    );
    // An access to a released block outweighs a null dereference.
    let both = Artifacts { null_dereferences: 1, ..poisoned };
    assert_eq!(
        signal_category(SignalKind::SegmentationFault, &both),
        Some(Category::UseAfterFree)
    );
    // A stored reference alone is no access.
    let stored = Artifacts { escaped_references: 1, ..none };
    assert_eq!(signal_category(SignalKind::SegmentationFault, &stored), None);
}

#[test]
fn abnormal_terminations_are_classified_with_certainty() {
    let poisoned = Artifacts { poisoned_accesses: 1, ..no_artifacts() };
    for declared in CATEGORIES {
        assert_eq!(
            classify(
                &result(Outcome::AbnormalTermination(SignalKind::InvalidFree), no_artifacts()),
                declared
            ),
            certain(Category::DoubleFree)
        );
        assert_eq!(
            classify(
                &result(Outcome::AbnormalTermination(SignalKind::SegmentationFault), poisoned),
                declared
            ),
            certain(Category::UseAfterFree)
        );
        assert_eq!(
            classify(
                &result(Outcome::AbnormalTermination(SignalKind::Abort), poisoned),
                declared
            ),
            unknown()
        );
        assert_eq!(
            classify(
                &result(Outcome::AbnormalTermination(SignalKind::SegmentationFault), no_artifacts()),
                declared
            ),
            unknown()
        );
    }
}

#[test]
fn timeouts_are_a_double_lock_only_for_lock_patterns() {
    let bare = result(Outcome::TimedOut, no_artifacts());
    let flagged = result(Outcome::TimedOut, Artifacts { lock_reacquires: 1, ..no_artifacts() });
    for declared in CATEGORIES {
        if declared == Category::DoubleLock {
            assert_eq!(classify(&bare, declared), presumed(Category::DoubleLock));
        } else {
            assert_eq!(classify(&bare, declared), hung());
        }
        assert_eq!(classify(&flagged, declared), certain(Category::DoubleLock));
        assert_eq!(classify(&result(Outcome::Hung, no_artifacts()), declared), hung());
        assert_eq!(
            classify(
                &result(Outcome::Hung, Artifacts { lock_reacquires: 1, ..no_artifacts() }),
                declared
            ),
            hung()
        );
    }
}

#[test]
fn completed_runs_are_classified_only_for_silent_patterns() {
    let everything = Artifacts {
        poisoned_accesses: 1,
        double_releases: 1,
        missed_releases: 1,
        escaped_references: 1,
        lock_reacquires: 1,
        null_dereferences: 1,
        unbounded_requests: 1,
        nan_comparisons: 1,
        base_escapes: 1,
        shadowed_bindings: 1,
    };
    let flag = result(Outcome::Completed(Some(Value::Flag(false))), everything);
    let text = result(Outcome::Completed(Some(Value::Text("x".to_string()))), everything);
    for declared in CATEGORIES {
        let wanted = if declared == Category::FloatComparison
            || declared == Category::OwnershipBypass
        {
            presumed(declared)
        } else {
            unknown()
        };
        assert_eq!(classify(&flag, declared), wanted, "{:?}", declared);
        let wanted = if declared == Category::PathConstruction
            || declared == Category::Shadowing
            || declared == Category::OwnershipBypass
        {
            presumed(declared)
        } else {
            unknown()
        };
        assert_eq!(classify(&text, declared), wanted, "{:?}", declared);
        assert_eq!(
            classify(&result(Outcome::Completed(None), no_artifacts()), declared),
            unknown()
        );
    }
}

#[test]
fn oracle_predicates_look_at_value_and_evidence() {
    let none = no_artifacts();
    let nan = Artifacts { nan_comparisons: 1, ..none };
    let refuted = Some(Value::Flag(false));
    assert!(oracle(Category::FloatComparison, &refuted, &nan));
    assert!(!oracle(Category::FloatComparison, &refuted, &none));
    assert!(!oracle(Category::FloatComparison, &Some(Value::Flag(true)), &nan));
    assert!(!oracle(Category::FloatComparison, &Some(Value::Number(0)), &nan));
    assert!(!oracle(Category::FloatComparison, &None, &nan));
    let escaped = Artifacts { base_escapes: 1, ..none };
    let text = Some(Value::Text("/local/bin".to_string()));
    assert!(oracle(Category::PathConstruction, &text, &escaped));
    assert!(!oracle(Category::PathConstruction, &text, &none));
    assert!(!oracle(Category::PathConstruction, &None, &escaped));
    let shadowed = Artifacts { shadowed_bindings: 1, ..none };
    assert!(oracle(Category::Shadowing, &text, &shadowed));
    assert!(!oracle(Category::Shadowing, &text, &escaped));
    assert!(!oracle(Category::Shadowing, &refuted, &shadowed));
    assert!(oracle(Category::OwnershipBypass, &None, &Artifacts { missed_releases: 1, ..none }));
    assert!(oracle(Category::OwnershipBypass, &None, &Artifacts { double_releases: 1, ..none }));
    assert!(!oracle(Category::OwnershipBypass, &None, &none));
    assert!(!oracle(Category::UseAfterFree, &text, &Artifacts { poisoned_accesses: 1, ..none }));
    assert!(!oracle(Category::DoubleLock, &None, &Artifacts { lock_reacquires: 1, ..none }));
}

#[test]
fn compare_matches_by_category_alone() {
    let p = sample("X-1", Category::DoubleFree, Severity::Crash, Trigger::DoubleFree);
    let oracle = Some(ExpectedFault { category: Category::DoubleFree, severity: Severity::Crash });
    assert_eq!(
        compare(&p, certain(Category::DoubleFree)),
        Verdict {
            pattern_id: "X-1".to_string(),
            matched: true,
            expected: oracle,
            observed: Observed::Fault(certain(Category::DoubleFree)),
        }
    );
    assert!(compare(&p, presumed(Category::DoubleFree)).matched);
    assert!(!compare(&p, certain(Category::UseAfterFree)).matched);
    assert!(!compare(&p, unknown()).matched);
    assert!(!compare(&p, hung()).matched);
    let mut bare = p.clone();
    bare.expected_fault = None;
    assert_eq!(
        compare(&bare, certain(Category::DoubleFree)),
        Verdict {
            pattern_id: "X-1".to_string(),
            matched: false,
            expected: None,
            observed: Observed::Fault(certain(Category::DoubleFree)),
        }
    );
}

#[test]
fn compare_is_deterministic() {
    let p = sample("X-1", Category::Shadowing, Severity::LogicError, Trigger::Shadowing);
    for fault in [certain(Category::Shadowing), presumed(Category::DoubleFree), unknown(), hung()] {
        assert_eq!(compare(&p, fault), compare(&p, fault));
    }
}

#[test]
fn a_failed_launch_is_a_verdict_of_its_own() {
    let p = sample("X-1", Category::DoubleFree, Severity::Crash, Trigger::DoubleFree);
    let wanted = Verdict {
        pattern_id: "X-1".to_string(),
        matched: false,
        expected: p.expected_fault,
        observed: Observed::LaunchFailure,
    };
    assert_eq!(launch_failure(&p), wanted);
    assert_eq!(evaluate(&p, Err(LaunchFailure {})), wanted);
    let r = record(p.category, &wanted);
    assert_eq!(r.id, "X-1");
    assert_eq!(r.confidence, None);
    assert_eq!(r.observed, Observed::LaunchFailure);
    assert!(!r.matched);
    let mut bare = p.clone();
    bare.trigger = None;
    assert_eq!(run_pattern(&bare, &Sandbox::new()), wanted);
}

#[test]
fn a_crash_with_the_matching_signal_is_matched_with_certainty() {
    let p = sample("X-1", Category::UseAfterFree, Severity::Crash, Trigger::Uaf1);
    let verdict = evaluate(
        &p,
        Ok(result(
            Outcome::AbnormalTermination(SignalKind::SegmentationFault),
            Artifacts { poisoned_accesses: 1, ..no_artifacts() },
        )),
    );
    assert!(verdict.matched);
    assert_eq!(verdict.observed, Observed::Fault(certain(Category::UseAfterFree)));
    let lock = sample("X-2", Category::DoubleLock, Severity::Crash, Trigger::DoubleLock);
    let verdict = evaluate(
        &lock,
        Ok(result(Outcome::TimedOut, Artifacts { lock_reacquires: 1, ..no_artifacts() })),
    );
    assert!(verdict.matched);
    assert_eq!(verdict.observed, Observed::Fault(certain(Category::DoubleLock)));
    // A crash pattern that returns a value is never matched.
    let verdict = evaluate(
        &p,
        Ok(result(
            Outcome::Completed(Some(Value::Number(1))),
            Artifacts { poisoned_accesses: 1, ..no_artifacts() },
        )),
    );
    assert!(!verdict.matched);
}

#[test]
fn settle_turns_a_block_into_a_timeout() {
    assert_eq!(settle(Ok(None)), Outcome::Completed(None));
    assert_eq!(
        settle(Ok(Some(Value::Number(3)))),
        Outcome::Completed(Some(Value::Number(3)))
    );
    assert_eq!(
        settle(Err(Stop::Crashed(SignalKind::InvalidFree))),
        Outcome::AbnormalTermination(SignalKind::InvalidFree)
    );
    assert_eq!(settle(Err(Stop::Blocked)), Outcome::TimedOut);
}

#[test]
fn the_double_lock_follows_the_lock() {
    let strict = Sandbox::new();
    assert_eq!(strict.lock, LockKind::NonReentrant);
    assert_eq!(strict.budget, DEFAULT_BUDGET);
    let r = execute(Trigger::DoubleLock, &strict);
    assert_eq!(r.outcome, Outcome::TimedOut);
    assert_eq!(classify(&r, Category::DoubleLock), certain(Category::DoubleLock));
    let lenient = Sandbox { lock: LockKind::Reentrant, ..Sandbox::new() };
    let r = execute(Trigger::DoubleLock, &lenient);
    assert_eq!(r.outcome, Outcome::Completed(Some(Value::Number(11))));
    assert_eq!(classify(&r, Category::DoubleLock), unknown());
    let registry = corpus();
    assert!(run_one(&registry, "FDL-1", &Config::new(), &strict).unwrap().matched);
    assert!(!run_one(&registry, "FDL-1", &Config::new(), &lenient).unwrap().matched);
}

#[test]
fn the_comparison_with_the_sentinel_is_classified_on_every_input() {
    for bits in [0u32, 0x3f80_0000, 0x7f80_0000, NAN_SENTINEL, 0xffff_ffff] {
        let r = execute(Trigger::CompareToNan { bits }, &Sandbox::new());
        assert_eq!(r.outcome, Outcome::Completed(Some(Value::Flag(false))));
        assert_eq!(r.observed_artifacts, Artifacts { nan_comparisons: 1, ..no_artifacts() });
        assert_eq!(classify(&r, Category::FloatComparison), presumed(Category::FloatComparison));
    }
}

#[test]
fn the_absolute_join_is_classified_as_a_path_error() {
    let r = execute(Trigger::AbsPathInJoin, &Sandbox::new());
    assert_eq!(r.outcome, Outcome::Completed(Some(Value::Text("/local/bin".to_string()))));
    assert_eq!(classify(&r, Category::PathConstruction), presumed(Category::PathConstruction));
}

#[test]
fn the_corpus_holds_every_pattern_once() {
    let registry = corpus();
    assert_eq!(registry.len(), CORPUS_SIZE);
    assert_eq!(registry.len(), 21);
    let ids = [
        "CPJ-1", "FDF-1", "FDL-1", "FLM-1", "FLM-2", "FLSC-1", "FML-1", "FML-2", "FML-3", "FML-4",
        "FT-22", "FT-23", "FT-24", "FT-25", "FT-26", "SGT-1", "UAF-1", "UAF-2", "UAF-3", "URP-1",
        "URPV-1",
    ];
    for (i, id) in ids.iter().enumerate() {
        let p = registry.at(i);
        assert_eq!(&p.id, id);
        assert_eq!(registry.position(id), Some(i));
        assert_eq!(p.expected_fault.unwrap().category, p.category);
        assert!(p.trigger.is_some());
        assert!(!p.description.is_empty());
    }
    assert_eq!(registry.get("FT-23").unwrap().expected_fault.unwrap().severity, Severity::ResourceLeak);
    assert_eq!(registry.get("FT-22").unwrap().expected_fault.unwrap().severity, Severity::Crash);
    assert_eq!(registry.get("FLM-2").unwrap().category, Category::DanglingReference);
}

#[test]
fn the_corpus_reproduces_its_oracles() {
    let registry = corpus();
    let verdicts = run_all(&registry, &Config::new(), &Sandbox::new()).unwrap();
    assert_eq!(verdicts.len(), 21);
    for (i, verdict) in verdicts.iter().enumerate() {
        assert_eq!(verdict.pattern_id, registry.at(i).id);
        assert_eq!(verdict.expected, registry.at(i).expected_fault);
        assert_eq!(verdict.matched, verdict.pattern_id != "URPV-1", "{}", verdict.pattern_id);
    }
    let crash = run_one(&registry, "FDF-1", &Config::new(), &Sandbox::new()).unwrap();
    assert_eq!(crash.observed, Observed::Fault(certain(Category::DoubleFree)));
    let leak = run_one(&registry, "FML-3", &Config::new(), &Sandbox::new()).unwrap();
    assert_eq!(leak.observed, Observed::Fault(presumed(Category::OwnershipBypass)));
    let silent = run_one(&registry, "URPV-1", &Config::new(), &Sandbox::new()).unwrap();
    assert_eq!(silent.observed, Observed::Fault(unknown()));
}

#[test]
fn two_runs_of_the_corpus_agree() {
    let first = run_all(&corpus(), &Config::new(), &Sandbox::new()).unwrap();
    let second = run_all(&corpus(), &Config::new(), &Sandbox::new()).unwrap();
    assert_eq!(first, second);
    let matched: Vec<bool> = first.iter().map(|v| v.matched).collect();
    let again: Vec<bool> = second.iter().map(|v| v.matched).collect();
    assert_eq!(matched, again);
}

#[test]
fn run_all_follows_the_selection() {
    let registry = corpus();
    let config = Config {
        only: vec!["UAF-2".to_string(), "FML-1".to_string(), "nothing".to_string()],
        skip: vec!["FML-1".to_string()],
        ..Config::new()
    };
    let verdicts = run_all(&registry, &config, &Sandbox::new()).unwrap();
    assert_eq!(verdicts.len(), 1);
    assert_eq!(verdicts[0].pattern_id, "UAF-2");
    let config = Config { skip: vec!["CPJ-1".to_string(), "URPV-1".to_string()], ..Config::new() };
    let verdicts = run_all(&registry, &config, &Sandbox::new()).unwrap();
    assert_eq!(verdicts.len(), 19);
    assert_eq!(verdicts[0].pattern_id, "FDF-1");
    assert_eq!(verdicts[18].pattern_id, "URP-1");
    assert_eq!(run_all(&Registry::new(), &Config::new(), &Sandbox::new()), Ok(Vec::new()));
}

#[test]
fn a_bad_configuration_is_fatal_before_any_run() {
    let registry = corpus();
    let no_time = Config { timeout_ms: 0, ..Config::new() };
    assert_eq!(run_all(&registry, &no_time, &Sandbox::new()), Err(ConfigError::ZeroTimeout));
    assert_eq!(
        run_one(&registry, "FDF-1", &no_time, &Sandbox::new()),
        Err(HarnessError::InvalidConfig(ConfigError::ZeroTimeout))
    );
    let no_slot = Config { max_concurrency: 0, ..Config::new() };
    assert_eq!(run_all(&registry, &no_slot, &Sandbox::new()), Err(ConfigError::ZeroConcurrency));
    // The configuration is looked at before the id.
    assert_eq!(
        run_one(&registry, "absent", &no_slot, &Sandbox::new()),
        Err(HarnessError::InvalidConfig(ConfigError::ZeroConcurrency))
    );
}

#[test]
fn run_one_reports_an_absent_id() {
    let registry = corpus();
    assert_eq!(
        run_one(&registry, "FDF-2", &Config::new(), &Sandbox::new()),
        Err(HarnessError::NotFound)
    );
    // The selection of the configuration has no say in a run of one pattern.
    let config = Config { skip: vec!["FDF-1".to_string()], ..Config::new() };
    assert!(run_one(&registry, "FDF-1", &config, &Sandbox::new()).unwrap().matched);
}

#[test]
fn the_budget_decides_the_allocation_patterns() {
    let mut registry = Registry::new();
    let small = sample(
        "small",
        Category::ResourceExhaustion,
        Severity::Crash,
        Trigger::IntOverflow { units: 1 },
    );
    assert_eq!(registry.register(small), Ok(()));
    let roomy = Sandbox { budget: 100000, ..Sandbox::new() };
    let tight = Sandbox { budget: 99999, ..Sandbox::new() };
    let served = run_one(&registry, "small", &Config::new(), &roomy).unwrap();
    assert!(!served.matched);
    assert_eq!(served.observed, Observed::Fault(unknown()));
    let refused = run_one(&registry, "small", &Config::new(), &tight).unwrap();
    assert!(refused.matched);
    assert_eq!(refused.observed, Observed::Fault(certain(Category::ResourceExhaustion)));
}

#[test]
fn the_tool_path_reaches_the_trigger() {
    let sandbox = Sandbox { tool_path: Some("/opt/bin/cargo".to_string()), ..Sandbox::new() };
    let r = execute(Trigger::RuntimePathValue, &sandbox);
    assert_eq!(r.outcome, Outcome::Completed(Some(Value::Text("/opt/bin/cargo".to_string()))));
    assert_eq!(r.observed_artifacts, no_artifacts());
    let r = execute(Trigger::RuntimePathValue, &Sandbox::new());
    assert_eq!(r.outcome, Outcome::Completed(Some(Value::Text(String::new()))));
}

#[test]
fn the_report_lists_every_verdict_in_order() {
    let registry = corpus();
    let verdicts = run_all(&registry, &Config::new(), &Sandbox::new()).unwrap();
    let records = report(&registry, &verdicts);
    assert_eq!(records.len(), 21);
    for (i, r) in records.iter().enumerate() {
        let p = registry.at(i);
        assert_eq!(r.id, p.id);
        assert_eq!(r.category, p.category);
        assert_eq!(r.expected, p.expected_fault);
        assert_eq!(r.observed, verdicts[i].observed);
        assert_eq!(r.matched, verdicts[i].matched);
    }
    assert_eq!(records[1].confidence, Some(Confidence::Certain));
    assert_eq!(records[6].confidence, Some(Confidence::Heuristic));
    // A verdict on an id that is not registered has no record.
    let stray = Verdict {
        pattern_id: "stray".to_string(),
        matched: false,
        expected: None,
        observed: Observed::LaunchFailure,
    };
    assert_eq!(report(&registry, &vec![stray]).len(), 0);
}
