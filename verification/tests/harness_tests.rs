use grammar_validation::harness::{
    all_passed, default_fixtures, fixture_for, judge, FailReason, Outcome, ProbeOutcome,
    ValidationResult,
};
use grammar_validation::registry::Registry;

fn synthetic_registry() -> Registry<u32> {
    Registry::new(vec![
        ("c".to_string(), 1),
        ("python".to_string(), 2),
        ("javascript".to_string(), 3),
        ("rust".to_string(), 4),
        ("go".to_string(), 5),
    ])
}

#[test]
fn registry_round_trip() {
    let reg = synthetic_registry();
    let names = reg.available_grammars();
    assert_eq!(names, vec!["c", "python", "javascript", "rust", "go"]);
    for name in &names {
        assert!(reg.load_grammar(name).is_some());
    }
    assert_eq!(reg.load_grammar("haskell"), None);
    assert_eq!(reg.load_grammar(""), None);
}

#[test]
fn registry_first_match_wins() {
    let reg = Registry::new(vec![("c".to_string(), 1), ("c".to_string(), 2)]);
    assert_eq!(reg.load_grammar("c"), Some(&1));
}

#[test]
fn judge_zero_node_kinds_is_invalid_grammar() {
    assert_eq!(judge(0, None), Outcome::Fail { reason: FailReason::InvalidGrammar });
    assert_eq!(
        judge(0, Some(ProbeOutcome::Parsed { chars: 10 })),
        Outcome::Fail { reason: FailReason::InvalidGrammar }
    );
}

#[test]
fn judge_without_fixture_passes_on_sanity() {
    assert_eq!(judge(120, None), Outcome::Pass { node_kinds: 120, parsed_chars: None });
}

#[test]
fn judge_probe_outcomes() {
    assert_eq!(
        judge(7, Some(ProbeOutcome::BindFailed)),
        Outcome::Fail { reason: FailReason::LanguageBindingError }
    );
    assert_eq!(
        judge(7, Some(ProbeOutcome::Aborted)),
        Outcome::Fail { reason: FailReason::ParseAborted }
    );
    assert_eq!(
        judge(7, Some(ProbeOutcome::TreeHadErrors)),
        Outcome::Fail { reason: FailReason::ParseTreeHasErrors }
    );
    assert_eq!(
        judge(7, Some(ProbeOutcome::Parsed { chars: 24 })),
        Outcome::Pass { node_kinds: 7, parsed_chars: Some(24) }
    );
}

#[test]
fn fixture_table_covers_subset() {
    let fixtures = default_fixtures();
    assert_eq!(fixtures.len(), 5);
    assert_eq!(fixture_for(&fixtures, "c"), Some("int main() { return 0; }".to_string()));
    assert_eq!(fixture_for(&fixtures, "python"), Some("def hello():\n    pass".to_string()));
    assert_eq!(fixture_for(&fixtures, "haskell"), None);
}

fn results_from(outcomes: Vec<(&str, Outcome)>) -> Vec<ValidationResult> {
    outcomes
        .into_iter()
        .map(|(n, o)| ValidationResult { grammar_name: n.to_string(), outcome: o })
        .collect()
}

#[test]
fn scenario_all_grammars_healthy() {
    let fixtures = default_fixtures();
    let names = ["c", "python", "javascript", "rust", "go"];
    let mut results = Vec::new();
    for name in names {
        let code = fixture_for(&fixtures, name).unwrap();
        let outcome = judge(100, Some(ProbeOutcome::Parsed { chars: code.chars().count() }));
        assert!(matches!(outcome, Outcome::Pass { .. }));
        results.push(ValidationResult { grammar_name: name.to_string(), outcome });
    }
    assert_eq!(results.len(), 5);
    assert!(all_passed(&results));
}

#[test]
fn scenario_one_corrupted_grammar_reports_and_others_run() {
    let outcomes = vec![
        ("c", judge(100, Some(ProbeOutcome::Parsed { chars: 24 }))),
        ("python", judge(0, None)),
        ("javascript", judge(90, Some(ProbeOutcome::Parsed { chars: 31 }))),
        ("rust", judge(80, Some(ProbeOutcome::Parsed { chars: 32 }))),
        ("go", judge(70, Some(ProbeOutcome::Parsed { chars: 37 }))),
    ];
    let results = results_from(outcomes);
    assert_eq!(results.len(), 5);
    assert_eq!(results[1].outcome, Outcome::Fail { reason: FailReason::InvalidGrammar });
    for k in [0, 2, 3, 4] {
        assert!(matches!(results[k].outcome, Outcome::Pass { .. }));
    }
    assert!(!all_passed(&results));
}

#[test]
fn scenario_one_invalid_fixture_reports_tree_errors() {
    let outcomes = vec![
        ("c", judge(100, Some(ProbeOutcome::Parsed { chars: 24 }))),
        ("python", judge(95, Some(ProbeOutcome::TreeHadErrors))),
        ("go", judge(70, Some(ProbeOutcome::Parsed { chars: 37 }))),
    ];
    let results = results_from(outcomes);
    assert_eq!(results[1].outcome, Outcome::Fail { reason: FailReason::ParseTreeHasErrors });
    assert!(matches!(results[0].outcome, Outcome::Pass { .. }));
    assert!(matches!(results[2].outcome, Outcome::Pass { .. }));
    assert!(!all_passed(&results));
}

#[test]
fn all_passed_on_empty_report() {
    assert!(all_passed(&Vec::new()));
}
