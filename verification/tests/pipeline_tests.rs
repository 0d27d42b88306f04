use grammar_validation::bindings::generate_bindings;
use grammar_validation::harness::{all_passed, judge, ProbeOutcome, ValidationResult};
use grammar_validation::metadata::filter_validation_subset;
use grammar_validation::registry::Registry;
use grammar_validation::sidecar::parse_metadata;

// The build-time pipeline on a sidecar that lists more grammars than the
// validation subset: parse, filter, generate, and exercise the registry the
// generated dispatch stands for.
#[test]
fn build_pipeline_end_to_end() {
    let sidecar = "[\n  {\"name\": \"bash\"},\n  {\"name\": \"c\", \"symbol_name\": \"c\"},\n  {\"name\": \"python\"},\n  {\"name\": \"csharp\"},\n  {\"name\": \"javascript\"},\n  {\"name\": \"rust\"},\n  {\"name\": \"go\"}\n]\n";
    let all = parse_metadata(sidecar).unwrap();
    assert_eq!(all.len(), 7);
    let subset = filter_validation_subset(all);
    let names: Vec<&str> = subset.iter().map(|d| d.name.as_str()).collect();
    assert_eq!(names, vec!["c", "python", "javascript", "rust", "go"]);

    let source = generate_bindings(&subset);
    let source_again = generate_bindings(&subset);
    assert_eq!(source, source_again);
    for name in &names {
        assert!(source.contains(&format!("        \"{name}\" => Some(")));
        assert!(source.contains(&format!("        \"{name}\",\n")));
    }

    let entries: Vec<(String, u32)> =
        names.iter().enumerate().map(|(i, n)| (n.to_string(), i as u32)).collect();
    let registry = Registry::new(entries);
    let advertised = registry.available_grammars();
    assert_eq!(advertised.len(), 5);
    for name in &advertised {
        assert!(registry.load_grammar(name).is_some());
    }

    let results: Vec<ValidationResult> = advertised
        .iter()
        .map(|n| ValidationResult {
            grammar_name: n.clone(),
            outcome: judge(42, Some(ProbeOutcome::Parsed { chars: 10 })),
        })
        .collect();
    assert!(all_passed(&results));
}
