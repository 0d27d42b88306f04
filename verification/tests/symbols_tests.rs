use grammar_validation::metadata::GrammarDescriptor;
use grammar_validation::symbols::{derive_symbol, special_symbol, transliterate};

fn desc(name: &str, over: Option<&str>) -> GrammarDescriptor {
    GrammarDescriptor { name: name.to_string(), symbol_override: over.map(|s| s.to_string()) }
}

#[test]
fn special_case_supersedes_transliteration() {
    assert_eq!(derive_symbol(&desc("csharp", None)), "c_sharp");
}

#[test]
fn override_is_used_verbatim() {
    assert_eq!(derive_symbol(&desc("c", Some("c"))), "c");
    assert_eq!(derive_symbol(&desc("csharp", Some("custom_symbol"))), "custom_symbol");
}

#[test]
fn name_without_separators_is_unchanged() {
    assert_eq!(derive_symbol(&desc("go", None)), "go");
    assert_eq!(derive_symbol(&desc("python", None)), "python");
}

#[test]
fn dashes_become_underscores() {
    assert_eq!(derive_symbol(&desc("embedded-template", None)), "embedded_template");
    assert_eq!(transliterate("a-b-c"), "a_b_c");
    assert_eq!(transliterate(""), "");
}

#[test]
fn special_symbol_table() {
    assert_eq!(special_symbol("csharp"), Some("c_sharp".to_string()));
    assert_eq!(special_symbol("go"), None);
}

#[test]
fn derivation_is_deterministic() {
    let d = desc("embedded-template", None);
    assert_eq!(derive_symbol(&d), derive_symbol(&d));
}
