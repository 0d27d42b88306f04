use grammar_validation::errors::BuildError;
use grammar_validation::metadata::{filter_validation_subset, GrammarDescriptor};
use grammar_validation::sidecar::{load_descriptors, parse_metadata};

fn desc(name: &str, over: Option<&str>) -> GrammarDescriptor {
    GrammarDescriptor { name: name.to_string(), symbol_override: over.map(|s| s.to_string()) }
}

#[test]
fn parse_empty_array() {
    let r = parse_metadata("[]").unwrap();
    assert!(r.is_empty());
    let r = parse_metadata("  [\n]\t").unwrap();
    assert!(r.is_empty());
}

#[test]
fn parse_single_object() {
    let r = parse_metadata("[{\"name\": \"go\"}]").unwrap();
    assert_eq!(r, vec![desc("go", None)]);
}

#[test]
fn parse_object_with_override() {
    let r = parse_metadata("[{\"name\": \"c\", \"symbol_name\": \"c\"}]").unwrap();
    assert_eq!(r, vec![desc("c", Some("c"))]);
}

#[test]
fn parse_preserves_source_order() {
    let text = "[ {\"name\":\"c\"}, {\"name\":\"python\"}, {\"name\":\"rust\"} ]";
    let r = parse_metadata(text).unwrap();
    let names: Vec<&str> = r.iter().map(|d| d.name.as_str()).collect();
    assert_eq!(names, vec!["c", "python", "rust"]);
}

#[test]
fn parse_ignores_unknown_string_fields() {
    let r = parse_metadata("[{\"version\": \"1.0\", \"name\": \"go\"}]").unwrap();
    assert_eq!(r, vec![desc("go", None)]);
}

#[test]
fn parse_decodes_escapes() {
    let r = parse_metadata("[{\"name\": \"a\\\"b\\\\c\\n\"}]").unwrap();
    assert_eq!(r[0].name, "a\"b\\c\n");
}

#[test]
fn parse_later_duplicate_key_wins() {
    let r = parse_metadata("[{\"name\": \"c\", \"name\": \"go\"}]").unwrap();
    assert_eq!(r, vec![desc("go", None)]);
}

#[test]
fn parse_rejects_missing_name() {
    let r = parse_metadata("[{\"symbol_name\": \"c\"}]");
    assert_eq!(r, Err(BuildError::MetadataParseError));
}

#[test]
fn parse_rejects_malformed_text() {
    for bad in [
        "",
        "   ",
        "{}",
        "[",
        "[{]",
        "[{\"name\" \"c\"}]",
        "[{\"name\": \"c\"},]",
        "[{\"name\": \"c\"}] x",
        "[{\"name\": \"c\"]",
        "[{\"name\": \"unterminated}]",
        "[{\"name\": \"bad\\u0041escape\"}]",
    ] {
        assert_eq!(parse_metadata(bad), Err(BuildError::MetadataParseError), "input: {bad:?}");
    }
}

#[test]
fn absent_sidecar_is_fatal() {
    assert_eq!(load_descriptors(None), Err(BuildError::MetadataMissing));
}

#[test]
fn present_sidecar_is_parsed() {
    let r = load_descriptors(Some("[{\"name\": \"go\"}]")).unwrap();
    assert_eq!(r, vec![desc("go", None)]);
    assert_eq!(load_descriptors(Some("nonsense")), Err(BuildError::MetadataParseError));
}

#[test]
fn filter_keeps_subset_in_order() {
    let all = vec![
        desc("bash", None),
        desc("python", None),
        desc("csharp", None),
        desc("c", Some("c")),
        desc("go", None),
    ];
    let r = filter_validation_subset(all);
    let names: Vec<&str> = r.iter().map(|d| d.name.as_str()).collect();
    assert_eq!(names, vec!["python", "c", "go"]);
    assert_eq!(r[1].symbol_override.as_deref(), Some("c"));
}

#[test]
fn filter_of_empty_is_empty() {
    assert!(filter_validation_subset(Vec::new()).is_empty());
}
