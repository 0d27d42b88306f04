use grammar_validation::bindings::generate_bindings;
use grammar_validation::metadata::GrammarDescriptor;

fn desc(name: &str, over: Option<&str>) -> GrammarDescriptor {
    GrammarDescriptor { name: name.to_string(), symbol_override: over.map(|s| s.to_string()) }
}

#[test]
fn generated_source_exact() {
    let ds = vec![desc("c", Some("c")), desc("go", None)];
    let out = generate_bindings(&ds);
    let expected = [
        "// Grammar bindings for the validation subset.\n",
        "\n",
        "use tree_sitter::Language;\n",
        "use tree_sitter_language::LanguageFn;\n",
        "\n",
        "unsafe extern \"C\" { fn tree_sitter_c() -> *const (); }\n",
        "unsafe extern \"C\" { fn tree_sitter_go() -> *const (); }\n",
        "\n",
        "pub const C_LANGUAGE: LanguageFn = unsafe { LanguageFn::from_raw(tree_sitter_c) };\n",
        "pub const GO_LANGUAGE: LanguageFn = unsafe { LanguageFn::from_raw(tree_sitter_go) };\n",
        "\n",
        "pub fn load_grammar(name: &str) -> Option<Language> {\n",
        "    match name {\n",
        "        \"c\" => Some(C_LANGUAGE.into()),\n",
        "        \"go\" => Some(GO_LANGUAGE.into()),\n",
        "        _ => None,\n",
        "    }\n",
        "}\n",
        "\n",
        "pub fn available_grammars() -> &'static [&'static str] {\n",
        "    &[\n",
        "        \"c\",\n",
        "        \"go\",\n",
        "    ]\n",
        "}\n",
    ]
    .concat();
    assert_eq!(out, expected);
}

#[test]
fn generator_is_idempotent() {
    let ds = vec![
        desc("c", Some("c")),
        desc("python", None),
        desc("javascript", None),
        desc("rust", None),
        desc("go", None),
    ];
    let first = generate_bindings(&ds);
    let second = generate_bindings(&ds);
    assert_eq!(first.as_bytes(), second.as_bytes());
}

#[test]
fn generator_uses_special_case_and_transliteration() {
    let ds = vec![desc("csharp", None), desc("embedded-template", None)];
    let out = generate_bindings(&ds);
    assert!(out.contains("fn tree_sitter_c_sharp()"));
    assert!(out.contains("fn tree_sitter_embedded_template()"));
    assert!(out.contains("CSHARP_LANGUAGE"));
    assert!(out.contains("        \"csharp\",\n"));
}

#[test]
fn generator_lists_every_grammar() {
    let ds = vec![desc("c", None), desc("python", None), desc("go", None)];
    let out = generate_bindings(&ds);
    for name in ["c", "python", "go"] {
        assert!(out.contains(&format!("        \"{name}\",\n")));
        assert!(out.contains(&format!("        \"{name}\" => Some(")));
    }
}

#[test]
fn generator_of_empty_list() {
    let out = generate_bindings(&Vec::new());
    assert!(out.contains("load_grammar"));
    assert!(out.contains("available_grammars"));
    assert!(!out.contains("fn tree_sitter_"));
    let again = generate_bindings(&Vec::new());
    assert_eq!(out, again);
}
