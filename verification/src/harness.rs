use vstd::prelude::*;
use vstd::string::StrSliceExecFns;
use vstd::string::StringExecFns;
use crate::engine::{
    new_parser, node_has_error, node_kind_count, parse_text, root_node, set_parser_language,
};
use crate::registry::Registry;
use crate::strutil::{pairs_view, str_eq};

verus! {

// The grammar harness. Per grammar the state machine is: look the name up in
// the registry, check the grammar's node-kind count, and -- when a sample
// fixture exists for the name -- parse the fixture and inspect the tree. All
// failure modes become a `Fail` outcome with a specific reason; nothing
// aborts the run, so one report shows every broken grammar at once.

/// Why one grammar failed validation.
#[derive(Clone, Copy, PartialEq, Eq, Structural, Debug)]
pub enum FailReason {
    /// The name did not resolve through the registry.
    GrammarNotLoaded,
    /// The grammar resolved but defines no node kinds: a corrupted or stub
    /// build.
    InvalidGrammar,
    /// A parser could not be bound to the grammar.
    LanguageBindingError,
    /// The parser produced no tree at all for the fixture.
    ParseAborted,
    /// The fixture's parse tree contains a syntax error node.
    ParseTreeHasErrors,
}

/// The terminal state of one grammar's validation.
#[derive(Clone, Copy, PartialEq, Eq, Debug)]
pub enum Outcome {
    /// The grammar is healthy: its node-kind count, and the number of
    /// characters parsed when a fixture probe ran.
    Pass { node_kinds: usize, parsed_chars: Option<usize> },
    /// The grammar is broken, for the given reason.
    Fail { reason: FailReason },
}

/// What the parse probe of one grammar observed.
#[derive(Clone, Copy, PartialEq, Eq, Structural, Debug)]
pub enum ProbeOutcome {
    /// The parser refused the grammar handle.
    BindFailed,
    /// Parsing yielded no tree at all.
    Aborted,
    /// The tree contains a syntax error node.
    TreeHadErrors,
    /// An error-free tree, for a fixture of this many characters.
    Parsed { chars: usize },
}

/// The outcome for one grammar, given its observed node-kind count and --
/// when a fixture was probed -- the probe's outcome. The sanity check comes
/// first: a grammar with no node kinds is broken whatever a probe would say.
pub open spec fn judge_spec(node_kinds: usize, probe: Option<ProbeOutcome>) -> Outcome {
    if node_kinds == 0 {
        Outcome::Fail { reason: FailReason::InvalidGrammar }
    } else {
        match probe {
            None => Outcome::Pass { node_kinds, parsed_chars: None },
            Some(ProbeOutcome::BindFailed) => Outcome::Fail {
                reason: FailReason::LanguageBindingError,
            },
            Some(ProbeOutcome::Aborted) => Outcome::Fail { reason: FailReason::ParseAborted },
            Some(ProbeOutcome::TreeHadErrors) => Outcome::Fail {
                reason: FailReason::ParseTreeHasErrors,
            },
            Some(ProbeOutcome::Parsed { chars }) => Outcome::Pass {
                node_kinds,
                parsed_chars: Some(chars),
            },
        }
    }
}

/// Judges one grammar from its observations.
pub fn judge(node_kinds: usize, probe: Option<ProbeOutcome>) -> (r: Outcome)
    ensures
        r == judge_spec(node_kinds, probe),
{
    if node_kinds == 0 {
        Outcome::Fail { reason: FailReason::InvalidGrammar }
    } else {
        match probe {
            None => Outcome::Pass { node_kinds, parsed_chars: None },
            Some(ProbeOutcome::BindFailed) => Outcome::Fail {
                reason: FailReason::LanguageBindingError,
            },
            Some(ProbeOutcome::Aborted) => Outcome::Fail { reason: FailReason::ParseAborted },
            Some(ProbeOutcome::TreeHadErrors) => Outcome::Fail {
                reason: FailReason::ParseTreeHasErrors,
            },
            Some(ProbeOutcome::Parsed { chars }) => Outcome::Pass {
                node_kinds,
                parsed_chars: Some(chars),
            },
        }
    }
}

/// First-match lookup of a grammar's sample fixture.
pub open spec fn fixture_lookup_spec(fs: Seq<(Seq<char>, Seq<char>)>, name: Seq<char>) -> Option<
    Seq<char>,
>
    decreases fs.len(),
{
    if fs.len() == 0 {
        None
    } else if fs.first().0 == name {
        Some(fs.first().1)
    } else {
        fixture_lookup_spec(fs.drop_first(), name)
    }
}

/// Finds the sample fixture for a grammar name, if the table has one.
pub fn fixture_for(fixtures: &Vec<(String, String)>, name: &str) -> (r: Option<String>)
    ensures
        r is Some <==> fixture_lookup_spec(pairs_view(fixtures@), name@) is Some,
        r matches Some(code) ==> fixture_lookup_spec(pairs_view(fixtures@), name@) == Some(code@),
{
    let mut i: usize = 0;
    proof {
        assert(pairs_view(fixtures@).skip(0) =~= pairs_view(fixtures@));
    }
    while i < fixtures.len()
        invariant
            i <= fixtures@.len(),
            fixture_lookup_spec(pairs_view(fixtures@), name@) == fixture_lookup_spec(
                pairs_view(fixtures@).skip(i as int),
                name@,
            ),
        decreases fixtures@.len() - i,
    {
        proof {
            assert(pairs_view(fixtures@).skip(i as int).first() == (
                fixtures@[i as int].0@,
                fixtures@[i as int].1@,
            ));
            assert(pairs_view(fixtures@).skip(i as int).drop_first() =~= pairs_view(
                fixtures@,
            ).skip(i + 1));
        }
        if str_eq(fixtures[i].0.as_str(), name) {
            return Some(fixtures[i].1.clone());
        }
        i = i + 1;
    }
    proof {
        assert(pairs_view(fixtures@).skip(fixtures@.len() as int) =~= Seq::<
            (Seq<char>, Seq<char>),
        >::empty());
    }
    None
}

/// The fixed table of sample sources, one per well-known language of the
/// validation subset, each syntactically valid in its language.
pub open spec fn default_fixtures_spec() -> Seq<(Seq<char>, Seq<char>)> {
    seq![
        ("c"@, "int main() { return 0; }"@),
        ("python"@, "def hello():\n    pass"@),
        ("javascript"@, "function hello() { return 42; }"@),
        ("rust"@, "fn main() { println!(\"Hello\"); }"@),
        ("go"@, "func main() { fmt.Println(\"Hello\") }"@),
    ]
}

/// Builds the fixed fixture table.
pub fn default_fixtures() -> (r: Vec<(String, String)>)
    ensures
        pairs_view(r@) == default_fixtures_spec(),
{
    let mut out: Vec<(String, String)> = Vec::new();
    out.push((String::from_str("c"), String::from_str("int main() { return 0; }")));
    out.push((String::from_str("python"), String::from_str("def hello():\n    pass")));
    out.push(
        (String::from_str("javascript"), String::from_str("function hello() { return 42; }")),
    );
    out.push((String::from_str("rust"), String::from_str("fn main() { println!(\"Hello\"); }")));
    out.push(
        (String::from_str("go"), String::from_str("func main() { fmt.Println(\"Hello\") }")),
    );
    proof {
        assert(pairs_view(out@) =~= default_fixtures_spec());
    }
    out
}

/// Probes one grammar with a sample source: binds a fresh parser to it,
/// parses the sample, and inspects the tree for syntax errors. Which arm
/// comes back depends on the opaque grammar handle; what is guaranteed is
/// that a successful parse reports the fixture's own length.
pub fn run_probe(language: &tree_sitter::Language, code: &str) -> (r: ProbeOutcome)
    ensures
        r matches ProbeOutcome::Parsed { chars } ==> chars == code@.len(),
{
    let mut parser = new_parser();
    match set_parser_language(&mut parser, language) {
        Err(_) => ProbeOutcome::BindFailed,
        Ok(()) => match parse_text(&mut parser, code) {
            None => ProbeOutcome::Aborted,
            Some(tree) => {
                let root = root_node(&tree);
                if node_has_error(&root) {
                    ProbeOutcome::TreeHadErrors
                } else {
                    ProbeOutcome::Parsed { chars: code.unicode_len() }
                }
            },
        },
    }
}

/// Everything the harness can promise of one grammar's outcome, whatever the
/// engine reported: an unresolvable name gives exactly `GrammarNotLoaded`; a
/// resolved grammar never does; a grammar without a fixture can only pass on
/// sanity alone or fail sanity; and a pass records a positive node-kind
/// count and the probed fixture's length.
pub open spec fn outcome_wf(found: bool, fixture: Option<Seq<char>>, r: Outcome) -> bool {
    if !found {
        r == (Outcome::Fail { reason: FailReason::GrammarNotLoaded })
    } else {
        match r {
            Outcome::Pass { node_kinds, parsed_chars } => {
                &&& node_kinds > 0
                &&& (match fixture {
                    None => parsed_chars is None,
                    Some(code) => parsed_chars matches Some(n) && n == code.len(),
                })
            },
            Outcome::Fail { reason } => {
                &&& reason != FailReason::GrammarNotLoaded
                &&& (fixture is None ==> reason == FailReason::InvalidGrammar)
            },
        }
    }
}

/// Validates one grammar: resolves it through the registry, checks its
/// node-kind count, and probes its fixture when the table has one.
pub fn test_language(
    registry: &Registry<tree_sitter::Language>,
    lang_name: &str,
    fixtures: &Vec<(String, String)>,
) -> (r: Outcome)
    ensures
        outcome_wf(
            registry.lookup_spec(lang_name@) is Some,
            fixture_lookup_spec(pairs_view(fixtures@), lang_name@),
            r,
        ),
{
    match registry.load_grammar(lang_name) {
        None => Outcome::Fail { reason: FailReason::GrammarNotLoaded },
        Some(language) => {
            let nk = node_kind_count(language);
            if nk == 0 {
                judge(nk, None)
            } else {
                match fixture_for(fixtures, lang_name) {
                    None => judge(nk, None),
                    Some(code) => {
                        let p = run_probe(language, code.as_str());
                        judge(nk, Some(p))
                    },
                }
            }
        },
    }
}

/// One grammar's validation record.
pub struct ValidationResult {
    pub grammar_name: String,
    pub outcome: Outcome,
}

/// Validates every advertised grammar, in registry order, never stopping at
/// a failure: the report covers all grammars. No outcome can be
/// `GrammarNotLoaded`, since only advertised names are looked up.
pub fn run_validation(
    registry: &Registry<tree_sitter::Language>,
    fixtures: &Vec<(String, String)>,
) -> (r: Vec<ValidationResult>)
    ensures
        r@.len() == registry.names_spec().len(),
        forall|k: int|
            0 <= k < r@.len() ==> {
                &&& (#[trigger] r@[k]).grammar_name@ == registry.names_spec()[k]
                &&& outcome_wf(
                    true,
                    fixture_lookup_spec(pairs_view(fixtures@), registry.names_spec()[k]),
                    r@[k].outcome,
                )
            },
{
    let names = registry.available_grammars();
    let mut out: Vec<ValidationResult> = Vec::new();
    let mut i: usize = 0;
    while i < names.len()
        invariant
            i <= names@.len(),
            names@.len() == registry.names_spec().len(),
            forall|k: int| 0 <= k < names@.len() ==> names@[k]@ == registry.names_spec()[k],
            out@.len() == i,
            forall|k: int|
                0 <= k < i ==> {
                    &&& (#[trigger] out@[k]).grammar_name@ == registry.names_spec()[k]
                    &&& outcome_wf(
                        true,
                        fixture_lookup_spec(pairs_view(fixtures@), registry.names_spec()[k]),
                        out@[k].outcome,
                    )
                },
        decreases names@.len() - i,
    {
        let name = &names[i];
        proof {
            assert(registry.names_spec()[i as int] == names@[i as int]@);
            assert(registry.names_spec().contains(names@[i as int]@));
            registry.lemma_round_trip(names@[i as int]@);
        }
        let outcome = test_language(registry, name.as_str(), fixtures);
        out.push(ValidationResult { grammar_name: name.clone(), outcome });
        i = i + 1;
    }
    out
}

/// Whether every grammar's outcome is a pass.
pub open spec fn all_passed_spec(rs: Seq<ValidationResult>) -> bool {
    forall|k: int| 0 <= k < rs.len() ==> (#[trigger] rs[k]).outcome is Pass
}

/// The overall result: pass exactly when every grammar reports a
/// pass. The surrounding tooling maps it to the process exit status.
pub fn all_passed(results: &Vec<ValidationResult>) -> (r: bool)
    ensures
        r == all_passed_spec(results@),
{
    let mut i: usize = 0;
    while i < results.len()
        invariant
            i <= results@.len(),
            forall|k: int| 0 <= k < i ==> (#[trigger] results@[k]).outcome is Pass,
        decreases results@.len() - i,
    {
        match results[i].outcome {
            Outcome::Pass { .. } => {},
            Outcome::Fail { .. } => {
                proof {
                    assert(!((results@[i as int]).outcome is Pass));
                }
                return false;
            },
        }
        i = i + 1;
    }
    true
}

} // verus!
