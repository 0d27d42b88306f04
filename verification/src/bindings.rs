use vstd::prelude::*;
use vstd::string::StringExecFns;
use crate::metadata::{descs_view, GrammarDescriptor, GrammarDescriptorView};
use crate::strutil::{to_upper, upper_spec};
use crate::symbols::{derive_symbol, derived_symbol_spec};

verus! {

// The binding generator is a small compiler pass: descriptor list in,
// generated source text out. It is a pure transform, so re-running it on
// unchanged metadata gives byte-identical output. Per grammar it emits a
// foreign-function declaration for the derived entry-point symbol, a named
// constant wrapping that entry point as a loadable language handle, one
// branch of the name-to-handle dispatch function, and one entry of the
// available-grammars listing.

/// The foreign-function declaration emitted for one derived symbol stem.
pub open spec fn decl_line_spec(sym: Seq<char>) -> Seq<char> {
    "unsafe extern \"C\" { fn tree_sitter_"@ + sym + "() -> *const (); }\n"@
}

/// The handle-constant line emitted for one grammar.
pub open spec fn const_line_spec(name: Seq<char>, sym: Seq<char>) -> Seq<char> {
    "pub const "@ + upper_spec(name)
        + "_LANGUAGE: LanguageFn = unsafe { LanguageFn::from_raw(tree_sitter_"@ + sym + ") };\n"@
}

/// The dispatch-function branch emitted for one grammar.
pub open spec fn match_line_spec(name: Seq<char>) -> Seq<char> {
    "        \""@ + name + "\" => Some("@ + upper_spec(name) + "_LANGUAGE.into()),\n"@
}

/// The listing entry emitted for one grammar.
pub open spec fn list_line_spec(name: Seq<char>) -> Seq<char> {
    "        \""@ + name + "\",\n"@
}

/// The declaration section: one foreign-function declaration per grammar.
pub open spec fn decls_spec(ds: Seq<GrammarDescriptorView>) -> Seq<char>
    decreases ds.len(),
{
    if ds.len() == 0 {
        Seq::empty()
    } else {
        decls_spec(ds.drop_last()) + decl_line_spec(derived_symbol_spec(ds.last()))
    }
}

/// The constant section: one handle constant per grammar.
pub open spec fn consts_spec(ds: Seq<GrammarDescriptorView>) -> Seq<char>
    decreases ds.len(),
{
    if ds.len() == 0 {
        Seq::empty()
    } else {
        consts_spec(ds.drop_last()) + const_line_spec(
            ds.last().name,
            derived_symbol_spec(ds.last()),
        )
    }
}

/// The dispatch branches: one per grammar, keyed by the grammar name.
pub open spec fn matches_spec(ds: Seq<GrammarDescriptorView>) -> Seq<char>
    decreases ds.len(),
{
    if ds.len() == 0 {
        Seq::empty()
    } else {
        matches_spec(ds.drop_last()) + match_line_spec(ds.last().name)
    }
}

/// The listing entries: one per grammar, in subset order.
pub open spec fn list_spec(ds: Seq<GrammarDescriptorView>) -> Seq<char>
    decreases ds.len(),
{
    if ds.len() == 0 {
        Seq::empty()
    } else {
        list_spec(ds.drop_last()) + list_line_spec(ds.last().name)
    }
}

/// The whole generated source: header, declarations, handle constants, the
/// name-to-handle dispatch function, and the available-grammars listing.
pub open spec fn generated_source_spec(ds: Seq<GrammarDescriptorView>) -> Seq<char> {
    "// Grammar bindings for the validation subset.\n\nuse tree_sitter::Language;\nuse tree_sitter_language::LanguageFn;\n\n"@
        + decls_spec(ds) + "\n"@ + consts_spec(ds) + "\n"@
        + "pub fn load_grammar(name: &str) -> Option<Language> {\n    match name {\n"@
        + matches_spec(ds) + "        _ => None,\n    }\n}\n\npub fn available_grammars() -> &'static [&'static str] {\n    &[\n"@
        + list_spec(ds) + "    ]\n}\n"@
}

fn decl_line(sym: &str) -> (r: String)
    ensures
        r@ == decl_line_spec(sym@),
{
    let mut out = String::from_str("unsafe extern \"C\" { fn tree_sitter_");
    out.append(sym);
    out.append("() -> *const (); }\n");
    out
}

fn const_line(name: &str, sym: &str) -> (r: String)
    ensures
        r@ == const_line_spec(name@, sym@),
{
    let mut out = String::from_str("pub const ");
    let upper = to_upper(name);
    out.append(upper.as_str());
    out.append("_LANGUAGE: LanguageFn = unsafe { LanguageFn::from_raw(tree_sitter_");
    out.append(sym);
    out.append(") };\n");
    out
}

fn match_line(name: &str) -> (r: String)
    ensures
        r@ == match_line_spec(name@),
{
    let mut out = String::from_str("        \"");
    out.append(name);
    out.append("\" => Some(");
    let upper = to_upper(name);
    out.append(upper.as_str());
    out.append("_LANGUAGE.into()),\n");
    out
}

fn list_line(name: &str) -> (r: String)
    ensures
        r@ == list_line_spec(name@),
{
    let mut out = String::from_str("        \"");
    out.append(name);
    out.append("\",\n");
    out
}

fn decls_section(ds: &Vec<GrammarDescriptor>) -> (r: String)
    ensures
        r@ == decls_spec(descs_view(ds@)),
{
    let mut out = String::new();
    let mut i: usize = 0;
    while i < ds.len()
        invariant
            i <= ds@.len(),
            out@ == decls_spec(descs_view(ds@).take(i as int)),
        decreases ds@.len() - i,
    {
        let sym = derive_symbol(&ds[i]);
        let line = decl_line(sym.as_str());
        out.append(line.as_str());
        proof {
            assert(descs_view(ds@).take(i + 1).drop_last() =~= descs_view(ds@).take(i as int));
            assert(descs_view(ds@).take(i + 1).last() == ds@[i as int]@);
        }
        i = i + 1;
    }
    proof {
        assert(descs_view(ds@).take(ds@.len() as int) =~= descs_view(ds@));
    }
    out
}

fn consts_section(ds: &Vec<GrammarDescriptor>) -> (r: String)
    ensures
        r@ == consts_spec(descs_view(ds@)),
{
    let mut out = String::new();
    let mut i: usize = 0;
    while i < ds.len()
        invariant
            i <= ds@.len(),
            out@ == consts_spec(descs_view(ds@).take(i as int)),
        decreases ds@.len() - i,
    {
        let sym = derive_symbol(&ds[i]);
        let line = const_line(ds[i].name.as_str(), sym.as_str());
        out.append(line.as_str());
        proof {
            assert(descs_view(ds@).take(i + 1).drop_last() =~= descs_view(ds@).take(i as int));
            assert(descs_view(ds@).take(i + 1).last() == ds@[i as int]@);
        }
        i = i + 1;
    }
    proof {
        assert(descs_view(ds@).take(ds@.len() as int) =~= descs_view(ds@));
    }
    out
}

fn matches_section(ds: &Vec<GrammarDescriptor>) -> (r: String)
    ensures
        r@ == matches_spec(descs_view(ds@)),
{
    let mut out = String::new();
    let mut i: usize = 0;
    while i < ds.len()
        invariant
            i <= ds@.len(),
            out@ == matches_spec(descs_view(ds@).take(i as int)),
        decreases ds@.len() - i,
    {
        let line = match_line(ds[i].name.as_str());
        out.append(line.as_str());
        proof {
            assert(descs_view(ds@).take(i + 1).drop_last() =~= descs_view(ds@).take(i as int));
            assert(descs_view(ds@).take(i + 1).last() == ds@[i as int]@);
        }
        i = i + 1;
    }
    proof {
        assert(descs_view(ds@).take(ds@.len() as int) =~= descs_view(ds@));
    }
    out
}

fn list_section(ds: &Vec<GrammarDescriptor>) -> (r: String)
    ensures
        r@ == list_spec(descs_view(ds@)),
{
    let mut out = String::new();
    let mut i: usize = 0;
    while i < ds.len()
        invariant
            i <= ds@.len(),
            out@ == list_spec(descs_view(ds@).take(i as int)),
        decreases ds@.len() - i,
    {
        let line = list_line(ds[i].name.as_str());
        out.append(line.as_str());
        proof {
            assert(descs_view(ds@).take(i + 1).drop_last() =~= descs_view(ds@).take(i as int));
            assert(descs_view(ds@).take(i + 1).last() == ds@[i as int]@);
        }
        i = i + 1;
    }
    proof {
        assert(descs_view(ds@).take(ds@.len() as int) =~= descs_view(ds@));
    }
    out
}

/// Generates the binding source for the given descriptors. The output is a
/// pure function of the descriptor list, byte for byte.
pub fn generate_bindings(ds: &Vec<GrammarDescriptor>) -> (r: String)
    ensures
        r@ == generated_source_spec(descs_view(ds@)),
{
    let mut out = String::from_str(
        "// Grammar bindings for the validation subset.\n\nuse tree_sitter::Language;\nuse tree_sitter_language::LanguageFn;\n\n",
    );
    let decls = decls_section(ds);
    out.append(decls.as_str());
    out.append("\n");
    let consts = consts_section(ds);
    out.append(consts.as_str());
    out.append("\n");
    out.append("pub fn load_grammar(name: &str) -> Option<Language> {\n    match name {\n");
    let branches = matches_section(ds);
    out.append(branches.as_str());
    out.append(
        "        _ => None,\n    }\n}\n\npub fn available_grammars() -> &'static [&'static str] {\n    &[\n",
    );
    let listing = list_section(ds);
    out.append(listing.as_str());
    out.append("    ]\n}\n");
    proof {
        assert(out@ =~= generated_source_spec(descs_view(ds@)));
    }
    out
}

/// Re-running the generator on unchanged metadata produces byte-identical
/// source: the generated text is a function of the descriptor list alone.
pub proof fn lemma_generator_idempotent(
    d1: Seq<GrammarDescriptorView>,
    d2: Seq<GrammarDescriptorView>,
)
    requires
        d1 == d2,
    ensures
        generated_source_spec(d1) == generated_source_spec(d2),
{
}

} // verus!
