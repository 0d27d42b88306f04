use vstd::prelude::*;
use vstd::string::StrSliceExecFns;
use vstd::string::StringExecFns;
use crate::metadata::{GrammarDescriptor, GrammarDescriptorView};
use crate::strutil::{push_char, str_eq};

verus! {

/// The table of grammar names whose canonical foreign-symbol spelling differs
/// irregularly from the name itself; kept as an explicit table so further
/// irregular grammars can be added beside the existing entry.
pub open spec fn special_symbol_spec(name: Seq<char>) -> Option<Seq<char>> {
    if name == "csharp"@ {
        Some("c_sharp"@)
    } else {
        None
    }
}

/// Looks a grammar name up in the irregular-spelling table.
pub fn special_symbol(name: &str) -> (r: Option<String>)
    ensures
        r is Some <==> special_symbol_spec(name@) is Some,
        r matches Some(s) ==> special_symbol_spec(name@) == Some(s@),
{
    if str_eq(name, "csharp") {
        Some(String::from_str("c_sharp"))
    } else {
        None
    }
}

/// The default symbol derivation rule: the grammar name with each internal
/// word-separator dash replaced by an underscore.
pub open spec fn transliterated_spec(name: Seq<char>) -> Seq<char> {
    Seq::new(name.len(), |i: int| if name[i] == '-' { '_' } else { name[i] })
}

/// Replaces each dash in a grammar name by an underscore.
pub fn transliterate(name: &str) -> (r: String)
    ensures
        r@ == transliterated_spec(name@),
{
    let len = name.unicode_len();
    let mut out = String::new();
    let mut i: usize = 0;
    while i < len
        invariant
            len == name@.len(),
            i <= len,
            out@ == transliterated_spec(name@).take(i as int),
        decreases len - i,
    {
        let c = name.get_char(i);
        if c == '-' {
            push_char(&mut out, '_');
        } else {
            push_char(&mut out, c);
        }
        proof {
            assert(out@ =~= transliterated_spec(name@).take(i + 1));
        }
        i = i + 1;
    }
    proof {
        assert(transliterated_spec(name@).take(len as int) =~= transliterated_spec(name@));
    }
    out
}

/// The entry-point symbol stem derived for a grammar, by precedence: an
/// explicit override from the sidecar, then the irregular-spelling table,
/// then the default dash-to-underscore rule.
pub open spec fn derived_symbol_spec(d: GrammarDescriptorView) -> Seq<char> {
    match d.symbol_override {
        Some(s) => s,
        None => match special_symbol_spec(d.name) {
            Some(s) => s,
            None => transliterated_spec(d.name),
        },
    }
}

/// Derives the foreign entry-point symbol stem for one grammar descriptor.
pub fn derive_symbol(d: &GrammarDescriptor) -> (r: String)
    ensures
        r@ == derived_symbol_spec(d@),
{
    match &d.symbol_override {
        Some(s) => s.clone(),
        None => match special_symbol(d.name.as_str()) {
            Some(s) => s,
            None => transliterate(d.name.as_str()),
        },
    }
}

/// Symbol derivation is deterministic and total: it is defined for every
/// descriptor, and equal descriptors always give the same symbol.
pub proof fn lemma_symbol_derivation_deterministic(
    d1: GrammarDescriptorView,
    d2: GrammarDescriptorView,
)
    requires
        d1 == d2,
    ensures
        derived_symbol_spec(d1) == derived_symbol_spec(d2),
{
}

} // verus!
