use vstd::prelude::*;
use vstd::string::StrSliceExecFns;
use vstd::string::StringExecFns;
use crate::strutil::str_eq;

verus! {

/// One grammar baked into the archive, as described by the metadata sidecar:
/// its unique lowercase name, and an optional override for the foreign symbol
/// when the conventional derivation does not apply.
#[derive(Debug, PartialEq, Eq)]
pub struct GrammarDescriptor {
    pub name: String,
    pub symbol_override: Option<String>,
}

/// The mathematical content of a [`GrammarDescriptor`].
pub struct GrammarDescriptorView {
    pub name: Seq<char>,
    pub symbol_override: Option<Seq<char>>,
}

impl GrammarDescriptor {
    /// A field-by-field copy whose mathematical content equals the original's.
    pub fn duplicate(&self) -> (r: GrammarDescriptor)
        ensures
            r@ == self@,
    {
        GrammarDescriptor {
            name: self.name.clone(),
            symbol_override: match &self.symbol_override {
                Some(s) => Some(s.clone()),
                None => None,
            },
        }
    }
}

impl View for GrammarDescriptor {
    type V = GrammarDescriptorView;

    open spec fn view(&self) -> GrammarDescriptorView {
        GrammarDescriptorView {
            name: self.name@,
            symbol_override: match self.symbol_override {
                Some(s) => Some(s@),
                None => None,
            },
        }
    }
}

/// The views of a sequence of descriptors.
pub open spec fn descs_view(ds: Seq<GrammarDescriptor>) -> Seq<GrammarDescriptorView> {
    ds.map_values(|d: GrammarDescriptor| d@)
}

/// The fixed allow-list of grammar names actually exercised by the harness:
/// small for speed, spread over syntactically distinct language families.
pub open spec fn validation_subset() -> Seq<Seq<char>> {
    seq!["c"@, "python"@, "javascript"@, "rust"@, "go"@]
}

pub open spec fn in_validation_subset(name: Seq<char>) -> bool {
    validation_subset().contains(name)
}

/// Whether a grammar name is in the validation subset.
pub fn name_in_validation_subset(name: &str) -> (r: bool)
    ensures
        r == in_validation_subset(name@),
{
    let r = str_eq(name, "c") || str_eq(name, "python") || str_eq(name, "javascript")
        || str_eq(name, "rust") || str_eq(name, "go");
    proof {
        if r {
            assert(validation_subset().contains(name@));
        } else {
            assert(forall|i: int|
                0 <= i < validation_subset().len() ==> validation_subset()[i] != name@);
        }
    }
    r
}

/// Order-preserving selection of the descriptors whose name is in the
/// validation subset.
pub open spec fn filter_subset_spec(ds: Seq<GrammarDescriptorView>) -> Seq<GrammarDescriptorView>
    decreases ds.len(),
{
    if ds.len() == 0 {
        Seq::empty()
    } else {
        let rest = filter_subset_spec(ds.drop_last());
        if in_validation_subset(ds.last().name) {
            rest.push(ds.last())
        } else {
            rest
        }
    }
}

/// Filters the full grammar list down to the validation subset, preserving
/// the sidecar's order.
pub fn filter_validation_subset(ds: Vec<GrammarDescriptor>) -> (r: Vec<GrammarDescriptor>)
    ensures
        descs_view(r@) == filter_subset_spec(descs_view(ds@)),
{
    let mut out: Vec<GrammarDescriptor> = Vec::new();
    let mut i: usize = 0;
    while i < ds.len()
        invariant
            i <= ds@.len(),
            descs_view(out@) == filter_subset_spec(descs_view(ds@.take(i as int))),
        decreases ds@.len() - i,
    {
        let d = ds[i].duplicate();
        proof {
            assert(descs_view(ds@.take(i + 1)).drop_last() =~= descs_view(ds@.take(i as int)));
            assert(descs_view(ds@.take(i + 1)).last() == ds@[i as int]@);
        }
        if name_in_validation_subset(d.name.as_str()) {
            out.push(d);
            proof {
                assert(d@ == ds@[i as int]@);
                assert(descs_view(out@) =~= filter_subset_spec(descs_view(ds@.take(i + 1))));
            }
        } else {
            proof {
                assert(d@ == ds@[i as int]@);
                assert(descs_view(out@) =~= filter_subset_spec(descs_view(ds@.take(i + 1))));
            }
        }
        i = i + 1;
    }
    proof {
        assert(ds@.take(ds@.len() as int) =~= ds@);
    }
    out
}

/// Whether `s` begins with `p`.
pub fn has_prefix(s: &str, p: &str) -> (r: bool)
    ensures
        r == (s@.len() >= p@.len() && s@.take(p@.len() as int) == p@),
{
    let ls = s.unicode_len();
    let lp = p.unicode_len();
    if ls < lp {
        return false;
    }
    let mut i: usize = 0;
    while i < lp
        invariant
            ls == s@.len(),
            lp == p@.len(),
            lp <= ls,
            i <= lp,
            forall|j: int| 0 <= j < i ==> s@[j] == p@[j],
        decreases lp - i,
    {
        if s.get_char(i) != p.get_char(i) {
            proof {
                assert(s@.take(p@.len() as int)[i as int] != p@[i as int]);
            }
            return false;
        }
        i = i + 1;
    }
    proof {
        assert(s@.take(p@.len() as int) =~= p@);
    }
    true
}

/// Whether `s` ends with `p`.
pub fn has_suffix(s: &str, p: &str) -> (r: bool)
    ensures
        r == (s@.len() >= p@.len() && s@.skip(s@.len() - p@.len()) == p@),
{
    let ls = s.unicode_len();
    let lp = p.unicode_len();
    if ls < lp {
        return false;
    }
    let base = ls - lp;
    let mut i: usize = 0;
    while i < lp
        invariant
            ls == s@.len(),
            lp == p@.len(),
            lp <= ls,
            base == ls - lp,
            i <= lp,
            forall|j: int| 0 <= j < i ==> s@[base + j] == p@[j],
        decreases lp - i,
    {
        if s.get_char(base + i) != p.get_char(i) {
            proof {
                assert(s@.skip(s@.len() - p@.len())[i as int] != p@[i as int]);
            }
            return false;
        }
        i = i + 1;
    }
    proof {
        assert(s@.skip(s@.len() - p@.len()) =~= p@);
    }
    true
}

/// The fixed filename transformation from archive to metadata sidecar: the
/// archive naming prefix becomes the metadata naming prefix and the archive
/// extension becomes the metadata extension. Undefined (`None`) for a
/// filename that does not follow the archive naming convention.
pub open spec fn metadata_filename_spec(archive: Seq<char>) -> Option<Seq<char>> {
    let prefix = "libtree-sitter-parsers-all-"@;
    let suffix = ".a"@;
    if archive.len() >= prefix.len() + suffix.len() && archive.take(prefix.len() as int) == prefix
        && archive.skip(archive.len() - suffix.len()) == suffix {
        Some("grammars-"@ + archive.subrange(prefix.len() as int, archive.len() - suffix.len())
            + ".json"@)
    } else {
        None
    }
}

/// Derives the metadata sidecar filename from an archive filename.
pub fn metadata_filename_for(archive: &str) -> (r: Option<String>)
    ensures
        r is Some <==> metadata_filename_spec(archive@) is Some,
        r matches Some(f) ==> metadata_filename_spec(archive@) == Some(f@),
{
    let prefix = "libtree-sitter-parsers-all-";
    let suffix = ".a";
    let la = archive.unicode_len();
    let lp = prefix.unicode_len();
    let ls = suffix.unicode_len();
    proof {
        reveal_strlit("libtree-sitter-parsers-all-");
        reveal_strlit(".a");
        assert(lp == 27);
        assert(ls == 2);
    }
    if la < lp + ls || !has_prefix(archive, prefix) || !has_suffix(archive, suffix) {
        return None;
    }
    let core = archive.substring_char(lp, la - ls);
    let mut out = String::from_str("grammars-");
    out.append(core);
    out.append(".json");
    Some(out)
}

} // verus!
