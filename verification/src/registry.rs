use vstd::prelude::*;
use crate::strutil::str_eq;

verus! {

// The generated bindings amount to a name-to-handle table plus a listing of
// names. The harness consumes them as an explicitly constructed immutable
// registry, so the lookup logic is verified once, over any handle type, and
// is testable in isolation with a synthetic registry.

/// An immutable registry of grammar handles keyed by grammar name, in the
/// order the binding generator emitted them.
pub struct Registry<H> {
    pub entries: Vec<(String, H)>,
}

/// First-match lookup among name-handle pairs, as a dispatch `match` over
/// the names resolves them.
pub open spec fn lookup_in<H>(es: Seq<(Seq<char>, H)>, name: Seq<char>) -> Option<H>
    decreases es.len(),
{
    if es.len() == 0 {
        None
    } else if es.first().0 == name {
        Some(es.first().1)
    } else {
        lookup_in(es.drop_first(), name)
    }
}

pub proof fn lemma_lookup_in_contains<H>(es: Seq<(Seq<char>, H)>, name: Seq<char>)
    ensures
        lookup_in(es, name) is Some <==> es.map_values(|e: (Seq<char>, H)| e.0).contains(name),
    decreases es.len(),
{
    let names = es.map_values(|e: (Seq<char>, H)| e.0);
    if es.len() == 0 {
    } else if es.first().0 == name {
        assert(names[0] == name);
        assert(names.contains(name));
    } else {
        lemma_lookup_in_contains(es.drop_first(), name);
        let rest_names = es.drop_first().map_values(|e: (Seq<char>, H)| e.0);
        if names.contains(name) {
            let i = choose|i: int| 0 <= i < names.len() && names[i] == name;
            assert(i != 0);
            assert(rest_names[i - 1] == name);
            assert(rest_names.contains(name));
        }
        if rest_names.contains(name) {
            let j = choose|j: int| 0 <= j < rest_names.len() && rest_names[j] == name;
            assert(names[j + 1] == name);
            assert(names.contains(name));
        }
    }
}

impl<H> Registry<H> {
    /// The registry's name-handle pairs, mathematically.
    pub open spec fn entries_view(&self) -> Seq<(Seq<char>, H)> {
        self.entries@.map_values(|e: (String, H)| (e.0@, e.1))
    }

    /// The advertised grammar names, in registry order.
    pub open spec fn names_spec(&self) -> Seq<Seq<char>> {
        self.entries_view().map_values(|e: (Seq<char>, H)| e.0)
    }

    /// The handle a name resolves to, if any.
    pub open spec fn lookup_spec(&self, name: Seq<char>) -> Option<H> {
        lookup_in(self.entries_view(), name)
    }

    /// Builds the registry from name-handle pairs in generator order.
    pub fn new(entries: Vec<(String, H)>) -> (r: Registry<H>)
        ensures
            r.entries_view() == entries@.map_values(|e: (String, H)| (e.0@, e.1)),
    {
        Registry { entries }
    }

    /// Resolves a grammar name to its handle; an unknown name gives an empty
    /// result, never an error.
    pub fn load_grammar(&self, name: &str) -> (r: Option<&H>)
        ensures
            r is Some <==> self.lookup_spec(name@) is Some,
            r matches Some(h) ==> self.lookup_spec(name@) == Some(*h),
    {
        let mut i: usize = 0;
        proof {
            assert(self.entries_view().skip(0) =~= self.entries_view());
        }
        while i < self.entries.len()
            invariant
                i <= self.entries@.len(),
                lookup_in(self.entries_view(), name@) == lookup_in(
                    self.entries_view().skip(i as int),
                    name@,
                ),
            decreases self.entries@.len() - i,
        {
            proof {
                assert(self.entries_view().skip(i as int).first() == (
                    self.entries@[i as int].0@,
                    self.entries@[i as int].1,
                ));
                assert(self.entries_view().skip(i as int).drop_first() =~= self.entries_view().skip(
                    i + 1,
                ));
            }
            if str_eq(self.entries[i].0.as_str(), name) {
                return Some(&self.entries[i].1);
            }
            i = i + 1;
        }
        proof {
            assert(self.entries_view().skip(self.entries@.len() as int) =~= Seq::<
                (Seq<char>, H),
            >::empty());
        }
        None
    }

    /// The listing of available grammar names, in registry order.
    pub fn available_grammars(&self) -> (r: Vec<String>)
        ensures
            r@.len() == self.names_spec().len(),
            forall|k: int| 0 <= k < r@.len() ==> r@[k]@ == self.names_spec()[k],
    {
        let mut out: Vec<String> = Vec::new();
        let mut i: usize = 0;
        while i < self.entries.len()
            invariant
                i <= self.entries@.len(),
                out@.len() == i,
                self.names_spec().len() == self.entries@.len(),
                forall|k: int| 0 <= k < i ==> out@[k]@ == self.names_spec()[k],
            decreases self.entries@.len() - i,
        {
            out.push(self.entries[i].0.clone());
            proof {
                assert(self.entries_view()[i as int] == (
                    self.entries@[i as int].0@,
                    self.entries@[i as int].1,
                ));
                assert(self.names_spec()[i as int] == self.entries@[i as int].0@);
            }
            i = i + 1;
        }
        out
    }

    /// Round trip between the listing and the lookup: a name resolves to a
    /// handle exactly when it stands in the advertised listing -- no name
    /// appears in one without the other.
    pub proof fn lemma_round_trip(&self, name: Seq<char>)
        ensures
            self.lookup_spec(name) is Some <==> self.names_spec().contains(name),
    {
        lemma_lookup_in_contains(self.entries_view(), name);
    }
}

} // verus!
