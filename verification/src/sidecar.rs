use vstd::prelude::*;
use vstd::string::StrSliceExecFns;
use vstd::string::StringExecFns;
use crate::errors::BuildError;
use crate::metadata::{descs_view, GrammarDescriptor, GrammarDescriptorView};
use crate::strutil::{pairs_view, push_char, str_eq};

verus! {

// The metadata sidecar is a JSON document of a fixed shape: an array of flat
// objects whose fields are strings. This module defines that format as a
// recursive-descent grammar over character sequences and parses it with an
// executable parser proved equal to the definition. Accepted escapes in
// strings are the single-character ones; unicode escapes are not part of the
// sidecar format and are rejected as malformed.

/// JSON whitespace.
pub open spec fn is_ws(c: char) -> bool {
    c == ' ' || c == '\t' || c == '\n' || c == '\r'
}

/// The first position at or after `i` holding no whitespace.
pub open spec fn skip_ws_spec(s: Seq<char>, i: int) -> int
    decreases s.len() - i,
        when 0 <= i <= s.len()
{
    if i < s.len() && is_ws(s[i]) {
        skip_ws_spec(s, i + 1)
    } else {
        i
    }
}

pub proof fn lemma_skip_ws_bounds(s: Seq<char>, i: int)
    requires
        0 <= i <= s.len(),
    ensures
        i <= skip_ws_spec(s, i) <= s.len(),
    decreases s.len() - i,
{
    if i < s.len() && is_ws(s[i]) {
        lemma_skip_ws_bounds(s, i + 1);
    }
}

/// The character denoted by a single-character escape, or `None` if the
/// escape is not part of the sidecar format.
pub open spec fn unescape_spec(c: char) -> Option<char> {
    if c == '"' {
        Some('"')
    } else if c == '\\' {
        Some('\\')
    } else if c == '/' {
        Some('/')
    } else if c == 'n' {
        Some('\n')
    } else if c == 't' {
        Some('\t')
    } else if c == 'r' {
        Some('\r')
    } else if c == 'b' {
        Some('\u{0008}')
    } else if c == 'f' {
        Some('\u{000C}')
    } else {
        None
    }
}

/// The content of a string literal from position `i` (just after the opening
/// quote) to its closing quote: the decoded characters and the position just
/// after the closing quote.
pub open spec fn string_body_spec(s: Seq<char>, i: int) -> Option<(Seq<char>, int)>
    decreases s.len() - i,
        when 0 <= i <= s.len()
{
    if i >= s.len() {
        None
    } else if s[i] == '"' {
        Some((Seq::empty(), i + 1))
    } else if s[i] == '\\' {
        if i + 1 < s.len() {
            match unescape_spec(s[i + 1]) {
                Some(c) => match string_body_spec(s, i + 2) {
                    Some((rest, j)) => Some((seq![c] + rest, j)),
                    None => None,
                },
                None => None,
            }
        } else {
            None
        }
    } else {
        match string_body_spec(s, i + 1) {
            Some((rest, j)) => Some((seq![s[i]] + rest, j)),
            None => None,
        }
    }
}

pub proof fn lemma_string_body_bounds(s: Seq<char>, i: int)
    requires
        0 <= i <= s.len(),
    ensures
        string_body_spec(s, i) matches Some((v, j)) ==> i < j <= s.len(),
    decreases s.len() - i,
{
    if i < s.len() && s[i] != '"' {
        if s[i] == '\\' {
            if i + 1 < s.len() {
                lemma_string_body_bounds(s, i + 2);
            }
        } else {
            lemma_string_body_bounds(s, i + 1);
        }
    }
}

/// A string literal starting at `i`: its decoded content and the position
/// just after its closing quote.
pub open spec fn parse_string_spec(s: Seq<char>, i: int) -> Option<(Seq<char>, int)> {
    if 0 <= i < s.len() && s[i] == '"' {
        string_body_spec(s, i + 1)
    } else {
        None
    }
}

pub proof fn lemma_parse_string_bounds(s: Seq<char>, i: int)
    requires
        0 <= i <= s.len(),
    ensures
        parse_string_spec(s, i) matches Some((v, j)) ==> i < j <= s.len(),
{
    if i < s.len() && s[i] == '"' {
        lemma_string_body_bounds(s, i + 1);
    }
}

/// One `"key" : "value"` member starting at `i`: the key-value pair and the
/// position just after the value.
pub open spec fn member_spec(s: Seq<char>, i: int) -> Option<((Seq<char>, Seq<char>), int)> {
    match parse_string_spec(s, i) {
        Some((k, j)) => {
            let j2 = skip_ws_spec(s, j);
            if j2 < s.len() && s[j2] == ':' {
                let j3 = skip_ws_spec(s, j2 + 1);
                match parse_string_spec(s, j3) {
                    Some((v, j4)) => Some(((k, v), j4)),
                    None => None,
                }
            } else {
                None
            }
        },
        None => None,
    }
}

pub proof fn lemma_member_bounds(s: Seq<char>, i: int)
    requires
        0 <= i <= s.len(),
    ensures
        member_spec(s, i) matches Some((kv, j)) ==> i < j <= s.len(),
{
    lemma_parse_string_bounds(s, i);
    match parse_string_spec(s, i) {
        Some((k, j)) => {
            lemma_skip_ws_bounds(s, j);
            let j2 = skip_ws_spec(s, j);
            if j2 < s.len() && s[j2] == ':' {
                lemma_skip_ws_bounds(s, j2 + 1);
                lemma_parse_string_bounds(s, skip_ws_spec(s, j2 + 1));
            }
        },
        None => {},
    }
}

/// The members of an object from the first member at `i` up to and including
/// the closing brace: the key-value pairs in source order and the position
/// just after the brace.
pub open spec fn members_spec(s: Seq<char>, i: int) -> Option<(Seq<(Seq<char>, Seq<char>)>, int)>
    decreases s.len() - i,
        when 0 <= i <= s.len()
{
    match member_spec(s, i) {
        Some((kv, j)) => {
            let j2 = skip_ws_spec(s, j);
            if j2 < s.len() && s[j2] == ',' {
                let j3 = skip_ws_spec(s, j2 + 1);
                proof {
                    lemma_member_bounds(s, i);
                    lemma_skip_ws_bounds(s, j);
                    lemma_skip_ws_bounds(s, j2 + 1);
                }
                match members_spec(s, j3) {
                    Some((rest, j4)) => Some((seq![kv] + rest, j4)),
                    None => None,
                }
            } else if j2 < s.len() && s[j2] == '}' {
                Some((seq![kv], j2 + 1))
            } else {
                None
            }
        },
        None => None,
    }
}

pub proof fn lemma_members_bounds(s: Seq<char>, i: int)
    requires
        0 <= i <= s.len(),
    ensures
        members_spec(s, i) matches Some((ms, j)) ==> i < j <= s.len(),
    decreases s.len() - i,
{
    lemma_member_bounds(s, i);
    match member_spec(s, i) {
        Some((kv, j)) => {
            lemma_skip_ws_bounds(s, j);
            let j2 = skip_ws_spec(s, j);
            if j2 < s.len() && s[j2] == ',' {
                lemma_skip_ws_bounds(s, j2 + 1);
                lemma_members_bounds(s, skip_ws_spec(s, j2 + 1));
            }
        },
        None => {},
    }
}

/// One object starting at the opening brace at `i`: its members and the
/// position just after the closing brace.
pub open spec fn object_spec(s: Seq<char>, i: int) -> Option<(Seq<(Seq<char>, Seq<char>)>, int)> {
    if 0 <= i < s.len() && s[i] == '{' {
        let j = skip_ws_spec(s, i + 1);
        if j < s.len() && s[j] == '}' {
            Some((Seq::empty(), j + 1))
        } else {
            members_spec(s, j)
        }
    } else {
        None
    }
}

pub proof fn lemma_object_bounds(s: Seq<char>, i: int)
    requires
        0 <= i <= s.len(),
    ensures
        object_spec(s, i) matches Some((ms, j)) ==> i < j <= s.len(),
{
    if 0 <= i < s.len() && s[i] == '{' {
        lemma_skip_ws_bounds(s, i + 1);
        lemma_members_bounds(s, skip_ws_spec(s, i + 1));
    }
}

/// The objects of the array from the first object at `i` up to and including
/// the closing bracket: the objects' member lists in source order and the
/// position just after the bracket.
pub open spec fn objects_spec(s: Seq<char>, i: int) -> Option<
    (Seq<Seq<(Seq<char>, Seq<char>)>>, int),
>
    decreases s.len() - i,
        when 0 <= i <= s.len()
{
    match object_spec(s, i) {
        Some((obj, j)) => {
            let j2 = skip_ws_spec(s, j);
            if j2 < s.len() && s[j2] == ',' {
                let j3 = skip_ws_spec(s, j2 + 1);
                proof {
                    lemma_object_bounds(s, i);
                    lemma_skip_ws_bounds(s, j);
                    lemma_skip_ws_bounds(s, j2 + 1);
                }
                match objects_spec(s, j3) {
                    Some((rest, j4)) => Some((seq![obj] + rest, j4)),
                    None => None,
                }
            } else if j2 < s.len() && s[j2] == ']' {
                Some((seq![obj], j2 + 1))
            } else {
                None
            }
        },
        None => None,
    }
}

pub proof fn lemma_objects_bounds(s: Seq<char>, i: int)
    requires
        0 <= i <= s.len(),
    ensures
        objects_spec(s, i) matches Some((objs, j)) ==> i < j <= s.len(),
    decreases s.len() - i,
{
    lemma_object_bounds(s, i);
    match object_spec(s, i) {
        Some((obj, j)) => {
            lemma_skip_ws_bounds(s, j);
            let j2 = skip_ws_spec(s, j);
            if j2 < s.len() && s[j2] == ',' {
                lemma_skip_ws_bounds(s, j2 + 1);
                lemma_objects_bounds(s, skip_ws_spec(s, j2 + 1));
            }
        },
        None => {},
    }
}

/// The whole sidecar document: an array of objects with nothing but
/// whitespace around it.
pub open spec fn document_spec(s: Seq<char>) -> Option<Seq<Seq<(Seq<char>, Seq<char>)>>> {
    let i = skip_ws_spec(s, 0);
    if i < s.len() && s[i] == '[' {
        let j = skip_ws_spec(s, i + 1);
        if j < s.len() && s[j] == ']' {
            if skip_ws_spec(s, j + 1) == s.len() {
                Some(Seq::empty())
            } else {
                None
            }
        } else {
            match objects_spec(s, j) {
                Some((objs, k)) => {
                    if skip_ws_spec(s, k) == s.len() {
                        Some(objs)
                    } else {
                        None
                    }
                },
                None => None,
            }
        }
    } else {
        None
    }
}

/// The value of the last member with the given key, if any: a later duplicate
/// of a key supersedes an earlier one.
pub open spec fn field_lookup_spec(ms: Seq<(Seq<char>, Seq<char>)>, key: Seq<char>) -> Option<
    Seq<char>,
>
    decreases ms.len(),
{
    if ms.len() == 0 {
        None
    } else if ms.last().0 == key {
        Some(ms.last().1)
    } else {
        field_lookup_spec(ms.drop_last(), key)
    }
}

/// The descriptor an object's members denote: the required `name` field and
/// the optional `symbol_name` override. An object without a `name` is
/// malformed.
pub open spec fn descriptor_of_members_spec(ms: Seq<(Seq<char>, Seq<char>)>) -> Option<
    GrammarDescriptorView,
> {
    match field_lookup_spec(ms, "name"@) {
        Some(n) => Some(
            GrammarDescriptorView { name: n, symbol_override: field_lookup_spec(ms, "symbol_name"@) },
        ),
        None => None,
    }
}

/// The descriptors denoted by the array's objects, in source order; `None`
/// as soon as one object is malformed.
pub open spec fn descriptors_of_objects_spec(objs: Seq<Seq<(Seq<char>, Seq<char>)>>) -> Option<
    Seq<GrammarDescriptorView>,
>
    decreases objs.len(),
{
    if objs.len() == 0 {
        Some(Seq::empty())
    } else {
        match (descriptors_of_objects_spec(objs.drop_last()), descriptor_of_members_spec(
            objs.last(),
        )) {
            (Some(rest), Some(d)) => Some(rest.push(d)),
            _ => None,
        }
    }
}

/// What a sidecar text means: the descriptor list it denotes, or `None` when
/// the text is malformed.
pub open spec fn parse_metadata_spec(s: Seq<char>) -> Option<Seq<GrammarDescriptorView>> {
    match document_spec(s) {
        Some(objs) => descriptors_of_objects_spec(objs),
        None => None,
    }
}


/// The characters of a string slice, as an indexable vector.
pub fn chars_of(s: &str) -> (r: Vec<char>)
    ensures
        r@ == s@,
{
    let len = s.unicode_len();
    let mut out: Vec<char> = Vec::new();
    let mut i: usize = 0;
    while i < len
        invariant
            len == s@.len(),
            i <= len,
            out@ == s@.take(i as int),
        decreases len - i,
    {
        out.push(s.get_char(i));
        proof {
            assert(out@ =~= s@.take(i + 1));
        }
        i = i + 1;
    }
    proof {
        assert(s@.take(len as int) =~= s@);
    }
    out
}

fn is_ws_char(c: char) -> (r: bool)
    ensures
        r == is_ws(c),
{
    c == ' ' || c == '\t' || c == '\n' || c == '\r'
}

fn skip_ws(s: &Vec<char>, i: usize) -> (r: usize)
    requires
        i <= s@.len(),
    ensures
        r as int == skip_ws_spec(s@, i as int),
        i <= r <= s@.len(),
{
    let mut j = i;
    while j < s.len() && is_ws_char(s[j])
        invariant
            i <= j <= s@.len(),
            skip_ws_spec(s@, i as int) == skip_ws_spec(s@, j as int),
        decreases s@.len() - j,
    {
        j = j + 1;
    }
    j
}

fn unescape(c: char) -> (r: Option<char>)
    ensures
        r == unescape_spec(c),
{
    if c == '"' {
        Some('"')
    } else if c == '\\' {
        Some('\\')
    } else if c == '/' {
        Some('/')
    } else if c == 'n' {
        Some('\n')
    } else if c == 't' {
        Some('\t')
    } else if c == 'r' {
        Some('\r')
    } else if c == 'b' {
        Some('\u{0008}')
    } else if c == 'f' {
        Some('\u{000C}')
    } else {
        None
    }
}

fn string_body(s: &Vec<char>, i: usize) -> (r: Option<(String, usize)>)
    requires
        i <= s@.len(),
    ensures
        r is Some <==> string_body_spec(s@, i as int) is Some,
        r matches Some((v, j)) ==> string_body_spec(s@, i as int) == Some((v@, j as int)) && i < j
            <= s@.len(),
    decreases s@.len() - i,
{
    if i >= s.len() {
        None
    } else {
        let c = s[i];
        if c == '"' {
            Some((String::new(), i + 1))
        } else if c == '\\' {
            if i + 1 < s.len() {
                match unescape(s[i + 1]) {
                    Some(e) => match string_body(s, i + 2) {
                        Some((rest, j)) => {
                            let mut out = String::new();
                            push_char(&mut out, e);
                            out.append(rest.as_str());
                            proof {
                                assert(out@ =~= seq![e] + rest@);
                            }
                            Some((out, j))
                        },
                        None => None,
                    },
                    None => None,
                }
            } else {
                None
            }
        } else {
            match string_body(s, i + 1) {
                Some((rest, j)) => {
                    let mut out = String::new();
                    push_char(&mut out, c);
                    out.append(rest.as_str());
                    proof {
                        assert(out@ =~= seq![c] + rest@);
                    }
                    Some((out, j))
                },
                None => None,
            }
        }
    }
}

fn parse_string_at(s: &Vec<char>, i: usize) -> (r: Option<(String, usize)>)
    requires
        i <= s@.len(),
    ensures
        r is Some <==> parse_string_spec(s@, i as int) is Some,
        r matches Some((v, j)) ==> parse_string_spec(s@, i as int) == Some((v@, j as int)) && i < j
            <= s@.len(),
{
    if i < s.len() && s[i] == '"' {
        string_body(s, i + 1)
    } else {
        None
    }
}

fn parse_member(s: &Vec<char>, i: usize) -> (r: Option<((String, String), usize)>)
    requires
        i <= s@.len(),
    ensures
        r is Some <==> member_spec(s@, i as int) is Some,
        r matches Some((kv, j)) ==> member_spec(s@, i as int) == Some(((kv.0@, kv.1@), j as int))
            && i < j <= s@.len(),
{
    match parse_string_at(s, i) {
        Some((k, j)) => {
            let j2 = skip_ws(s, j);
            if j2 < s.len() && s[j2] == ':' {
                let j3 = skip_ws(s, j2 + 1);
                match parse_string_at(s, j3) {
                    Some((v, j4)) => Some(((k, v), j4)),
                    None => None,
                }
            } else {
                None
            }
        },
        None => None,
    }
}

fn parse_members(s: &Vec<char>, i: usize) -> (r: Option<(Vec<(String, String)>, usize)>)
    requires
        i <= s@.len(),
    ensures
        r is Some <==> members_spec(s@, i as int) is Some,
        r matches Some((ms, j)) ==> members_spec(s@, i as int) == Some((pairs_view(ms@), j as int))
            && i < j <= s@.len(),
    decreases s@.len() - i,
{
    match parse_member(s, i) {
        Some((kv, j)) => {
            let j2 = skip_ws(s, j);
            if j2 < s.len() && s[j2] == ',' {
                let j3 = skip_ws(s, j2 + 1);
                match parse_members(s, j3) {
                    Some((rest, j4)) => {
                        let ghost kv_view = (kv.0@, kv.1@);
                        let mut out = rest;
                        let ghost rest_view = pairs_view(out@);
                        out.insert(0, kv);
                        proof {
                            assert(pairs_view(out@) =~= seq![kv_view] + rest_view);
                        }
                        Some((out, j4))
                    },
                    None => None,
                }
            } else if j2 < s.len() && s[j2] == '}' {
                let mut out: Vec<(String, String)> = Vec::new();
                let ghost kv_view = (kv.0@, kv.1@);
                out.push(kv);
                proof {
                    assert(pairs_view(out@) =~= seq![kv_view]);
                }
                Some((out, j2 + 1))
            } else {
                None
            }
        },
        None => None,
    }
}

fn parse_object(s: &Vec<char>, i: usize) -> (r: Option<(Vec<(String, String)>, usize)>)
    requires
        i <= s@.len(),
    ensures
        r is Some <==> object_spec(s@, i as int) is Some,
        r matches Some((ms, j)) ==> object_spec(s@, i as int) == Some((pairs_view(ms@), j as int))
            && i < j <= s@.len(),
{
    if i < s.len() && s[i] == '{' {
        let j = skip_ws(s, i + 1);
        if j < s.len() && s[j] == '}' {
            let out: Vec<(String, String)> = Vec::new();
            proof {
                assert(pairs_view(out@) =~= Seq::<(Seq<char>, Seq<char>)>::empty());
            }
            Some((out, j + 1))
        } else {
            parse_members(s, j)
        }
    } else {
        None
    }
}

/// The views of a sequence of member lists.
pub open spec fn objectlist_view(os: Seq<Vec<(String, String)>>) -> Seq<
    Seq<(Seq<char>, Seq<char>)>,
> {
    os.map_values(|o: Vec<(String, String)>| pairs_view(o@))
}

fn parse_objects(s: &Vec<char>, i: usize) -> (r: Option<(Vec<Vec<(String, String)>>, usize)>)
    requires
        i <= s@.len(),
    ensures
        r is Some <==> objects_spec(s@, i as int) is Some,
        r matches Some((os, j)) ==> objects_spec(s@, i as int) == Some(
            (objectlist_view(os@), j as int),
        ) && i < j <= s@.len(),
    decreases s@.len() - i,
{
    match parse_object(s, i) {
        Some((obj, j)) => {
            let j2 = skip_ws(s, j);
            if j2 < s.len() && s[j2] == ',' {
                let j3 = skip_ws(s, j2 + 1);
                match parse_objects(s, j3) {
                    Some((rest, j4)) => {
                        let ghost obj_view = pairs_view(obj@);
                        let mut out = rest;
                        let ghost rest_view = objectlist_view(out@);
                        out.insert(0, obj);
                        proof {
                            assert(objectlist_view(out@) =~= seq![obj_view] + rest_view);
                        }
                        Some((out, j4))
                    },
                    None => None,
                }
            } else if j2 < s.len() && s[j2] == ']' {
                let ghost obj_view = pairs_view(obj@);
                let mut out: Vec<Vec<(String, String)>> = Vec::new();
                out.push(obj);
                proof {
                    assert(objectlist_view(out@) =~= seq![obj_view]);
                }
                Some((out, j2 + 1))
            } else {
                None
            }
        },
        None => None,
    }
}

fn field_lookup(ms: &Vec<(String, String)>, key: &str) -> (r: Option<String>)
    ensures
        r is Some <==> field_lookup_spec(pairs_view(ms@), key@) is Some,
        r matches Some(v) ==> field_lookup_spec(pairs_view(ms@), key@) == Some(v@),
{
    let mut i = ms.len();
    proof {
        assert(pairs_view(ms@).take(ms@.len() as int) =~= pairs_view(ms@));
    }
    while i > 0
        invariant
            i <= ms@.len(),
            field_lookup_spec(pairs_view(ms@), key@) == field_lookup_spec(
                pairs_view(ms@).take(i as int),
                key@,
            ),
        decreases i,
    {
        i = i - 1;
        proof {
            assert(pairs_view(ms@).take(i + 1).drop_last() =~= pairs_view(ms@).take(i as int));
            assert(pairs_view(ms@).take(i + 1).last() == (ms@[i as int].0@, ms@[i as int].1@));
        }
        if str_eq(ms[i].0.as_str(), key) {
            return Some(ms[i].1.clone());
        }
    }
    proof {
        assert(pairs_view(ms@).take(0) =~= Seq::<(Seq<char>, Seq<char>)>::empty());
    }
    None
}

/// The descriptor one parsed object denotes, or `None` when its required
/// `name` field is absent.
pub fn descriptor_of_members(ms: &Vec<(String, String)>) -> (r: Option<GrammarDescriptor>)
    ensures
        r is Some <==> descriptor_of_members_spec(pairs_view(ms@)) is Some,
        r matches Some(d) ==> descriptor_of_members_spec(pairs_view(ms@)) == Some(d@),
{
    match field_lookup(ms, "name") {
        Some(n) => Some(
            GrammarDescriptor { name: n, symbol_override: field_lookup(ms, "symbol_name") },
        ),
        None => None,
    }
}

proof fn lemma_descriptors_of_objects_none(objs: Seq<Seq<(Seq<char>, Seq<char>)>>, k: int)
    requires
        0 <= k < objs.len(),
        descriptor_of_members_spec(objs[k]) is None,
    ensures
        descriptors_of_objects_spec(objs) is None,
    decreases objs.len(),
{
    if k < objs.len() - 1 {
        lemma_descriptors_of_objects_none(objs.drop_last(), k);
    }
}

fn descriptors_of_objects(objs: &Vec<Vec<(String, String)>>) -> (r: Option<Vec<GrammarDescriptor>>)
    ensures
        r is Some <==> descriptors_of_objects_spec(objectlist_view(objs@)) is Some,
        r matches Some(ds) ==> descriptors_of_objects_spec(objectlist_view(objs@)) == Some(
            descs_view(ds@),
        ),
{
    let mut out: Vec<GrammarDescriptor> = Vec::new();
    let mut i: usize = 0;
    while i < objs.len()
        invariant
            i <= objs@.len(),
            descriptors_of_objects_spec(objectlist_view(objs@).take(i as int)) == Some(
                descs_view(out@),
            ),
        decreases objs@.len() - i,
    {
        proof {
            assert(objectlist_view(objs@).take(i + 1).drop_last() =~= objectlist_view(
                objs@,
            ).take(i as int));
            assert(objectlist_view(objs@).take(i + 1).last() == pairs_view(objs@[i as int]@));
        }
        match descriptor_of_members(&objs[i]) {
            Some(d) => {
                let ghost prev_view = descs_view(out@);
                out.push(d);
                proof {
                    assert(descs_view(out@) =~= prev_view.push(d@));
                }
            },
            None => {
                proof {
                    assert(objectlist_view(objs@)[i as int] == pairs_view(objs@[i as int]@));
                    lemma_descriptors_of_objects_none(objectlist_view(objs@), i as int);
                }
                return None;
            },
        }
        i = i + 1;
    }
    proof {
        assert(objectlist_view(objs@).take(objs@.len() as int) =~= objectlist_view(objs@));
    }
    Some(out)
}

/// Parses a sidecar text into its grammar descriptors, in source order.
/// Malformed text -- and only malformed text -- is rejected.
pub fn parse_metadata(text: &str) -> (r: Result<Vec<GrammarDescriptor>, BuildError>)
    ensures
        r is Ok <==> parse_metadata_spec(text@) is Some,
        r matches Ok(ds) ==> parse_metadata_spec(text@) == Some(descs_view(ds@)),
        r matches Err(e) ==> e == BuildError::MetadataParseError,
{
    let s = chars_of(text);
    let i = skip_ws(&s, 0);
    if i < s.len() && s[i] == '[' {
        let j = skip_ws(&s, i + 1);
        if j < s.len() && s[j] == ']' {
            if skip_ws(&s, j + 1) == s.len() {
                proof {
                    assert(descriptors_of_objects_spec(Seq::empty()) == Some(
                        Seq::<GrammarDescriptorView>::empty(),
                    ));
                    assert(descs_view(Seq::<GrammarDescriptor>::empty()) =~= Seq::<
                        GrammarDescriptorView,
                    >::empty());
                }
                Ok(Vec::new())
            } else {
                Err(BuildError::MetadataParseError)
            }
        } else {
            match parse_objects(&s, j) {
                Some((objs, k)) => {
                    if skip_ws(&s, k) == s.len() {
                        match descriptors_of_objects(&objs) {
                            Some(ds) => Ok(ds),
                            None => Err(BuildError::MetadataParseError),
                        }
                    } else {
                        Err(BuildError::MetadataParseError)
                    }
                },
                None => Err(BuildError::MetadataParseError),
            }
        }
    } else {
        Err(BuildError::MetadataParseError)
    }
}

/// Loads the grammar descriptors from the sidecar's content, handed over by
/// the caller as `None` when the sidecar file is absent. An absent sidecar is
/// fatal: without it no symbol names can be derived safely.
pub fn load_descriptors(sidecar: Option<&str>) -> (r: Result<Vec<GrammarDescriptor>, BuildError>)
    ensures
        sidecar is None ==> r == Err::<Vec<GrammarDescriptor>, BuildError>(
            BuildError::MetadataMissing,
        ),
        sidecar matches Some(t) ==> {
            &&& r is Ok <==> parse_metadata_spec(t@) is Some
            &&& (r matches Ok(ds) ==> parse_metadata_spec(t@) == Some(descs_view(ds@)))
            &&& (r is Err ==> r == Err::<Vec<GrammarDescriptor>, BuildError>(
                BuildError::MetadataParseError,
            ))
        },
{
    match sidecar {
        None => Err(BuildError::MetadataMissing),
        Some(text) => parse_metadata(text),
    }
}

} // verus!
