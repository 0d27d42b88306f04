use vstd::prelude::*;
use vstd::string::StrSliceExecFns;

verus! {

/// The views of a sequence of key-value string pairs.
pub open spec fn pairs_view(ps: Seq<(String, String)>) -> Seq<(Seq<char>, Seq<char>)> {
    ps.map_values(|p: (String, String)| (p.0@, p.1@))
}

/// Character-by-character equality of two string slices.
pub fn str_eq(a: &str, b: &str) -> (r: bool)
    ensures
        r == (a@ == b@),
{
    let la = a.unicode_len();
    let lb = b.unicode_len();
    if la != lb {
        return false;
    }
    let mut i: usize = 0;
    while i < la
        invariant
            la == a@.len(),
            lb == b@.len(),
            la == lb,
            i <= la,
            forall|j: int| 0 <= j < i ==> a@[j] == b@[j],
        decreases la - i,
    {
        if a.get_char(i) != b.get_char(i) {
            return false;
        }
        i = i + 1;
    }
    proof {
        assert(a@ =~= b@);
    }
    true
}

/// Relies on std's `String::push`: appends exactly one character at the end.
#[verifier::external_body]
pub fn push_char(s: &mut String, c: char)
    ensures
        final(s)@ == old(s)@.push(c),
{
    s.push(c)
}

/// ASCII upper-casing of one character; anything but a lowercase ASCII
/// letter is left unchanged.
pub open spec fn upper_char_spec(c: char) -> char {
    if 'a' <= c && c <= 'z' {
        ((c as u8) - 32) as char
    } else {
        c
    }
}

/// ASCII upper-casing applied to every character.
pub open spec fn upper_spec(s: Seq<char>) -> Seq<char> {
    Seq::new(s.len(), |i: int| upper_char_spec(s[i]))
}

fn upper_char(c: char) -> (r: char)
    ensures
        r == upper_char_spec(c),
{
    if 'a' <= c && c <= 'z' {
        ((c as u8) - 32) as char
    } else {
        c
    }
}

/// ASCII upper-casing of a whole string.
pub fn to_upper(s: &str) -> (r: String)
    ensures
        r@ == upper_spec(s@),
{
    let len = s.unicode_len();
    let mut out = String::new();
    let mut i: usize = 0;
    while i < len
        invariant
            len == s@.len(),
            i <= len,
            out@ == upper_spec(s@).take(i as int),
        decreases len - i,
    {
        let c = upper_char(s.get_char(i));
        push_char(&mut out, c);
        proof {
            assert(out@ =~= upper_spec(s@).take(i + 1));
        }
        i = i + 1;
    }
    proof {
        assert(upper_spec(s@).take(len as int) =~= upper_spec(s@));
    }
    out
}

} // verus!
