//! Character-level helpers: ASCII case folding, separators, and
//! comparisons between character vectors.
use vstd::prelude::*;
use vstd::string::StrSliceExecFns;

verus! {

/// ASCII-lowered character: `'A'..='Z'` map to `'a'..='z'`, everything
/// else is unchanged.
pub open spec fn lower_char(c: char) -> char {
    if 'A' <= c && c <= 'Z' {
        ((c as int) + 32) as char
    } else {
        c
    }
}

/// A sequence of characters, ASCII-lowered pointwise.
pub open spec fn lower_seq(s: Seq<char>) -> Seq<char> {
    s.map_values(|c: char| lower_char(c))
}

/// Equality of two character sequences up to ASCII case.
pub open spec fn seq_eq_ci(a: Seq<char>, b: Seq<char>) -> bool {
    lower_seq(a) == lower_seq(b)
}

/// Relies on String::push: appends exactly the given character.
#[verifier::external_body]
pub(crate) fn push_char(s: &mut String, c: char)
    ensures
        final(s)@ == old(s)@.push(c),
{
    s.push(c);
}

/// A path separator: forward slash or backslash.
pub open spec fn is_sep(c: char) -> bool {
    c == '/' || c == '\\'
}

/// Whether `c` is a path separator.
pub fn is_sep_char(c: char) -> (r: bool)
    ensures
        r == is_sep(c),
{
    c == '/' || c == '\\'
}

/// Whether two characters are equal up to ASCII case.
pub fn chars_eq_ci(a: char, b: char) -> (r: bool)
    ensures
        r == (lower_char(a) == lower_char(b)),
{
    if a == b {
        true
    } else {
        let au = a as u32;
        let bu = b as u32;
        (65 <= au && au <= 90 && bu == au + 32) || (65 <= bu && bu <= 90 && au == bu + 32)
    }
}

/// The characters of `s`, as a vector.
pub fn str_chars(s: &str) -> (v: Vec<char>)
    ensures
        v@ == s@,
{
    let n = s.unicode_len();
    let mut v: Vec<char> = Vec::new();
    let mut i: usize = 0;
    while i < n
        invariant
            n == s@.len(),
            i <= n,
            v@ == s@.take(i as int),
        decreases n - i,
    {
        v.push(s.get_char(i));
        i = i + 1;
        assert(v@ =~= s@.take(i as int));
    }
    assert(v@ =~= s@);
    v
}

/// Whether `v[from..to]` equals `name`, character for character.
pub fn range_eq(v: &Vec<char>, from: usize, to: usize, name: &Vec<char>) -> (r: bool)
    requires
        from <= to <= v@.len(),
    ensures
        r == (v@.subrange(from as int, to as int) == name@),
{
    if to - from != name.len() {
        proof {
            assert(v@.subrange(from as int, to as int).len() == to - from);
        }
        return false;
    }
    let mut k: usize = 0;
    while k < name.len()
        invariant
            from <= to <= v@.len(),
            to - from == name@.len(),
            k <= name@.len(),
            forall|j: int| 0 <= j < k ==> v@[from + j] == name@[j],
        decreases name@.len() - k,
    {
        if v[from + k] != name[k] {
            proof {
                assert(v@.subrange(from as int, to as int)[k as int] != name@[k as int]);
            }
            return false;
        }
        k = k + 1;
    }
    proof {
        assert(v@.subrange(from as int, to as int) =~= name@);
    }
    true
}

/// Whether `v[from..to]` equals `name` up to ASCII case.
pub fn range_eq_ci(v: &Vec<char>, from: usize, to: usize, name: &Vec<char>) -> (r: bool)
    requires
        from <= to <= v@.len(),
    ensures
        r == seq_eq_ci(v@.subrange(from as int, to as int), name@),
{
    if to - from != name.len() {
        proof {
            assert(lower_seq(v@.subrange(from as int, to as int)).len() == to - from);
            assert(lower_seq(name@).len() == name@.len());
        }
        return false;
    }
    let mut k: usize = 0;
    while k < name.len()
        invariant
            from <= to <= v@.len(),
            to - from == name@.len(),
            k <= name@.len(),
            forall|j: int| 0 <= j < k ==> lower_char(v@[from + j]) == lower_char(name@[j]),
        decreases name@.len() - k,
    {
        if !chars_eq_ci(v[from + k], name[k]) {
            proof {
                let sub = v@.subrange(from as int, to as int);
                assert(lower_seq(sub)[k as int] == lower_char(sub[k as int]));
                assert(lower_seq(name@)[k as int] == lower_char(name@[k as int]));
            }
            return false;
        }
        k = k + 1;
    }
    proof {
        let sub = v@.subrange(from as int, to as int);
        assert forall|j: int| 0 <= j < sub.len() implies lower_seq(sub)[j] == lower_seq(name@)[j] by {
            assert(lower_char(sub[j]) == lower_char(name@[j]));
        }
        assert(lower_seq(sub) =~= lower_seq(name@));
    }
    true
}

} // verus!
