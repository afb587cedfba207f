//! The fixed normalisation of dataset fields: trimming and ASCII lower case.

use vstd::prelude::*;
use vstd::string::StrSliceExecFns;

verus! {

/// White space: the characters that trimming removes from both ends of a
/// field. These are the code points that Unicode marks `White_Space`.
pub open spec fn is_blank(c: char) -> bool {
    let u = c as u32;
    ||| 0x09 <= u <= 0x0d
    ||| u == 0x20
    ||| u == 0x85
    ||| u == 0xa0
    ||| u == 0x1680
    ||| 0x2000 <= u <= 0x200a
    ||| u == 0x2028
    ||| u == 0x2029
    ||| u == 0x202f
    ||| u == 0x205f
    ||| u == 0x3000
}

/// The text is empty or holds white space only.
pub open spec fn is_blank_text(s: Seq<char>) -> bool {
    forall|k: int| 0 <= k < s.len() ==> is_blank(#[trigger] s[k])
}

/// `s[i..j]` is `s` without its leading and trailing white space: everything
/// before `i` and from `j` on is blank, and what lies between, if anything,
/// begins and ends with a character that is not.
pub open spec fn is_trim_bounds(s: Seq<char>, i: int, j: int) -> bool {
    &&& 0 <= i <= j <= s.len()
    &&& forall|k: int| 0 <= k < i ==> is_blank(#[trigger] s[k])
    &&& forall|k: int| j <= k < s.len() ==> is_blank(#[trigger] s[k])
    &&& i < j ==> !is_blank(s[i]) && !is_blank(s[j - 1])
}

/// The field `s` without its leading and trailing white space.
pub open spec fn trimmed(s: Seq<char>) -> Seq<char> {
    let (i, j) = choose|i: int, j: int| is_trim_bounds(s, i, j);
    s.subrange(i, j)
}

/// Whatever bounds satisfy [`is_trim_bounds`] cut out the same text, which is
/// `trimmed(s)`.
pub proof fn lemma_trimmed(s: Seq<char>, i: int, j: int)
    requires
        is_trim_bounds(s, i, j),
    ensures
        trimmed(s) == s.subrange(i, j),
{
    let (a, b) = choose|a: int, b: int| is_trim_bounds(s, a, b);
    if i < j {
        assert(a <= i < b && a < j <= b) by {
            assert(!is_blank(s[i]) && !is_blank(s[j - 1]));
        }
        assert(a == i && b == j) by {
            assert(!is_blank(s[a]) && !is_blank(s[b - 1]));
        }
    } else {
        assert(a == b) by {
            if a < b {
                assert(is_blank(s[a]));
            }
        }
        assert(s.subrange(a, b) =~= s.subrange(i, j));
    }
}

/// The first position from `from` on that holds no white space, or the
/// length where there is none.
proof fn lemma_solid_from(s: Seq<char>, from: int) -> (i: int)
    requires
        0 <= from <= s.len(),
    ensures
        from <= i <= s.len(),
        forall|k: int| from <= k < i ==> is_blank(#[trigger] s[k]),
        i < s.len() ==> !is_blank(s[i]),
    decreases s.len() - from,
{
    if from == s.len() || !is_blank(s[from]) {
        from
    } else {
        lemma_solid_from(s, from + 1)
    }
}

/// The end of the last stretch before `to` that holds no white space, or 0
/// where there is none.
proof fn lemma_solid_until(s: Seq<char>, to: int) -> (j: int)
    requires
        0 <= to <= s.len(),
    ensures
        0 <= j <= to,
        forall|k: int| j <= k < to ==> is_blank(#[trigger] s[k]),
        0 < j ==> !is_blank(s[j - 1]),
    decreases to,
{
    if to == 0 || !is_blank(s[to - 1]) {
        to
    } else {
        lemma_solid_until(s, to - 1)
    }
}

/// Every text has trim bounds, so `trimmed(s)` is cut out by bounds that
/// satisfy [`is_trim_bounds`].
pub proof fn lemma_trim_bounds(s: Seq<char>) -> (bounds: (int, int))
    ensures
        is_trim_bounds(s, bounds.0, bounds.1),
        trimmed(s) == s.subrange(bounds.0, bounds.1),
{
    let i = lemma_solid_from(s, 0);
    let j = lemma_solid_until(s, s.len() as int);
    let bounds = if i < s.len() {
        (i, j)
    } else {
        (0int, 0int)
    };
    if i < s.len() {
        assert(i < j) by {
            if j <= i {
                assert(is_blank(s[i]));
            }
        }
    }
    assert(is_trim_bounds(s, bounds.0, bounds.1));
    lemma_trimmed(s, bounds.0, bounds.1);
    bounds
}

/// Nothing is left of a text after trimming exactly where every character
/// of it is white space.
pub proof fn lemma_trimmed_empty(s: Seq<char>)
    ensures
        trimmed(s).len() == 0 <==> is_blank_text(s),
{
    let (i, j) = lemma_trim_bounds(s);
    if is_blank_text(s) {
        if i < j {
            assert(!is_blank(s[i]));
        }
    }
}

/// What is left of a text after trimming begins and ends with a character
/// that is not white space.
pub proof fn lemma_trimmed_ends(s: Seq<char>)
    ensures
        trimmed(s).len() > 0 ==> !is_blank(trimmed(s).first()) && !is_blank(trimmed(s).last()),
{
    let (i, j) = lemma_trim_bounds(s);
}

/// Whether `c` is white space.
pub fn is_blank_char(c: char) -> (b: bool)
    ensures
        b == is_blank(c),
{
    let u: u32 = c as u32;
    (0x09 <= u && u <= 0x0d) || u == 0x20 || u == 0x85 || u == 0xa0 || u == 0x1680 || (0x2000 <= u
        && u <= 0x200a) || u == 0x2028 || u == 0x2029 || u == 0x202f || u == 0x205f || u == 0x3000
}

/// The field `s` without its leading and trailing white space.
pub fn trim(s: &str) -> (r: &str)
    ensures
        r@ == trimmed(s@),
{
    let n: usize = s.unicode_len();
    let mut start: usize = 0;
    let mut end: usize = 0;
    let mut k: usize = 0;
    for c in it: s.chars()
        invariant
            n == s@.len(),
            k == it.index(),
            it.seq() == s@,
            start <= end <= k <= n,
            start == end ==> start == 0,
            forall|m: int| 0 <= m < start ==> is_blank(#[trigger] s@[m]),
            forall|m: int| end <= m < k ==> is_blank(#[trigger] s@[m]),
            start < end ==> !is_blank(s@[start as int]) && !is_blank(s@[end - 1]),
    {
        if !is_blank_char(c) {
            if start == end {
                start = k;
            }
            end = k + 1;
        }
        k = k + 1;
    }
    proof {
        lemma_trimmed(s@, start as int, end as int);
    }
    s.substring_char(start, end)
}

/// The ASCII lower-case form of `c`: `'A'..='Z'` become `'a'..='z'`, every
/// other character stays as it is.
pub open spec fn ascii_lower(c: char) -> char {
    if 'A' <= c <= 'Z' {
        ((c as u8 + 32) as u8) as char
    } else {
        c
    }
}

/// The text `s` with each character in its ASCII lower-case form.
pub open spec fn lowercased(s: Seq<char>) -> Seq<char> {
    s.map_values(|c: char| ascii_lower(c))
}

/// Lower case keeps the length of a text, and turns no character into white
/// space nor white space into anything else.
pub proof fn lemma_lowercased_shape(s: Seq<char>)
    ensures
        lowercased(s).len() == s.len(),
        forall|k: int| 0 <= k < s.len() ==> is_blank(#[trigger] lowercased(s)[k]) == is_blank(s[k]),
{
}

/// A text that is already in lower case stays as it is.
pub proof fn lemma_lowercased_twice(s: Seq<char>)
    ensures
        lowercased(lowercased(s)) == lowercased(s),
{
    assert(lowercased(lowercased(s)) =~= lowercased(s));
}

/// Calls `str::to_ascii_lowercase`, which std documents as a copy of the
/// string in which the ASCII letters `'A'` to `'Z'` are mapped to `'a'` to
/// `'z'` and all other characters are unchanged. Believed, not proved.
#[verifier::external_body]
pub(crate) fn to_ascii_lowercase(s: &str) -> (r: String)
    ensures
        r@ == lowercased(s@),
{
    s.to_ascii_lowercase()
}

} // verus!
