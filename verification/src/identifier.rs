//! The name of a variant in the enumeration, derived from its three-letter
//! code.

use vstd::prelude::*;

use crate::text::{trim, trimmed};

verus! {

/// What `inflector::cases::titlecase::to_title_case` returns for the text
/// `s`.
pub uninterp spec fn title_case(s: Seq<char>) -> Seq<char>;

/// Calls `inflector::cases::titlecase::to_title_case`. The result depends on
/// the argument alone; the contract gives it its name and claims no more.
#[verifier::external_body]
pub(crate) fn to_title_case(s: &str) -> (r: String)
    ensures
        r@ == title_case(s@),
{
    inflector::cases::titlecase::to_title_case(s)
}

/// An ASCII letter.
pub open spec fn is_ascii_letter(c: char) -> bool {
    'A' <= c <= 'Z' || 'a' <= c <= 'z'
}

/// An ASCII digit.
pub open spec fn is_ascii_digit(c: char) -> bool {
    '0' <= c <= '9'
}

/// A valid member name: ASCII letters and digits, the first one a letter.
pub open spec fn is_identifier(s: Seq<char>) -> bool {
    &&& s.len() > 0
    &&& is_ascii_letter(s[0])
    &&& forall|i: int| 0 <= i < s.len() ==> is_ascii_letter(#[trigger] s[i]) || is_ascii_digit(s[i])
}

/// The member name that the three-letter code `tag3` gives: the title-cased
/// form of the trimmed code.
pub open spec fn identifier_of(tag3: Seq<char>) -> Seq<char> {
    title_case(trimmed(tag3))
}

/// Whether `s` is a valid member name.
pub fn is_identifier_str(s: &str) -> (b: bool)
    ensures
        b == is_identifier(s@),
{
    let mut first: bool = true;
    let mut valid: bool = true;
    for c in it: s.chars()
        invariant
            it.seq() == s@,
            first <==> it.index() == 0,
            valid <==> (!first ==> is_ascii_letter(s@[0])) && forall|i: int|
                0 <= i < it.index() ==> is_ascii_letter(#[trigger] s@[i]) || is_ascii_digit(s@[i]),
    {
        let letter = ('A' <= c && c <= 'Z') || ('a' <= c && c <= 'z');
        let digit = '0' <= c && c <= '9';
        if !(letter || (!first && digit)) {
            valid = false;
        }
        first = false;
    }
    valid && !first
}

/// The member name for the three-letter code `tag3`, as the title-casing gave
/// it; whether it is valid is for [`is_identifier_str`] to say.
pub fn derive_identifier(tag3: &str) -> (r: String)
    ensures
        r@ == identifier_of(tag3@),
{
    to_title_case(trim(tag3))
}

} // verus!
