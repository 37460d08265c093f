//! The string operations of `std` that the crate relies on, with their meaning over `Seq<char>`.

use vstd::prelude::*;

verus! {

/// The characters with the Unicode property `White_Space`.
pub open spec fn is_white_space(c: char) -> bool {
    let n = c as u32;
    ||| 0x09 <= n <= 0x0d
    ||| n == 0x20
    ||| n == 0x85
    ||| n == 0xa0
    ||| n == 0x1680
    ||| 0x2000 <= n <= 0x200a
    ||| n == 0x2028
    ||| n == 0x2029
    ||| n == 0x202f
    ||| n == 0x205f
    ||| n == 0x3000
}

/// `s` without the white space at its two ends.
pub open spec fn trimmed(s: Seq<char>) -> Seq<char>
    decreases s.len(),
{
    if s.len() == 0 {
        s
    } else if is_white_space(s.first()) {
        trimmed(s.drop_first())
    } else if is_white_space(s.last()) {
        trimmed(s.drop_last())
    } else {
        s
    }
}

/// `c`, or the lower case letter where `c` is one of `A` to `Z`.
pub open spec fn ascii_lower(c: char) -> char {
    if 'A' <= c <= 'Z' {
        (c as u32 + 32) as char
    } else {
        c
    }
}

/// `s` with `ascii_lower` applied to each character.
pub open spec fn ascii_lowered(s: Seq<char>) -> Seq<char> {
    s.map_values(|c: char| ascii_lower(c))
}

/// Whether the characters of `part` stand together somewhere in `whole`.
pub open spec fn occurs_in(part: Seq<char>, whole: Seq<char>) -> bool {
    exists|before: Seq<char>, after: Seq<char>| whole == #[trigger] (before + part + after)
}

/// What occurs in a part of a text occurs in the text.
pub proof fn lemma_occurs_in_longer(
    part: Seq<char>,
    whole: Seq<char>,
    before: Seq<char>,
    after: Seq<char>,
)
    requires
        occurs_in(part, whole),
    ensures
        occurs_in(part, before + whole + after),
{
    let (left, right) = choose|left: Seq<char>, right: Seq<char>| whole == #[trigger] (left + part
        + right);
    assert(before + whole + after =~= (before + left) + part + (right + after));
}

/// White space around a text that neither begins nor ends with any is trimmed off.
pub proof fn lemma_trimmed_of_padded(left: Seq<char>, core: Seq<char>, right: Seq<char>)
    requires
        core.len() > 0,
        !is_white_space(core.first()),
        !is_white_space(core.last()),
        forall|i: int| 0 <= i < left.len() ==> is_white_space(#[trigger] left[i]),
        forall|i: int| 0 <= i < right.len() ==> is_white_space(#[trigger] right[i]),
    ensures
        trimmed(left + core + right) == core,
    decreases left.len() + right.len(),
{
    let s = left + core + right;
    if left.len() > 0 {
        assert(s.first() == left[0]);
        assert(s.drop_first() =~= left.drop_first() + core + right);
        lemma_trimmed_of_padded(left.drop_first(), core, right);
    } else if right.len() > 0 {
        assert(s.first() == core.first());
        assert(s.last() == right.last());
        assert(s.drop_last() =~= left + core + right.drop_last());
        lemma_trimmed_of_padded(left, core, right.drop_last());
    } else {
        assert(s =~= core);
    }
}

/// `str::trim`: the slice that is left when the characters with the property `White_Space` are
/// taken off both ends.
#[verifier::external_body]
pub(crate) fn trim(s: &str) -> (r: &str)
    ensures
        r@ == trimmed(s@),
{
    s.trim()
}

/// `str::to_ascii_lowercase`: a copy in which `A` to `Z` became `a` to `z` and every other
/// character stayed.
#[verifier::external_body]
pub(crate) fn to_ascii_lowercase(s: &str) -> (r: String)
    ensures
        r@ == ascii_lowered(s@),
{
    s.to_ascii_lowercase()
}

/// `str::starts_with` with a string pattern: whether the characters of `prefix` come first in `s`.
#[verifier::external_body]
pub(crate) fn starts_with(s: &str, prefix: &str) -> (r: bool)
    ensures
        r == prefix@.is_prefix_of(s@),
{
    s.starts_with(prefix)
}

/// `==` on `str`: whether the two hold the same characters.
#[verifier::external_body]
pub(crate) fn same_text(a: &str, b: &str) -> (r: bool)
    ensures
        r == (a@ == b@),
{
    a == b
}

} // verus!
