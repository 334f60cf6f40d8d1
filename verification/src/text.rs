//! Text helpers: case-insensitive comparison and containment, lexicographic
//! order, and a user-perceived length.
//!
//! Case-insensitive comparison is defined as lower-cased comparison of the
//! full strings; it is not locale aware.

use unicode_segmentation::UnicodeSegmentation;
use vstd::prelude::*;

verus! {

/// The lower-cased form of a character sequence, as `str::to_lowercase`
/// computes it. The result depends on the characters alone.
pub uninterp spec fn lower_of(s: Seq<char>) -> Seq<char>;

/// The number of user-perceived characters (extended grapheme clusters)
/// in a character sequence. The result depends on the characters alone.
pub uninterp spec fn grapheme_count_of(s: Seq<char>) -> nat;

/// Relies on str::to_lowercase: the result is a function of the characters
/// alone, and the lower-cased form of the empty string is empty.
#[verifier::external_body]
fn to_lowercase(value: &str) -> (r: String)
    ensures
        r@ == lower_of(value@),
        value@.len() == 0 ==> r@.len() == 0,
{
    value.to_lowercase()
}

/// Relies on unicode_segmentation's `graphemes`: it splits the string into
/// extended grapheme clusters, a function of the characters alone; the empty
/// string has none, and no cluster is empty.
#[verifier::external_body]
pub fn str_len(value: &str) -> (r: usize)
    ensures
        r == grapheme_count_of(value@),
        r <= value@.len(),
{
    value.graphemes(true).count()
}

/// `needle` occurs contiguously inside `hay`.
pub open spec fn contains_seq(hay: Seq<char>, needle: Seq<char>) -> bool {
    exists|i: int|
        0 <= i && i + needle.len() <= hay.len() && #[trigger] hay.subrange(i, i + needle.len())
            == needle
}

/// Relies on str::contains with a string pattern: substring containment,
/// with the empty pattern contained in every string.
#[verifier::external_body]
fn str_contains(hay: &str, needle: &str) -> (r: bool)
    ensures
        r == contains_seq(hay@, needle@),
{
    hay.contains(needle)
}

/// Lexicographic order on character sequences, by scalar value.
pub open spec fn lex_le(a: Seq<char>, b: Seq<char>) -> bool
    decreases a.len(),
{
    if a.len() == 0 {
        true
    } else if b.len() == 0 {
        false
    } else if a[0] == b[0] {
        lex_le(a.drop_first(), b.drop_first())
    } else {
        a[0] < b[0]
    }
}

/// Relies on str's `<=`: lexicographic order by byte, which for valid UTF-8
/// coincides with lexicographic order by character scalar value.
#[verifier::external_body]
pub(crate) fn str_le(a: &str, b: &str) -> (r: bool)
    ensures
        r == lex_le(a@, b@),
{
    a <= b
}

/// Case-insensitive equality: the lower-cased forms are equal.
pub fn eq_str(a: &str, b: &str) -> (r: bool)
    ensures
        r == (lower_of(a@) == lower_of(b@)),
{
    let la = to_lowercase(a);
    let lb = to_lowercase(b);
    la == lb
}

/// Case-insensitive containment: the lower-cased needle occurs inside the
/// lower-cased hay.
pub fn contains_ci(hay: &str, needle: &str) -> (r: bool)
    ensures
        r == contains_seq(lower_of(hay@), lower_of(needle@)),
{
    let lh = to_lowercase(hay);
    let ln = to_lowercase(needle);
    str_contains(lh.as_str(), ln.as_str())
}

/// Case-insensitive lexicographic order.
pub fn le_ci(a: &str, b: &str) -> (r: bool)
    ensures
        r == lex_le(lower_of(a@), lower_of(b@)),
{
    let la = to_lowercase(a);
    let lb = to_lowercase(b);
    str_le(la.as_str(), lb.as_str())
}

/// Lexicographic order is total.
pub proof fn lemma_lex_le_total(a: Seq<char>, b: Seq<char>)
    ensures
        lex_le(a, b) || lex_le(b, a),
    decreases a.len(),
{
    if a.len() == 0 || b.len() == 0 {
    } else if a[0] == b[0] {
        lemma_lex_le_total(a.drop_first(), b.drop_first());
    }
}

/// Lexicographic order is transitive.
pub proof fn lemma_lex_le_trans(a: Seq<char>, b: Seq<char>, c: Seq<char>)
    requires
        lex_le(a, b),
        lex_le(b, c),
    ensures
        lex_le(a, c),
    decreases a.len(),
{
    if a.len() == 0 {
    } else if b.len() == 0 {
    } else if c.len() == 0 {
    } else {
        if a[0] == b[0] && b[0] == c[0] {
            lemma_lex_le_trans(a.drop_first(), b.drop_first(), c.drop_first());
        }
    }
}

/// Lexicographic order is antisymmetric.
pub proof fn lemma_lex_le_antisym(a: Seq<char>, b: Seq<char>)
    requires
        lex_le(a, b),
        lex_le(b, a),
    ensures
        a == b,
    decreases a.len(),
{
    if a.len() == 0 {
        assert(b.len() == 0);
        assert(a =~= b);
    } else {
        assert(b.len() > 0);
        assert(a[0] == b[0]);
        lemma_lex_le_antisym(a.drop_first(), b.drop_first());
        assert(a =~= seq![a[0]] + a.drop_first());
        assert(b =~= seq![b[0]] + b.drop_first());
    }
}

} // verus!
