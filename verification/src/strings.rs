//! What the pages ask of text: whether one text occurs in another, what a
//! text looks like in lower case, and which of two texts comes first.
//!
//! The standard library answers all three.  This file says what its
//! answers are, and proves of the order of texts what sorting needs.

use vstd::prelude::*;
use vstd::string::StrSliceExecFns;
use vstd::utf8::encode_utf8;

verus! {

/// Whether `needle` occurs in `haystack`, as one run of characters.
pub open spec fn spec_contains(haystack: Seq<char>, needle: Seq<char>) -> bool {
    exists|i: int|
        0 <= i && i + needle.len() <= haystack.len() && #[trigger] haystack.subrange(
            i,
            i + needle.len(),
        ) == needle
}

/// `text` in lower case, as the standard library's `str::to_lowercase`
/// writes it.
pub uninterp spec fn spec_lowercase(text: Seq<char>) -> Seq<char>;

/// Whether the bytes `a` come before the bytes `b`: at the first place
/// where they differ `a` has the smaller byte, or `a` ends there and `b`
/// goes on.
pub open spec fn spec_bytes_less(a: Seq<u8>, b: Seq<u8>) -> bool
    decreases a.len(),
{
    if b.len() == 0 {
        false
    } else if a.len() == 0 {
        true
    } else if a[0] != b[0] {
        a[0] < b[0]
    } else {
        spec_bytes_less(a.drop_first(), b.drop_first())
    }
}

/// Whether the text `a` comes before the text `b`, by the bytes of their
/// UTF-8 forms.
pub open spec fn spec_text_less(a: Seq<char>, b: Seq<char>) -> bool {
    spec_bytes_less(encode_utf8(a), encode_utf8(b))
}

/// `str::contains` of the standard library, for a string pattern: true
/// exactly when the pattern occurs somewhere in the text.
#[verifier::external_body]
pub(crate) fn contains_text(haystack: &str, needle: &str) -> (found: bool)
    ensures
        found == spec_contains(haystack@, needle@),
{
    haystack.contains(needle)
}

/// `str::to_lowercase` of the standard library.  The result depends on the
/// text alone; which characters it changes is the library's business.
#[verifier::external_body]
pub(crate) fn lowercase_text(text: &str) -> (lower: String)
    ensures
        lower@ == spec_lowercase(text@),
{
    text.to_lowercase()
}

/// The order `<` of the standard library on `str`, which compares strings
/// byte by byte.
#[verifier::external_body]
pub(crate) fn text_less(a: &str, b: &str) -> (less: bool)
    ensures
        less == spec_text_less(a@, b@),
{
    a < b
}

/// No bytes come before themselves.
pub proof fn lemma_bytes_less_irreflexive(a: Seq<u8>)
    ensures
        !spec_bytes_less(a, a),
    decreases a.len(),
{
    if a.len() > 0 {
        lemma_bytes_less_irreflexive(a.drop_first());
    }
}

/// What comes before something that comes before a third comes before the
/// third.
pub proof fn lemma_bytes_less_transitive(a: Seq<u8>, b: Seq<u8>, c: Seq<u8>)
    requires
        spec_bytes_less(a, b),
        spec_bytes_less(b, c),
    ensures
        spec_bytes_less(a, c),
    decreases a.len(),
{
    if a.len() > 0 && b.len() > 0 && c.len() > 0 {
        if a[0] == b[0] && b[0] == c[0] {
            lemma_bytes_less_transitive(a.drop_first(), b.drop_first(), c.drop_first());
        }
    }
}

/// Of two different runs of bytes one comes before the other.
pub proof fn lemma_bytes_less_total(a: Seq<u8>, b: Seq<u8>)
    ensures
        a == b || spec_bytes_less(a, b) || spec_bytes_less(b, a),
    decreases a.len(),
{
    if a.len() == 0 || b.len() == 0 {
        if a.len() == 0 && b.len() == 0 {
            assert(a =~= b);
        }
    } else if a[0] == b[0] {
        lemma_bytes_less_total(a.drop_first(), b.drop_first());
        if a.drop_first() == b.drop_first() {
            assert(a =~= seq![a[0]] + a.drop_first());
            assert(b =~= seq![b[0]] + b.drop_first());
        }
    }
}

/// What does not come after something that does not come after a third
/// does not come after the third.
pub proof fn lemma_bytes_not_less_transitive(a: Seq<u8>, b: Seq<u8>, c: Seq<u8>)
    requires
        !spec_bytes_less(b, a),
        !spec_bytes_less(c, b),
    ensures
        !spec_bytes_less(c, a),
{
    lemma_bytes_less_total(a, b);
    lemma_bytes_less_total(b, c);
    lemma_bytes_less_irreflexive(a);
    if spec_bytes_less(c, a) {
        if a == b {
        } else if b == c {
        } else {
            lemma_bytes_less_transitive(c, a, b);
            lemma_bytes_less_transitive(b, c, b);
            lemma_bytes_less_irreflexive(b);
        }
    }
}

/// Whether `text` begins with `prefix`.
pub open spec fn spec_starts_with(text: Seq<char>, prefix: Seq<char>) -> bool {
    prefix.len() <= text.len() && text.subrange(0, prefix.len() as int) == prefix
}

/// `text` without `prefix` at its start, however often it stands there.
pub open spec fn spec_trim_start(text: Seq<char>, prefix: Seq<char>) -> Seq<char>
    decreases text.len(),
{
    if prefix.len() > 0 && spec_starts_with(text, prefix) {
        spec_trim_start(text.skip(prefix.len() as int), prefix)
    } else {
        text
    }
}

/// Whether `text` begins with `prefix`.
pub fn starts_with_text(text: &str, prefix: &str) -> (starts: bool)
    ensures
        starts == spec_starts_with(text@, prefix@),
{
    let prefix_len: usize = prefix.unicode_len();
    if prefix_len > text.unicode_len() {
        return false;
    }
    let mut i: usize = 0;
    while i < prefix_len
        invariant
            0 <= i <= prefix_len,
            prefix_len == prefix@.len(),
            prefix_len <= text@.len(),
            forall|j: int| 0 <= j < i ==> text@[j] == prefix@[j],
        decreases prefix_len - i,
    {
        if text.get_char(i) != prefix.get_char(i) {
            assert(text@.subrange(0, prefix@.len() as int)[i as int] != prefix@[i as int]);
            return false;
        }
        i += 1;
    }
    assert(text@.subrange(0, prefix@.len() as int) =~= prefix@);
    true
}

/// `text` without `prefix` at its start, however often it stands there.
pub fn trim_start_text<'a>(text: &'a str, prefix: &str) -> (rest: &'a str)
    ensures
        rest@ == spec_trim_start(text@, prefix@),
{
    let prefix_len: usize = prefix.unicode_len();
    if prefix_len == 0 {
        return text;
    }
    let mut rest: &'a str = text;
    while starts_with_text(rest, prefix)
        invariant
            prefix_len == prefix@.len(),
            prefix_len > 0,
            spec_trim_start(rest@, prefix@) == spec_trim_start(text@, prefix@),
        decreases rest@.len(),
    {
        let rest_len: usize = rest.unicode_len();
        let shorter: &'a str = rest.substring_char(prefix_len, rest_len);
        assert(shorter@ =~= rest@.skip(prefix_len as int));
        rest = shorter;
    }
    rest
}

} // verus!
