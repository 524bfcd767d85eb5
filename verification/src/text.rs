//! Texts as sequences of characters, and the search for one text inside
//! another.

use vstd::prelude::*;
use vstd::utf8::*;

verus! {

/// The views of a sequence of strings, in order.
pub open spec fn texts(strings: Seq<String>) -> Seq<Seq<char>> {
    strings.map_values(|s: String| s@)
}

/// The view of a string that may be absent.
pub open spec fn text_of(string: Option<String>) -> Option<Seq<char>> {
    match string {
        Some(s) => Some(s@),
        None => None,
    }
}

/// `needle` appears in `hay` starting at index `at`.
pub open spec fn occurs_at<T>(needle: Seq<T>, hay: Seq<T>, at: int) -> bool {
    &&& 0 <= at
    &&& at + needle.len() <= hay.len()
    &&& hay.subrange(at, at + needle.len()) =~= needle
}

/// `needle` appears somewhere in `hay` as a contiguous run. The empty
/// sequence occurs in every sequence.
pub open spec fn occurs_in<T>(needle: Seq<T>, hay: Seq<T>) -> bool {
    exists|at: int| occurs_at(needle, hay, at)
}

/// The first `upto` elements of `needle` agree with `hay` from `at` on.
spec fn agrees<T>(needle: Seq<T>, hay: Seq<T>, at: int, upto: int) -> bool {
    forall|k: int| 0 <= k < upto ==> hay[at + k] == needle[k]
}

/// Whether `needle` sits in `hay` at index `at`.
fn matches_at(needle: &[u8], hay: &[u8], at: usize) -> (found: bool)
    requires
        at + needle@.len() <= hay@.len() <= usize::MAX,
    ensures
        found == occurs_at(needle@, hay@, at as int),
{
    let mut k: usize = 0;
    while k < needle.len()
        invariant
            k <= needle@.len(),
            at + needle@.len() <= hay@.len() <= usize::MAX,
            agrees(needle@, hay@, at as int, k as int),
        decreases needle@.len() - k,
    {
        if hay[at + k] != needle[k] {
            return false;
        }
        k += 1;
    }
    true
}

/// Whether the bytes of `needle` appear in `hay` as a contiguous run.
pub fn bytes_contain(hay: &[u8], needle: &[u8]) -> (found: bool)
    ensures
        found == occurs_in(needle@, hay@),
{
    if needle.len() == 0 {
        assert(occurs_at(needle@, hay@, 0));
        return true;
    }
    if needle.len() > hay.len() {
        return false;
    }
    let last: usize = hay.len() - needle.len();
    let mut at: usize = 0;
    while at <= last
        invariant
            0 < needle@.len() <= hay@.len() <= usize::MAX,
            last == hay@.len() - needle@.len(),
            at <= last + 1,
            forall|i: int| 0 <= i < at ==> !occurs_at(needle@, hay@, i),
        decreases last + 1 - at,
    {
        if matches_at(needle, hay, at) {
            return true;
        }
        at += 1;
    }
    false
}

/// The encoding of a concatenation is the concatenation of the encodings.
pub proof fn lemma_encode_concat(a: Seq<char>, b: Seq<char>)
    ensures
        encode_utf8(a + b) =~= encode_utf8(a) + encode_utf8(b),
    decreases a.len(),
{
    if a.len() > 0 {
        assert((a + b).drop_first() =~= a.drop_first() + b);
        lemma_encode_concat(a.drop_first(), b);
    }
}

/// Where well-formed bytes begin with a well-formed run, the run ends on a
/// character boundary.
proof fn lemma_boundary_after_prefix(x: Seq<u8>, y: Seq<u8>)
    requires
        valid_utf8(x),
        valid_utf8(x + y),
    ensures
        is_char_boundary(x + y, x.len() as int),
    decreases x.len(),
{
    if x.len() > 0 {
        assert(pop_first_scalar(x + y) =~= pop_first_scalar(x) + y);
        lemma_boundary_after_prefix(pop_first_scalar(x), y);
    }
}

/// A text occurs in another exactly when its encoding occurs in the
/// other's encoding: a match on bytes never starts or ends inside a
/// character.
pub proof fn lemma_text_occurrence(needle: Seq<char>, hay: Seq<char>)
    ensures
        occurs_in(needle, hay) <==> occurs_in(encode_utf8(needle), encode_utf8(hay)),
{
    let enc_needle = encode_utf8(needle);
    let enc_hay = encode_utf8(hay);
    encode_utf8_valid_utf8(needle);
    encode_utf8_valid_utf8(hay);
    encode_utf8_decode_utf8(needle);
    encode_utf8_decode_utf8(hay);
    if occurs_in(needle, hay) {
        let at = choose|at: int| occurs_at(needle, hay, at);
        let before = hay.subrange(0, at);
        let after = hay.subrange(at + needle.len(), hay.len() as int);
        assert(hay =~= before + (needle + after));
        lemma_encode_concat(needle, after);
        lemma_encode_concat(before, needle + after);
        assert(occurs_at(enc_needle, enc_hay, encode_utf8(before).len() as int));
    }
    if occurs_in(enc_needle, enc_hay) {
        if needle.len() == 0 {
            assert(occurs_at(needle, hay, 0));
        } else {
            let at = choose|at: int| occurs_at(enc_needle, enc_hay, at);
            let width = enc_needle.len() as int;
            assert(valid_first_scalar(enc_needle));
            is_char_boundary_iff_not_is_continuation_byte(enc_hay, at);
            valid_utf8_split(enc_hay, at);
            decode_utf8_split(enc_hay, at);
            let tail = enc_hay.subrange(at, enc_hay.len() as int);
            let rest = enc_hay.subrange(at + width, enc_hay.len() as int);
            assert(tail =~= enc_needle + rest);
            lemma_boundary_after_prefix(enc_needle, rest);
            decode_utf8_split(tail, width);
            assert(tail.subrange(0, width) =~= enc_needle);
            let before = decode_utf8(enc_hay.subrange(0, at));
            assert(occurs_at(needle, hay, before.len() as int));
        }
    }
}

/// Whether `needle` appears in `hay` as a contiguous run of characters.
/// The comparison is exact: case and every other difference count.
pub fn text_contains(hay: &str, needle: &str) -> (found: bool)
    ensures
        found == occurs_in(needle@, hay@),
{
    proof {
        lemma_text_occurrence(needle@, hay@);
    }
    bytes_contain(hay.as_bytes(), needle.as_bytes())
}

} // verus!
