//! Comparisons on strings, stated over their UTF-8 bytes.

use vstd::prelude::*;
use vstd::string::StringSliceAdditionalSpecFns;
use vstd::utf8::{decode_utf8, encode_utf8, encode_utf8_decode_utf8, valid_utf8};

verus! {

/// `pattern` stands in `s` at byte offset `at`.
pub open spec fn occurs_at(s: Seq<u8>, pattern: Seq<u8>, at: int) -> bool {
    &&& 0 <= at
    &&& at + pattern.len() <= s.len()
    &&& s.subrange(at, at + pattern.len()) == pattern
}

/// `pattern` stands somewhere in `s`.
pub open spec fn has_infix(s: Seq<u8>, pattern: Seq<u8>) -> bool {
    exists|at: int| occurs_at(s, pattern, at)
}

/// `suffix` stands at the end of `s`.
pub open spec fn has_suffix(s: Seq<u8>, suffix: Seq<u8>) -> bool {
    occurs_at(s, suffix, s.len() - suffix.len())
}

/// The UTF-8 bytes of `s` end with those of `suffix`.
pub open spec fn text_ends_with(s: Seq<char>, suffix: Seq<char>) -> bool {
    has_suffix(encode_utf8(s), encode_utf8(suffix))
}

/// The UTF-8 bytes of `pattern` stand somewhere in those of `s`.
pub open spec fn text_contains(s: Seq<char>, pattern: Seq<char>) -> bool {
    has_infix(encode_utf8(s), encode_utf8(pattern))
}

/// Two texts with the same UTF-8 bytes are the same text.
pub proof fn lemma_same_bytes_same_text(a: Seq<char>, b: Seq<char>)
    requires
        encode_utf8(a) == encode_utf8(b),
    ensures
        a == b,
{
    encode_utf8_decode_utf8(a);
    encode_utf8_decode_utf8(b);
    assert(decode_utf8(encode_utf8(a)) == a);
    assert(decode_utf8(encode_utf8(b)) == b);
}

/// Whether `pattern` stands in `s` at offset `at`.
pub fn matches_at(s: &[u8], pattern: &[u8], at: usize) -> (found: bool)
    requires
        at + pattern@.len() <= s@.len(),
    ensures
        found == occurs_at(s@, pattern@, at as int),
{
    let total: usize = s.len();
    let mut k: usize = 0;
    while k < pattern.len()
        invariant
            k <= pattern@.len(),
            at + pattern@.len() <= s@.len() == total,
            forall|j: int| 0 <= j < k ==> s@[at + j] == pattern@[j],
        decreases pattern@.len() - k,
    {
        if s[at + k] != pattern[k] {
            proof {
                let window = s@.subrange(at as int, at + pattern@.len());
                assert(window[k as int] == s@[at + k]);
            }
            return false;
        }
        k += 1;
    }
    assert(s@.subrange(at as int, at + pattern@.len()) =~= pattern@);
    true
}

/// Whether two texts are the same.
pub fn str_eq(a: &str, b: &str) -> (same: bool)
    ensures
        same == (a@ == b@),
{
    let x = a.as_bytes();
    let y = b.as_bytes();
    if x.len() != y.len() {
        return false;
    }
    let same = matches_at(x, y, 0);
    proof {
        assert(x@.subrange(0, y@.len() as int) =~= x@);
        if same {
            lemma_same_bytes_same_text(a@, b@);
        }
    }
    same
}

/// Whether the bytes of `s` end with the bytes of `suffix`, as `str::ends_with` tells.
pub fn ends_with(s: &str, suffix: &str) -> (found: bool)
    ensures
        found == text_ends_with(s@, suffix@),
{
    let x = s.as_bytes();
    let y = suffix.as_bytes();
    if y.len() > x.len() {
        return false;
    }
    matches_at(x, y, x.len() - y.len())
}

/// Whether the bytes of `pattern` stand somewhere in the bytes of `s`, as `str::contains`
/// tells.
pub fn contains(s: &str, pattern: &str) -> (found: bool)
    ensures
        found == text_contains(s@, pattern@),
{
    let x = s.as_bytes();
    let y = pattern.as_bytes();
    if y.len() > x.len() {
        return false;
    }
    let last: usize = x.len() - y.len();
    let mut at: usize = 0;
    loop
        invariant
            last == x@.len() - y@.len(),
            at <= last,
            x@ == s.spec_bytes(),
            y@ == pattern.spec_bytes(),
            forall|j: int| 0 <= j < at ==> !occurs_at(x@, y@, j),
        decreases last - at,
    {
        if matches_at(x, y, at) {
            assert(occurs_at(x@, y@, at as int));
            return true;
        }
        if at == last {
            return false;
        }
        at += 1;
    }
}

/// The error of `core::str::from_utf8`.
#[verifier::external_type_specification]
#[verifier::external_body]
pub struct ExUtf8Error(core::str::Utf8Error);

/// `core::str::from_utf8` succeeds on the bytes that are valid UTF-8, and on no others;
/// the text it returns is made of the bytes it was given.
pub assume_specification[ core::str::from_utf8 ](v: &[u8]) -> (res: Result<
    &str,
    core::str::Utf8Error,
>)
    ensures
        res is Ok <==> valid_utf8(v@),
        res matches Ok(text) ==> text.spec_bytes() == v@,
;

/// The text that the bytes encode, where they are valid UTF-8.
pub fn decode(bytes: &[u8]) -> (res: Result<&str, core::str::Utf8Error>)
    ensures
        res is Ok <==> valid_utf8(bytes@),
        res matches Ok(text) ==> text@ == decode_utf8(bytes@),
{
    let res = core::str::from_utf8(bytes);
    proof {
        if let Ok(text) = res {
            encode_utf8_decode_utf8(text@);
        }
    }
    res
}

} // verus!
