//! Putting lists of links in order.

use crate::text::{lemma_same_bytes_same_text, str_eq};
use vstd::prelude::*;
use vstd::string::StringSliceAdditionalSpecFns;
use vstd::utf8::encode_utf8;

verus! {

/// `a` stands before `b` in the order of the dictionary, byte by byte.
pub open spec fn precedes(a: Seq<u8>, b: Seq<u8>) -> bool
    decreases a.len(),
{
    if b.len() == 0 {
        false
    } else if a.len() == 0 {
        true
    } else if a[0] != b[0] {
        a[0] < b[0]
    } else {
        precedes(a.drop_first(), b.drop_first())
    }
}

/// The text `a` stands before the text `b`, in the order of their UTF-8 bytes.
pub open spec fn text_precedes(a: Seq<char>, b: Seq<char>) -> bool {
    precedes(encode_utf8(a), encode_utf8(b))
}

/// Each text stands before the texts behind it: the texts are in order, and none
/// stands twice.
pub open spec fn ascending(texts: Seq<Seq<char>>) -> bool {
    forall|i: int, j: int| 0 <= i < j < texts.len() ==> text_precedes(#[trigger] texts[i], #[trigger] texts[j])
}

/// `text` stands among the first `n` texts.
pub open spec fn is_among(texts: Seq<Seq<char>>, n: int, text: Seq<char>) -> bool {
    exists|i: int| 0 <= i < n && #[trigger] texts[i] == text
}

proof fn lemma_precedes_not_itself(a: Seq<u8>)
    ensures
        !precedes(a, a),
    decreases a.len(),
{
    if a.len() > 0 {
        lemma_precedes_not_itself(a.drop_first());
    }
}

proof fn lemma_precedes_chain(a: Seq<u8>, b: Seq<u8>, c: Seq<u8>)
    requires
        precedes(a, b),
        precedes(b, c),
    ensures
        precedes(a, c),
    decreases a.len(),
{
    if a.len() > 0 && b.len() > 0 && c.len() > 0 && a[0] == b[0] && b[0] == c[0] {
        lemma_precedes_chain(a.drop_first(), b.drop_first(), c.drop_first());
    }
}

proof fn lemma_precedes_one_way(a: Seq<u8>, b: Seq<u8>)
    requires
        !precedes(a, b),
        a != b,
    ensures
        precedes(b, a),
    decreases a.len(),
{
    if a.len() > 0 && b.len() > 0 && a[0] == b[0] {
        assert(a.drop_first() != b.drop_first()) by {
            if a.drop_first() == b.drop_first() {
                assert(a =~= seq![a[0]] + a.drop_first());
                assert(b =~= seq![b[0]] + b.drop_first());
            }
        }
        lemma_precedes_one_way(a.drop_first(), b.drop_first());
    } else if a.len() == 0 {
        assert(b.len() > 0) by {
            if b.len() == 0 {
                assert(a =~= b);
            }
        }
    }
}

/// Whether the text `a` stands before the text `b` in the order of their bytes.
pub fn comes_before(a: &str, b: &str) -> (before: bool)
    ensures
        before == text_precedes(a@, b@),
{
    let x = a.as_bytes();
    let y = b.as_bytes();
    let mut i: usize = 0;
    proof {
        assert(x@.skip(0) =~= x@);
        assert(y@.skip(0) =~= y@);
    }
    loop
        invariant
            i <= x@.len(),
            i <= y@.len(),
            x@ == encode_utf8(a@),
            y@ == encode_utf8(b@),
            precedes(x@, y@) == precedes(x@.skip(i as int), y@.skip(i as int)),
        decreases x@.len() - i,
    {
        if i >= y.len() {
            return false;
        }
        if i >= x.len() {
            return true;
        }
        if x[i] != y[i] {
            return x[i] < y[i];
        }
        proof {
            assert(x@.skip(i as int).drop_first() =~= x@.skip(i + 1));
            assert(y@.skip(i as int).drop_first() =~= y@.skip(i + 1));
        }
        i += 1;
    }
}

/// Puts the texts in the order of their bytes and leaves out repetitions: what comes
/// back holds the texts of `arr` and no others, each once, in ascending order.
pub fn unique_and_sort(arr: &[String]) -> (sorted: Vec<String>)
    ensures
        ascending(sorted.deep_view()),
        forall|text: Seq<char>|
            is_among(sorted.deep_view(), sorted.len() as int, text) <==> is_among(
                arr.deep_view(),
                arr@.len() as int,
                text,
            ),
{
    let mut sorted: Vec<String> = Vec::new();
    let mut i: usize = 0;
    while i < arr.len()
        invariant
            i <= arr@.len(),
            ascending(sorted.deep_view()),
            forall|text: Seq<char>|
                is_among(sorted.deep_view(), sorted.len() as int, text) <==> is_among(
                    arr.deep_view(),
                    i as int,
                    text,
                ),
        decreases arr@.len() - i,
    {
        let item = &arr[i];
        assert(arr.deep_view()[i as int] == item@);
        let ghost before = sorted.deep_view();
        let mut at: usize = 0;
        while at < sorted.len() && comes_before(sorted[at].as_str(), item.as_str())
            invariant
                at <= sorted.len(),
                before == sorted.deep_view(),
                forall|k: int| 0 <= k < at ==> text_precedes(#[trigger] before[k], item@),
            decreases sorted.len() - at,
        {
            at += 1;
        }
        let present = at < sorted.len() && str_eq(sorted[at].as_str(), item.as_str());
        assert(before.len() == sorted.len());
        assert(forall|text: Seq<char>|
            is_among(before, before.len() as int, text) <==> is_among(
                arr.deep_view(),
                i as int,
                text,
            ));
        if !present {
            proof {
                assert forall|k: int| at <= k < before.len() implies text_precedes(
                    item@,
                    #[trigger] before[k],
                ) by {
                    let here = before[at as int];
                    if encode_utf8(here) == encode_utf8(item@) {
                        lemma_same_bytes_same_text(here, item@);
                    }
                    lemma_precedes_one_way(encode_utf8(here), encode_utf8(item@));
                    if at < k {
                        lemma_precedes_chain(
                            encode_utf8(item@),
                            encode_utf8(here),
                            encode_utf8(before[k]),
                        );
                    }
                }
                assert forall|k: int| 0 <= k < before.len() implies before[k] != item@ by {
                    lemma_precedes_not_itself(encode_utf8(item@));
                }
            }
            sorted.insert(at, item.clone());
            proof {
                let after = sorted.deep_view();
                assert(after =~= before.insert(at as int, item@));
                assert forall|p: int, q: int| 0 <= p < q < after.len() implies text_precedes(
                    #[trigger] after[p],
                    #[trigger] after[q],
                ) by {
                    if p < at && q > at {
                        assert(after[p] == before[p]);
                        assert(after[q] == before[q - 1]);
                    } else if p < at && q < at {
                        assert(after[p] == before[p] && after[q] == before[q]);
                    } else if p < at {
                        assert(after[p] == before[p]);
                    } else if p == at {
                        assert(after[q] == before[q - 1]);
                    } else {
                        assert(after[p] == before[p - 1] && after[q] == before[q - 1]);
                    }
                }
                assert forall|text: Seq<char>|
                    is_among(after, after.len() as int, text) <==> is_among(
                        arr.deep_view(),
                        i + 1,
                        text,
                    ) by {
                    if is_among(after, after.len() as int, text) {
                        let k = choose|k: int| 0 <= k < after.len() && #[trigger] after[k] == text;
                        if k == at {
                            assert(arr.deep_view()[i as int] == text);
                        } else {
                            let j = if k < at { k } else { k - 1 };
                            assert(before[j] == text);
                            assert(is_among(before, before.len() as int, text));
                            let m = choose|m: int| 0 <= m < i && #[trigger] arr.deep_view()[m] == text;
                            assert(arr.deep_view()[m] == text);
                        }
                    }
                    if is_among(arr.deep_view(), i + 1, text) {
                        let m = choose|m: int| 0 <= m < i + 1 && #[trigger] arr.deep_view()[m] == text;
                        if m == i {
                            assert(after[at as int] == text);
                        } else {
                            assert(is_among(arr.deep_view(), i as int, text));
                            let k = choose|k: int| 0 <= k < before.len() && #[trigger] before[k] == text;
                            let j = if k < at { k } else { k + 1 };
                            assert(after[j] == text);
                        }
                    }
                }
            }
        } else {
            proof {
                assert(before[at as int] == item@);
                assert forall|text: Seq<char>|
                    is_among(before, before.len() as int, text) <==> is_among(
                        arr.deep_view(),
                        i + 1,
                        text,
                    ) by {
                    if is_among(before, before.len() as int, text) {
                        let m = choose|m: int| 0 <= m < i && #[trigger] arr.deep_view()[m] == text;
                        assert(arr.deep_view()[m] == text);
                    }
                    if is_among(arr.deep_view(), i + 1, text) {
                        let m = choose|m: int| 0 <= m < i + 1 && #[trigger] arr.deep_view()[m] == text;
                        if m == i {
                            assert(before[at as int] == text);
                        } else {
                            assert(is_among(arr.deep_view(), i as int, text));
                        }
                    }
                }
            }
        }
        i += 1;
    }
    sorted
}

} // verus!
