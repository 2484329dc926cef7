//! Comparison and copying of text.

use vstd::prelude::*;
use vstd::string::StringSliceAdditionalSpecFns;
use vstd::utf8::encode_utf8_decode_utf8;

verus! {

/// Two texts have the same encoding exactly when they are the same text.
pub proof fn lemma_same_bytes_same_text(a: Seq<char>, b: Seq<char>)
    ensures
        vstd::utf8::encode_utf8(a) == vstd::utf8::encode_utf8(b) <==> a == b,
{
    encode_utf8_decode_utf8(a);
    encode_utf8_decode_utf8(b);
}

/// Whether `a` and `b` hold the same characters.
pub fn same_text(a: &str, b: &str) -> (same: bool)
    ensures
        same == (a@ == b@),
{
    let left = a.as_bytes();
    let right = b.as_bytes();
    proof {
        lemma_same_bytes_same_text(a@, b@);
    }
    if left.len() != right.len() {
        return false;
    }
    let mut i: usize = 0;
    while i < left.len()
        invariant
            i <= left.len(),
            left.len() == right.len(),
            forall|j: int| 0 <= j < i ==> left@[j] == right@[j],
            left@ == a.spec_bytes(),
            right@ == b.spec_bytes(),
            a.spec_bytes() == b.spec_bytes() <==> a@ == b@,
        decreases left.len() - i,
    {
        if left[i] != right[i] {
            return false;
        }
        i = i + 1;
    }
    assert(left@ =~= right@);
    true
}

/// The texts that a list of string slices holds.
pub open spec fn texts_of(slices: Seq<&'static str>) -> Seq<Seq<char>> {
    Seq::new(slices.len(), |i: int| slices[i]@)
}

/// Owned copies of the texts in `slices`, in the same order.
pub fn owned_texts<const N: usize>(slices: &[&'static str; N]) -> (texts: Vec<String>)
    ensures
        texts.deep_view() == texts_of(slices@),
{
    let mut texts: Vec<String> = Vec::new();
    let mut i: usize = 0;
    while i < N
        invariant
            i <= N,
            slices@.len() == N,
            texts.len() == i,
            forall|j: int| 0 <= j < i ==> texts[j]@ == slices@[j]@,
        decreases N - i,
    {
        texts.push(String::from_str(slices[i]));
        i = i + 1;
    }
    texts
}

/// Copies of the texts in `texts`, in the same order.
pub fn copied_texts(texts: &Vec<String>) -> (copies: Vec<String>)
    ensures
        copies.deep_view() == texts.deep_view(),
{
    let mut copies: Vec<String> = Vec::new();
    let mut i: usize = 0;
    while i < texts.len()
        invariant
            i <= texts.len(),
            copies.len() == i,
            forall|j: int| 0 <= j < i ==> copies[j]@ == texts[j]@,
        decreases texts.len() - i,
    {
        copies.push(texts[i].clone());
        i = i + 1;
    }
    assert(copies.deep_view() =~= texts.deep_view());
    copies
}

} // verus!
