//! The words of a text: what a command line is split into.

use vstd::prelude::*;
use vstd::std_specs::iter::IteratorSpec;

verus! {

/// Whether `c` is white space: what `char::is_whitespace` says of it.
pub uninterp spec fn is_white_space(c: char) -> bool;

/// Whether `c` is a character of ASCII.
pub open spec fn is_ascii_char(c: char) -> bool {
    (c as u32) < 128
}

/// The white space of ASCII: the space, and the controls from the tab to the
/// carriage return.
pub open spec fn is_ascii_blank(c: char) -> bool {
    c as u32 == 32 || 9 <= c as u32 <= 13
}

/// Whether `c` separates words: by the table above for a character of
/// ASCII, by [`is_white_space`] for any other.
pub open spec fn is_blank(c: char) -> bool {
    if is_ascii_char(c) {
        is_ascii_blank(c)
    } else {
        is_white_space(c)
    }
}

/// What is taken on trust of `char::is_whitespace`: that its answer depends
/// on the character alone, so that it has the name [`is_white_space`]; and
/// that the characters of ASCII with the Unicode property `White_Space`, by
/// which the function is documented to go, are the six of
/// [`is_ascii_blank`].
pub assume_specification[ char::is_whitespace ](c: char) -> (white: bool)
    ensures
        white == is_white_space(c),
        is_ascii_char(c) ==> white == is_ascii_blank(c),
;

/// How many characters at the start of `text` are no white space: the
/// length of the word that `text` begins with.
pub open spec fn leading_word_len(text: Seq<char>) -> nat
    decreases text.len(),
{
    if text.len() > 0 && !is_blank(text[0]) {
        1 + leading_word_len(text.drop_first())
    } else {
        0
    }
}

/// The words of `text`, in order: its maximal runs of characters that are
/// no white space. White space before a word is passed over; a word goes as
/// far as no white space does.
pub open spec fn words_of(text: Seq<char>) -> Seq<Seq<char>>
    decreases text.len(),
    via words_of_decreases
{
    if text.len() == 0 {
        seq![]
    } else if is_blank(text[0]) {
        words_of(text.drop_first())
    } else {
        let len = leading_word_len(text) as int;
        seq![text.take(len)] + words_of(text.skip(len))
    }
}

#[via_fn]
proof fn words_of_decreases(text: Seq<char>) {
    if text.len() > 0 && !is_blank(text[0]) {
        lemma_leading_word_ends(text, leading_word_len(text) as int);
    }
}

/// Whether the first `len` characters of `text` are a word that ends there:
/// none of them is white space, and the text ends after them or goes on
/// with white space.
pub open spec fn is_leading_word(text: Seq<char>, len: int) -> bool {
    &&& 0 <= len <= text.len()
    &&& forall|j: int| 0 <= j < len ==> !is_blank(#[trigger] text[j])
    &&& len == text.len() || is_blank(text[len])
}

/// The word that `text` begins with has the length `len` exactly where the
/// first `len` characters are a word that ends there.
pub proof fn lemma_leading_word_ends(text: Seq<char>, len: int)
    ensures
        len == leading_word_len(text) <==> is_leading_word(text, len),
    decreases text.len(),
{
    if text.len() > 0 && !is_blank(text[0]) {
        let rest = text.drop_first();
        lemma_leading_word_ends(rest, len - 1);
        if len == leading_word_len(text) {
            assert forall|j: int| 0 <= j < len implies !is_blank(#[trigger] text[j]) by {
                if j > 0 {
                    assert(text[j] == rest[j - 1]);
                }
            }
        }
        if is_leading_word(text, len) {
            assert forall|j: int| 0 <= j < len - 1 implies !is_blank(
                #[trigger] rest[j],
            ) by {
                assert(rest[j] == text[j + 1]);
            }
        }
    }
}

/// Every word holds a character, and none that is white space.
pub proof fn lemma_words_hold_no_blank(text: Seq<char>, i: int)
    requires
        0 <= i < words_of(text).len(),
    ensures
        words_of(text)[i].len() > 0,
        forall|j: int|
            0 <= j < words_of(text)[i].len() ==> !is_blank(#[trigger] words_of(text)[i][j]),
    decreases text.len(),
{
    if text.len() == 0 {
    } else if is_blank(text[0]) {
        lemma_words_hold_no_blank(text.drop_first(), i);
    } else {
        let len = leading_word_len(text) as int;
        lemma_leading_word_ends(text, len);
        if i > 0 {
            lemma_words_hold_no_blank(text.skip(len), i - 1);
        }
    }
}

/// The characters from `start` up to `end` are a word of `text` that ends
/// at `end`: the words of `text` from `start` on are that word and the words
/// from `end` on.
proof fn lemma_word_found(text: Seq<char>, start: int, end: int)
    requires
        0 <= start < end <= text.len(),
        forall|j: int| start <= j < end ==> !is_blank(#[trigger] text[j]),
        end == text.len() || is_blank(text[end]),
    ensures
        words_of(text.skip(start)) == seq![text.subrange(start, end)] + words_of(text.skip(end)),
{
    let rest = text.skip(start);
    assert forall|j: int| 0 <= j < end - start implies !is_blank(#[trigger] rest[j]) by {
        assert(rest[j] == text[start + j]);
    }
    assert(is_leading_word(rest, end - start));
    lemma_leading_word_ends(rest, end - start);
    assert(rest.take(end - start) == text.subrange(start, end));
    assert(rest.skip(end - start) == text.skip(end));
}

/// Splits `text` into its words.
pub fn split_words(text: &str) -> (words: Vec<String>)
    ensures
        words.deep_view() == words_of(text@),
{
    let total = text.unicode_len();
    let mut words: Vec<String> = Vec::new();
    let mut start: usize = 0;
    let mut i: usize = 0;
    assert(text@.skip(0) == text@);
    for c in iter: text.chars()
        invariant
            iter.seq() == text@,
            i == iter.index(),
            total == text@.len(),
            start <= i <= total,
            words_of(text@) == words.deep_view() + words_of(text@.skip(start as int)),
            forall|j: int| start <= j < i ==> !is_blank(#[trigger] text@[j]),
    {
        if c.is_whitespace() {
            if start < i {
                let ghost before = words.deep_view();
                let word = text.substring_char(start, i).to_owned();
                words.push(word);
                proof {
                    lemma_word_found(text@, start as int, i as int);
                    assert(words.deep_view() == before.push(word@));
                    assert(before.push(word@) + words_of(text@.skip(i as int)) == before + (seq![
                        word@,
                    ] + words_of(text@.skip(i as int))));
                }
            }
            assert(text@.skip(i as int).drop_first() == text@.skip(i + 1));
            start = i + 1;
        }
        i = i + 1;
    }
    if start < i {
        let ghost before = words.deep_view();
        let word = text.substring_char(start, i).to_owned();
        words.push(word);
        proof {
            lemma_word_found(text@, start as int, i as int);
            assert(words.deep_view() == before.push(word@));
            assert(before.push(word@) == before + (seq![word@] + words_of(text@.skip(i as int))));
        }
    } else {
        assert(words.deep_view() + words_of(text@.skip(start as int)) == words.deep_view());
    }
    words
}

} // verus!
