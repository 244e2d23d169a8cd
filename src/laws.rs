//! Laws that relate the operations.
use crate::model::{
    padded_left, padded_left_pattern, padded_right, padded_right_pattern,
    reversed_text, swapped, swapped_char,
};
use crate::unicode::{graphemes_of, joined, lower_of, lowercase_char, upper_of, uppercase_char};
use vstd::prelude::*;

verus! {

/// Reversing twice gives the text back, whenever the clusters of the reversed
/// text are the clusters of the text in reverse order. (Segmentation is not
/// always symmetric: a lone combining mark before a letter joins that letter
/// once the two are swapped.) The clusters of any text make it up, as
/// `ExtString::reverse` establishes of its argument.
pub proof fn lemma_reverse_twice(t: Seq<char>)
    requires
        joined(graphemes_of(t)) == t,
        graphemes_of(reversed_text(t)) == graphemes_of(t).reverse(),
    ensures
        reversed_text(reversed_text(t)) == t,
{
    assert(graphemes_of(t).reverse().reverse() =~= graphemes_of(t));
}

/// Padding to a length the text already reaches leaves it unchanged, by a
/// character or by a pattern, on either side.
pub proof fn lemma_pad_within_length(t: Seq<char>, pad_len: nat, c: char, p: Seq<char>)
    requires
        pad_len <= t.len(),
    ensures
        padded_left(t, pad_len, c) == t,
        padded_right(t, pad_len, c) == t,
        padded_left_pattern(t, pad_len, p) == t,
        padded_right_pattern(t, pad_len, p) == t,
{
}

/// Padding by a character, or by a non-empty pattern, gives a text whose length
/// is the larger of the target length and the text's own.
pub proof fn lemma_padded_length(t: Seq<char>, pad_len: nat, c: char, p: Seq<char>)
    requires
        p.len() > 0,
    ensures
        padded_left(t, pad_len, c).len() == if pad_len <= t.len() { t.len() } else { pad_len },
        padded_right(t, pad_len, c).len() == if pad_len <= t.len() { t.len() } else { pad_len },
        padded_left_pattern(t, pad_len, p).len() == if pad_len <= t.len() { t.len() } else { pad_len },
        padded_right_pattern(t, pad_len, p).len() == if pad_len <= t.len() { t.len() } else { pad_len },
{
}

/// Padding by an empty pattern leaves the text unchanged, whatever the length.
pub proof fn lemma_empty_pattern(t: Seq<char>, pad_len: nat)
    ensures
        padded_left_pattern(t, pad_len, Seq::empty()) == t,
        padded_right_pattern(t, pad_len, Seq::empty()) == t,
{
}

/// Swapping the case of a text whose characters are neither lowercase nor
/// uppercase leaves it unchanged.
pub proof fn lemma_swap_caseless(t: Seq<char>)
    requires
        forall|i: int| 0 <= i < t.len() ==> !lowercase_char(#[trigger] t[i]) && !uppercase_char(t[i]),
    ensures
        swapped(t) == t,
    decreases t.len(),
{
    if t.len() > 0 {
        lemma_swap_caseless(t.drop_last());
        assert(t.drop_last() + seq![t.last()] =~= t);
    }
}

/// A character whose case mapping is one character of the other case that maps
/// back to it; a character without case qualifies too.
pub open spec fn simple_case(c: char) -> bool {
    if lowercase_char(c) {
        upper_of(c).len() == 1 && !lowercase_char(upper_of(c)[0]) && uppercase_char(upper_of(c)[0])
            && lower_of(upper_of(c)[0]) == seq![c]
    } else if uppercase_char(c) {
        lower_of(c).len() == 1 && lowercase_char(lower_of(c)[0]) && upper_of(lower_of(c)[0]) == seq![c]
    } else {
        true
    }
}

/// Swapping case twice gives the text back when each of its characters has a
/// simple one-to-one case mapping.
pub proof fn lemma_swap_case_twice(t: Seq<char>)
    requires
        forall|i: int| 0 <= i < t.len() ==> simple_case(#[trigger] t[i]),
    ensures
        swapped(swapped(t)) == t,
    decreases t.len(),
{
    if t.len() > 0 {
        let c = t.last();
        assert(simple_case(t[t.len() - 1]));
        lemma_swap_case_twice(t.drop_last());
        let u = swapped(t);
        let d = swapped_char(c)[0];
        assert(swapped_char(c) =~= seq![d]);
        assert(u.drop_last() =~= swapped(t.drop_last()));
        assert(u.last() == d);
        assert(swapped_char(d) =~= seq![c]);
        assert(t.drop_last() + seq![c] =~= t);
    }
}

} // verus!
