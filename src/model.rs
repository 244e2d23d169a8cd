//! The meaning of each operation, stated over the characters of a text.
use crate::unicode::{graphemes_of, joined, lowercase_char, lower_of, numeric_char, alphabetic_char, uppercase_char, upper_of};
use vstd::prelude::*;

verus! {

/// The text with its grapheme clusters in reverse order.
pub open spec fn reversed_text(t: Seq<char>) -> Seq<char> {
    joined(graphemes_of(t).reverse())
}

/// `k` copies of the character `c`.
pub open spec fn fill(c: char, k: nat) -> Seq<char> {
    Seq::new(k, |_i: int| c)
}

/// The first `k` characters of the pattern `p` repeated without end.
pub open spec fn cycle(p: Seq<char>, k: nat) -> Seq<char>
    recommends
        p.len() > 0,
{
    Seq::new(k, |i: int| p[i % (p.len() as int)])
}

/// `t` preceded by copies of `c` up to `pad_len` characters in all.
pub open spec fn padded_left(t: Seq<char>, pad_len: nat, c: char) -> Seq<char> {
    if pad_len <= t.len() {
        t
    } else {
        fill(c, (pad_len - t.len()) as nat) + t
    }
}

/// `t` followed by copies of `c` up to `pad_len` characters in all.
pub open spec fn padded_right(t: Seq<char>, pad_len: nat, c: char) -> Seq<char> {
    if pad_len <= t.len() {
        t
    } else {
        t + fill(c, (pad_len - t.len()) as nat)
    }
}

/// `t` preceded by the pattern `p`, cycled, up to `pad_len` characters in all;
/// an empty pattern leaves `t` as it is.
pub open spec fn padded_left_pattern(t: Seq<char>, pad_len: nat, p: Seq<char>) -> Seq<char> {
    if pad_len <= t.len() || p.len() == 0 {
        t
    } else {
        cycle(p, (pad_len - t.len()) as nat) + t
    }
}

/// `t` followed by the pattern `p`, cycled, up to `pad_len` characters in all;
/// an empty pattern leaves `t` as it is.
pub open spec fn padded_right_pattern(t: Seq<char>, pad_len: nat, p: Seq<char>) -> Seq<char> {
    if pad_len <= t.len() || p.len() == 0 {
        t
    } else {
        t + cycle(p, (pad_len - t.len()) as nat)
    }
}

/// A non-empty text whose every character is numeric.
pub open spec fn numeric_text(t: Seq<char>) -> bool {
    t.len() > 0 && forall|i: int| 0 <= i < t.len() ==> numeric_char(#[trigger] t[i])
}

/// A non-empty text whose every character is alphabetic.
pub open spec fn alphabetic_text(t: Seq<char>) -> bool {
    t.len() > 0 && forall|i: int| 0 <= i < t.len() ==> alphabetic_char(#[trigger] t[i])
}

/// A non-empty text whose every character is alphabetic or numeric.
pub open spec fn alphanumeric_text(t: Seq<char>) -> bool {
    t.len() > 0 && forall|i: int|
        0 <= i < t.len() ==> alphabetic_char(#[trigger] t[i]) || numeric_char(t[i])
}

/// What one character becomes when its case is swapped: a lowercase one its
/// uppercase mapping, an uppercase one its lowercase mapping, any other itself.
pub open spec fn swapped_char(c: char) -> Seq<char> {
    if lowercase_char(c) {
        upper_of(c)
    } else if uppercase_char(c) {
        lower_of(c)
    } else {
        seq![c]
    }
}

/// The text with the case of each character swapped.
pub open spec fn swapped(t: Seq<char>) -> Seq<char>
    decreases t.len(),
{
    if t.len() == 0 {
        Seq::empty()
    } else {
        swapped(t.drop_last()) + swapped_char(t.last())
    }
}

} // verus!
