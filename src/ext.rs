//! The string operations, as methods on `String`.
use crate::model::{
    alphabetic_text, alphanumeric_text, cycle, fill, numeric_text, padded_left, padded_left_pattern,
    padded_right, padded_right_pattern, reversed_text, swapped,
};
use crate::unicode::{
    alphabetic_char, char_is_alphabetic, char_is_alphanumeric, char_is_lowercase, char_is_numeric,
    char_is_uppercase, char_to_lower, char_to_upper, graphemes, graphemes_of, joined, numeric_char,
    push_char, views_of,
};
use vstd::prelude::*;

verus! {

/// Extra operations on `String`. Lengths count Unicode scalar values, not
/// bytes and not grapheme clusters.
pub trait ExtString {
    /// Reverses the order of the grapheme clusters.
    fn reverse(&self) -> String;

    /// Pads the left side with `c` until `pad_len` characters are reached.
    fn pad_left(&self, pad_len: usize, c: char) -> String;

    /// Pads the right side with `c` until `pad_len` characters are reached.
    fn pad_right(&self, pad_len: usize, c: char) -> String;

    /// Pads the left side with `s`, cycled, until `pad_len` characters are reached.
    /// An empty `s` leaves the string as it is.
    fn pad_left_str(&self, pad_len: usize, s: &str) -> String;

    /// Pads the right side with `s`, cycled, until `pad_len` characters are reached.
    /// An empty `s` leaves the string as it is.
    fn pad_right_str(&self, pad_len: usize, s: &str) -> String;

    /// Whether the string is non-empty and all its characters are numeric.
    fn is_numeric(&self) -> bool;

    /// Whether the string is non-empty and all its characters are alphabetic.
    fn is_alphabetic(&self) -> bool;

    /// Whether the string is non-empty and all its characters are alphanumeric.
    fn is_alphanumeric(&self) -> bool;

    /// Swaps uppercase characters to lowercase and the other way round.
    fn swap_case(&self) -> String;
}

/// Joins string slices in reverse order: the last first.
pub fn join_reversed(parts: &Vec<&str>) -> (r: String)
    ensures
        r@ == joined(views_of(parts@).reverse()),
{
    let ghost rev = views_of(parts@).reverse();
    let n = parts.len();
    let mut out = String::new();
    for k in 0..n
        invariant
            n == parts@.len(),
            rev == views_of(parts@).reverse(),
            out@ == joined(rev.subrange(0, k as int)),
    {
        out.append(parts[n - 1 - k]);
        assert(rev.subrange(0, (k + 1) as int).drop_last() =~= rev.subrange(0, k as int));
    }
    assert(rev.subrange(0, n as int) =~= rev);
    out
}

/// Appends `k` characters of the pattern `p`, cycled from its start, to `out`.
fn push_cycled(out: &mut String, p: &str, k: usize)
    requires
        p@.len() > 0,
    ensures
        final(out)@ == old(out)@ + cycle(p@, k as nat),
{
    let len = p.unicode_len();
    for i in 0..k
        invariant
            len == p@.len(),
            len > 0,
            out@ == old(out)@ + cycle(p@, i as nat),
    {
        push_char(out, p.get_char(i % len));
        assert(out@ =~= old(out)@ + cycle(p@, (i + 1) as nat));
    }
}

impl ExtString for String {
    fn reverse(&self) -> (r: String)
        ensures
            r@ == reversed_text(self@),
            joined(graphemes_of(self@)) == self@,
    {
        let g = graphemes(self.as_str());
        join_reversed(&g)
    }

    fn pad_left(&self, pad_len: usize, c: char) -> (r: String)
        ensures
            r@ == padded_left(self@, pad_len as nat, c),
    {
        let count = self.as_str().unicode_len();
        if pad_len <= count {
            return self.clone();
        }
        let repeat = pad_len - count;
        let mut pad = String::new();
        for i in 0..repeat
            invariant
                pad@ == fill(c, i as nat),
        {
            push_char(&mut pad, c);
            assert(pad@ =~= fill(c, (i + 1) as nat));
        }
        pad.append(self.as_str());
        pad
    }

    fn pad_right(&self, pad_len: usize, c: char) -> (r: String)
        ensures
            r@ == padded_right(self@, pad_len as nat, c),
    {
        let count = self.as_str().unicode_len();
        if pad_len <= count {
            return self.clone();
        }
        let repeat = pad_len - count;
        let mut pad = String::new();
        pad.append(self.as_str());
        for i in 0..repeat
            invariant
                pad@ == self@ + fill(c, i as nat),
        {
            push_char(&mut pad, c);
            assert(pad@ =~= self@ + fill(c, (i + 1) as nat));
        }
        pad
    }

    fn pad_left_str(&self, pad_len: usize, s: &str) -> (r: String)
        ensures
            r@ == padded_left_pattern(self@, pad_len as nat, s@),
    {
        let count = self.as_str().unicode_len();
        if pad_len <= count || s.is_empty() {
            return self.clone();
        }
        let mut pad = String::new();
        push_cycled(&mut pad, s, pad_len - count);
        assert(pad@ =~= cycle(s@, (pad_len - count) as nat));
        pad.append(self.as_str());
        pad
    }

    fn pad_right_str(&self, pad_len: usize, s: &str) -> (r: String)
        ensures
            r@ == padded_right_pattern(self@, pad_len as nat, s@),
    {
        let count = self.as_str().unicode_len();
        if pad_len <= count || s.is_empty() {
            return self.clone();
        }
        let mut pad = String::new();
        pad.append(self.as_str());
        push_cycled(&mut pad, s, pad_len - count);
        pad
    }

    fn is_numeric(&self) -> (r: bool)
        ensures
            r == numeric_text(self@),
    {
        if self.as_str().is_empty() {
            return false;
        }
        for c in it: self.as_str().chars()
            invariant
                it.seq() == self@,
                forall|i: int| 0 <= i < it.index() ==> numeric_char(#[trigger] self@[i]),
        {
            if !char_is_numeric(c) {
                return false;
            }
        }
        true
    }

    fn is_alphabetic(&self) -> (r: bool)
        ensures
            r == alphabetic_text(self@),
    {
        if self.as_str().is_empty() {
            return false;
        }
        for c in it: self.as_str().chars()
            invariant
                it.seq() == self@,
                forall|i: int| 0 <= i < it.index() ==> alphabetic_char(#[trigger] self@[i]),
        {
            if !char_is_alphabetic(c) {
                return false;
            }
        }
        true
    }

    fn is_alphanumeric(&self) -> (r: bool)
        ensures
            r == alphanumeric_text(self@),
    {
        if self.as_str().is_empty() {
            return false;
        }
        for c in it: self.as_str().chars()
            invariant
                it.seq() == self@,
                forall|i: int|
                    0 <= i < it.index() ==> alphabetic_char(#[trigger] self@[i]) || numeric_char(
                        self@[i],
                    ),
        {
            if !char_is_alphanumeric(c) {
                return false;
            }
        }
        true
    }

    fn swap_case(&self) -> (r: String)
        ensures
            r@ == swapped(self@),
    {
        let mut s = String::new();
        for c in it: self.as_str().chars()
            invariant
                it.seq() == self@,
                s@ == swapped(self@.subrange(0, it.index())),
        {
            assert(self@.subrange(0, it.index() + 1).drop_last() =~= self@.subrange(0, it.index()));
            if char_is_lowercase(c) {
                let up = char_to_upper(c);
                s.append(up.as_str());
            } else if char_is_uppercase(c) {
                let low = char_to_lower(c);
                s.append(low.as_str());
            } else {
                push_char(&mut s, c);
            }
        }
        assert(self@.subrange(0, self@.len() as int) =~= self@);
        s
    }
}

} // verus!
