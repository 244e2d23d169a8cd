//! Unicode knowledge taken from `std` and `unicode-segmentation`: character
//! classes, case mappings and grapheme cluster segmentation.
use unicode_segmentation::UnicodeSegmentation;
use vstd::prelude::*;

verus! {

/// Whether `char::is_numeric` holds of the character (Unicode `Nd`, `Nl`, `No`).
pub uninterp spec fn numeric_char(c: char) -> bool;

/// Whether `char::is_alphabetic` holds of the character (Unicode `Alphabetic`).
pub uninterp spec fn alphabetic_char(c: char) -> bool;

/// Whether `char::is_lowercase` holds of the character (Unicode `Lowercase`).
pub uninterp spec fn lowercase_char(c: char) -> bool;

/// Whether `char::is_uppercase` holds of the character (Unicode `Uppercase`).
pub uninterp spec fn uppercase_char(c: char) -> bool;

/// The characters that `char::to_uppercase` yields for the character.
pub uninterp spec fn upper_of(c: char) -> Seq<char>;

/// The characters that `char::to_lowercase` yields for the character.
pub uninterp spec fn lower_of(c: char) -> Seq<char>;

/// The extended grapheme clusters of a text, in order, as found by
/// `unicode-segmentation`.
pub uninterp spec fn graphemes_of(t: Seq<char>) -> Seq<Seq<char>>;

/// The concatenation of a sequence of texts, in order.
pub open spec fn joined(parts: Seq<Seq<char>>) -> Seq<char>
    decreases parts.len(),
{
    if parts.len() == 0 {
        Seq::empty()
    } else {
        joined(parts.drop_last()) + parts.last()
    }
}

/// The views of a sequence of string slices.
pub open spec fn views_of(parts: Seq<&str>) -> Seq<Seq<char>> {
    parts.map_values(|g: &str| g@)
}

/// Relies on `char::is_numeric`: the answer depends on the character alone.
#[verifier::external_body]
pub(crate) fn char_is_numeric(c: char) -> (r: bool)
    ensures
        r == numeric_char(c),
{
    c.is_numeric()
}

/// Relies on `char::is_alphabetic`: the answer depends on the character alone.
#[verifier::external_body]
pub(crate) fn char_is_alphabetic(c: char) -> (r: bool)
    ensures
        r == alphabetic_char(c),
{
    c.is_alphabetic()
}

/// Relies on `char::is_alphanumeric`, documented as `is_alphabetic() || is_numeric()`.
#[verifier::external_body]
pub(crate) fn char_is_alphanumeric(c: char) -> (r: bool)
    ensures
        r == (alphabetic_char(c) || numeric_char(c)),
{
    c.is_alphanumeric()
}

/// Relies on `char::is_lowercase`: the answer depends on the character alone.
#[verifier::external_body]
pub(crate) fn char_is_lowercase(c: char) -> (r: bool)
    ensures
        r == lowercase_char(c),
{
    c.is_lowercase()
}

/// Relies on `char::is_uppercase`: the answer depends on the character alone.
#[verifier::external_body]
pub(crate) fn char_is_uppercase(c: char) -> (r: bool)
    ensures
        r == uppercase_char(c),
{
    c.is_uppercase()
}

/// Relies on `char::to_uppercase`: the mapping depends on the character alone.
#[verifier::external_body]
pub(crate) fn char_to_upper(c: char) -> (r: String)
    ensures
        r@ == upper_of(c),
{
    c.to_uppercase().collect::<String>()
}

/// Relies on `char::to_lowercase`: the mapping depends on the character alone.
#[verifier::external_body]
pub(crate) fn char_to_lower(c: char) -> (r: String)
    ensures
        r@ == lower_of(c),
{
    c.to_lowercase().collect::<String>()
}

/// Relies on `UnicodeSegmentation::graphemes` (extended clusters): the
/// clusters depend on the text alone, and as its source shows, each is the
/// slice from one boundary to the next, so together they make up the text.
#[verifier::external_body]
pub(crate) fn graphemes(s: &str) -> (r: Vec<&str>)
    ensures
        views_of(r@) == graphemes_of(s@),
        joined(views_of(r@)) == s@,
{
    UnicodeSegmentation::graphemes(s, true).collect::<Vec<&str>>()
}

/// Relies on `String::push`: appends one character.
#[verifier::external_body]
pub(crate) fn push_char(s: &mut String, c: char)
    ensures
        final(s)@ == old(s)@.push(c),
{
    s.push(c)
}

} // verus!
