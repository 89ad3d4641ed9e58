use vstd::prelude::*;
use unicode_width::UnicodeWidthStr;

verus! {

/// The number of terminal columns that a text occupies: wide characters count
/// twice, combining and other zero-width characters not at all.
///
/// The value is the one that `unicode_width` computes; it is left abstract.
pub uninterp spec fn display_width(text: Seq<char>) -> nat;

/// Measures a text with `unicode_width::UnicodeWidthStr::width`.
///
/// Trusted: the result is the display width of the text, a function of its
/// characters alone.
#[verifier::external_body]
pub(crate) fn str_width(text: &str) -> (w: usize)
    ensures
        w as nat == display_width(text@),
{
    text.width()
}

} // verus!
