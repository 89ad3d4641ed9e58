use vstd::prelude::*;

verus! {

/// Calls `String::push`.
///
/// Trusted: the character is appended to the end of the text.
#[verifier::external_body]
pub(crate) fn push_char(text: &mut String, c: char)
    ensures
        final(text)@ == old(text)@.push(c),
{
    text.push(c);
}

/// Calls `String::pop`.
///
/// Trusted: the last character is removed and returned; an empty text stays
/// empty and gives `None`.
#[verifier::external_body]
pub(crate) fn pop_char(text: &mut String) -> (last: Option<char>)
    ensures
        old(text)@.len() == 0 ==> last.is_none() && final(text)@ == old(text)@,
        old(text)@.len() > 0 ==> last == Some(old(text)@.last()) && final(text)@
            == old(text)@.drop_last(),
{
    text.pop()
}

} // verus!
