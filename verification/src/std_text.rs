//! Contracts of the standard library's text primitives that the crate calls.
use vstd::prelude::*;

verus! {

/// `String::push` appends the character at the end and changes nothing else.
pub assume_specification[ String::push ](text: &mut String, c: char)
    ensures
        final(text)@ == old(text)@.push(c),
;

/// `String::pop` removes the last character and returns it; an empty text stays
/// empty and gives `None`.
pub assume_specification[ String::pop ](text: &mut String) -> (last: Option<char>)
    ensures
        old(text)@.len() == 0 ==> final(text)@ == old(text)@ && last is None,
        old(text)@.len() > 0 ==> final(text)@ == old(text)@.drop_last() && last == Some(
            old(text)@.last(),
        ),
;

/// `char::from_u32` gives the character with that code point, and `None` for a
/// surrogate or a number above the last code point.
pub assume_specification[ char::from_u32 ](code: u32) -> (c: Option<char>)
    ensures
        c == (if code < 0xD800 || 0xE000 <= code <= 0x10FFFF {
            Some(code as char)
        } else {
            None
        }),
;

} // verus!
