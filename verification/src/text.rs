//! Comparing string slices, and what may stand in an HTTP header.

use vstd::prelude::*;

verus! {

/// `PartialEq::eq` of std on string slices: two slices are equal exactly if
/// they hold the same characters.
pub assume_specification[ <str as PartialEq>::eq ](a: &str, b: &str) -> (r: bool)
    ensures
        r == (a@ == b@),
;

/// Whether a character may stand in the value of an HTTP header: a tab, or
/// anything from the space on but the delete character.
pub open spec fn is_header_char(c: char) -> bool {
    c == '\t' || (c as u32 >= 32 && c as u32 != 127)
}

/// Whether a text can be the value of an HTTP header.
pub open spec fn is_header_text(text: Seq<char>) -> bool {
    forall|i: int| 0 <= i < text.len() ==> is_header_char(#[trigger] text[i])
}

/// Whether a text can be the value of an HTTP header.
pub fn is_header_value(text: &str) -> (r: bool)
    ensures
        r == is_header_text(text@),
{
    let n = text.unicode_len();
    let mut i: usize = 0;
    while i < n
        invariant
            n == text@.len(),
            i <= n,
            forall|j: int| 0 <= j < i ==> is_header_char(#[trigger] text@[j]),
        decreases n - i,
    {
        let c = text.get_char(i);
        if !(c == '\t' || (c as u32 >= 32 && c as u32 != 127)) {
            return false;
        }
        i += 1;
    }
    true
}

} // verus!
