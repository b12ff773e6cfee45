//! Texts as sequences of characters.

use vstd::prelude::*;

verus! {

/// Comparing two string slices with `==` compares their characters.
///
/// Trusted: this is what the standard library documents of `str`'s equality.
pub assume_specification[ <str as PartialEq>::eq ](a: &str, b: &str) -> (same: bool)
    ensures
        same == (a@ == b@),
;

/// A text that may be missing, as a mathematical value.
pub open spec fn text_of(text: Option<String>) -> Option<Seq<char>> {
    match text {
        Some(text) => Some(text@),
        None => None,
    }
}

} // verus!
