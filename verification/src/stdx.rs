//! Specifications for the few standard-library string operations the client relies on.

use vstd::prelude::*;

verus! {

/// `str == str` compares the two strings character by character (std documents
/// string equality as equality of their contents).
pub assume_specification[ <str as PartialEq>::eq ](a: &str, b: &str) -> (r: bool)
    ensures
        r == (a@ == b@),
;

} // verus!
