//! Specifications of standard-library functions that `vstd` leaves out.
//! Verus takes them on trust.

use vstd::prelude::*;

verus! {

/// `String::push` appends the given character to the end of the string
/// and changes nothing else.
pub assume_specification[ String::push ](s: &mut String, c: char)
    ensures
        final(s)@ == old(s)@.push(c),
;

} // verus!
