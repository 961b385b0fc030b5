//! What this library takes on trust about `String`.

use vstd::prelude::*;

verus! {

/// `String::push` of the standard library, which vstd leaves without a
/// specification. Taken on trust, as its documentation has it: the string
/// afterwards is the string before with `ch` added at its end. As in vstd's
/// specification of `Vec::push`, running out of memory is not modelled.
pub assume_specification[ String::push ](s: &mut String, ch: char)
    ensures
        final(s)@ == old(s)@.push(ch),
;

} // verus!
