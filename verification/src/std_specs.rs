//! Contracts for the few functions of the standard library that this crate
//! calls and that come without one. Each is believed, not proved.

use std::time::Duration;
use vstd::prelude::*;

verus! {

/// `Duration::clone`: a `Duration` is `Copy`, and its clone is the same
/// length of time.
pub assume_specification[ <Duration as Clone>::clone ](d: &Duration) -> (res: Duration)
    ensures
        res == *d,
;

/// `String::push`: appends one character to the end of the string.
pub assume_specification[ String::push ](s: &mut String, ch: char)
    ensures
        final(s)@ == old(s)@.push(ch),
;

} // verus!
