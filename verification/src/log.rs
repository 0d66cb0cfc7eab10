//! Messages about what the program does. They are switched off.

use vstd::prelude::*;

verus! {

/// Takes a message and drops it.
pub fn log(_message: &str) {
}

} // verus!
