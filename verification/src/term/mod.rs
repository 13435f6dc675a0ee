//! Escape sequences that style text on a terminal.

pub mod attribute;
pub mod color;

use vstd::prelude::*;

verus! {

/// The control sequence introducer: the escape character and `[`.
pub open spec fn csi() -> Seq<char> {
    seq!['\x1B', '[']
}

} // verus!
