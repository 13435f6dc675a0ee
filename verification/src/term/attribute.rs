//! Text attributes.

use super::csi;
use vstd::prelude::*;

verus! {

/// The sequence that swaps foreground and background.
pub open spec fn invert_sequence() -> Seq<char> {
    csi() + seq!['7', 'm']
}

/// The sequence that ends every colour and attribute.
pub open spec fn reset_sequence() -> Seq<char> {
    csi() + seq!['0', 'm']
}

/// The escape sequence that swaps foreground and background.
pub fn invert() -> (r: String)
    ensures
        r@ == invert_sequence(),
{
    proof {
        reveal_strlit("\x1B[7m");
        assert("\x1B[7m"@ =~= invert_sequence());
    }
    "\x1B[7m".to_owned()
}

/// The escape sequence that ends every colour and attribute.
pub fn reset() -> (r: String)
    ensures
        r@ == reset_sequence(),
{
    proof {
        reveal_strlit("\x1B[0m");
        assert("\x1B[0m"@ =~= reset_sequence());
    }
    "\x1B[0m".to_owned()
}

} // verus!
