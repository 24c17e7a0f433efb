//! Combined sequences: several codes carried in one sequence rather than
//! two sequences back to back.

use vstd::prelude::*;

use crate::builder::sequence_of;
use crate::predefined::colour_offset;
use crate::predefined::two_codes;
use crate::predefined::Colour;

verus! {

/// A text (foreground) colour combined with bold, in one sequence: the
/// colour's code followed by code 1.
pub fn fg_bold(c: Colour) -> (r: String)
    ensures
        r@ == sequence_of(seq![(30 + colour_offset(c)) as u8, 1u8]),
{
    two_codes(30 + c.offset(), 1)
}

} // verus!
