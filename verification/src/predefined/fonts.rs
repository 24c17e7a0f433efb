//! Font-selection sequences: code 10 selects the primary font, codes 11 to
//! 19 the nine alternate fonts.

use vstd::prelude::*;

use crate::builder::sequence_of;
use crate::predefined::one_code;

verus! {

/// Selects the primary (default) font: code 10.
pub fn primary() -> (r: String)
    ensures
        r@ == sequence_of(seq![10u8]),
{
    one_code(10)
}

/// Selects alternate font `n`, counted from 1 to 9: codes 11 to 19.
pub fn alternate(n: u8) -> (r: String)
    requires
        1 <= n <= 9,
    ensures
        r@ == sequence_of(seq![(10 + n) as u8]),
{
    one_code(10 + n)
}

} // verus!
