//! Miscellaneous sequences: framing effects (codes 51 to 55) and the
//! ideogram effects (codes 60 to 65).

use vstd::prelude::*;

use crate::builder::sequence_of;
use crate::predefined::one_code;

verus! {

/// Framed: code 51.
pub fn framed() -> (r: String)
    ensures
        r@ == sequence_of(seq![51u8]),
{
    one_code(51)
}

/// Encircled: code 52.
pub fn encircled() -> (r: String)
    ensures
        r@ == sequence_of(seq![52u8]),
{
    one_code(52)
}

/// Overlined: code 53.
pub fn overlined() -> (r: String)
    ensures
        r@ == sequence_of(seq![53u8]),
{
    one_code(53)
}

/// Removes framed and encircled together: code 54.
pub fn remove_framed_encircled() -> (r: String)
    ensures
        r@ == sequence_of(seq![54u8]),
{
    one_code(54)
}

/// Removes overlined: code 55.
pub fn remove_overlined() -> (r: String)
    ensures
        r@ == sequence_of(seq![55u8]),
{
    one_code(55)
}

/// Ideogram underline or right-side line: code 60.
pub fn ideogram_underline() -> (r: String)
    ensures
        r@ == sequence_of(seq![60u8]),
{
    one_code(60)
}

/// Ideogram double underline or double line on the right side: code 61.
pub fn ideogram_dbl_underline() -> (r: String)
    ensures
        r@ == sequence_of(seq![61u8]),
{
    one_code(61)
}

/// Ideogram overline or left-side line: code 62.
pub fn ideogram_overline() -> (r: String)
    ensures
        r@ == sequence_of(seq![62u8]),
{
    one_code(62)
}

/// Ideogram double overline or double line on the left side: code 63.
pub fn ideogram_dbl_overline() -> (r: String)
    ensures
        r@ == sequence_of(seq![63u8]),
{
    one_code(63)
}

/// Ideogram stress marking: code 64.
pub fn ideogram_stress_marking() -> (r: String)
    ensures
        r@ == sequence_of(seq![64u8]),
{
    one_code(64)
}

/// Ideogram attributes off: code 65.
pub fn ideogram_reset() -> (r: String)
    ensures
        r@ == sequence_of(seq![65u8]),
{
    one_code(65)
}

} // verus!
