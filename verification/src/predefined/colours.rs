//! Basic colour sequences: four palettes of eight colours each, selected by
//! a base code plus the colour's offset, and the codes that reset colouring
//! to defaults.

use vstd::prelude::*;

use crate::builder::sequence_of;
use crate::predefined::colour_offset;
use crate::predefined::one_code;
use crate::predefined::two_codes;
use crate::predefined::Colour;

verus! {

/// Text (foreground) colour: codes 30 to 37.
pub fn fg(c: Colour) -> (r: String)
    ensures
        r@ == sequence_of(seq![(30 + colour_offset(c)) as u8]),
{
    one_code(30 + c.offset())
}

/// Background-highlight colour: codes 40 to 47.
pub fn bg(c: Colour) -> (r: String)
    ensures
        r@ == sequence_of(seq![(40 + colour_offset(c)) as u8]),
{
    one_code(40 + c.offset())
}

/// Bright text (foreground) colour: codes 90 to 97.
pub fn fg_bright(c: Colour) -> (r: String)
    ensures
        r@ == sequence_of(seq![(90 + colour_offset(c)) as u8]),
{
    one_code(90 + c.offset())
}

/// Bright background-highlight colour: codes 100 to 107.
pub fn bg_bright(c: Colour) -> (r: String)
    ensures
        r@ == sequence_of(seq![(100 + colour_offset(c)) as u8]),
{
    one_code(100 + c.offset())
}

/// Resets the foreground colour to its default: code 39.
pub fn reset_fg() -> (r: String)
    ensures
        r@ == sequence_of(seq![39u8]),
{
    one_code(39)
}

/// Resets the background-highlight colour to its default: code 49.
pub fn reset_bg() -> (r: String)
    ensures
        r@ == sequence_of(seq![49u8]),
{
    one_code(49)
}

/// Resets both foreground and background colours: codes 39 and 49 in one
/// sequence.
pub fn reset_both() -> (r: String)
    ensures
        r@ == sequence_of(seq![39u8, 49u8]),
{
    two_codes(39, 49)
}

} // verus!
