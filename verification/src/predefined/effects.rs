//! Text-effect sequences: codes 1 to 9 apply an effect, 20 and 21 the rarer
//! ones, and 22 to 29 remove specific effects again.

use vstd::prelude::*;

use crate::builder::sequence_of;
use crate::predefined::one_code;

verus! {

/// Bold (increased intensity): code 1.
pub fn bold() -> (r: String)
    ensures
        r@ == sequence_of(seq![1u8]),
{
    one_code(1)
}

/// Dim, also called faint (decreased intensity): code 2.
pub fn dim() -> (r: String)
    ensures
        r@ == sequence_of(seq![2u8]),
{
    one_code(2)
}

/// Italic: code 3.
pub fn italic() -> (r: String)
    ensures
        r@ == sequence_of(seq![3u8]),
{
    one_code(3)
}

/// Underline: code 4.
pub fn underline() -> (r: String)
    ensures
        r@ == sequence_of(seq![4u8]),
{
    one_code(4)
}

/// Blink: code 5.
pub fn blink() -> (r: String)
    ensures
        r@ == sequence_of(seq![5u8]),
{
    one_code(5)
}

/// Rapid-blink: code 6. Reserved; terminals rarely honour it.
pub fn rapid_blink() -> (r: String)
    ensures
        r@ == sequence_of(seq![6u8]),
{
    one_code(6)
}

/// Inverse (swap foreground and background colours): code 7.
pub fn inverse() -> (r: String)
    ensures
        r@ == sequence_of(seq![7u8]),
{
    one_code(7)
}

/// Invisible (hidden): code 8.
pub fn invisible() -> (r: String)
    ensures
        r@ == sequence_of(seq![8u8]),
{
    one_code(8)
}

/// Strike-through: code 9.
pub fn strike() -> (r: String)
    ensures
        r@ == sequence_of(seq![9u8]),
{
    one_code(9)
}

/// Fraktur: code 20.
pub fn fraktur() -> (r: String)
    ensures
        r@ == sequence_of(seq![20u8]),
{
    one_code(20)
}

/// Double-underline: code 21.
pub fn dbl_underline() -> (r: String)
    ensures
        r@ == sequence_of(seq![21u8]),
{
    one_code(21)
}

/// Removes bold and dim together: code 22.
pub fn remove_bold_dim() -> (r: String)
    ensures
        r@ == sequence_of(seq![22u8]),
{
    one_code(22)
}

/// Removes italic: code 23.
pub fn remove_italic() -> (r: String)
    ensures
        r@ == sequence_of(seq![23u8]),
{
    one_code(23)
}

/// Removes underline: code 24.
pub fn remove_underline() -> (r: String)
    ensures
        r@ == sequence_of(seq![24u8]),
{
    one_code(24)
}

/// Removes blink (steady): code 25.
pub fn remove_blink() -> (r: String)
    ensures
        r@ == sequence_of(seq![25u8]),
{
    one_code(25)
}

/// Removes inverse (positive): code 27. Code 26 is reserved and has no
/// sequence here.
pub fn remove_inverse() -> (r: String)
    ensures
        r@ == sequence_of(seq![27u8]),
{
    one_code(27)
}

/// Removes invisible (visible): code 28.
pub fn remove_invisible() -> (r: String)
    ensures
        r@ == sequence_of(seq![28u8]),
{
    one_code(28)
}

/// Removes strike-through: code 29.
pub fn remove_strike() -> (r: String)
    ensures
        r@ == sequence_of(seq![29u8]),
{
    one_code(29)
}

} // verus!
