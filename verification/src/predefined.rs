//! Ready-made control sequences for the common effects and colours.
//!
//! Every function here renders a fixed code list through the sequence
//! builder, so each call returns the same string: the catalogue is pure
//! data, stable across repeated lookups.

use vstd::prelude::*;

use crate::builder::render_codes;
use crate::builder::sequence_of;

pub mod colours;
pub mod combinations;
pub mod effects;
pub mod fonts;
pub mod misc;

// Alias for the non-British-English speakers.
pub use colours as colors;

verus! {

/// One of the eight colours every basic palette offers, in palette order.
#[derive(Debug, Copy, Clone, PartialEq, Eq, Structural)]
pub enum Colour {
    Black,
    Red,
    Green,
    Yellow,
    Blue,
    Magenta,
    Cyan,
    White,
}

/// The position of a colour within its palette; each palette assigns the
/// code `base + offset`.
pub open spec fn colour_offset(c: Colour) -> u8 {
    match c {
        Colour::Black => 0,
        Colour::Red => 1,
        Colour::Green => 2,
        Colour::Yellow => 3,
        Colour::Blue => 4,
        Colour::Magenta => 5,
        Colour::Cyan => 6,
        Colour::White => 7,
    }
}

impl Colour {
    /// The position of this colour within its palette.
    pub fn offset(self) -> (r: u8)
        ensures
            r == colour_offset(self),
    {
        match self {
            Colour::Black => 0,
            Colour::Red => 1,
            Colour::Green => 2,
            Colour::Yellow => 3,
            Colour::Blue => 4,
            Colour::Magenta => 5,
            Colour::Cyan => 6,
            Colour::White => 7,
        }
    }
}

/// The sequence of a single code.
pub(crate) fn one_code(c: u8) -> (r: String)
    ensures
        r@ == sequence_of(seq![c]),
{
    let codes: Vec<u8> = vec![c];
    proof {
        assert(codes@ =~= seq![c]);
    }
    render_codes(&codes)
}

/// The sequence of two codes.
pub(crate) fn two_codes(a: u8, b: u8) -> (r: String)
    ensures
        r@ == sequence_of(seq![a, b]),
{
    let codes: Vec<u8> = vec![a, b];
    proof {
        assert(codes@ =~= seq![a, b]);
    }
    render_codes(&codes)
}

/// Resets everything to defaults, removing all effects and colours applied
/// so far: the sequence of the single code `0`.
pub fn reset() -> (r: String)
    ensures
        r@ == sequence_of(seq![0u8]),
{
    one_code(0)
}

} // verus!
