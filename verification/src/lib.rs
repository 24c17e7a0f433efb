//! ANSI terminal text control.
//!
//! Builds the control sequences with which a program asks an ANSI terminal
//! for text effects (colour, boldness, underline, ...), and answers whether
//! such sequences are currently safe to emit on a given standard stream.
//!
//! A control sequence has the form `ESC '[' codes 'm'`, where `codes` is one
//! or more decimal numbers separated by `;`. The builder functions in
//! [`builder`] render a list of code numbers into that form; the [`support`]
//! module holds the per-stream capability check; [`predefined`] offers the
//! common sequences ready-made.

use vstd::prelude::*;

pub mod builder;
pub mod predefined;
pub mod support;

pub use support::fmt_supported_stderr;
pub use support::fmt_supported_stdout;
pub use support::use_fmt_stderr;
pub use support::use_fmt_stdout;
pub use support::StdPipe;

verus! {

/// The single escape character that opens every control sequence.
pub open spec fn esc_char() -> char {
    '\u{1B}'
}

} // verus!
