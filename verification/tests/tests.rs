//! Tests for the sequence builder, the predefined catalogue and the
//! stream-capability helpers.

use term_ctrl::builder::build;
use term_ctrl::builder::build_fragment;
use term_ctrl::builder::build_from_fragment;
use term_ctrl::builder::c256_bg;
use term_ctrl::builder::c256_fg;
use term_ctrl::builder::rgb_bg;
use term_ctrl::builder::rgb_fg;
use term_ctrl::builder::BuildError;
use term_ctrl::predefined;
use term_ctrl::predefined::colours;
use term_ctrl::predefined::combinations;
use term_ctrl::predefined::effects;
use term_ctrl::predefined::fonts;
use term_ctrl::predefined::misc;
use term_ctrl::predefined::Colour;
use term_ctrl::fmt_supported_stderr;
use term_ctrl::fmt_supported_stdout;
use term_ctrl::support::should_use;
use term_ctrl::use_fmt_stderr;
use term_ctrl::use_fmt_stdout;
use term_ctrl::StdPipe;

/// Check the sequence builder is available and working correctly
#[test]
fn term_seq() {
    let t = build(&vec![1]).unwrap();
    assert_eq!(t, "\u{1B}[1m");
    let t = build(&vec![1, 2]).unwrap();
    assert_eq!(t, "\u{1B}[1;2m");
    let t = build(&vec![4, 8, 15, 16, 23, 42]).unwrap();
    assert_eq!(t, "\u{1B}[4;8;15;16;23;42m");
}

/// Check a few `predefined` sequences seem to be available and as expected
#[test]
fn predefines() {
    assert_eq!(predefined::reset(), "\u{1B}[0m");
    assert_eq!(effects::bold(), "\u{1B}[1m");
    assert_eq!(colours::fg(Colour::Green), "\u{1B}[32m");
    assert_eq!(combinations::fg_bold(Colour::Green), "\u{1B}[32;1m");
}

// The capability checks answer for the streams as the test harness has wired
// them, tty or redirected, so the tests below assert what holds either way:
// stdin is never eligible, and the helpers agree with the per-pipe check.

#[test]
fn fmt_supported_shortcuts() {
    assert_eq!(
        StdPipe::fmt_supported(StdPipe::StdOut),
        fmt_supported_stdout()
    );
    assert_eq!(
        StdPipe::fmt_supported(StdPipe::StdErr),
        fmt_supported_stderr()
    );
}

#[test]
fn fmt_supported() {
    // Note, stdin obviously never supports formatted output!
    assert_eq!(false, StdPipe::fmt_supported(StdPipe::StdIn));
    assert_eq!(
        StdPipe::fmt_supported(StdPipe::StdOut),
        fmt_supported_stdout()
    );
    assert_eq!(
        StdPipe::fmt_supported(StdPipe::StdErr),
        fmt_supported_stderr()
    );
}

#[test]
fn fmt_supported_withpref() {
    assert_eq!(fmt_supported_stdout(), use_fmt_stdout(true));
    assert_eq!(fmt_supported_stderr(), use_fmt_stderr(true));
    assert_eq!(false, use_fmt_stdout(false));
    assert_eq!(false, use_fmt_stderr(false));
}

#[test]
fn build_rejects_zero_codes() {
    assert_eq!(build(&vec![]), Err(BuildError::InvalidArgument));
    assert_eq!(build_fragment(&vec![]), Err(BuildError::InvalidArgument));
    assert_eq!(build_from_fragment(""), Err(BuildError::InvalidArgument));
}

#[test]
fn build_single_code() {
    assert_eq!(build(&vec![0]).unwrap(), "\u{1B}[0m");
    assert_eq!(build(&vec![107]).unwrap(), "\u{1B}[107m");
    assert_eq!(build(&vec![255]).unwrap(), "\u{1B}[255m");
}

#[test]
fn fragment_decimal_rendering() {
    assert_eq!(build_fragment(&vec![0]).unwrap(), "0");
    assert_eq!(build_fragment(&vec![7]).unwrap(), "7");
    assert_eq!(build_fragment(&vec![10]).unwrap(), "10");
    assert_eq!(build_fragment(&vec![99]).unwrap(), "99");
    assert_eq!(build_fragment(&vec![100]).unwrap(), "100");
    assert_eq!(build_fragment(&vec![250]).unwrap(), "250");
    assert_eq!(build_fragment(&vec![30, 1]).unwrap(), "30;1");
}

#[test]
fn extended_colour_fragments() {
    assert_eq!(c256_fg(238), "38;5;238");
    assert_eq!(c256_bg(238), "48;5;238");
    assert_eq!(rgb_fg(180, 15, 70), "38;2;180;15;70");
    assert_eq!(rgb_bg(180, 15, 70), "48;2;180;15;70");
}

#[test]
fn fragments_embed_into_sequences() {
    assert_eq!(
        build_from_fragment(&c256_fg(238)).unwrap(),
        "\u{1B}[38;5;238m"
    );
    assert_eq!(
        build_from_fragment(&c256_fg(238)).unwrap(),
        build(&vec![38, 5, 238]).unwrap()
    );
    assert_eq!(
        build_from_fragment(&rgb_bg(180, 15, 70)).unwrap(),
        "\u{1B}[48;2;180;15;70m"
    );
    assert_eq!(
        build_from_fragment(&rgb_bg(180, 15, 70)).unwrap(),
        build(&vec![48, 2, 180, 15, 70]).unwrap()
    );
}

#[test]
fn fragments_concatenate() {
    let joined = format!(
        "{};{}",
        build_fragment(&vec![31]).unwrap(),
        build_fragment(&vec![1, 4]).unwrap()
    );
    assert_eq!(joined, build_fragment(&vec![31, 1, 4]).unwrap());
    assert_eq!(build_from_fragment(&joined).unwrap(), "\u{1B}[31;1;4m");
}

#[test]
fn predefined_lookups_are_stable() {
    assert_eq!(predefined::reset(), predefined::reset());
    assert_eq!(effects::bold(), effects::bold());
    assert_eq!(colours::fg(Colour::Red), colours::fg(Colour::Red));
    assert_eq!(
        colours::bg_bright(Colour::White),
        colours::bg_bright(Colour::White)
    );
}

#[test]
fn predefined_catalogue_values() {
    assert_eq!(effects::dim(), "\u{1B}[2m");
    assert_eq!(effects::strike(), "\u{1B}[9m");
    assert_eq!(effects::dbl_underline(), "\u{1B}[21m");
    assert_eq!(effects::remove_bold_dim(), "\u{1B}[22m");
    assert_eq!(fonts::primary(), "\u{1B}[10m");
    assert_eq!(fonts::alternate(5), "\u{1B}[15m");
    assert_eq!(colours::bg(Colour::Cyan), "\u{1B}[46m");
    assert_eq!(colours::fg_bright(Colour::Black), "\u{1B}[90m");
    assert_eq!(colours::bg_bright(Colour::White), "\u{1B}[107m");
    assert_eq!(colours::reset_fg(), "\u{1B}[39m");
    assert_eq!(colours::reset_bg(), "\u{1B}[49m");
    assert_eq!(colours::reset_both(), "\u{1B}[39;49m");
    assert_eq!(misc::framed(), "\u{1B}[51m");
    assert_eq!(misc::ideogram_reset(), "\u{1B}[65m");
    assert_eq!(combinations::fg_bold(Colour::Red), "\u{1B}[31;1m");
}

#[test]
fn should_use_combines_both_answers() {
    assert_eq!(true, should_use(true, true));
    assert_eq!(false, should_use(true, false));
    assert_eq!(false, should_use(false, true));
    assert_eq!(false, should_use(false, false));
}
