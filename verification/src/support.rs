//! Formatted-output support helpers: whether control sequences are currently
//! safe to emit on a given standard stream.
//!
//! A sequence is safe only when the stream is attached to an interactive
//! terminal that will interpret it; written into a redirected file or pipe it
//! would appear as garbage. The probe is recomputed on every call, never
//! cached: redirection can change between calls and the query is a single
//! cheap system call.

use vstd::prelude::*;

verus! {

/// Identifies one of the three standard streams.
///
/// Capability is only ever granted for `StdOut` and `StdErr`: formatted
/// output is never written to standard input, so `StdIn` is never eligible,
/// whatever it is attached to.
#[derive(Debug, Copy, Clone, PartialEq, Eq, Structural)]
pub enum StdPipe {
    StdIn,
    StdOut,
    StdErr,
}

/// Whether `user_pref` and a probe's verdict together permit formatting:
/// formatting is used exactly when the caller asked for it and the stream
/// supports it.
pub open spec fn spec_should_use(user_pref: bool, supported: bool) -> bool {
    user_pref && supported
}

/// Relies on `atty::is(atty::Stream::Stdout)`: whether the standard-output
/// file descriptor is attached to a terminal device. The answer depends on
/// how the process's streams are wired, so nothing is promised of it.
#[verifier::external_body]
fn stdout_is_tty() -> bool {
    atty::is(atty::Stream::Stdout)
}

/// Relies on `atty::is(atty::Stream::Stderr)`: whether the standard-error
/// file descriptor is attached to a terminal device. The answer depends on
/// how the process's streams are wired, so nothing is promised of it.
#[verifier::external_body]
fn stderr_is_tty() -> bool {
    atty::is(atty::Stream::Stderr)
}

impl StdPipe {
    /// Are format sequences supported on `self` right now?
    ///
    /// `StdIn` yields `false` unconditionally; for the output streams the
    /// answer is the terminal-attachment probe's, `true` only when the
    /// stream is attached to a terminal rather than redirected.
    pub fn fmt_supported(self) -> (r: bool)
        ensures
            self == StdPipe::StdIn ==> r == false,
    {
        match self {
            StdPipe::StdIn => false,
            StdPipe::StdOut => stdout_is_tty(),
            StdPipe::StdErr => stderr_is_tty(),
        }
    }
}

/// Are format sequences supported on stdout? `false` when stdout is not
/// attached to a terminal.
pub fn fmt_supported_stdout() -> bool {
    StdPipe::fmt_supported(StdPipe::StdOut)
}

/// Are format sequences supported on stderr? `false` when stderr is not
/// attached to a terminal.
pub fn fmt_supported_stderr() -> bool {
    StdPipe::fmt_supported(StdPipe::StdErr)
}

/// Combines a caller's preference with a capability verdict already in hand:
/// formatting is used exactly when both say yes. This is the whole decision
/// rule, verified for every value the probe can return.
pub fn should_use(user_pref: bool, supported: bool) -> (r: bool)
    ensures
        r == spec_should_use(user_pref, supported),
{
    user_pref && supported
}

/// Should I use formatting on stdout?
///
/// Combines the caller's preference with the stdout capability check. When
/// the preference is `false` the answer is `false` and the probe is not
/// consulted at all.
pub fn use_fmt_stdout(user_pref: bool) -> (r: bool)
    ensures
        !user_pref ==> r == false,
{
    if !user_pref {
        return false;
    }
    should_use(user_pref, fmt_supported_stdout())
}

/// Should I use formatting on stderr?
///
/// Combines the caller's preference with the stderr capability check. When
/// the preference is `false` the answer is `false` and the probe is not
/// consulted at all.
pub fn use_fmt_stderr(user_pref: bool) -> (r: bool)
    ensures
        !user_pref ==> r == false,
{
    if !user_pref {
        return false;
    }
    should_use(user_pref, fmt_supported_stderr())
}

/// A declined preference settles the matter by itself: whatever a probe
/// would have said, formatting is not used. This is why the probe need not
/// run at all when the caller has opted out.
pub proof fn lemma_preference_short_circuit(supported: bool)
    ensures
        spec_should_use(false, supported) == false,
{
}

} // verus!
