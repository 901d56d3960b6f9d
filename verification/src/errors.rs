//! The closed taxonomy of outcomes a dispatch can produce.
//!
//! Every failure path of one read-loop iteration terminates in exactly one
//! variant of [`ReplError`]; classification is total, nothing is silently
//! dropped.

use vstd::prelude::*;

verus! {

/// The kind of a grammar failure, as reported by the grammar engine.
///
/// Help- and version-style outcomes are successfully handled user requests
/// rather than malformed lines; the default policy treats every grammar
/// failure as recoverable, and these kinds let a policy or a log sink tell
/// the two apart.
#[derive(Clone, Copy, Debug, PartialEq, Eq, Structural)]
pub enum GrammarErrorKind {
    /// The line was a request to display help text.
    DisplayHelp,
    /// The line was a request to display version text.
    DisplayVersion,
    /// Help text was displayed because a required argument or subcommand
    /// was missing.
    DisplayHelpOnMissingArgumentOrSubcommand,
    /// Any other grammar failure: unknown command, bad argument, and so on.
    Other,
}

/// The classified outcome of one read-loop iteration that did not end in
/// plain success.
///
/// `E` is the host-chosen error type a handler may return.
#[derive(Debug)]
pub enum ReplError<E> {
    /// The line source signaled an interrupt.
    Interrupt,
    /// The line source signaled end of input.
    EOF,
    /// The line failed grammar matching; carries the engine's error kind and
    /// its rendered message.
    Clap(GrammarErrorKind, String),
    /// The line matched the grammar but could not be decoded into a typed
    /// command; carries the rendered message.
    Parse(String),
    /// The handler panicked; the opaque payload never crosses into the
    /// verified core and is inspected no further than "one occurred".
    Panic,
    /// The line source failed with an I/O error; carries its message.
    Io(String),
    /// The handler returned a typed failure.
    ExecutionError(E),
}

/// Marker for error types a handler may return: anything that can be
/// debugged and displayed by the host.
pub trait ReplExecutionError: core::fmt::Debug + core::fmt::Display {
}

impl<T: core::fmt::Debug + core::fmt::Display> ReplExecutionError for T {
}

} // verus!
