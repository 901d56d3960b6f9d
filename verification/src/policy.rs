//! The error policy: given a classified outcome, decide whether the read
//! loop continues or terminates.
//!
//! A policy is invoked once per non-success outcome. The read loop trusts
//! its decision absolutely: `Err` back from the policy terminates the loop
//! and surfaces that error to the caller, `Ok` keeps the loop running.

use vstd::prelude::*;

use crate::errors::ReplError;
use crate::errors::ReplExecutionError;

verus! {

/// Which classified outcomes the default policy treats as fatal: the three
/// structural line-source signals, and a handler panic.
pub open spec fn default_fatal<E>(error: ReplError<E>) -> bool {
    ||| error is Interrupt
    ||| error is EOF
    ||| error is Panic
    ||| error is Io
}

/// The default error policy: terminate on interrupt, end of input, I/O
/// failure and handler panic; continue on grammar failures, decode failures
/// and typed handler failures.
///
/// Returns the error itself exactly when it is fatal, so the loop can
/// surface the terminating error unchanged to its caller.
pub fn default_error_handler<E: ReplExecutionError>(
    error: ReplError<E>,
) -> (r: Result<(), ReplError<E>>)
    ensures
        default_fatal(error) ==> r == Result::<(), ReplError<E>>::Err(error),
        !default_fatal(error) ==> r == Result::<(), ReplError<E>>::Ok(()),
{
    match error {
        ReplError::Interrupt => Err(ReplError::Interrupt),
        ReplError::EOF => Err(ReplError::EOF),
        ReplError::Panic => Err(ReplError::Panic),
        ReplError::Io(cause) => Err(ReplError::Io(cause)),
        ReplError::Clap(_, _) => Ok(()),
        ReplError::Parse(_) => Ok(()),
        ReplError::ExecutionError(_) => Ok(()),
    }
}

/// A pluggable error policy: the host supplies one to the read loop; it is
/// handed each classified non-success outcome and answers `Ok` to keep the
/// loop running or `Err` with the terminating error to stop it.
pub trait ErrorHandler<E> {
    fn handle(&self, error: ReplError<E>) -> Result<(), ReplError<E>>;
}

/// The default policy as a pluggable handler: [`default_error_handler`]
/// with no side effects.
pub struct DefaultErrorHandler;

impl<E: ReplExecutionError> ErrorHandler<E> for DefaultErrorHandler {
    fn handle(&self, error: ReplError<E>) -> Result<(), ReplError<E>> {
        default_error_handler(error)
    }
}

} // verus!
