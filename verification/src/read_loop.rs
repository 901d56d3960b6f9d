//! The read loop's decision core.
//!
//! The loop is a two-state machine, `Running` and `Terminated`, with
//! `Terminated` absorbing. Each iteration reads one [`Signal`] from the
//! line source; a successful read is dispatched, every other signal is
//! itself a classified outcome. The outcome is routed through the error
//! policy, whose decision the loop trusts absolutely: `Continue` keeps the
//! state `Running`, `Terminate` moves it to `Terminated` and surfaces the
//! terminating error to the loop's caller.

use vstd::prelude::*;

use crate::dispatch::DecodeEvent;
use crate::dispatch::HandlerEvent;
use crate::dispatch::MatchEvent;
use crate::dispatch::dispatch_outcome;
use crate::dispatch::handler_reached;
use crate::errors::GrammarErrorKind;
use crate::errors::ReplError;
use crate::errors::ReplExecutionError;
use crate::policy::default_error_handler;
use crate::policy::default_fatal;
use crate::tokenize::blank;

verus! {

/// What the line source reported for one read: exactly one variant per
/// read call.
pub enum Signal {
    /// A logical line of input was read.
    Success(String),
    /// The read was interrupted.
    CtrlC,
    /// The input ended.
    CtrlD,
    /// The read failed with an I/O error; carries its message.
    IoError(String),
}

/// Classify one line-source signal: a successful read hands the line on to
/// the dispatcher, every other signal is itself a classified outcome and
/// the dispatcher is never consulted.
pub fn classify_signal<E>(signal: Signal) -> (r: Result<String, ReplError<E>>)
    ensures
        signal matches Signal::Success(line) ==> r == Result::<String, ReplError<E>>::Ok(line),
        signal is CtrlC ==> r == Result::<String, ReplError<E>>::Err(ReplError::<E>::Interrupt),
        signal is CtrlD ==> r == Result::<String, ReplError<E>>::Err(ReplError::<E>::EOF),
        signal matches Signal::IoError(cause) ==> r == Result::<String, ReplError<E>>::Err(
            ReplError::Io(cause),
        ),
{
    match signal {
        Signal::Success(line) => Ok(line),
        Signal::CtrlC => Err(ReplError::Interrupt),
        Signal::CtrlD => Err(ReplError::EOF),
        Signal::IoError(cause) => Err(ReplError::Io(cause)),
    }
}

/// The policy's decision for one iteration, as the loop consumes it.
pub enum LoopControl<E> {
    /// Keep reading.
    Continue,
    /// Stop the loop and surface this error to its caller.
    Terminate(ReplError<E>),
}

/// How the default policy routes one iteration's outcome: success and
/// recoverable errors continue, fatal errors terminate with the error
/// unchanged.
pub open spec fn default_route<E>(outcome: Result<(), ReplError<E>>) -> LoopControl<E> {
    match outcome {
        Ok(_) => LoopControl::Continue,
        Err(error) => if default_fatal(error) {
            LoopControl::Terminate(error)
        } else {
            LoopControl::Continue
        },
    }
}

/// Route one iteration's outcome through the default error policy.
pub fn route_default<E: ReplExecutionError>(outcome: Result<(), ReplError<E>>) -> (control:
    LoopControl<E>)
    ensures
        control == default_route(outcome),
{
    match outcome {
        Ok(()) => LoopControl::Continue,
        Err(error) => match default_error_handler(error) {
            Ok(()) => LoopControl::Continue,
            Err(fatal) => LoopControl::Terminate(fatal),
        },
    }
}

/// The loop's state: it starts `Running`; `Terminated` ends it.
pub enum LoopState {
    Running,
    Terminated,
}

/// The loop's transition: a terminated loop stays terminated; a running
/// loop terminates exactly when the policy says so.
pub open spec fn next_state<E>(state: LoopState, control: LoopControl<E>) -> LoopState {
    match state {
        LoopState::Terminated => LoopState::Terminated,
        LoopState::Running => match control {
            LoopControl::Continue => LoopState::Running,
            LoopControl::Terminate(_) => LoopState::Terminated,
        },
    }
}

/// `Terminated` is absorbing: no policy decision revives a terminated
/// loop.
pub proof fn lemma_terminated_absorbing<E>(control: LoopControl<E>)
    ensures
        next_state(LoopState::Terminated, control) is Terminated,
{
}

/// What a run of the loop surfaces under the default policy, given the
/// classified outcomes of its successive iterations: the error of the
/// first iteration the policy terminates on, every earlier iteration
/// having been recoverable; `None` when every outcome lets the loop
/// continue.
pub open spec fn first_terminating<E>(outcomes: Seq<Result<(), ReplError<E>>>) -> Option<
    ReplError<E>,
>
    decreases outcomes.len(),
{
    if outcomes.len() == 0 {
        None
    } else {
        match default_route(outcomes[0]) {
            LoopControl::Terminate(error) => Some(error),
            LoopControl::Continue => first_terminating(outcomes.drop_first()),
        }
    }
}

/// Fatal errors are never swallowed and recoverable ones never surface:
/// whatever a run's iterations produced, the error the loop ends with —
/// if it ends — is a fatal one, surfaced unchanged from the iteration the
/// policy terminated on.
pub proof fn lemma_only_fatal_errors_surface<E>(outcomes: Seq<Result<(), ReplError<E>>>)
    ensures
        first_terminating(outcomes) matches Some(error) ==> default_fatal(error),
        first_terminating(outcomes) matches Some(error) ==> exists|i: int|
            0 <= i < outcomes.len() && outcomes[i] == Result::<(), ReplError<E>>::Err(error),
    decreases outcomes.len(),
{
    if outcomes.len() == 0 {
    } else {
        match default_route(outcomes[0]) {
            LoopControl::Terminate(error) => {
                assert(outcomes[0] == Result::<(), ReplError<E>>::Err(error));
            },
            LoopControl::Continue => {
                lemma_only_fatal_errors_surface(outcomes.drop_first());
                match first_terminating(outcomes) {
                    Some(error) => {
                        let i = choose|i: int|
                            0 <= i < outcomes.drop_first().len() && outcomes.drop_first()[i]
                                == Result::<(), ReplError<E>>::Err(error);
                        assert(outcomes[i + 1] == Result::<(), ReplError<E>>::Err(error));
                    },
                    None => {},
                }
            },
        }
    }
}

/// The classified outcome of one whole iteration: what the loop hands the
/// policy, given the signal and, for a successful read, the dispatch
/// events of the line that was read.
pub open spec fn iteration_outcome<E>(
    signal: Signal,
    m: MatchEvent,
    d: DecodeEvent,
    h: HandlerEvent<E>,
) -> Result<(), ReplError<E>> {
    match signal {
        Signal::Success(line) => dispatch_outcome(line@, m, d, h),
        Signal::CtrlC => Err(ReplError::Interrupt),
        Signal::CtrlD => Err(ReplError::EOF),
        Signal::IoError(cause) => Err(ReplError::Io(cause)),
    }
}

/// A blank line keeps the loop running: no handler call, no error
/// surfaced, the default policy continues.
pub proof fn lemma_blank_line_continues<E>(
    line: String,
    m: MatchEvent,
    d: DecodeEvent,
    h: HandlerEvent<E>,
)
    requires
        blank(line@),
    ensures
        iteration_outcome(Signal::Success(line), m, d, h) == Result::<(), ReplError<E>>::Ok(()),
        !handler_reached(line@, m, d),
        default_route(iteration_outcome(Signal::Success(line), m, d, h))
            == LoopControl::<E>::Continue,
        next_state(
            LoopState::Running,
            default_route(iteration_outcome(Signal::Success(line), m, d, h)),
        ) is Running,
{
}

/// A grammar failure is recoverable under the default policy: the handler
/// is never reached and the loop keeps running.
pub proof fn lemma_grammar_failure_continues<E>(
    line: String,
    kind: GrammarErrorKind,
    text: String,
    d: DecodeEvent,
    h: HandlerEvent<E>,
)
    requires
        !blank(line@),
    ensures
        !handler_reached(line@, MatchEvent::GrammarFailure(kind, text), d),
        iteration_outcome(Signal::Success(line), MatchEvent::GrammarFailure(kind, text), d, h)
            == Result::<(), ReplError<E>>::Err(ReplError::Clap(kind, text)),
        default_route(
            iteration_outcome(Signal::Success(line), MatchEvent::GrammarFailure(kind, text), d, h),
        ) == LoopControl::<E>::Continue,
        next_state(
            LoopState::Running,
            default_route(
                iteration_outcome(
                    Signal::Success(line),
                    MatchEvent::GrammarFailure(kind, text),
                    d,
                    h,
                ),
            ),
        ) is Running,
{
}

/// A handler panic is caught as data, and the default policy terminates
/// the loop with that panic surfaced to the caller.
pub proof fn lemma_panic_terminates<E>(line: String, m: MatchEvent, d: DecodeEvent)
    requires
        handler_reached(line@, m, d),
    ensures
        iteration_outcome(Signal::Success(line), m, d, HandlerEvent::<E>::Panicked) == Result::<
            (),
            ReplError<E>,
        >::Err(ReplError::Panic),
        default_route(iteration_outcome(Signal::Success(line), m, d, HandlerEvent::<E>::Panicked))
            == LoopControl::<E>::Terminate(ReplError::Panic),
        next_state(
            LoopState::Running,
            default_route(
                iteration_outcome(Signal::Success(line), m, d, HandlerEvent::<E>::Panicked),
            ),
        ) is Terminated,
{
}

/// An interrupt terminates the loop without the dispatcher ever being
/// consulted: the outcome is the interrupt itself whatever the dispatch
/// events would have been, and the default policy terminates with it.
pub proof fn lemma_interrupt_terminates<E>(
    m1: MatchEvent,
    d1: DecodeEvent,
    h1: HandlerEvent<E>,
    m2: MatchEvent,
    d2: DecodeEvent,
    h2: HandlerEvent<E>,
)
    ensures
        iteration_outcome(Signal::CtrlC, m1, d1, h1) == Result::<(), ReplError<E>>::Err(
            ReplError::Interrupt,
        ),
        iteration_outcome::<E>(Signal::CtrlC, m1, d1, h1) == iteration_outcome::<E>(
            Signal::CtrlC,
            m2,
            d2,
            h2,
        ),
        default_route(iteration_outcome(Signal::CtrlC, m1, d1, h1))
            == LoopControl::<E>::Terminate(ReplError::Interrupt),
        next_state(LoopState::Running, default_route(iteration_outcome(Signal::CtrlC, m1, d1, h1)))
            is Terminated,
{
}

} // verus!
