//! The dispatcher: one raw line in, one classified decision out.
//!
//! A dispatch runs in stages: blank lines succeed trivially with no
//! handler call; other lines are tokenized and matched against a snapshot
//! of the grammar; matched lines are decoded into a typed command; only a
//! decoded command reaches the handler. The stages that belong to outside
//! collaborators — the grammar engine's decoder and the handler itself —
//! are events here, and [`dispatch_outcome`] states how every combination
//! of events is classified, totally: no failure path is dropped.

use vstd::prelude::*;

use crate::errors::GrammarErrorKind;
use crate::errors::ReplError;
use crate::grammar::build_command;
use crate::grammar::clone_command;
use crate::grammar::engine_match;
use crate::grammar::try_match_tokens;
use crate::grammar::vouched_grammar;
use crate::tokenize::blank;
use crate::tokenize::spec_tokens;
use crate::tokenize::tokenize;

verus! {

/// The grammar decision for one raw line.
pub enum MatchStep {
    /// The line was blank: a trivial success, the grammar was not consulted
    /// and no handler call will occur.
    Skipped,
    /// The line matched the grammar: its raw matches are ready for
    /// decoding.
    Matched(clap::ArgMatches),
    /// The line failed grammar matching: the engine's error kind and its
    /// rendered message; no handler call will occur.
    Failed(GrammarErrorKind, String),
}

/// Whether a grammar decision reports exactly the engine's match
/// decision: the raw matches on success, the engine's kind and rendered
/// message on failure.
pub open spec fn step_matches_engine(
    step: MatchStep,
    decision: Result<clap::ArgMatches, (GrammarErrorKind, Seq<char>)>,
) -> bool {
    match step {
        MatchStep::Skipped => false,
        MatchStep::Matched(matches) => decision == Result::<
            clap::ArgMatches,
            (GrammarErrorKind, Seq<char>),
        >::Ok(matches),
        MatchStep::Failed(kind, text) => decision == Result::<
            clap::ArgMatches,
            (GrammarErrorKind, Seq<char>),
        >::Err((kind, text@)),
    }
}

/// Turn one raw line into a grammar decision against a snapshot of the
/// compiled grammar: a blank line is skipped without consulting the
/// grammar (and without touching the snapshot), any other line is split
/// on whitespace and its tokens are handed to the engine's match step,
/// whose decision is returned unchanged.
///
/// The snapshot must be a vouched grammar — one built through the
/// library's construction boundary, as every [`GrammarTemplate`] clone
/// is — so that no schema assertion or impure value parser fires inside
/// the match. It is a throwaway clone of the canonical grammar; a failed
/// match may leave partial-match state in it, which is discarded with it.
pub fn match_line(snapshot: &mut clap::Command, line: &str) -> (step: MatchStep)
    requires
        vouched_grammar(*old(snapshot)),
    ensures
        step is Skipped <==> blank(line@),
        blank(line@) ==> *final(snapshot) == *old(snapshot),
        !blank(line@) ==> step_matches_engine(
            step,
            engine_match(*old(snapshot), spec_tokens(line@)),
        ),
{
    let tokens = tokenize(line);
    if tokens.len() == 0 {
        MatchStep::Skipped
    } else {
        match try_match_tokens(snapshot, &tokens) {
            Ok(matches) => MatchStep::Matched(matches),
            Err((kind, text)) => MatchStep::Failed(kind, text),
        }
    }
}

/// The canonical compiled grammar, held for the loop's lifetime.
///
/// Every dispatch operates on a private clone of the template, never on
/// the template itself: [`GrammarTemplate::match_fresh`] only reads the
/// canonical grammar, so partial-match state from a failed parse — or
/// anything a handler does to its per-dispatch grammar — never leaks into
/// the next line.
pub struct GrammarTemplate {
    canonical: clap::Command,
}

impl GrammarTemplate {
    /// The canonical compiled grammar this template holds.
    pub closed spec fn canonical_spec(&self) -> clap::Command {
        self.canonical
    }

    /// Whether this template holds a vouched grammar: every template made
    /// by [`GrammarTemplate::new`] does.
    pub open spec fn wf(&self) -> bool {
        vouched_grammar(self.canonical_spec())
    }

    /// Compile the schema and hold it as the canonical template.
    ///
    /// The grammar is built eagerly here, so a malformed schema fails at
    /// construction time — the one fatal error the grammar engine is
    /// allowed — and never inside the per-line dispatch.
    pub fn new(command: clap::Command) -> (template: GrammarTemplate)
        ensures
            template.wf(),
    {
        GrammarTemplate { canonical: build_command(command) }
    }

    /// The grammar stage of one dispatch, run against a fresh private
    /// clone of the canonical template: the decision is the engine's for
    /// the canonical grammar and the line's tokens.
    ///
    /// Returns the decision together with the clone it was made on; the
    /// clone serves as this dispatch's execution-context grammar and is
    /// discarded with it. The template itself is never mutated, so every
    /// dispatch starts from a snapshot equal to it. What state a
    /// non-blank match leaves in the returned clone is left open: it is
    /// the engine's partial-match state, discarded with the dispatch.
    pub fn match_fresh(&self, line: &str) -> (r: (MatchStep, clap::Command))
        requires
            self.wf(),
        ensures
            r.0 is Skipped <==> blank(line@),
            blank(line@) ==> r.1 == self.canonical_spec(),
            !blank(line@) ==> step_matches_engine(
                r.0,
                engine_match(self.canonical_spec(), spec_tokens(line@)),
            ),
    {
        let mut snapshot = clone_command(&self.canonical);
        let step = match_line(&mut snapshot, line);
        (step, snapshot)
    }
}

/// Classify the grammar decision of one dispatch: a skipped blank line is
/// a trivial success with nothing left to do, a grammar failure is its
/// taxonomy variant, and a match hands the raw matches on to the decode
/// stage.
pub fn classify_match_step<E>(step: MatchStep) -> (r: Result<Option<clap::ArgMatches>, ReplError<E>>)
    ensures
        step is Skipped ==> r == Result::<Option<clap::ArgMatches>, ReplError<E>>::Ok(
            Option::<clap::ArgMatches>::None,
        ),
        step matches MatchStep::Matched(matches) ==> r == Result::<
            Option<clap::ArgMatches>,
            ReplError<E>,
        >::Ok(Some(matches)),
        step matches MatchStep::Failed(kind, text) ==> r == Result::<
            Option<clap::ArgMatches>,
            ReplError<E>,
        >::Err(ReplError::Clap(kind, text)),
{
    match step {
        MatchStep::Skipped => Ok(None),
        MatchStep::Matched(matches) => Ok(Some(matches)),
        MatchStep::Failed(kind, text) => Err(ReplError::Clap(kind, text)),
    }
}

/// Classify the decode stage's outcome: a decoded command passes through
/// unchanged, a failure becomes a decode error carrying the rendered
/// message.
pub fn classify_decode_result<C, E>(result: Result<C, String>) -> (r: Result<C, ReplError<E>>)
    ensures
        result matches Ok(command) ==> r == Result::<C, ReplError<E>>::Ok(command),
        result matches Err(text) ==> r == Result::<C, ReplError<E>>::Err(ReplError::Parse(text)),
{
    match result {
        Ok(command) => Ok(command),
        Err(text) => Err(ReplError::Parse(text)),
    }
}

/// Classify what came back from one handler invocation: success stays
/// success, a typed failure becomes an execution error.
pub fn classify_handler_result<E>(result: Result<(), E>) -> (c: Result<(), ReplError<E>>)
    ensures
        result is Ok ==> c == Result::<(), ReplError<E>>::Ok(()),
        result matches Err(e) ==> c == Result::<(), ReplError<E>>::Err(
            ReplError::ExecutionError(e),
        ),
{
    match result {
        Ok(()) => Ok(()),
        Err(error) => Err(ReplError::ExecutionError(error)),
    }
}

/// What the grammar engine's match stage reported for a non-blank line.
pub enum MatchEvent {
    /// The tokens matched the grammar.
    MatchOk,
    /// The tokens failed to match: the engine's kind and rendered message.
    GrammarFailure(GrammarErrorKind, String),
}

/// What the decode stage reported for a matched line.
pub enum DecodeEvent {
    /// The raw matches decoded into a typed command.
    DecodeOk,
    /// The raw matches did not decode: the rendered message.
    DecodeFailure(String),
}

/// What one handler invocation did.
pub enum HandlerEvent<E> {
    /// The handler returned successfully.
    Returned,
    /// The handler returned a typed failure.
    FailedWith(E),
    /// The handler panicked; the panic was caught at the isolation
    /// boundary.
    Panicked,
}

/// Whether a dispatch of `line` reaches the handler: only a non-blank line
/// that matched the grammar and decoded into a typed command does.
pub open spec fn handler_reached(line: Seq<char>, m: MatchEvent, d: DecodeEvent) -> bool {
    &&& !blank(line)
    &&& m is MatchOk
    &&& d is DecodeOk
}

/// The classification of one dispatch, total over every combination of
/// stage events: blank lines succeed trivially; a grammar failure, a decode
/// failure, a handler panic and a typed handler failure each terminate in
/// exactly one taxonomy variant.
pub open spec fn dispatch_outcome<E>(
    line: Seq<char>,
    m: MatchEvent,
    d: DecodeEvent,
    h: HandlerEvent<E>,
) -> Result<(), ReplError<E>> {
    if blank(line) {
        Ok(())
    } else {
        match m {
            MatchEvent::GrammarFailure(kind, text) => Err(ReplError::Clap(kind, text)),
            MatchEvent::MatchOk => match d {
                DecodeEvent::DecodeFailure(text) => Err(ReplError::Parse(text)),
                DecodeEvent::DecodeOk => match h {
                    HandlerEvent::Returned => Ok(()),
                    HandlerEvent::FailedWith(error) => Err(ReplError::ExecutionError(error)),
                    HandlerEvent::Panicked => Err(ReplError::Panic),
                },
            },
        }
    }
}

/// A blank line is a no-op: the handler is never reached and the dispatch
/// is classified as a success, whatever the grammar, decoder or handler
/// would have done.
pub proof fn lemma_blank_line_is_noop<E>(
    line: Seq<char>,
    m: MatchEvent,
    d: DecodeEvent,
    h: HandlerEvent<E>,
)
    requires
        blank(line),
    ensures
        !handler_reached(line, m, d),
        dispatch_outcome(line, m, d, h) == Result::<(), ReplError<E>>::Ok(()),
{
}

/// A line that fails grammar matching never reaches the handler: it is
/// classified as the grammar failure itself, independently of whatever the
/// decode and handler events would have been.
pub proof fn lemma_grammar_failure_never_reaches_handler<E>(
    line: Seq<char>,
    m: MatchEvent,
    d1: DecodeEvent,
    h1: HandlerEvent<E>,
    d2: DecodeEvent,
    h2: HandlerEvent<E>,
)
    requires
        m is GrammarFailure,
        !blank(line),
    ensures
        !handler_reached(line, m, d1),
        m matches MatchEvent::GrammarFailure(kind, text) ==> dispatch_outcome(line, m, d1, h1)
            == Result::<(), ReplError<E>>::Err(ReplError::Clap(kind, text)),
        dispatch_outcome(line, m, d1, h1) == dispatch_outcome(line, m, d2, h2),
{
}

/// A decode failure never reaches the handler either: it is classified as a
/// decode error, independently of the handler event.
pub proof fn lemma_decode_failure_never_reaches_handler<E>(
    line: Seq<char>,
    d: DecodeEvent,
    h1: HandlerEvent<E>,
    h2: HandlerEvent<E>,
)
    requires
        d is DecodeFailure,
        !blank(line),
    ensures
        !handler_reached(line, MatchEvent::MatchOk, d),
        d matches DecodeEvent::DecodeFailure(text) ==> dispatch_outcome(
            line,
            MatchEvent::MatchOk,
            d,
            h1,
        ) == Result::<(), ReplError<E>>::Err(ReplError::Parse(text)),
        dispatch_outcome(line, MatchEvent::MatchOk, d, h1) == dispatch_outcome(
            line,
            MatchEvent::MatchOk,
            d,
            h2,
        ),
{
}

/// A handler panic never escapes as a panic: it is data, classified on the
/// same channel as every other failure.
pub proof fn lemma_panic_is_classified<E>(line: Seq<char>, m: MatchEvent, d: DecodeEvent)
    requires
        handler_reached(line, m, d),
    ensures
        dispatch_outcome(line, m, d, HandlerEvent::<E>::Panicked) == Result::<(),
            ReplError<E>,
        >::Err(ReplError::Panic),
{
}

} // verus!
