//! The boundary to the grammar engine (clap).
//!
//! The engine compiles a command schema into a runtime matcher and turns a
//! token list into either raw matches or a structured error. The core calls
//! it only here, through trusted declarations: the matcher and the raw
//! matches are opaque values carried through, and a match failure comes
//! back folded onto the library's own plain-valued taxonomy.

use vstd::prelude::*;

use crate::errors::GrammarErrorKind;
use crate::tokenize::token_views;

verus! {

#[verifier::external_type_specification]
#[verifier::external_body]
pub struct ExCommand(clap::Command);

#[verifier::external_type_specification]
#[verifier::external_body]
pub struct ExArgMatches(clap::ArgMatches);

/// A compiled grammar the host has vouched for: it was built through
/// [`build_command`], so clap's own schema assertions have run and
/// passed, and the host stands behind its value parsers being pure —
/// deterministic, terminating, non-panicking functions of their input, as
/// clap's standard and derive-generated parsers are. Every claim the
/// library makes about the engine's match decision is made only under
/// this predicate.
pub uninterp spec fn vouched_grammar(snapshot: clap::Command) -> bool;

/// What the grammar engine's match step decides for a given compiled
/// grammar and token list: the raw matches on success, or the engine's
/// error kind and rendered message on failure. The decision is claimed
/// to be a function of the grammar and the tokens alone only for
/// [`vouched_grammar`] values, whose value parsers are pure; clap's
/// matcher and its plain-text renderer are then deterministic. In
/// multicall mode clap reads the first token through `Path::file_stem`,
/// so a first token carrying an extension or a path matches its stem,
/// with the platform's path semantics; the decision follows clap's argv0
/// handling there.
pub uninterp spec fn engine_match(snapshot: clap::Command, tokens: Seq<Seq<char>>) -> Result<
    clap::ArgMatches,
    (GrammarErrorKind, Seq<char>),
>;

/// The engine-level view of a match result: the raw matches carried
/// through, a failure's rendered message as its character sequence.
pub open spec fn match_view(r: Result<clap::ArgMatches, (GrammarErrorKind, String)>) -> Result<
    clap::ArgMatches,
    (GrammarErrorKind, Seq<char>),
> {
    match r {
        Ok(matches) => Ok(matches),
        Err((kind, text)) => Err((kind, text@)),
    }
}

/// Relies on clap's `Command::build`: compiles the schema eagerly,
/// running clap's own schema assertions, so a malformed schema — the
/// construction-time fatal error the design allows — fails here, once,
/// and never inside the per-line match step. By building a grammar
/// through this boundary the host vouches for it: the result satisfies
/// [`vouched_grammar`], which also asserts that the host's value parsers
/// are pure (clap cannot check that; it is the host's word).
#[verifier::external_body]
pub(crate) fn build_command(mut command: clap::Command) -> (r: clap::Command)
    ensures
        vouched_grammar(r),
{
    command.build();
    command
}

/// Relies on clap's `Command::clone`: an independent, equal copy of the
/// compiled grammar, read from the original without mutating it and
/// sharing no mutable state with it.
#[verifier::external_body]
pub(crate) fn clone_command(command: &clap::Command) -> (r: clap::Command)
    ensures
        r == *command,
{
    command.clone()
}

/// Relies on clap's `Command::try_get_matches_from_mut`: matches the given
/// tokens against the compiled grammar, returning the raw matches on
/// success and a structured error otherwise. On failure the error is
/// converted in place, since its type cannot be declared here: its kind is
/// read with clap's `Error::kind` (the three help/version display kinds
/// kept apart, every other kind folded onto `Other`) and its message is
/// rendered with clap's `Error::render`. The whole result is the named
/// [`engine_match`] decision for the snapshot's initial state and the
/// tokens: for a vouched grammar, matcher and renderer are deterministic
/// functions of the two. The snapshot must be vouched — built through
/// [`build_command`], so clap's schema assertions have passed and no
/// panicking or impure value parser runs inside the match. The snapshot
/// may be mutated by a failed match, which is why the loop hands in a
/// throwaway clone.
#[verifier::external_body]
pub(crate) fn try_match_tokens(snapshot: &mut clap::Command, tokens: &Vec<String>) -> (r: Result<
    clap::ArgMatches,
    (GrammarErrorKind, String),
>)
    requires
        vouched_grammar(*old(snapshot)),
    ensures
        match_view(r) == engine_match(*old(snapshot), token_views(tokens@)),
{
    match snapshot.try_get_matches_from_mut(tokens.iter().map(|t| t.as_str())) {
        Ok(matches) => Ok(matches),
        Err(error) => {
            let kind = match error.kind() {
                clap::error::ErrorKind::DisplayHelp => GrammarErrorKind::DisplayHelp,
                clap::error::ErrorKind::DisplayVersion => GrammarErrorKind::DisplayVersion,
                clap::error::ErrorKind::DisplayHelpOnMissingArgumentOrSubcommand => {
                    GrammarErrorKind::DisplayHelpOnMissingArgumentOrSubcommand
                },
                _ => GrammarErrorKind::Other,
            };
            Err((kind, format!("{}", error.render())))
        },
    }
}

} // verus!
