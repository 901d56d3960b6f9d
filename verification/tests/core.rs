use repellet::DefaultErrorHandler;
use repellet::ErrorHandler;
use repellet::GrammarErrorKind;
use repellet::GrammarTemplate;
use repellet::classify_decode_result;
use repellet::classify_match_step;
use repellet::LoopControl;
use repellet::MatchStep;
use repellet::ReplError;
use repellet::Signal;
use repellet::classify_handler_result;
use repellet::classify_signal;
use repellet::default_error_handler;
use repellet::match_line;
use repellet::route_default;
use repellet::tokenize;

fn greet_schema() -> clap::Command {
    clap::Command::new("repl")
        .multicall(true)
        .subcommand(
            clap::Command::new("greet").arg(clap::Arg::new("name").required(true)),
        )
        .subcommand(clap::Command::new("panic-test"))
}

#[test]
fn tokenize_empty_line() {
    let tokens = tokenize("");
    assert!(tokens.is_empty());
}

#[test]
fn tokenize_whitespace_only_line() {
    let tokens = tokenize(" \t  \u{3000} ");
    assert!(tokens.is_empty());
}

#[test]
fn tokenize_words() {
    let tokens = tokenize("greet Ada");
    assert_eq!(tokens, vec!["greet".to_string(), "Ada".to_string()]);
}

#[test]
fn tokenize_collapses_runs_and_edges() {
    let tokens = tokenize("  one   two\tthree  ");
    assert_eq!(
        tokens,
        vec!["one".to_string(), "two".to_string(), "three".to_string()]
    );
}

#[test]
fn tokenize_unicode_whitespace_separates() {
    let tokens = tokenize("a\u{3000}b");
    assert_eq!(tokens, vec!["a".to_string(), "b".to_string()]);
}

#[test]
fn default_policy_fatal_variants() {
    assert!(matches!(
        default_error_handler::<String>(ReplError::Interrupt),
        Err(ReplError::Interrupt)
    ));
    assert!(matches!(
        default_error_handler::<String>(ReplError::EOF),
        Err(ReplError::EOF)
    ));
    assert!(matches!(
        default_error_handler::<String>(ReplError::Panic),
        Err(ReplError::Panic)
    ));
    let io = default_error_handler::<String>(ReplError::Io("broken pipe".to_string()));
    match io {
        Err(ReplError::Io(cause)) => assert_eq!(cause, "broken pipe"),
        _ => panic!("an I/O failure must be fatal and kept unchanged"),
    }
}

#[test]
fn default_policy_recoverable_variants() {
    assert!(matches!(
        default_error_handler::<String>(ReplError::Clap(
            GrammarErrorKind::Other,
            "bad line".to_string()
        )),
        Ok(())
    ));
    assert!(matches!(
        default_error_handler::<String>(ReplError::Clap(
            GrammarErrorKind::DisplayHelp,
            "help text".to_string()
        )),
        Ok(())
    ));
    assert!(matches!(
        default_error_handler::<String>(ReplError::Parse("bad field".to_string())),
        Ok(())
    ));
    assert!(matches!(
        default_error_handler::<String>(ReplError::ExecutionError("boom".to_string())),
        Ok(())
    ));
}

#[test]
fn signal_classification() {
    match classify_signal::<String>(Signal::Success("greet Ada".to_string())) {
        Ok(line) => assert_eq!(line, "greet Ada"),
        _ => panic!("a successful read must hand the line on"),
    }
    assert!(matches!(
        classify_signal::<String>(Signal::CtrlC),
        Err(ReplError::Interrupt)
    ));
    assert!(matches!(
        classify_signal::<String>(Signal::CtrlD),
        Err(ReplError::EOF)
    ));
    match classify_signal::<String>(Signal::IoError("closed".to_string())) {
        Err(ReplError::Io(cause)) => assert_eq!(cause, "closed"),
        _ => panic!("an I/O failure must be classified as such"),
    }
}

#[test]
fn handler_result_classification() {
    assert!(matches!(classify_handler_result::<String>(Ok(())), Ok(())));
    match classify_handler_result(Err("boom".to_string())) {
        Err(ReplError::ExecutionError(e)) => assert_eq!(e, "boom"),
        _ => panic!("a typed handler failure must become an execution error"),
    }
}

#[test]
fn scenario_greet_invokes_handler_once() {
    let mut snapshot = greet_schema();
    let step = match_line(&mut snapshot, "greet Ada");
    let matches = match step {
        MatchStep::Matched(matches) => matches,
        _ => panic!("a well-formed line must match the grammar"),
    };
    // Decode stage, as the host's typed decoder would do it.
    let (name, sub) = matches
        .subcommand()
        .expect("a multicall match names a subcommand");
    assert_eq!(name, "greet");
    let who = sub
        .get_one::<String>("name")
        .expect("the required argument must be present");
    assert_eq!(who, "Ada");
    // The handler runs exactly once for the one decoded command.
    let mut invocations = 0;
    let handler_result: Result<(), String> = {
        invocations += 1;
        Ok(())
    };
    assert_eq!(invocations, 1);
    let outcome = classify_handler_result(handler_result);
    assert!(matches!(outcome, Ok(())));
    assert!(matches!(route_default(outcome), LoopControl::Continue));
}

#[test]
fn scenario_blank_line_is_noop() {
    let mut snapshot = greet_schema();
    let step = match_line(&mut snapshot, "");
    assert!(matches!(step, MatchStep::Skipped));
    let step = match_line(&mut snapshot, "   \t ");
    assert!(matches!(step, MatchStep::Skipped));
    let outcome: Result<(), ReplError<String>> = Ok(());
    assert!(matches!(route_default(outcome), LoopControl::Continue));
}

#[test]
fn scenario_unknown_command_is_recoverable() {
    let mut snapshot = greet_schema();
    let step = match_line(&mut snapshot, "foo");
    let (kind, text) = match step {
        MatchStep::Failed(kind, text) => (kind, text),
        _ => panic!("an unknown command must fail grammar matching"),
    };
    assert_eq!(kind, GrammarErrorKind::Other);
    assert!(!text.is_empty());
    let outcome: Result<(), ReplError<String>> = Err(ReplError::Clap(kind, text));
    assert!(matches!(route_default(outcome), LoopControl::Continue));
}

#[test]
fn scenario_help_is_a_display_kind() {
    let mut snapshot = greet_schema();
    let step = match_line(&mut snapshot, "help");
    match step {
        MatchStep::Failed(kind, text) => {
            assert_eq!(kind, GrammarErrorKind::DisplayHelp);
            assert!(text.contains("greet"));
        }
        _ => panic!("a help request surfaces as a display-help grammar outcome"),
    }
}

#[test]
fn scenario_panic_terminates_under_default_policy() {
    let outcome: Result<(), ReplError<String>> = Err(ReplError::Panic);
    assert!(matches!(
        route_default(outcome),
        LoopControl::Terminate(ReplError::Panic)
    ));
}

#[test]
fn scenario_interrupt_terminates_without_dispatch() {
    let classified = classify_signal::<String>(Signal::CtrlC);
    let outcome = match classified {
        Err(error) => Err(error),
        Ok(_) => panic!("an interrupt never hands a line on"),
    };
    assert!(matches!(
        route_default(outcome),
        LoopControl::Terminate(ReplError::Interrupt)
    ));
}

#[test]
fn dispatch_same_line_twice_decodes_equal_commands() {
    let canonical = greet_schema();
    let decode = |snapshot: &mut clap::Command| -> String {
        match match_line(snapshot, "greet Ada") {
            MatchStep::Matched(matches) => {
                let (name, sub) = matches.subcommand().expect("subcommand");
                assert_eq!(name, "greet");
                sub.get_one::<String>("name").expect("name").clone()
            }
            _ => panic!("a well-formed line must match the grammar"),
        }
    };
    let mut first = canonical.clone();
    let mut second = canonical.clone();
    let a = decode(&mut first);
    let b = decode(&mut second);
    assert_eq!(a, b);
}

#[test]
fn match_step_classification() {
    assert!(matches!(
        classify_match_step::<String>(MatchStep::Skipped),
        Ok(None)
    ));
    match classify_match_step::<String>(MatchStep::Failed(
        GrammarErrorKind::Other,
        "no such command".to_string(),
    )) {
        Err(ReplError::Clap(kind, text)) => {
            assert_eq!(kind, GrammarErrorKind::Other);
            assert_eq!(text, "no such command");
        }
        _ => panic!("a grammar failure must classify as its taxonomy variant"),
    }
    let mut snapshot = greet_schema();
    let step = match_line(&mut snapshot, "greet Ada");
    let matches = match classify_match_step::<String>(step) {
        Ok(Some(matches)) => matches,
        _ => panic!("a matched line must hand its raw matches on"),
    };
    assert_eq!(matches.subcommand().expect("subcommand").0, "greet");
}

#[test]
fn decode_result_classification() {
    assert!(matches!(
        classify_decode_result::<u32, String>(Ok(7)),
        Ok(7)
    ));
    match classify_decode_result::<u32, String>(Err("missing field".to_string())) {
        Err(ReplError::Parse(text)) => assert_eq!(text, "missing field"),
        _ => panic!("a decode failure must classify as a decode error"),
    }
}

#[test]
fn default_handler_agrees_with_default_policy() {
    let policy = DefaultErrorHandler;
    assert!(matches!(
        policy.handle(ReplError::<String>::Interrupt),
        Err(ReplError::Interrupt)
    ));
    assert!(matches!(
        policy.handle(ReplError::<String>::Parse("bad field".to_string())),
        Ok(())
    ));
}

#[test]
fn run_surfaces_first_fatal_outcome() {
    let outcomes: Vec<Result<(), ReplError<String>>> = vec![
        Ok(()),
        Err(ReplError::Clap(GrammarErrorKind::Other, "bad line".to_string())),
        Err(ReplError::Panic),
        Err(ReplError::EOF),
    ];
    let mut surfaced: Option<ReplError<String>> = None;
    for outcome in outcomes {
        match route_default(outcome) {
            LoopControl::Continue => {}
            LoopControl::Terminate(error) => {
                surfaced = Some(error);
                break;
            }
        }
    }
    assert!(matches!(surfaced, Some(ReplError::Panic)));
}

#[test]
fn template_dispatches_on_fresh_clones() {
    let template = GrammarTemplate::new(greet_schema());
    // A failed match mutates only the clone it was handed back with.
    let (step, _poisoned) = template.match_fresh("greet");
    assert!(matches!(step, MatchStep::Failed(_, _)));
    // The next dispatch starts from the untouched canonical template.
    let (step, _snapshot) = template.match_fresh("greet Ada");
    assert!(matches!(step, MatchStep::Matched(_)));
    // Blank lines are skipped without consulting the grammar.
    let (step, _snapshot) = template.match_fresh("  ");
    assert!(matches!(step, MatchStep::Skipped));
}

#[test]
fn failed_match_does_not_corrupt_canonical_grammar() {
    let canonical = greet_schema();
    let mut poisoned = canonical.clone();
    assert!(matches!(
        match_line(&mut poisoned, "greet"),
        MatchStep::Failed(_, _)
    ));
    // A fresh clone of the canonical template still matches.
    let mut fresh = canonical.clone();
    assert!(matches!(
        match_line(&mut fresh, "greet Ada"),
        MatchStep::Matched(_)
    ));
}
