//! An embeddable REPL execution engine: it turns a compiled command grammar
//! into a read-evaluate-print loop that reads one line at a time, parses it
//! against the grammar, and dispatches the decoded command to a user-supplied
//! handler, classifying every failure into a fixed taxonomy and deciding
//! through a pluggable error policy whether the loop continues or terminates.

pub mod dispatch;
pub mod errors;
pub mod grammar;
pub mod policy;
pub mod prompt;
pub mod read_loop;
pub mod tokenize;

pub use dispatch::GrammarTemplate;
pub use dispatch::MatchStep;
pub use dispatch::classify_decode_result;
pub use dispatch::classify_handler_result;
pub use dispatch::classify_match_step;
pub use dispatch::match_line;
pub use errors::GrammarErrorKind;
pub use grammar::engine_match;
pub use grammar::vouched_grammar;
pub use errors::ReplError;
pub use errors::ReplExecutionError;
pub use policy::DefaultErrorHandler;
pub use policy::ErrorHandler;
pub use policy::default_error_handler;
pub use read_loop::LoopControl;
pub use read_loop::LoopState;
pub use read_loop::Signal;
pub use read_loop::classify_signal;
pub use read_loop::route_default;
pub use prompt::DEFAULT_MULTILINE_INDICATOR;
pub use prompt::DEFAULT_PROMPT_INDICATOR;
pub use prompt::DEFAULT_VI_INSERT_PROMPT_INDICATOR;
pub use prompt::DEFAULT_VI_NORMAL_PROMPT_INDICATOR;
pub use prompt::PromptEditMode;
pub use prompt::PromptHistorySearch;
pub use prompt::PromptHistorySearchStatus;
pub use prompt::PromptViMode;
pub use prompt::StaticPrompt;
pub use prompt::StaticPromptIndicators;
pub use tokenize::tokenize;
