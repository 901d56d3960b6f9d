use repellet::PromptEditMode;
use repellet::PromptHistorySearch;
use repellet::PromptHistorySearchStatus;
use repellet::PromptViMode;
use repellet::StaticPrompt;
use repellet::StaticPromptIndicators;

#[test]
fn default_prompt_is_empty_with_standard_indicators() {
    let prompt = StaticPrompt::default();
    assert_eq!(prompt.left, "");
    assert_eq!(prompt.right, "");
    assert_eq!(prompt.indicators.default, "\u{3009}");
    assert_eq!(prompt.indicators.vi_insert, ": ");
    assert_eq!(prompt.indicators.vi_normal, "\u{3009}");
    assert_eq!(prompt.indicators.multiline, "::: ");
}

#[test]
fn default_indicators_standalone() {
    let indicators = StaticPromptIndicators::default();
    assert_eq!(indicators.default, "\u{3009}");
    assert_eq!(indicators.vi_insert, ": ");
    assert_eq!(indicators.vi_normal, "\u{3009}");
    assert_eq!(indicators.multiline, "::: ");
}

#[test]
fn render_left_and_right() {
    let mut prompt = StaticPrompt::default();
    prompt.left = "repl".to_string();
    prompt.right = "…".to_string();
    assert_eq!(prompt.render_prompt_left(), "repl");
    assert_eq!(prompt.render_prompt_right(), "…");
}

#[test]
fn render_indicator_per_mode() {
    let prompt = StaticPrompt::default();
    assert_eq!(
        prompt.render_prompt_indicator(PromptEditMode::Standard),
        "\u{3009}"
    );
    assert_eq!(
        prompt.render_prompt_indicator(PromptEditMode::Emacs),
        "\u{3009}"
    );
    assert_eq!(
        prompt.render_prompt_indicator(PromptEditMode::Vi(PromptViMode::Normal)),
        "\u{3009}"
    );
    assert_eq!(
        prompt.render_prompt_indicator(PromptEditMode::Vi(PromptViMode::Insert)),
        ": "
    );
    assert_eq!(
        prompt.render_prompt_indicator(PromptEditMode::Custom("sql".to_string())),
        "(sql)"
    );
}

#[test]
fn render_multiline_indicator() {
    let prompt = StaticPrompt::default();
    assert_eq!(prompt.render_prompt_multiline_indicator(), "::: ");
}

#[test]
fn render_history_search_indicator() {
    let prompt = StaticPrompt::default();
    let passing = PromptHistorySearch {
        status: PromptHistorySearchStatus::Passing,
        term: "abc".to_string(),
    };
    assert_eq!(
        prompt.render_prompt_history_search_indicator(passing),
        "(reverse-search: abc) "
    );
    let failing = PromptHistorySearch {
        status: PromptHistorySearchStatus::Failing,
        term: "abc".to_string(),
    };
    assert_eq!(
        prompt.render_prompt_history_search_indicator(failing),
        "(failing reverse-search: abc) "
    );
}
