use goose_agent_core::model_names::{extract_reasoning_effort, is_openai_responses_model};

#[test]
fn identifies_openai_responses_models_and_hosted_aliases() {
    for model in [
        "o3",
        "o3-mini",
        "gpt-5",
        "gpt-5.4",
        "databricks-gpt-5.4-high",
        "goose-o3-mini",
        "headless-goose-o3-mini",
    ] {
        assert!(is_openai_responses_model(model), "{model} should match");
    }

    for model in [
        "gpt-4o",
        "mistral-large-2",
        "gemini-2.5-pro",
        "moonshotai/kimi-k2.6",
    ] {
        assert!(
            !is_openai_responses_model(model),
            "{model} should not match"
        );
    }
}

#[test]
fn extracts_reasoning_effort_for_responses_models() {
    for (model, expected_name, expected_effort) in [
        ("o3-none", "o3", Some("none")),
        ("o3-xhigh", "o3", Some("xhigh")),
        ("gpt-5-low", "gpt-5", Some("low")),
        ("gpt-5.4", "gpt-5.4", None),
        (
            "databricks-gpt-5.4-high",
            "databricks-gpt-5.4",
            Some("high"),
        ),
        ("databricks-o3-low", "databricks-o3", Some("low")),
        ("goose-gpt-5-high", "goose-gpt-5", Some("high")),
        ("gpt-4o", "gpt-4o", None),
    ] {
        let (name, effort) = extract_reasoning_effort(model);
        assert_eq!(name, expected_name, "unexpected base model for {model}");
        assert_eq!(
            effort.as_deref(),
            expected_effort,
            "unexpected effort for {model}"
        );
    }
}

#[test]
fn effort_suffix_is_lowercased_and_case_insensitive() {
    let (name, effort) = extract_reasoning_effort("GPT-5-HIGH");
    assert_eq!(name, "GPT-5");
    assert_eq!(effort.as_deref(), Some("high"));

    let (name, effort) = extract_reasoning_effort("mistral-high");
    assert_eq!(name, "mistral-high");
    assert_eq!(effort, None);
}
