use goose_agent_core::provider_config::{
    apply_provider_model_hints, apply_provider_model_spec, ProviderModelConfigTarget,
    ProviderModelHints, ProviderModelSpec, ProviderRuntimeConfig, ProviderStreamingPolicy,
};
use goose_agent_core::provider_failure::{ProviderErrorKind, ProviderFailure};
use goose_agent_core::provider_retry::ProviderRetryPolicy;
use goose_agent_core::provider_runtime::ProviderCreateRequest;
use std::path::PathBuf;

#[derive(Default)]
struct TestModelConfig {
    model_name: String,
    context_limit: Option<usize>,
    max_tokens: Option<i32>,
    reasoning: Option<bool>,
}

impl ProviderModelConfigTarget for TestModelConfig {
    fn model_name(&self) -> &str {
        &self.model_name
    }

    fn context_limit(&self) -> Option<usize> {
        self.context_limit
    }

    fn max_tokens(&self) -> Option<i32> {
        self.max_tokens
    }

    fn reasoning(&self) -> Option<bool> {
        self.reasoning
    }

    fn set_context_limit(&mut self, context_limit: Option<usize>) {
        self.context_limit = context_limit;
    }

    fn set_max_tokens(&mut self, max_tokens: Option<i32>) {
        self.max_tokens = max_tokens;
    }

    fn set_reasoning(&mut self, reasoning: Option<bool>) {
        self.reasoning = reasoning;
    }
}

#[test]
fn runtime_config_exposes_model_spec_and_policies() {
    let streaming = ProviderStreamingPolicy::disabled();
    let retry = ProviderRetryPolicy {
        max_attempts: 4,
        retry_transient_errors: true,
        timeout_seconds: Some(30),
    };
    let config = ProviderRuntimeConfig::new("openai", "gpt-4.1")
        .with_max_tokens(Some(2048))
        .with_streaming(streaming.clone())
        .with_retry(retry.clone());

    assert_eq!(
        config.model_spec(),
        ProviderModelSpec {
            provider_name: "openai".to_string(),
            model_name: "gpt-4.1".to_string(),
            max_tokens: Some(2048),
        }
    );
    assert!(!config.streaming_policy().enabled);
    assert_eq!(config.retry_policy().max_attempts, 4);
}

#[test]
fn applies_provider_model_spec_and_hints_to_model_config_target() {
    let mut target = TestModelConfig {
        model_name: "gpt-4.1".to_string(),
        ..Default::default()
    };
    let spec = ProviderModelSpec {
        provider_name: "openai".to_string(),
        model_name: "gpt-4.1".to_string(),
        max_tokens: Some(2048),
    };
    let hints = ProviderModelHints {
        context_limit: 128_000,
        output_limit: Some(16_384),
        reasoning: Some(false),
    };

    apply_provider_model_spec(&mut target, &spec, Some(&hints));

    assert_eq!(target.context_limit, Some(128_000));
    assert_eq!(target.max_tokens, Some(2048));
    assert_eq!(target.reasoning, Some(false));
}

#[test]
fn provider_model_hints_preserve_explicit_values() {
    let mut target = TestModelConfig {
        model_name: "gpt-4.1".to_string(),
        context_limit: Some(64_000),
        max_tokens: Some(4096),
        reasoning: Some(true),
    };
    let hints = ProviderModelHints {
        context_limit: 128_000,
        output_limit: Some(16_384),
        reasoning: Some(false),
    };

    apply_provider_model_hints(&mut target, Some(&hints));

    assert_eq!(target.context_limit, Some(64_000));
    assert_eq!(target.max_tokens, Some(4096));
    assert_eq!(target.reasoning, Some(true));
}

#[test]
fn provider_model_hints_skip_output_limit_equal_to_context() {
    let mut target = TestModelConfig {
        model_name: "moonshotai/kimi-k2.6".to_string(),
        ..Default::default()
    };
    let hints = ProviderModelHints {
        context_limit: 128_000,
        output_limit: Some(128_000),
        reasoning: None,
    };

    apply_provider_model_hints(&mut target, Some(&hints));

    assert_eq!(target.context_limit, Some(128_000));
    assert_eq!(target.max_tokens, None);
}

#[test]
fn provider_failure_can_be_built_with_source() {
    let failure =
        ProviderFailure::new(ProviderErrorKind::Network, "offline", true).with_source("openai");

    assert_eq!(failure.kind, ProviderErrorKind::Network);
    assert_eq!(failure.message, "offline");
    assert_eq!(failure.source.as_deref(), Some("openai"));
    assert!(failure.retryable);
}

#[test]
fn builds_provider_create_request_from_model_spec() {
    let spec = ProviderModelSpec {
        provider_name: "openai".to_string(),
        model_name: "gpt-4.1".to_string(),
        max_tokens: Some(2048),
    };

    let request = ProviderCreateRequest::from_model_spec(&spec, "model-config", vec!["extension"])
        .with_working_dir(PathBuf::from("/tmp/workspace"));

    assert_eq!(request.provider_name, "openai");
    assert_eq!(request.model_config, "model-config");
    assert_eq!(request.extensions, vec!["extension"]);
    assert_eq!(request.working_dir, Some(PathBuf::from("/tmp/workspace")));
}

#[test]
fn hints_fill_only_unset_limits_below_context() {
    let mut target = TestModelConfig::default();
    let hints = ProviderModelHints {
        context_limit: 8_000,
        output_limit: Some(2_000),
        reasoning: Some(true),
    };

    apply_provider_model_hints(&mut target, Some(&hints));
    assert_eq!(target.context_limit, Some(8_000));
    assert_eq!(target.max_tokens, Some(2_000));
    assert_eq!(target.reasoning, Some(true));

    let mut untouched = TestModelConfig::default();
    apply_provider_model_hints(&mut untouched, None);
    assert_eq!(untouched.context_limit, None);
    assert_eq!(untouched.max_tokens, None);
    assert_eq!(untouched.reasoning, None);
}

#[test]
fn hints_applied_twice_change_nothing_more() {
    let hints = ProviderModelHints {
        context_limit: 8_000,
        output_limit: Some(2_000),
        reasoning: None,
    };
    let mut once = TestModelConfig::default();
    apply_provider_model_hints(&mut once, Some(&hints));
    let mut twice = TestModelConfig::default();
    apply_provider_model_hints(&mut twice, Some(&hints));
    apply_provider_model_hints(&mut twice, Some(&hints));

    assert_eq!(once.context_limit, twice.context_limit);
    assert_eq!(once.max_tokens, twice.max_tokens);
    assert_eq!(once.reasoning, twice.reasoning);
}

#[test]
fn spec_without_token_limit_keeps_target_limit() {
    let mut target = TestModelConfig {
        max_tokens: Some(100),
        ..Default::default()
    };
    let spec = ProviderModelSpec {
        provider_name: "p".to_string(),
        model_name: "m".to_string(),
        max_tokens: None,
    };

    apply_provider_model_spec(&mut target, &spec, None);

    assert_eq!(target.max_tokens, Some(100));
    assert_eq!(target.model_name(), "");
}

#[test]
fn runtime_config_defaults() {
    let config = ProviderRuntimeConfig::new("mistral", "mistral-large");

    assert_eq!(config.max_tokens, None);
    assert!(config.streaming_policy().enabled);
    assert!(config.streaming_policy().prefer_incremental_events);
    assert_eq!(config.retry_policy().max_attempts, 1);
    assert!(config.retry_policy().retry_transient_errors);
    assert_eq!(config.retry_policy().timeout_seconds, None);
}

#[test]
fn retry_budget_counts_retries_after_first_attempt() {
    let policy = ProviderRetryPolicy {
        max_attempts: 3,
        retry_transient_errors: true,
        timeout_seconds: None,
    };
    assert_eq!(policy.retry_budget(), (2, true));

    let none = ProviderRetryPolicy {
        max_attempts: 0,
        retry_transient_errors: false,
        timeout_seconds: None,
    };
    assert_eq!(none.retry_budget(), (0, false));
}

#[test]
fn provider_create_request_starts_without_working_dir() {
    let request: ProviderCreateRequest<u32, String> =
        ProviderCreateRequest::new("ollama", 7, Vec::new());

    assert_eq!(request.provider_name, "ollama");
    assert_eq!(request.model_config, 7);
    assert!(request.extensions.is_empty());
    assert_eq!(request.working_dir, None);
}
