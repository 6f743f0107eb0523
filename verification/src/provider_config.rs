//! Provider runtime configuration: the model a host asks for, the hints a
//! provider knows of the model, and how they are applied to a host-owned
//! model configuration.

use vstd::prelude::*;

use crate::provider_retry::ProviderRetryPolicy;

verus! {

/// Whether a provider streams, and whether it prefers incremental events.
#[derive(Clone, Copy, Debug, PartialEq, Eq, Structural)]
pub struct ProviderStreamingPolicy {
    pub enabled: bool,
    pub prefer_incremental_events: bool,
}

impl Default for ProviderStreamingPolicy {
    /// Streaming with incremental events.
    fn default() -> (p: Self)
        ensures
            p.enabled,
            p.prefer_incremental_events,
    {
        ProviderStreamingPolicy { enabled: true, prefer_incremental_events: true }
    }
}

impl ProviderStreamingPolicy {
    /// No streaming and no incremental events.
    pub fn disabled() -> (p: Self)
        ensures
            !p.enabled,
            !p.prefer_incremental_events,
    {
        ProviderStreamingPolicy { enabled: false, prefer_incremental_events: false }
    }
}

/// The provider and model a host asks for.
#[derive(Clone, Debug, PartialEq, Eq)]
pub struct ProviderModelSpec {
    pub provider_name: String,
    pub model_name: String,
    pub max_tokens: Option<i32>,
}

/// What a provider knows of a model's limits.
#[derive(Clone, Debug, PartialEq, Eq)]
pub struct ProviderModelHints {
    pub context_limit: usize,
    pub output_limit: Option<usize>,
    pub reasoning: Option<bool>,
}

/// A host's provider runtime configuration.
#[derive(Clone, Debug)]
pub struct ProviderRuntimeConfig {
    pub provider_name: String,
    pub model_name: String,
    pub max_tokens: Option<i32>,
    pub streaming: ProviderStreamingPolicy,
    pub retry: ProviderRetryPolicy,
}

impl ProviderRuntimeConfig {
    /// A configuration with no token limit, streaming, and the default retry
    /// policy.
    pub fn new(provider_name: &str, model_name: &str) -> (c: Self)
        ensures
            c.provider_name@ == provider_name@,
            c.model_name@ == model_name@,
            c.max_tokens is None,
            c.streaming == (ProviderStreamingPolicy {
                enabled: true,
                prefer_incremental_events: true,
            }),
            c.retry == (ProviderRetryPolicy {
                max_attempts: 1,
                retry_transient_errors: true,
                timeout_seconds: None,
            }),
    {
        ProviderRuntimeConfig {
            provider_name: provider_name.to_owned(),
            model_name: model_name.to_owned(),
            max_tokens: None,
            streaming: ProviderStreamingPolicy::default(),
            retry: ProviderRetryPolicy::default(),
        }
    }

    pub fn with_max_tokens(self, max_tokens: Option<i32>) -> (c: Self)
        ensures
            c == (ProviderRuntimeConfig { max_tokens, ..self }),
    {
        let mut c = self;
        c.max_tokens = max_tokens;
        c
    }

    pub fn with_streaming(self, streaming: ProviderStreamingPolicy) -> (c: Self)
        ensures
            c == (ProviderRuntimeConfig { streaming, ..self }),
    {
        let mut c = self;
        c.streaming = streaming;
        c
    }

    pub fn with_retry(self, retry: ProviderRetryPolicy) -> (c: Self)
        ensures
            c == (ProviderRuntimeConfig { retry, ..self }),
    {
        let mut c = self;
        c.retry = retry;
        c
    }

    /// The provider, model and token limit of this configuration.
    pub fn model_spec(&self) -> (s: ProviderModelSpec)
        ensures
            s.provider_name@ == self.provider_name@,
            s.model_name@ == self.model_name@,
            s.max_tokens == self.max_tokens,
    {
        ProviderModelSpec {
            provider_name: self.provider_name.clone(),
            model_name: self.model_name.clone(),
            max_tokens: self.max_tokens,
        }
    }

    pub fn streaming_policy(&self) -> (p: ProviderStreamingPolicy)
        ensures
            p == self.streaming,
    {
        self.streaming
    }

    pub fn retry_policy(&self) -> (p: ProviderRetryPolicy)
        ensures
            p == self.retry,
    {
        self.retry
    }
}

/// A host-owned model configuration that provider specs and hints are applied
/// to. The spec functions are what the getters read; each setter changes its
/// own field and no other. A verified configuration defines the spec
/// functions over its own state.
pub trait ProviderModelConfigTarget {
    closed spec fn target_model_name(&self) -> Seq<char> {
        vstd::pervasive::arbitrary()
    }

    closed spec fn target_context_limit(&self) -> Option<usize> {
        vstd::pervasive::arbitrary()
    }

    closed spec fn target_max_tokens(&self) -> Option<i32> {
        vstd::pervasive::arbitrary()
    }

    closed spec fn target_reasoning(&self) -> Option<bool> {
        vstd::pervasive::arbitrary()
    }

    fn model_name(&self) -> (r: &str)
        ensures
            r@ == self.target_model_name(),
    ;

    fn context_limit(&self) -> (r: Option<usize>)
        ensures
            r == self.target_context_limit(),
    ;

    fn max_tokens(&self) -> (r: Option<i32>)
        ensures
            r == self.target_max_tokens(),
    ;

    fn reasoning(&self) -> (r: Option<bool>)
        ensures
            r == self.target_reasoning(),
    ;

    fn set_context_limit(&mut self, context_limit: Option<usize>)
        ensures
            final(self).target_context_limit() == context_limit,
            final(self).target_model_name() == old(self).target_model_name(),
            final(self).target_max_tokens() == old(self).target_max_tokens(),
            final(self).target_reasoning() == old(self).target_reasoning(),
    ;

    fn set_max_tokens(&mut self, max_tokens: Option<i32>)
        ensures
            final(self).target_max_tokens() == max_tokens,
            final(self).target_model_name() == old(self).target_model_name(),
            final(self).target_context_limit() == old(self).target_context_limit(),
            final(self).target_reasoning() == old(self).target_reasoning(),
    ;

    fn set_reasoning(&mut self, reasoning: Option<bool>)
        ensures
            final(self).target_reasoning() == reasoning,
            final(self).target_model_name() == old(self).target_model_name(),
            final(self).target_context_limit() == old(self).target_context_limit(),
            final(self).target_max_tokens() == old(self).target_max_tokens(),
    ;
}

/// The context limit after hints: a set limit stays, else the hinted one.
pub open spec fn hinted_context_limit(current: Option<usize>, hints: Option<ProviderModelHints>) -> Option<usize> {
    match hints {
        Some(h) if current is None => Some(h.context_limit),
        _ => current,
    }
}

/// The token limit after hints: a set limit stays; else the hinted output
/// limit when it is below the hinted context limit (taken as an `i32`, as
/// `as` converts it); else none.
pub open spec fn hinted_max_tokens(current: Option<i32>, hints: Option<ProviderModelHints>) -> Option<i32> {
    match hints {
        Some(h) if current is None => match h.output_limit {
            Some(o) if o < h.context_limit => Some(o as i32),
            _ => current,
        },
        _ => current,
    }
}

/// The reasoning flag after hints: a set flag stays, else the hinted one.
pub open spec fn hinted_reasoning(current: Option<bool>, hints: Option<ProviderModelHints>) -> Option<bool> {
    match hints {
        Some(h) if current is None => h.reasoning,
        _ => current,
    }
}

/// Fills the limits the target has not set from the provider's hints. Values
/// the target already has are kept.
pub fn apply_provider_model_hints<T: ProviderModelConfigTarget>(
    target: &mut T,
    hints: Option<&ProviderModelHints>,
)
    ensures
        final(target).target_model_name() == old(target).target_model_name(),
        final(target).target_context_limit() == hinted_context_limit(
            old(target).target_context_limit(),
            opt_hints(hints),
        ),
        final(target).target_max_tokens() == hinted_max_tokens(
            old(target).target_max_tokens(),
            opt_hints(hints),
        ),
        final(target).target_reasoning() == hinted_reasoning(
            old(target).target_reasoning(),
            opt_hints(hints),
        ),
{
    let hints = match hints {
        Some(h) => h,
        None => return ,
    };
    if target.context_limit().is_none() {
        target.set_context_limit(Some(hints.context_limit));
    }
    if target.max_tokens().is_none() {
        match hints.output_limit {
            Some(output_limit) => {
                if output_limit < hints.context_limit {
                    target.set_max_tokens(Some(output_limit as i32));
                }
            },
            None => {},
        }
    }
    if target.reasoning().is_none() {
        target.set_reasoning(hints.reasoning);
    }
}

/// The hints behind an optional reference.
pub open spec fn opt_hints(hints: Option<&ProviderModelHints>) -> Option<ProviderModelHints> {
    match hints {
        Some(h) => Some(*h),
        None => None,
    }
}

/// Applies a model spec's token limit, when it has one, and then the hints.
pub fn apply_provider_model_spec<T: ProviderModelConfigTarget>(
    target: &mut T,
    spec: &ProviderModelSpec,
    hints: Option<&ProviderModelHints>,
)
    ensures
        final(target).target_model_name() == old(target).target_model_name(),
        final(target).target_context_limit() == hinted_context_limit(
            old(target).target_context_limit(),
            opt_hints(hints),
        ),
        final(target).target_max_tokens() == hinted_max_tokens(
            if spec.max_tokens is Some {
                spec.max_tokens
            } else {
                old(target).target_max_tokens()
            },
            opt_hints(hints),
        ),
        final(target).target_reasoning() == hinted_reasoning(
            old(target).target_reasoning(),
            opt_hints(hints),
        ),
{
    if let Some(max_tokens) = spec.max_tokens {
        target.set_max_tokens(Some(max_tokens));
    }
    apply_provider_model_hints(target, hints);
}

/// Applying hints never overrides a value the target already has: with all
/// three limits set, hints change nothing.
pub proof fn law_hints_keep_explicit_values(
    context_limit: usize,
    max_tokens: i32,
    reasoning: bool,
    hints: Option<ProviderModelHints>,
)
    ensures
        hinted_context_limit(Some(context_limit), hints) == Some(context_limit),
        hinted_max_tokens(Some(max_tokens), hints) == Some(max_tokens),
        hinted_reasoning(Some(reasoning), hints) == Some(reasoning),
{
}

/// Hints only ever set the token limit of a target that has none, and then
/// only to an output limit below the context limit: a hinted limit always
/// comes from such an output limit, and without one the limit stays unset.
pub proof fn law_hints_take_token_limit_only_from_output_limit(
    current: Option<i32>,
    hints: Option<ProviderModelHints>,
)
    ensures
        hinted_max_tokens(current, hints) != current ==> (current is None && (hints matches Some(
            h,
        ) && (h.output_limit matches Some(o) && o < h.context_limit && hinted_max_tokens(
            current,
            hints,
        ) == Some(o as i32)))),
        current is None && (hints matches Some(h) && !(h.output_limit matches Some(o) && o
            < h.context_limit)) ==> hinted_max_tokens(current, hints) is None,
        current is None && hints is None ==> hinted_max_tokens(current, hints) is None,
{
}

/// Applying the same hints twice gives what applying them once gives.
pub proof fn law_hints_idempotent(
    context_limit: Option<usize>,
    max_tokens: Option<i32>,
    reasoning: Option<bool>,
    hints: Option<ProviderModelHints>,
)
    ensures
        hinted_context_limit(hinted_context_limit(context_limit, hints), hints)
            == hinted_context_limit(context_limit, hints),
        hinted_max_tokens(hinted_max_tokens(max_tokens, hints), hints) == hinted_max_tokens(
            max_tokens,
            hints,
        ),
        hinted_reasoning(hinted_reasoning(reasoning, hints), hints) == hinted_reasoning(
            reasoning,
            hints,
        ),
{
}

/// How a provider is offered to users.
#[derive(Clone, Copy, Debug, PartialEq, Eq, Structural)]
pub enum ProviderRuntimeType {
    Preferred,
    Builtin,
    Declarative,
    Custom,
}

/// One configuration key a provider reads.
#[derive(Clone, Debug, PartialEq)]
pub struct ProviderRuntimeConfigKey {
    pub name: String,
    pub required: bool,
    pub secret: bool,
    pub default: Option<String>,
    pub oauth_flow: bool,
    pub device_code_flow: bool,
    pub primary: bool,
}

} // verus!
