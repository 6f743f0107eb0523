//! The request a host makes to create a provider.

use std::path::PathBuf;
use vstd::prelude::*;

use crate::provider_config::ProviderModelSpec;

verus! {

/// A request to create a provider: its name, its model configuration, the
/// extensions it gets, and an optional working directory.
#[derive(Clone, Debug)]
pub struct ProviderCreateRequest<ModelConfig, ExtensionConfig> {
    pub provider_name: String,
    pub model_config: ModelConfig,
    pub extensions: Vec<ExtensionConfig>,
    pub working_dir: Option<PathBuf>,
}

impl<ModelConfig, ExtensionConfig> ProviderCreateRequest<ModelConfig, ExtensionConfig> {
    pub fn new(provider_name: &str, model_config: ModelConfig, extensions: Vec<ExtensionConfig>) -> (r:
        Self)
        ensures
            r.provider_name@ == provider_name@,
            r.model_config == model_config,
            r.extensions == extensions,
            r.working_dir is None,
    {
        ProviderCreateRequest {
            provider_name: provider_name.to_owned(),
            model_config,
            extensions,
            working_dir: None,
        }
    }

    /// A request for the provider the spec names.
    pub fn from_model_spec(
        spec: &ProviderModelSpec,
        model_config: ModelConfig,
        extensions: Vec<ExtensionConfig>,
    ) -> (r: Self)
        ensures
            r.provider_name@ == spec.provider_name@,
            r.model_config == model_config,
            r.extensions == extensions,
            r.working_dir is None,
    {
        Self::new(spec.provider_name.as_str(), model_config, extensions)
    }

    pub fn with_working_dir(self, working_dir: PathBuf) -> (r: Self)
        ensures
            r.provider_name == self.provider_name,
            r.model_config == self.model_config,
            r.extensions == self.extensions,
            r.working_dir == Some(working_dir),
    {
        let mut r = self;
        r.working_dir = Some(working_dir);
        r
    }
}

} // verus!
