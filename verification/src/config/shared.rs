//! Shared configuration and registry management
//!
//! Holds the application configuration and the model registry behind shared
//! pointers, so that services can share one copy.

use std::sync::Arc;
use vstd::prelude::*;
use crate::config::models::AppConfig;
use crate::config::validator::{
    ConfigError, ConfigErrorSpec, ConfigValidator, ModelRegistry, RegistryDocument, RegistrySpec,
    registry_result,
};

verus! {

/// Another handle to the same shared value.
///
/// Trusted: calls `Arc::clone`, which the standard library documents as
/// making a new pointer to the same allocation.
#[verifier::external_body]
fn share<T>(a: &Arc<T>) -> (r: Arc<T>)
    ensures
        r == *a,
{
    Arc::clone(a)
}

/// Shared configuration and registry manager
#[derive(Clone)]
pub struct SharedConfig {
    config: Arc<AppConfig>,
    registry: Arc<ModelRegistry>,
}

impl SharedConfig {
    /// The configuration held.
    pub closed spec fn config_value(&self) -> AppConfig {
        *self.config
    }

    /// The registry held.
    pub closed spec fn registry_value(&self) -> ModelRegistry {
        *self.registry
    }

    /// Combines the loaded configuration with the registry that the registry
    /// document describes.
    pub fn load(config: AppConfig, doc: &RegistryDocument) -> (r: Result<Self, ConfigError>)
        ensures
            match r {
                Ok(s) => s.config_value() == config && (registry_result(*doc) matches Ok(x) && x == s.registry_value()@),
                Err(e) => registry_result(*doc) matches Err(x) && e@ == ConfigErrorSpec::Registry(x),
            },
    {
        let registry = ConfigValidator::get_registry(doc)?;
        Ok(SharedConfig { config: Arc::new(config), registry: Arc::new(registry) })
    }

    /// Get a reference to the configuration
    pub fn config(&self) -> (r: &AppConfig)
        ensures
            *r == self.config_value(),
    {
        &*self.config
    }

    /// Get a reference to the model registry
    pub fn registry(&self) -> (r: &ModelRegistry)
        ensures
            *r == self.registry_value(),
    {
        &*self.registry
    }

    /// Get an Arc reference to the configuration
    pub fn config_arc(&self) -> (r: Arc<AppConfig>)
        ensures
            *r == self.config_value(),
    {
        share(&self.config)
    }

    /// Get an Arc reference to the model registry
    pub fn registry_arc(&self) -> (r: Arc<ModelRegistry>)
        ensures
            *r == self.registry_value(),
    {
        share(&self.registry)
    }
}

} // verus!
