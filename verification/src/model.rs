//! A model: a symbolic name bound to the provider endpoint that serves it.

use vstd::prelude::*;

use crate::config::{config_err_rel, models_of_rel, resolvable, Config};
use crate::provider::Provider;
use crate::utils::ProviderNotRegistered;

verus! {

/// A named binding to one provider.  Immutable identity, looked up by name.
#[derive(Debug)]
pub struct Model {
    pub name: String,
    pub provider: Provider,
}

impl Model {
    pub fn new(name: &str, provider: Provider) -> (r: Model)
        ensures
            r.name@ == name@,
            r.provider == provider,
    {
        Model { name: name.to_owned(), provider }
    }

    /// The whole pool a configuration resolves to.
    pub fn from_config(config: &Config) -> (r: Result<Vec<Model>, ProviderNotRegistered>)
        ensures
            r is Ok <==> resolvable(*config),
            r matches Ok(v) ==> models_of_rel(*config, v@),
            r matches Err(e) ==> config_err_rel(*config, e),
    {
        config.to_models()
    }

    pub fn name(&self) -> (r: &str)
        ensures
            r@ == self.name@,
    {
        self.name.as_str()
    }
}

} // verus!
