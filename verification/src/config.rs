//! Configuration: a list of named service endpoints and a list of model
//! entries that each name their provider.  Resolving the entries into the
//! runtime's model pool is verified here; reading the configuration from a
//! file happens outside this crate.

use vstd::prelude::*;

use crate::model::Model;
use crate::provider::Provider;
use crate::text::str_eq;
use crate::utils::{Errorbase, ProviderNotRegistered};

verus! {

/// One model entry: a model name and the name of the service it runs on.
#[derive(Debug)]
pub struct ModelParser {
    pub name: String,
    pub provider: String,
}

/// The loaded configuration.
#[derive(Debug)]
pub struct Config {
    pub models: Vec<ModelParser>,
    pub services: Vec<Provider>,
}

/// The service a name resolves to: the latest entry wins when a name is
/// given twice.
pub open spec fn service_for(services: Seq<Provider>, name: Seq<char>) -> Option<Provider>
    decreases services.len(),
{
    if services.len() == 0 {
        None
    } else if services.last().name@ == name {
        Some(services.last())
    } else {
        service_for(services.drop_last(), name)
    }
}

/// Every model entry's provider is registered among the services.
pub open spec fn resolvable(c: Config) -> bool {
    forall|i: int|
        0 <= i < c.models@.len() ==> service_for(c.services@, c.models@[i].provider@) is Some
}

/// The resolved pool: one model per entry, in order, each bound to the
/// service its entry names.
pub open spec fn models_of_rel(c: Config, v: Seq<Model>) -> bool {
    &&& v.len() == c.models@.len()
    &&& forall|i: int|
        0 <= i < v.len() ==> v[i].name@ == c.models@[i].name@ && v[i].provider == service_for(
            c.services@,
            c.models@[i].provider@,
        )->0
}

/// The error resolution fails with: the first entry whose provider is not
/// registered is named.
pub open spec fn config_err_rel(c: Config, e: Errorbase) -> bool {
    exists|i: int|
        0 <= i < c.models@.len() && service_for(c.services@, c.models@[i].provider@) is None && (
        forall|k: int| 0 <= k < i ==> service_for(c.services@, c.models@[k].provider@) is Some)
            && e.content@ == "Service "@ + c.models@[i].provider@ + " required by "@
            + c.models@[i].name@ + " is not registered."@
}

fn find_service(services: &Vec<Provider>, name: &String) -> (r: Option<Provider>)
    ensures
        match r {
            Some(p) => service_for(services@, name@) matches Some(q) && p == q,
            None => service_for(services@, name@) is None,
        },
{
    let mut j = services.len();
    proof {
        assert(services@.take(services@.len() as int) =~= services@);
    }
    while j > 0
        invariant
            j <= services@.len(),
            service_for(services@, name@) == service_for(services@.take(j as int), name@),
        decreases j,
    {
        j -= 1;
        proof {
            assert(services@.take(j + 1).last() == services@[j as int]);
            assert(services@.take(j + 1).drop_last() =~= services@.take(j as int));
        }
        if str_eq(services[j].name.as_str(), name.as_str()) {
            return Some(services[j].clone());
        }
    }
    proof {
        assert(services@.take(0) =~= Seq::<Provider>::empty());
    }
    None
}

impl Config {
    /// Resolves every model entry against the services, in order; fails on
    /// the first entry whose provider is not registered, and then resolves
    /// nothing.
    pub fn to_models(&self) -> (r: Result<Vec<Model>, ProviderNotRegistered>)
        ensures
            r is Ok <==> resolvable(*self),
            r matches Ok(v) ==> models_of_rel(*self, v@),
            r matches Err(e) ==> config_err_rel(*self, e),
    {
        let mut models: Vec<Model> = Vec::new();
        let n = self.models.len();
        let mut i: usize = 0;
        while i < n
            invariant
                n == self.models@.len(),
                0 <= i <= n,
                models@.len() == i,
                forall|k: int|
                    0 <= k < i ==> service_for(self.services@, self.models@[k].provider@) is Some,
                forall|k: int|
                    0 <= k < i ==> models@[k].name@ == self.models@[k].name@ && models@[k].provider
                        == service_for(self.services@, self.models@[k].provider@)->0,
            decreases n - i,
        {
            let entry = &self.models[i];
            match find_service(&self.services, &entry.provider) {
                Some(p) => {
                    models.push(Model::new(entry.name.as_str(), p));
                },
                None => {
                    let mut msg = String::new();
                    msg.append("Service ");
                    msg.append(entry.provider.as_str());
                    msg.append(" required by ");
                    msg.append(entry.name.as_str());
                    msg.append(" is not registered.");
                    proof {
                        assert(msg@ =~= "Service "@ + self.models@[i as int].provider@
                            + " required by "@ + self.models@[i as int].name@
                            + " is not registered."@);
                    }
                    return Err(Errorbase::new(msg));
                },
            }
            i += 1;
        }
        Ok(models)
    }
}

} // verus!
