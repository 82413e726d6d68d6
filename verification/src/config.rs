use vstd::prelude::*;

verus! {

/// Configuration consumed by the core: the storage backend locator.
#[derive(Debug, Clone)]
pub struct DotEnvyConfig {
    pub database_url: String,
}

/// Chooses the storage backend locator: the environment value wins, the first
/// command-line argument is the fallback, and with neither the configuration
/// cannot be built.
pub fn resolve_database_url(env_url: Option<String>, first_arg: Option<String>) -> (r: Option<
    DotEnvyConfig,
>)
    ensures
        env_url is Some ==> (r matches Some(c) && c.database_url@ == env_url->0@),
        env_url is None && first_arg is Some ==> (r matches Some(c) && c.database_url@
            == first_arg->0@),
        env_url is None && first_arg is None ==> r is None,
{
    match env_url {
        Some(url) => Some(DotEnvyConfig { database_url: url }),
        None => match first_arg {
            Some(url) => Some(DotEnvyConfig { database_url: url }),
            None => None,
        },
    }
}

} // verus!
