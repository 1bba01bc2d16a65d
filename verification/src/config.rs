//! Process configuration: the API access token.

use vstd::prelude::*;
use crate::error::FetchError;

verus! {

/// The configuration the report run needs: the personal access token that
/// every request carries in its authorization header.
pub struct CoreConfig {
    pub api_key: String,
}

impl CoreConfig {
    /// Builds the configuration from the environment's token value, which
    /// the caller looks up and passes in (`None` when the variable is
    /// unset). A missing token is fatal: no report can be produced.
    pub fn load_from_env(api_key: Option<String>) -> (r: Result<CoreConfig, FetchError>)
        ensures
            api_key matches Some(k) ==> (r matches Ok(c) && c.api_key == k),
            api_key is None ==> r == Err::<CoreConfig, FetchError>(FetchError::MissingConfig),
    {
        match api_key {
            Some(k) => Ok(CoreConfig { api_key: k }),
            None => Err(FetchError::MissingConfig),
        }
    }
}

/// Constructs the one configuration value used for the whole run, from the
/// environment's token value as the caller found it.
pub fn core_config(api_key: Option<String>) -> (r: Result<CoreConfig, FetchError>)
    ensures
        api_key matches Some(k) ==> (r matches Ok(c) && c.api_key == k),
        api_key is None ==> r == Err::<CoreConfig, FetchError>(FetchError::MissingConfig),
{
    CoreConfig::load_from_env(api_key)
}

} // verus!
