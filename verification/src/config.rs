//! The server's configuration.

use vstd::prelude::*;

verus! {

/// Server configuration.
pub struct Config {
    /// Host for the server to bind to.
    pub server_host: String,
    /// Hosts which the ScyllaDB instance is listening on.
    pub database_hosts: Vec<String>,
    /// Lifetime of an API token in seconds.
    pub lifetime: u64,
    /// Leeway for lifetime checks of API tokens in seconds.
    pub lifetime_leeway: u64,
    /// Algorithm used to sign JSON web tokens, by its name.
    pub signing_algorithm: String,
    /// Path to a file containing the secret used for JSON web token
    /// generation.
    pub secret_path: String,
}

impl Default for Config {
    /// The configuration that a freshly generated config file holds.
    fn default() -> (config: Self)
        ensures
            config.server_host@ == "127.0.0.1:3000"@,
            config.database_hosts@.len() == 1,
            config.database_hosts@[0]@ == "127.0.0.1:9042"@,
            config.lifetime == 600,
            config.lifetime_leeway == 30,
            config.signing_algorithm@ == "HS256"@,
            config.secret_path@ == "resources/secret"@,
    {
        Config {
            server_host: "127.0.0.1:3000".to_owned(),
            database_hosts: vec!["127.0.0.1:9042".to_owned()],
            lifetime: 600,
            lifetime_leeway: 30,
            signing_algorithm: "HS256".to_owned(),
            secret_path: "resources/secret".to_owned(),
        }
    }
}

} // verus!
