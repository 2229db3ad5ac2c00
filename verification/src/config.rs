use vstd::prelude::*;

verus! {

/// Service configuration, read once at startup and immutable afterwards.
#[derive(Debug, Clone)]
pub struct Config {
    pub database_url: String,
    pub jwt_secret: String,
    pub jwt_maxage: i64,
    pub server_port: u16,
}

impl Config {
    /// Assemble the configuration from the raw values the environment
    /// supplied, applying the defaults: a token lifetime of one hour and
    /// port 8080 where nothing was set.
    pub fn from_env_values(
        database_url: String,
        jwt_secret: String,
        jwt_maxage: Option<i64>,
        server_port: Option<u16>,
    ) -> (r: Config)
        ensures
            r.database_url@ == database_url@,
            r.jwt_secret@ == jwt_secret@,
            r.jwt_maxage == (match jwt_maxage {
                Some(v) => v,
                None => 3600,
            }),
            r.server_port == (match server_port {
                Some(v) => v,
                None => 8080,
            }),
    {
        Config {
            database_url,
            jwt_secret,
            jwt_maxage: match jwt_maxage {
                Some(v) => v,
                None => 3600,
            },
            server_port: match server_port {
                Some(v) => v,
                None => 8080,
            },
        }
    }
}

} // verus!
