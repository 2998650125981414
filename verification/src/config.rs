//! Adapter configuration.

use vstd::prelude::*;
use crate::error::AdapterError;

verus! {

/// Main adapter configuration.
#[derive(Debug)]
pub struct Config {
    /// Homarr API URL.
    pub homarr_url: String,
    /// Path to branding config file.
    pub branding_file: String,
    /// Path to state file.
    pub state_file: String,
    /// Docker socket path.
    pub docker_socket: String,
    /// Path to app registry directory.
    pub registry_dir: String,
    /// Path to Authelia users database file.
    pub authelia_users_db: String,
    /// Path to the file that holds the one-time bootstrap API key.
    pub bootstrap_api_key_file: String,
    /// Enable debug logging.
    pub debug: bool,
    /// Periodic sync interval in seconds (for watch mode).
    pub sync_interval: u64,
    /// Startup delay in seconds before first sync (for watch mode).
    pub startup_delay: u64,
}

/// Where the dashboard is looked for.
pub fn default_homarr_url() -> (r: String)
    ensures
        r@ == "http://localhost:7575"@,
{
    "http://localhost:7575".to_owned()
}

/// Where the branding is read from.
pub fn default_branding_file() -> (r: String)
    ensures
        r@ == "/etc/halos-homarr-branding/branding.toml"@,
{
    "/etc/halos-homarr-branding/branding.toml".to_owned()
}

/// Where the state is kept.
pub fn default_state_file() -> (r: String)
    ensures
        r@ == "/var/lib/homarr-container-adapter/state.json"@,
{
    "/var/lib/homarr-container-adapter/state.json".to_owned()
}

/// Where the container engine listens.
pub fn default_docker_socket() -> (r: String)
    ensures
        r@ == "/var/run/docker.sock"@,
{
    "/var/run/docker.sock".to_owned()
}

/// Where the app descriptors lie.
pub fn default_registry_dir() -> (r: String)
    ensures
        r@ == "/etc/halos/webapps.d"@,
{
    "/etc/halos/webapps.d".to_owned()
}

/// Where Authelia keeps its users.
pub fn default_authelia_users_db() -> (r: String)
    ensures
        r@ == "/var/lib/container-apps/authelia-container/data/users_database.yml"@,
{
    "/var/lib/container-apps/authelia-container/data/users_database.yml".to_owned()
}

/// Where the one-time bootstrap key is provided.
pub fn default_bootstrap_api_key_file() -> (r: String)
    ensures
        r@ == "/etc/homarr-container-adapter/bootstrap-api-key"@,
{
    "/etc/homarr-container-adapter/bootstrap-api-key".to_owned()
}

/// Five minutes.
pub fn default_sync_interval() -> (r: u64)
    ensures
        r == 300,
{
    300
}

/// Ten seconds.
pub fn default_startup_delay() -> (r: u64)
    ensures
        r == 10,
{
    10
}

impl Config {
    /// The configuration of an adapter that was told nothing.
    pub open spec fn is_default(self) -> bool {
        &&& self.homarr_url@ == "http://localhost:7575"@
        &&& self.branding_file@ == "/etc/halos-homarr-branding/branding.toml"@
        &&& self.state_file@ == "/var/lib/homarr-container-adapter/state.json"@
        &&& self.docker_socket@ == "/var/run/docker.sock"@
        &&& self.registry_dir@ == "/etc/halos/webapps.d"@
        &&& self.authelia_users_db@
            == "/var/lib/container-apps/authelia-container/data/users_database.yml"@
        &&& self.bootstrap_api_key_file@ == "/etc/homarr-container-adapter/bootstrap-api-key"@
        &&& !self.debug
        &&& self.sync_interval == 300
        &&& self.startup_delay == 10
    }

    /// Load configuration, given what reading its file came to: no file,
    /// a file that is no configuration, or the configuration. Without a file
    /// the defaults hold. A file that cannot be parsed is a `TomlParse`
    /// error.
    pub fn load(found: Option<Result<Config, String>>) -> (r: Result<Config, AdapterError>)
        ensures
            match found {
                None => r matches Ok(c) && c.is_default(),
                Some(Ok(c)) => r == Ok::<Config, AdapterError>(c),
                Some(Err(why)) => r == Err::<Config, AdapterError>(AdapterError::TomlParse(why)),
            },
    {
        match found {
            None => Ok(Config::default()),
            Some(Ok(c)) => Ok(c),
            Some(Err(why)) => Err(AdapterError::TomlParse(why)),
        }
    }
}

impl Default for Config {
    fn default() -> (c: Self)
        ensures
            c.is_default(),
    {
        Config {
            homarr_url: default_homarr_url(),
            branding_file: default_branding_file(),
            state_file: default_state_file(),
            docker_socket: default_docker_socket(),
            registry_dir: default_registry_dir(),
            authelia_users_db: default_authelia_users_db(),
            bootstrap_api_key_file: default_bootstrap_api_key_file(),
            debug: false,
            sync_interval: default_sync_interval(),
            startup_delay: default_startup_delay(),
        }
    }
}

} // verus!
