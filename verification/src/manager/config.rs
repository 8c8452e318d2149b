//! NOC Manager's `config.toml`: its sections and their defaults.
use vstd::prelude::*;
use crate::text::owned;

verus! {

pub struct ServerConfig {
    pub listen: String,
    pub port: u16,
    /// Empty = no authentication.
    pub api_token: String,
}

impl Default for ServerConfig {
    fn default() -> (r: Self)
        ensures
            r.listen@ == "0.0.0.0"@,
            r.port == 8080,
            r.api_token@.len() == 0,
    {
        ServerConfig { listen: owned("0.0.0.0"), port: 8080, api_token: String::new() }
    }
}

pub struct DataConfig {
    pub file: String,
    pub commands_file: String,
}

impl Default for DataConfig {
    fn default() -> (r: Self)
        ensures
            r.file@ == "kiosks.json"@,
            r.commands_file@ == "commands.json"@,
    {
        DataConfig { file: owned("kiosks.json"), commands_file: owned("commands.json") }
    }
}

pub struct HealthConfig {
    /// `noc_up` reports 0 in `/metrics` once a heartbeat is older than
    /// this; a few times the clients' own heartbeat interval.
    pub stale_after_seconds: u64,
}

impl Default for HealthConfig {
    fn default() -> (r: Self)
        ensures
            r.stale_after_seconds == 90,
    {
        HealthConfig { stale_after_seconds: 90 }
    }
}

pub struct Config {
    pub server: ServerConfig,
    pub data: DataConfig,
    pub health: HealthConfig,
}

impl Default for Config {
    fn default() -> (r: Self)
        ensures
            r.server.listen@ == "0.0.0.0"@ && r.server.port == 8080 && r.server.api_token@.len()
                == 0 && r.data.file@ == "kiosks.json"@ && r.data.commands_file@
                == "commands.json"@ && r.health.stale_after_seconds == 90,
    {
        Config {
            server: ServerConfig::default(),
            data: DataConfig::default(),
            health: HealthConfig::default(),
        }
    }
}

/// The file written when none exists: the defaults above.
pub const DEFAULT_CONFIG_TOML: &'static str = "[server]\nlisten = \"0.0.0.0\"\nport = 8080\napi_token = \"\"\n\n[data]\nfile = \"kiosks.json\"\ncommands_file = \"commands.json\"\n\n[health]\nstale_after_seconds = 90\n";

} // verus!
