//! Everything the HTTP handlers of NOC Manager share.
use vstd::prelude::*;
use crate::manager::commands::CommandStore;
use crate::manager::health::HealthStore;
use crate::manager::rdp_servers::ServerStore;
use crate::manager::storage::Storage;

verus! {

pub struct AppState {
    pub storage: Storage,
    pub commands: CommandStore,
    pub health: HealthStore,
    pub rdp_servers: ServerStore,
    /// Empty = the API is open.
    pub api_token: String,
    pub health_stale_after_seconds: u64,
}

} // verus!
