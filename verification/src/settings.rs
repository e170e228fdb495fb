//! The plugin's persisted configuration: the bridge port, and the error text
//! shown in the property inspector.

use vstd::prelude::*;

verus! {

/// The port the bridge listens on unless configured otherwise.
pub const DEFAULT_PORT: u16 = 6789;

/// The port the bridge listens on unless configured otherwise.
pub fn default_port() -> (port: u16)
    ensures
        port == DEFAULT_PORT,
{
    DEFAULT_PORT
}

/// Persisted plugin configuration. The only user-facing setting is the bridge
/// port; `error` surfaces bind/connection problems in the property inspector.
#[derive(Debug, Clone, PartialEq)]
pub struct Settings {
    pub port: u16,
    pub error: Option<String>,
}

impl Default for Settings {
    fn default() -> (res: Self)
        ensures
            res.port == DEFAULT_PORT,
            res.error is None,
    {
        Settings { port: DEFAULT_PORT, error: None }
    }
}

/// Handles global setting updates pushed from the stream deck host.
pub struct GlobalEventHandler;

impl GlobalEventHandler {
    /// Stores the received settings in `current` and tells whether the bridge
    /// server must be restarted: exactly when the port changed.
    pub fn did_receive_global_settings(current: &mut Settings, received: Settings) -> (restart: bool)
        ensures
            restart == (received.port != old(current).port),
            *final(current) == received,
    {
        let restart = received.port != current.port;
        *current = received;
        restart
    }
}

} // verus!
