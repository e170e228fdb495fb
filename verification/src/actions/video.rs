//! Toggle Video: turns the camera on or off.

use vstd::prelude::*;
use crate::outcome::KeyOutcome;
use crate::protocol::ServerCommand;

verus! {

/// Toggle Video: turns the camera on or off.
pub struct ToggleVideoAction;

impl ToggleVideoAction {
    /// Asks the client to flip the camera; the key alerts when that cannot be
    /// delivered. Its state follows the client's next state report.
    pub fn key_up() -> (res: KeyOutcome)
        ensures
            res == (KeyOutcome::Send { command: ServerCommand::ToggleVideo, state: None }),
    {
        KeyOutcome::Send { command: ServerCommand::ToggleVideo, state: None }
    }
}

} // verus!
