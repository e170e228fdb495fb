//! User Volume Control: raises, lowers or sets the volume at which another
//! user in the call is heard.
//!
//! The volume arithmetic on the user's current single-precision volume is done
//! by the caller; this module decides what a key or dial asks for.

use vstd::prelude::*;
use super::volume_control::{dial_change, VolumeChange};
use crate::protocol::{opt_view, ServerCommand};

verus! {

/// What a user volume key does.
#[derive(Debug, Clone, Copy, PartialEq, Eq, Structural)]
pub enum UserVolumeControlActionType {
    Increase,
    Decrease,
    SetVolume,
    Mute,
}

impl Default for UserVolumeControlActionType {
    fn default() -> (res: Self)
        ensures
            res == UserVolumeControlActionType::Increase,
    {
        UserVolumeControlActionType::Increase
    }
}

/// Settings of a User Volume Control key.
#[derive(Debug, Clone, PartialEq)]
pub struct UserVolumeControlSettings {
    pub action_type: UserVolumeControlActionType,
    pub step_size: u8,
    pub set_volume: u8,
    pub user_id: Option<String>,
}

impl Default for UserVolumeControlSettings {
    fn default() -> (res: Self)
        ensures
            res.action_type == UserVolumeControlActionType::Increase,
            res.step_size == 5,
            res.set_volume == 100,
            res.user_id is None,
    {
        UserVolumeControlSettings {
            action_type: UserVolumeControlActionType::Increase,
            step_size: 5,
            set_volume: 100,
            user_id: None,
        }
    }
}

/// What a user volume key or dial asks for.
#[derive(Debug, Clone, PartialEq)]
pub enum UserVolumeRequest {
    /// The key shows its alert.
    Alert,
    /// Change the volume of `user_id`.
    Adjust { user_id: String, change: VolumeChange },
}

/// `res` asks to change the volume of the user named by `user_id` by `change`.
pub open spec fn adjusts(res: UserVolumeRequest, user_id: Seq<char>, change: VolumeChange) -> bool {
    res matches UserVolumeRequest::Adjust { user_id: u, change: c } && u@ == user_id && c == change
}

/// A request adjusts a user's volume exactly when it names that user and
/// carries that change.
pub proof fn lemma_adjusts(res: UserVolumeRequest, user_id: Seq<char>, change: VolumeChange)
    ensures
        adjusts(res, user_id, change) <==> (res matches UserVolumeRequest::Adjust { user_id: u, change: c }
            && u@ == user_id && c == change),
{
}

/// User Volume Control: changes the volume of one user.
pub struct UserVolumeControlAction;

impl UserVolumeControlAction {
    /// Without a configured user the key alerts; per-user mute has no bridge
    /// command and alerts too. Otherwise the key raises or lowers by one step
    /// or sets the configured volume.
    pub fn key_up(settings: &UserVolumeControlSettings) -> (res: UserVolumeRequest)
        ensures
            match opt_view(settings.user_id) {
                None => res is Alert,
                Some(user) => match settings.action_type {
                    UserVolumeControlActionType::Mute => res is Alert,
                    UserVolumeControlActionType::Increase => adjusts(
                        res,
                        user,
                        VolumeChange::By(settings.step_size as i32),
                    ),
                    UserVolumeControlActionType::Decrease => adjusts(
                        res,
                        user,
                        VolumeChange::By((-(settings.step_size as int)) as i32),
                    ),
                    UserVolumeControlActionType::SetVolume => adjusts(
                        res,
                        user,
                        VolumeChange::To(settings.set_volume),
                    ),
                },
            },
    {
        let user_id = match &settings.user_id {
            None => return UserVolumeRequest::Alert,
            Some(user_id) => user_id,
        };
        let change = match settings.action_type {
            UserVolumeControlActionType::Mute => return UserVolumeRequest::Alert,
            UserVolumeControlActionType::Increase => VolumeChange::By(settings.step_size as i32),
            UserVolumeControlActionType::Decrease => VolumeChange::By(-(settings.step_size as i32)),
            UserVolumeControlActionType::SetVolume => VolumeChange::To(settings.set_volume),
        };
        UserVolumeRequest::Adjust { user_id: user_id.clone(), change }
    }

    /// A dial turn changes the user's volume by one step per tick; without a
    /// configured user it alerts.
    pub fn dial_rotate(settings: &UserVolumeControlSettings, ticks: i16) -> (res: UserVolumeRequest)
        ensures
            match opt_view(settings.user_id) {
                None => res is Alert,
                Some(user) => adjusts(res, user, dial_change(settings.step_size, ticks)),
            },
    {
        assert(-8355840 <= settings.step_size as int * ticks as int <= 8355585) by (nonlinear_arith)
            requires
                0 <= settings.step_size <= 255,
                -32768 <= ticks <= 32767,
        ;
        match &settings.user_id {
            None => UserVolumeRequest::Alert,
            Some(user_id) => UserVolumeRequest::Adjust {
                user_id: user_id.clone(),
                change: VolumeChange::By((settings.step_size as i32) * (ticks as i32)),
            },
        }
    }
}

/// The command that sets the volume of `user_id` to the single-precision value
/// with bit pattern `value_bits`.
pub fn user_volume_command(user_id: String, value_bits: u32) -> (res: ServerCommand)
    ensures
        res == (ServerCommand::SetUserVolume { user_id, value_bits }),
{
    ServerCommand::SetUserVolume { user_id, value_bits }
}

} // verus!
