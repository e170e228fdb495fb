//! Volume Control: raises, lowers or sets the input or output volume.
//!
//! The volume arithmetic itself (adding the change to the current
//! single-precision volume and clamping it to the device's scale) is done by
//! the caller; this module decides which change a key or dial asks for.

use vstd::prelude::*;
use super::audio_device_utils::AudioDeviceType;
use crate::protocol::ServerCommand;

verus! {

/// What a volume key does.
#[derive(Debug, Clone, Copy, PartialEq, Eq, Structural)]
pub enum VolumeControlActionType {
    Increase,
    Decrease,
    SetVolume,
}

impl Default for VolumeControlActionType {
    fn default() -> (res: Self)
        ensures
            res == VolumeControlActionType::Increase,
    {
        VolumeControlActionType::Increase
    }
}

/// Settings of a Volume Control key.
#[derive(Debug, Clone, Copy, PartialEq, Eq, Structural)]
pub struct VolumeControlSettings {
    pub device_type: AudioDeviceType,
    pub action_type: VolumeControlActionType,
    pub step_size: u8,
    pub set_volume: u8,
}

impl Default for VolumeControlSettings {
    fn default() -> (res: Self)
        ensures
            res == (VolumeControlSettings {
                device_type: AudioDeviceType::Input,
                action_type: VolumeControlActionType::Increase,
                step_size: 5,
                set_volume: 100,
            }),
    {
        VolumeControlSettings {
            device_type: AudioDeviceType::Input,
            action_type: VolumeControlActionType::Increase,
            step_size: 5,
            set_volume: 100,
        }
    }
}

/// A requested volume change: to an absolute value, or by a signed amount.
#[derive(Debug, Clone, Copy, PartialEq, Eq, Structural)]
pub enum VolumeChange {
    To(u8),
    By(i32),
}

/// The change a key press asks for under `action_type`.
pub open spec fn key_change(action_type: VolumeControlActionType, step_size: u8, set_volume: u8) -> VolumeChange {
    match action_type {
        VolumeControlActionType::Increase => VolumeChange::By(step_size as i32),
        VolumeControlActionType::Decrease => VolumeChange::By((-(step_size as int)) as i32),
        VolumeControlActionType::SetVolume => VolumeChange::To(set_volume),
    }
}

/// The change a dial turn of `ticks` asks for: one step per tick.
pub open spec fn dial_change(step_size: u8, ticks: i16) -> VolumeChange {
    VolumeChange::By((step_size as int * ticks as int) as i32)
}

/// A volume key raises by exactly one step, lowers by exactly one step, or
/// sets exactly the configured volume, whatever the device; a dial turn
/// changes the volume by exactly one step per tick, in the turn's direction.
pub proof fn lemma_volume_changes(step_size: u8, set_volume: u8, ticks: i16)
    ensures
        key_change(VolumeControlActionType::Increase, step_size, set_volume) == VolumeChange::By(
            step_size as i32,
        ),
        key_change(VolumeControlActionType::Decrease, step_size, set_volume) matches VolumeChange::By(d)
            && d == -(step_size as int),
        key_change(VolumeControlActionType::SetVolume, step_size, set_volume) == VolumeChange::To(
            set_volume,
        ),
        dial_change(step_size, ticks) matches VolumeChange::By(d) && d == step_size as int * ticks as int,
{
    assert(-8355840 <= step_size as int * ticks as int <= 8355585) by (nonlinear_arith)
        requires
            0 <= step_size <= 255,
            -32768 <= ticks <= 32767,
    ;
}

/// A requested volume change on one side of the audio path.
#[derive(Debug, Clone, Copy, PartialEq, Eq, Structural)]
pub struct VolumeRequest {
    pub device_type: AudioDeviceType,
    pub change: VolumeChange,
}

/// Volume Control: raises, lowers or sets a device volume.
pub struct VolumeControlAction;

impl VolumeControlAction {
    /// A key press raises or lowers by one step, or sets the configured volume.
    pub fn key_up(settings: &VolumeControlSettings) -> (res: VolumeRequest)
        ensures
            res == (VolumeRequest {
                device_type: settings.device_type,
                change: key_change(settings.action_type, settings.step_size, settings.set_volume),
            }),
            settings.action_type == VolumeControlActionType::Increase ==> res.change
                == VolumeChange::By(settings.step_size as i32),
            settings.action_type == VolumeControlActionType::Decrease ==> (res.change matches VolumeChange::By(d)
                && d == -(settings.step_size as int)),
            settings.action_type == VolumeControlActionType::SetVolume ==> res.change
                == VolumeChange::To(settings.set_volume),
    {
        let change = match settings.action_type {
            VolumeControlActionType::Increase => VolumeChange::By(settings.step_size as i32),
            VolumeControlActionType::Decrease => VolumeChange::By(-(settings.step_size as i32)),
            VolumeControlActionType::SetVolume => VolumeChange::To(settings.set_volume),
        };
        VolumeRequest { device_type: settings.device_type, change }
    }

    /// A dial turn changes the volume by one step per tick, whatever the key's action.
    pub fn dial_rotate(settings: &VolumeControlSettings, ticks: i16) -> (res: VolumeRequest)
        ensures
            res == (VolumeRequest {
                device_type: settings.device_type,
                change: dial_change(settings.step_size, ticks),
            }),
            res.change matches VolumeChange::By(d) && d == settings.step_size as int * ticks as int,
            res.device_type == settings.device_type,
    {
        assert(-8355840 <= settings.step_size as int * ticks as int <= 8355585) by (nonlinear_arith)
            requires
                0 <= settings.step_size <= 255,
                -32768 <= ticks <= 32767,
        ;
        let delta = (settings.step_size as i32) * (ticks as i32);
        VolumeRequest { device_type: settings.device_type, change: VolumeChange::By(delta) }
    }
}

/// The command that sets the volume of one side of the audio path to the
/// single-precision value with bit pattern `value_bits`.
pub fn volume_command(device_type: AudioDeviceType, value_bits: u32) -> (res: ServerCommand)
    ensures
        res == match device_type {
            AudioDeviceType::Input => ServerCommand::SetInputVolume { value_bits },
            AudioDeviceType::Output => ServerCommand::SetOutputVolume { value_bits },
        },
{
    match device_type {
        AudioDeviceType::Input => ServerCommand::SetInputVolume { value_bits },
        AudioDeviceType::Output => ServerCommand::SetOutputVolume { value_bits },
    }
}

} // verus!
