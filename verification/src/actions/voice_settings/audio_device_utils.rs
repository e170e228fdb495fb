//! Audio devices as the client reports them, and the volume scale of each.

use vstd::prelude::*;
use crate::protocol::Device;

verus! {

/// Which side of the audio path a control acts on.
#[derive(Debug, Clone, Copy, PartialEq, Eq, Structural)]
pub enum AudioDeviceType {
    Input,
    Output,
}

impl AudioDeviceType {
    /// The top of the volume scale: input is 0–100, output is 0–200.
    pub open spec fn spec_max_volume(self) -> u16 {
        match self {
            AudioDeviceType::Input => 100,
            AudioDeviceType::Output => 200,
        }
    }

    /// The top of Discord's volume scale: input is 0–100, output is 0–200.
    pub fn max_volume(&self) -> (res: u16)
        ensures
            res == self.spec_max_volume(),
            *self == AudioDeviceType::Input ==> res == 100,
            *self == AudioDeviceType::Output ==> res == 200,
    {
        match self {
            AudioDeviceType::Input => 100,
            AudioDeviceType::Output => 200,
        }
    }
}

/// The selected device, its volume (the bit pattern of the single-precision
/// value) and the devices available on one side of the audio path.
#[derive(Debug, Clone, PartialEq)]
pub struct AudioDeviceWrapper {
    pub device_id: String,
    pub volume_bits: u32,
    pub available_devices: Vec<Device>,
}

/// How another user in the call is heard and what their voice state is.
/// `volume_bits` holds the bit pattern of the single-precision volume (0–200).
#[derive(Debug, Clone, PartialEq)]
pub struct UserVoiceSettings {
    pub nick: String,
    pub volume_bits: u32,
    pub mute: bool,
    pub self_mute: bool,
    pub self_deaf: bool,
    pub server_mute: bool,
    pub server_deaf: bool,
}

} // verus!
