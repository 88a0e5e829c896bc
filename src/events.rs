//! Commands sent to the control loop and status facts published by it.

use vstd::prelude::*;

verus! {

/// Operating mode of the receiver.
#[derive(Clone, Copy, Debug, PartialEq, Eq, Structural)]
pub enum RadioMode {
    FM,
    AM,
    Off,
}

/// Tuning status reported by the receiver.
#[derive(Clone, Copy, Debug, PartialEq, Eq, Structural)]
pub struct TuneStatus {
    /// Tuned frequency in kHz.
    pub frequency_khz: u32,
    /// Received signal strength in dBuV.
    pub rssi: u8,
    /// Signal to noise ratio in dB.
    pub snr: u8,
    /// Whether the tuned channel is a valid station.
    pub valid: bool,
}

/// Hardware revision of the receiver module.
#[derive(Clone, Copy, Debug, PartialEq, Eq, Structural)]
pub struct Revision {
    pub part_number: u8,
    pub firmware_major: u8,
    pub firmware_minor: u8,
    pub chip_revision: u8,
}

/// Operator or program intent, consumed by the control loop.
#[derive(Clone, Copy, Debug, PartialEq, Eq, Structural)]
pub enum SystemEvent {
    /// Turn on FM radio.
    RadioFmOn,
    /// Turn on AM radio.
    RadioAmOn,
    /// Turn radio off.
    RadioOff,
    /// Seek up to the next station.
    RadioSeekUp,
    /// Seek down to the previous station.
    RadioSeekDown,
    /// Set the radio frequency, in kHz.
    RadioSetFrequency(u32),
    /// Mute audio output.
    RadioMute,
    /// Unmute audio output.
    RadioUnmute,
    /// Increase volume by one step.
    RadioVolumeUp,
    /// Decrease volume by one step.
    RadioVolumeDown,
    /// Set volume to a specific value.
    RadioVolumeSet(u8),
}

/// Status fact published by the control loop.
#[derive(Clone, Copy, Debug, PartialEq, Eq, Structural)]
pub enum SystemNotify {
    /// Current tuning status.
    TuneStatus(TuneStatus),
    /// Hardware revision information.
    RevisionInfo(Revision),
    /// FM radio has been turned on.
    RadioFmOn,
    /// AM radio has been turned on.
    RadioAmOn,
    /// Radio has been turned off.
    RadioOff,
    /// Audio output has been muted.
    RadioMute,
    /// Audio output has been unmuted.
    RadioUnmute,
    /// Volume has changed to the given value.
    VolumeChanged(u8),
}

} // verus!
