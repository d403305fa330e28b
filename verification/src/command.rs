//! The supported set of PSVR commands.

use crate::codec::{u16_le_bytes, u32_le_bytes, write_all, write_u16, write_u32, write_u8};
use vstd::prelude::*;

verus! {

/// The largest payload that fits a command frame behind its header.
pub const MAX_PAYLOAD_SIZE: usize = 60;

/// A command that can be sent to the PSVR.
pub trait Command {
    /// The identifier byte of the command.
    const ID: u8;

    /// The bytes that follow the header on the wire.
    spec fn payload(&self) -> Seq<u8>;

    /// Every payload fits a frame.
    proof fn lemma_payload_fits(&self)
        ensures
            self.payload().len() <= MAX_PAYLOAD_SIZE,
    ;

    /// Appends the payload to `write`.
    fn write_payload(&self, write: &mut Vec<u8>)
        ensures
            final(write)@ == old(write)@ + self.payload(),
    ;

    /// Gets the raw bytes that make up the payload.
    fn payload_bytes(&self) -> (bytes: Vec<u8>)
        ensures
            bytes@ == self.payload(),
            bytes@.len() <= MAX_PAYLOAD_SIZE,
    {
        let mut buffer: Vec<u8> = Vec::new();
        self.write_payload(&mut buffer);
        proof {
            self.lemma_payload_fits();
        }
        buffer
    }
}

/// Tells the PSVR to turn power off or on.
#[derive(Clone, Debug, PartialEq, Eq)]
pub struct SetPower {
    /// `1` for on, `0` for off.
    pub on: bool,
}

/// Enables VR tracking.
#[derive(Clone, Debug, PartialEq, Eq)]
pub struct EnableVrTracking;

/// Enables or disables VR mode.
#[derive(Clone, Debug, PartialEq, Eq)]
pub struct SetVrMode {
    /// Whether VR mode is enabled.
    pub vr_mode: bool,
}

/// Turns the black box off.
#[derive(Clone, Debug, PartialEq, Eq)]
pub struct BoxOff;

/// Sets the cinematic configuration.
#[derive(Clone, Debug, PartialEq, Eq)]
pub struct SetCinematicConfiguration {
    pub mask: u8,
    pub screen_size: u8,
    pub screen_distance: u8,
    pub ipd: u8,
    pub reserved0: [u8; 6],
    pub brightness: u8,
    pub mic_volume: u8,
    pub reserved1: [u8; 2],
    pub unknown: bool,
    pub reserved2: u8,
}

/// Sets the state of a LED on the HMD.
#[derive(Clone, Debug, PartialEq, Eq)]
pub struct SetHmdLeds {
    pub led_mask: u16,
    pub values: [u8; 9],
    pub reserved: [u8; 5],
}

/// Reads device information.
#[derive(Clone, Debug, PartialEq, Eq)]
pub struct ReadDeviceInfo;

/// The payload word of an on/off switch.
pub open spec fn flag_word(on: bool) -> u32 {
    if on {
        1
    } else {
        0
    }
}

impl SetPower {
    /// Creates a new set power command.
    pub fn new(on: bool) -> (command: SetPower)
        ensures
            command.on == on,
    {
        SetPower { on }
    }
}

impl Command for SetPower {
    const ID: u8 = 0x17;

    open spec fn payload(&self) -> Seq<u8> {
        u32_le_bytes(flag_word(self.on))
    }

    proof fn lemma_payload_fits(&self) {
    }

    fn write_payload(&self, write: &mut Vec<u8>) {
        write_u32(write, if self.on { 1 } else { 0 });
    }
}

impl Command for EnableVrTracking {
    const ID: u8 = 0x11;

    open spec fn payload(&self) -> Seq<u8> {
        u32_le_bytes(0xFFFFFF00) + u32_le_bytes(0x00000000)
    }

    proof fn lemma_payload_fits(&self) {
    }

    fn write_payload(&self, write: &mut Vec<u8>) {
        write_u32(write, 0xFFFFFF00);
        write_u32(write, 0x00000000);
    }
}

impl Command for SetVrMode {
    const ID: u8 = 0x23;

    open spec fn payload(&self) -> Seq<u8> {
        u32_le_bytes(flag_word(self.vr_mode))
    }

    proof fn lemma_payload_fits(&self) {
    }

    fn write_payload(&self, write: &mut Vec<u8>) {
        write_u32(write, if self.vr_mode { 1 } else { 0 });
    }
}

impl Command for BoxOff {
    const ID: u8 = 0x13;

    open spec fn payload(&self) -> Seq<u8> {
        u32_le_bytes(1)
    }

    proof fn lemma_payload_fits(&self) {
    }

    fn write_payload(&self, write: &mut Vec<u8>) {
        write_u32(write, 1);
    }
}

impl Command for SetCinematicConfiguration {
    const ID: u8 = 0x21;

    open spec fn payload(&self) -> Seq<u8> {
        seq![self.mask, self.screen_size, self.screen_distance, self.ipd] + self.reserved0@
            + seq![self.brightness, self.mic_volume] + self.reserved1@ + seq![
            if self.unknown {
                1u8
            } else {
                0u8
            },
            self.reserved2,
        ]
    }

    proof fn lemma_payload_fits(&self) {
    }

    fn write_payload(&self, write: &mut Vec<u8>) {
        write_u8(write, self.mask);
        write_u8(write, self.screen_size);
        write_u8(write, self.screen_distance);
        write_u8(write, self.ipd);
        write_all(write, &self.reserved0);
        write_u8(write, self.brightness);
        write_u8(write, self.mic_volume);
        write_all(write, &self.reserved1);
        write_u8(write, if self.unknown { 1 } else { 0 });
        write_u8(write, self.reserved2);
    }
}

impl Command for SetHmdLeds {
    const ID: u8 = 0x15;

    open spec fn payload(&self) -> Seq<u8> {
        u16_le_bytes(self.led_mask) + self.values@ + self.reserved@
    }

    proof fn lemma_payload_fits(&self) {
    }

    fn write_payload(&self, write: &mut Vec<u8>) {
        write_u16(write, self.led_mask);
        write_all(write, &self.values);
        write_all(write, &self.reserved);
    }
}

impl Command for ReadDeviceInfo {
    const ID: u8 = 0x81;

    open spec fn payload(&self) -> Seq<u8> {
        seq![0x80u8, 0u8, 0u8, 0u8, 0u8, 0u8, 0u8, 0u8]
    }

    proof fn lemma_payload_fits(&self) {
    }

    fn write_payload(&self, write: &mut Vec<u8>) {
        let reserved: [u8; 7] = [0, 0, 0, 0, 0, 0, 0];
        write_u8(write, 0x80);
        write_all(write, &reserved);
    }
}

/// The identifiers of the catalogue, as the device knows them.
pub proof fn lemma_catalogue_identifiers()
    ensures
        SetPower::ID == 0x17,
        EnableVrTracking::ID == 0x11,
        SetVrMode::ID == 0x23,
        BoxOff::ID == 0x13,
        SetCinematicConfiguration::ID == 0x21,
        SetHmdLeds::ID == 0x15,
        ReadDeviceInfo::ID == 0x81,
{
}

} // verus!
