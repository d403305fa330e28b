//! PSVR usb identity and interface numbering.

use crate::error::Error;
use crate::text::{append_signed, decimal};
use vstd::prelude::*;
use vstd::string::StringExecFns;

verus! {

/// The vendor ID of the PSVR.
pub const PSVR_VID: u16 = 0x054c;

/// The product ID of the PSVR.
pub const PSVR_PID: u16 = 0x09af;

/// PSVR USB interface definitions.
#[derive(Copy, Clone, Debug, PartialEq, Eq, Structural)]
pub enum Interface {
    Audio3D,
    AudioControl,
    AudioMic,
    AudioChat,
    HidSensor,
    HidControl,
    VideoStreamH264,
    VideoStreamBulkIn,
    HidControl2,
}

/// The message of the error for an interface number that names no role.
pub open spec fn unknown_interface_message(value: int) -> Seq<char> {
    "usb interface '"@ + decimal(value) + "' is not a known PSVR interface number"@
}

impl Interface {
    /// The interface number that the device gives this role.
    pub open spec fn number_spec(self) -> int {
        match self {
            Interface::Audio3D => 0,
            Interface::AudioControl => 1,
            Interface::AudioMic => 2,
            Interface::AudioChat => 3,
            Interface::HidSensor => 4,
            Interface::HidControl => 5,
            Interface::VideoStreamH264 => 6,
            Interface::VideoStreamBulkIn => 7,
            Interface::HidControl2 => 8,
        }
    }

    /// The role of an interface number, where it has one.
    pub open spec fn of_number(value: int) -> Option<Interface> {
        if value == 0 {
            Some(Interface::Audio3D)
        } else if value == 1 {
            Some(Interface::AudioControl)
        } else if value == 2 {
            Some(Interface::AudioMic)
        } else if value == 3 {
            Some(Interface::AudioChat)
        } else if value == 4 {
            Some(Interface::HidSensor)
        } else if value == 5 {
            Some(Interface::HidControl)
        } else if value == 6 {
            Some(Interface::VideoStreamH264)
        } else if value == 7 {
            Some(Interface::VideoStreamBulkIn)
        } else if value == 8 {
            Some(Interface::HidControl2)
        } else {
            None
        }
    }

    /// The interface number of this role.
    pub fn number(&self) -> (n: i32)
        ensures
            n == self.number_spec(),
    {
        match self {
            Interface::Audio3D => 0,
            Interface::AudioControl => 1,
            Interface::AudioMic => 2,
            Interface::AudioChat => 3,
            Interface::HidSensor => 4,
            Interface::HidControl => 5,
            Interface::VideoStreamH264 => 6,
            Interface::VideoStreamBulkIn => 7,
            Interface::HidControl2 => 8,
        }
    }

    /// Classifies an interface number reported by the HID transport.
    pub fn from_i32(value: i32) -> (r: Result<Interface, Error>)
        ensures
            match Interface::of_number(value as int) {
                Some(interface) => r == Ok::<Interface, Error>(interface),
                None => r is Err && r->Err_0.message_text() == unknown_interface_message(
                    value as int,
                ),
            },
    {
        match value {
            0 => Ok(Interface::Audio3D),
            1 => Ok(Interface::AudioControl),
            2 => Ok(Interface::AudioMic),
            3 => Ok(Interface::AudioChat),
            4 => Ok(Interface::HidSensor),
            5 => Ok(Interface::HidControl),
            6 => Ok(Interface::VideoStreamH264),
            7 => Ok(Interface::VideoStreamBulkIn),
            8 => Ok(Interface::HidControl2),
            _ => {
                let mut message = String::from_str("usb interface '");
                append_signed(&mut message, value as i64);
                message.append("' is not a known PSVR interface number");
                Err(Error::CommunicationError { message })
            },
        }
    }
}

/// Classification and numbering are inverse to each other: every role has a
/// number in `0..=8` that classifies back to it, every number in `0..=8`
/// classifies to a role with that number, and no other number has a role.
pub proof fn lemma_interface_numbering_is_bijective()
    ensures
        forall|interface: Interface|
            0 <= #[trigger] interface.number_spec() <= 8 && Interface::of_number(
                interface.number_spec(),
            ) == Some(interface),
        forall|value: int|
            0 <= value <= 8 ==> (#[trigger] Interface::of_number(value)) is Some
                && Interface::of_number(value)->Some_0.number_spec() == value,
        forall|value: int|
            (value < 0 || value > 8) ==> (#[trigger] Interface::of_number(value)) is None,
{
}

} // verus!
