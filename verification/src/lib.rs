//! Driver library for the PlayStation VR headset: wire protocol, device
//! composition and the integer side of inertial sensing.

pub mod backend;
pub mod client;
pub mod codec;
pub mod command;
pub mod error;
pub mod inertia;
pub mod info;
pub mod input;
pub mod layout;
pub mod math;
pub mod protocol;
pub mod sensor;
pub mod text;
pub mod usb;

pub use crate::error::Error;
