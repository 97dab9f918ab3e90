//! Client library for the HEOS network-audio control protocol: command
//! rendering, reply decoding, discovery parsing and the device/group model.

pub mod attrs;
pub mod constants;
pub mod error;
pub mod heos;
pub mod heos_attributes;
pub mod heos_command;
pub mod heos_commands;
pub mod heos_device;
pub mod heos_group;
pub mod heos_media;
pub mod heos_reply;
mod json;
pub mod session;
pub mod text;

pub use error::HeosError;
pub use heos::Heos;
pub use heos_device::HeosDevice;
pub use heos_group::HeosGroup;
pub use heos_reply::HeosReply;
