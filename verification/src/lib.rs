//! Pairing management for a mobile device attached to a desktop host.
//!
//! The crate holds the decisions of the pairing tool and none of its I/O: a
//! caller performs each device call that the [`worker::Worker`] asks for and
//! hands the answer back.

pub mod address;
pub mod apps;
pub mod credential;
pub mod device;
pub mod devices;
pub mod devmode;
pub mod discover;
pub mod failure;
pub mod install;
pub mod intent;
pub mod link;
pub mod mount;
pub mod pairing;
pub mod presence;
pub mod session;
pub mod table;
pub mod text;
pub mod validate;
pub mod value;
pub mod wireless;
pub mod worker;
