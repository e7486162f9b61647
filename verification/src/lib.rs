//! Verified core of the AIR print agent: configuration and MQTT topics,
//! encrypted configuration files, the command dispatcher, the update check
//! and the printer list reader.
use vstd::prelude::*;

pub mod config;
pub mod config_loader;
pub mod crypto;
pub mod impresoras;
pub mod messages;
pub mod mqtt;
pub mod texto;
pub mod updater;

verus! {
} // verus!
