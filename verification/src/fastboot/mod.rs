//! Fastboot: the protocol of a device that runs mainline U-Boot, and the steps of a flash configuration over it.
//!
//! As on the Amlogic side, everything is decided here without touching a device.

pub mod boot;
pub mod command;
pub mod download;
pub mod env;
pub mod raw;
pub mod raw_effect;
pub mod reply;
pub mod steps;
pub mod vendor;
