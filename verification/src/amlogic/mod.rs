//! The Amlogic mask ROM and vendor U-Boot side of flashing.
//!
//! Everything here is decided without touching a device. Plain requests are built and replies are read by functions;
//! a procedure of several exchanges is a state machine whose `resume` takes the outcome of the last action and gives
//! the next one.

use vstd::prelude::*;

pub mod amlc;
pub mod bootstrap;
pub mod command;
pub mod memory;
pub mod partition;
pub mod steps;
pub mod stream;
pub mod stream_effect;

verus! {

/// Vendor request: write up to 64 bytes of memory.
pub const REQ_WRITE_MEM: u8 = 0x01;

/// Vendor request: read up to 64 bytes of memory.
pub const REQ_READ_MEM: u8 = 0x02;

/// Vendor request: run the code at an address.
pub const REQ_RUN_IN_ADDR: u8 = 0x05;

/// Vendor request: write memory in blocks sent over the bulk endpoint.
pub const REQ_WR_LARGE_MEM: u8 = 0x11;

/// Vendor request: identify the device.
pub const REQ_IDENTIFY_HOST: u8 = 0x20;

/// Vendor request: run a vendor U-Boot command.
pub const REQ_BULKCMD: u8 = 0x34;

/// Vendor request: ask which piece of the bootloader the boot ROM wants.
pub const REQ_GET_AMLC: u8 = 0x50;

/// Vendor request: announce a piece of the bootloader.
pub const REQ_WRITE_AMLC: u8 = 0x60;

/// How an operation without a result ended.
#[derive(Clone, Copy)]
pub enum Reply {
    Done,
    Failed,
}

/// The vendor requests by their numbers.
pub proof fn requests_have_their_numbers()
    ensures
        REQ_WRITE_MEM == 0x01,
        REQ_READ_MEM == 0x02,
        REQ_RUN_IN_ADDR == 0x05,
        REQ_WR_LARGE_MEM == 0x11,
        REQ_IDENTIFY_HOST == 0x20,
        REQ_BULKCMD == 0x34,
        REQ_GET_AMLC == 0x50,
        REQ_WRITE_AMLC == 0x60,
{
}

} // verus!
