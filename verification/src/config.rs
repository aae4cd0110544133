//! The steps of a flash configuration.
use vstd::prelude::*;
use vstd::utf8::*;

use crate::error::Error;
use crate::text;

verus! {

/// Oldest `metadataVersion` that a configuration may carry.
pub const SUPPORTED_META_VERSION_MIN: usize = 1;

/// Newest `metadataVersion` that a configuration may carry.
pub const SUPPORTED_META_VERSION_MAX: usize = 2;

/// A file of the flash archive.
#[derive(Debug, Clone)]
pub struct MetaFile {
    pub file_path: String,
    pub encoding: Option<String>,
}

/// Bytes given inline, or the file that holds them.
#[derive(Debug, Clone)]
pub enum DataOrFile {
    Data(Vec<u8>),
    File(MetaFile),
}

/// A text given inline, or the file that holds it.
#[derive(Debug, Clone)]
pub enum StringOrFile {
    String(String),
    File(MetaFile),
}

#[derive(Debug, Clone)]
pub struct RunValue {
    pub address: u32,
    pub keep_power: Option<bool>,
}

#[derive(Debug, Clone)]
pub struct WriteSimpleMemoryValue {
    pub address: u32,
    pub data: DataOrFile,
}

#[derive(Debug, Clone)]
pub struct WriteLargeMemoryValue {
    pub address: u32,
    pub data: DataOrFile,
    pub block_length: usize,
    pub append_zeros: Option<bool>,
}

#[derive(Debug, Clone)]
pub struct ReadMemoryValue {
    pub address: u32,
    pub length: usize,
}

#[derive(Debug, Clone)]
pub struct WriteAMLCDataValue {
    pub seq: u8,
    pub amlc_offset: u32,
    pub data: DataOrFile,
}

#[derive(Debug, Clone)]
pub struct BL2BootValue {
    pub bl2: DataOrFile,
    pub bootloader: DataOrFile,
}

#[derive(Debug, Clone)]
pub struct ValidatePartitionSizeValue {
    pub name: String,
}

#[derive(Debug, Clone)]
pub struct RestorePartitionValue {
    pub name: String,
    pub data: DataOrFile,
}

#[derive(Debug, Clone)]
pub struct WriteBootPartitionValue {
    pub hwpart: u8,
    pub data: DataOrFile,
}

#[derive(Debug, Clone)]
pub struct WriteUserAreaValue {
    pub lba: u32,
    pub data: DataOrFile,
    pub sparse: Option<bool>,
}

/// What a wait step waits for.
#[derive(Debug, Clone)]
pub enum WaitValue {
    UserInput { message: String },
    /// A time in milliseconds.
    Time { time: u64 },
}

/// One step of a flash configuration.
#[allow(inconsistent_fields)]
#[derive(Debug, Clone)]
pub enum FlashStep {
    Identify { variable: Option<String> },
    Bulkcmd { value: String },
    BulkcmdStat { value: String, variable: Option<String> },
    Run { value: RunValue },
    WriteSimpleMemory { value: WriteSimpleMemoryValue },
    WriteLargeMemory { value: WriteLargeMemoryValue },
    ReadSimpleMemory { value: ReadMemoryValue, variable: Option<String> },
    ReadLargeMemory { value: ReadMemoryValue, variable: Option<String> },
    GetBootAMLC { variable: Option<String> },
    WriteAMLCData { value: WriteAMLCDataValue },
    Bl2Boot { value: BL2BootValue },
    ValidatePartitionSize { value: ValidatePartitionSizeValue, variable: Option<String> },
    RestorePartition { value: RestorePartitionValue },
    WriteBootPartition { value: WriteBootPartitionValue },
    WriteUserArea { value: WriteUserAreaValue },
    WriteEnv { value: StringOrFile },
    Log { value: String },
    Wait { value: WaitValue },
}

/// Accepts the `metadataVersion` values that the flasher understands.
pub fn check_meta_version(version: usize) -> (checked: Result<(), Error>)
    ensures
        checked is Ok <==> version == 1 || version == 2,
        checked matches Err(e) ==> e == Error::UnsupportedVersion(version),
{
    if version < SUPPORTED_META_VERSION_MIN || version > SUPPORTED_META_VERSION_MAX {
        return Err(Error::UnsupportedVersion(version));
    }
    Ok(())
}

/// The text of a file: its bytes have to be UTF-8.
pub fn decode_text(bytes: Vec<u8>) -> (decoded: Result<String, Error>)
    ensures
        decoded is Ok <==> valid_utf8(bytes@),
        decoded matches Ok(shown) ==> shown@ == decode_utf8(bytes@),
        decoded matches Err(e) ==> e is Utf8Error,
{
    match text::from_utf8(bytes) {
        Ok(shown) => Ok(shown),
        Err(e) => Err(Error::Utf8Error(e)),
    }
}

} // verus!
