//! What the steps of a flash configuration look like to a JavaScript caller.
//!
//! Inline data is left out, since it can be large, and numbers are cut to 32 bits.
use vstd::prelude::*;

use crate::config;
use crate::usb;

verus! {

/// A number cut to 32 bits.
pub open spec fn low_word(n: int) -> u32 {
    (n % 0x1_0000_0000) as u32
}

fn cut(n: u64) -> (low: u32)
    ensures
        low == low_word(n as int),
{
    (n % 0x1_0000_0000) as u32
}

/// The mode that a device is in.
#[derive(Debug, Clone, Copy, PartialEq, Eq, Structural)]
pub enum DeviceMode {
    Normal,
    Usb,
    UsbBurn,
    Fastboot,
    NotFound,
}

impl From<usb::DeviceMode> for DeviceMode {
    fn from(mode: usb::DeviceMode) -> (seen: Self) {
        match mode {
            usb::DeviceMode::Normal => DeviceMode::Normal,
            usb::DeviceMode::Usb => DeviceMode::Usb,
            usb::DeviceMode::UsbBurn => DeviceMode::UsbBurn,
            usb::DeviceMode::Fastboot => DeviceMode::Fastboot,
            usb::DeviceMode::NotFound => DeviceMode::NotFound,
        }
    }
}

impl vstd::std_specs::convert::FromSpecImpl<usb::DeviceMode> for DeviceMode {
    open spec fn obeys_from_spec() -> bool {
        true
    }

    open spec fn from_spec(mode: usb::DeviceMode) -> Self {
        match mode {
            usb::DeviceMode::Normal => DeviceMode::Normal,
            usb::DeviceMode::Usb => DeviceMode::Usb,
            usb::DeviceMode::UsbBurn => DeviceMode::UsbBurn,
            usb::DeviceMode::Fastboot => DeviceMode::Fastboot,
            usb::DeviceMode::NotFound => DeviceMode::NotFound,
        }
    }
}

impl DeviceMode {
    /// The mode in one word.
    pub fn name(self) -> (word: &'static str)
        ensures
            word@ == (match self {
                DeviceMode::Normal => "normal"@,
                DeviceMode::Usb => "usb"@,
                DeviceMode::UsbBurn => "usbBurn"@,
                DeviceMode::Fastboot => "fastboot"@,
                DeviceMode::NotFound => "notFound"@,
            }),
    {
        match self {
            DeviceMode::Normal => "normal",
            DeviceMode::Usb => "usb",
            DeviceMode::UsbBurn => "usbBurn",
            DeviceMode::Fastboot => "fastboot",
            DeviceMode::NotFound => "notFound",
        }
    }
}

/// A file of the flash archive.
#[derive(Debug)]
pub struct MetaFile {
    pub file_path: String,
    pub encoding: Option<String>,
}

impl From<config::MetaFile> for MetaFile {
    fn from(meta: config::MetaFile) -> (seen: Self) {
        MetaFile { file_path: meta.file_path, encoding: meta.encoding }
    }
}

impl vstd::std_specs::convert::FromSpecImpl<config::MetaFile> for MetaFile {
    open spec fn obeys_from_spec() -> bool {
        true
    }

    open spec fn from_spec(meta: config::MetaFile) -> Self {
        MetaFile { file_path: meta.file_path, encoding: meta.encoding }
    }
}

/// Bytes given inline, which are not shown, or the file that holds them.
#[derive(Debug)]
pub enum DataOrFile {
    Data,
    File { file: MetaFile },
}

impl From<config::DataOrFile> for DataOrFile {
    fn from(data: config::DataOrFile) -> (seen: Self) {
        match data {
            config::DataOrFile::Data(_) => DataOrFile::Data,
            config::DataOrFile::File(file) => DataOrFile::File { file: MetaFile::from(file) },
        }
    }
}

impl vstd::std_specs::convert::FromSpecImpl<config::DataOrFile> for DataOrFile {
    open spec fn obeys_from_spec() -> bool {
        true
    }

    open spec fn from_spec(data: config::DataOrFile) -> Self {
        match data {
            config::DataOrFile::Data(_) => DataOrFile::Data,
            config::DataOrFile::File(file) => DataOrFile::File {
                file: vstd::std_specs::convert::FromSpec::from_spec(file),
            },
        }
    }
}

/// A text given inline, or the file that holds it.
#[derive(Debug)]
pub enum StringOrFile {
    String { string: String },
    File { file: MetaFile },
}

impl From<config::StringOrFile> for StringOrFile {
    fn from(text: config::StringOrFile) -> (seen: Self) {
        match text {
            config::StringOrFile::String(string) => StringOrFile::String { string },
            config::StringOrFile::File(file) => StringOrFile::File { file: MetaFile::from(file) },
        }
    }
}

impl vstd::std_specs::convert::FromSpecImpl<config::StringOrFile> for StringOrFile {
    open spec fn obeys_from_spec() -> bool {
        true
    }

    open spec fn from_spec(text: config::StringOrFile) -> Self {
        match text {
            config::StringOrFile::String(string) => StringOrFile::String { string },
            config::StringOrFile::File(file) => StringOrFile::File {
                file: vstd::std_specs::convert::FromSpec::from_spec(file),
            },
        }
    }
}

/// The arguments of a run step.
#[derive(Debug)]
pub struct RunValue {
    pub address: u32,
    pub keep_power: Option<bool>,
}

impl From<config::RunValue> for RunValue {
    fn from(value: config::RunValue) -> (seen: Self) {
        RunValue {
            address: value.address,
            keep_power: value.keep_power,
        }
    }
}

impl vstd::std_specs::convert::FromSpecImpl<config::RunValue> for RunValue {
    open spec fn obeys_from_spec() -> bool {
        true
    }

    open spec fn from_spec(value: config::RunValue) -> Self {
        RunValue {
            address: value.address,
            keep_power: value.keep_power,
        }
    }
}

/// The arguments of a small memory write.
#[derive(Debug)]
pub struct WriteSimpleMemoryValue {
    pub address: u32,
    pub data: DataOrFile,
}

impl From<config::WriteSimpleMemoryValue> for WriteSimpleMemoryValue {
    fn from(value: config::WriteSimpleMemoryValue) -> (seen: Self) {
        WriteSimpleMemoryValue {
            address: value.address,
            data: DataOrFile::from(value.data),
        }
    }
}

impl vstd::std_specs::convert::FromSpecImpl<config::WriteSimpleMemoryValue> for WriteSimpleMemoryValue {
    open spec fn obeys_from_spec() -> bool {
        true
    }

    open spec fn from_spec(value: config::WriteSimpleMemoryValue) -> Self {
        WriteSimpleMemoryValue {
            address: value.address,
            data: vstd::std_specs::convert::FromSpec::from_spec(value.data),
        }
    }
}

/// The arguments of a large memory write.
#[derive(Debug)]
pub struct WriteLargeMemoryValue {
    pub address: u32,
    pub data: DataOrFile,
    pub block_length: u32,
    pub append_zeros: Option<bool>,
}

impl From<config::WriteLargeMemoryValue> for WriteLargeMemoryValue {
    fn from(value: config::WriteLargeMemoryValue) -> (seen: Self) {
        WriteLargeMemoryValue {
            address: value.address,
            data: DataOrFile::from(value.data),
            block_length: cut(value.block_length as u64),
            append_zeros: value.append_zeros,
        }
    }
}

impl vstd::std_specs::convert::FromSpecImpl<config::WriteLargeMemoryValue> for WriteLargeMemoryValue {
    open spec fn obeys_from_spec() -> bool {
        true
    }

    open spec fn from_spec(value: config::WriteLargeMemoryValue) -> Self {
        WriteLargeMemoryValue {
            address: value.address,
            data: vstd::std_specs::convert::FromSpec::from_spec(value.data),
            block_length: low_word(value.block_length as int),
            append_zeros: value.append_zeros,
        }
    }
}

/// The arguments of a memory read.
#[derive(Debug)]
pub struct ReadMemoryValue {
    pub address: u32,
    pub length: u32,
}

impl From<config::ReadMemoryValue> for ReadMemoryValue {
    fn from(value: config::ReadMemoryValue) -> (seen: Self) {
        ReadMemoryValue {
            address: value.address,
            length: cut(value.length as u64),
        }
    }
}

impl vstd::std_specs::convert::FromSpecImpl<config::ReadMemoryValue> for ReadMemoryValue {
    open spec fn obeys_from_spec() -> bool {
        true
    }

    open spec fn from_spec(value: config::ReadMemoryValue) -> Self {
        ReadMemoryValue {
            address: value.address,
            length: low_word(value.length as int),
        }
    }
}

/// The arguments of a packet of bootloader data.
#[derive(Debug)]
pub struct WriteAmlcDataValue {
    pub seq: u8,
    pub amlc_offset: u32,
    pub data: DataOrFile,
}

impl From<config::WriteAMLCDataValue> for WriteAmlcDataValue {
    fn from(value: config::WriteAMLCDataValue) -> (seen: Self) {
        WriteAmlcDataValue {
            seq: value.seq,
            amlc_offset: value.amlc_offset,
            data: DataOrFile::from(value.data),
        }
    }
}

impl vstd::std_specs::convert::FromSpecImpl<config::WriteAMLCDataValue> for WriteAmlcDataValue {
    open spec fn obeys_from_spec() -> bool {
        true
    }

    open spec fn from_spec(value: config::WriteAMLCDataValue) -> Self {
        WriteAmlcDataValue {
            seq: value.seq,
            amlc_offset: value.amlc_offset,
            data: vstd::std_specs::convert::FromSpec::from_spec(value.data),
        }
    }
}

/// The arguments of a boot through BL2.
#[derive(Debug)]
pub struct Bl2BootValue {
    pub bl2: DataOrFile,
    pub bootloader: DataOrFile,
}

impl From<config::BL2BootValue> for Bl2BootValue {
    fn from(value: config::BL2BootValue) -> (seen: Self) {
        Bl2BootValue {
            bl2: DataOrFile::from(value.bl2),
            bootloader: DataOrFile::from(value.bootloader),
        }
    }
}

impl vstd::std_specs::convert::FromSpecImpl<config::BL2BootValue> for Bl2BootValue {
    open spec fn obeys_from_spec() -> bool {
        true
    }

    open spec fn from_spec(value: config::BL2BootValue) -> Self {
        Bl2BootValue {
            bl2: vstd::std_specs::convert::FromSpec::from_spec(value.bl2),
            bootloader: vstd::std_specs::convert::FromSpec::from_spec(value.bootloader),
        }
    }
}

/// The arguments of a partition size check.
#[derive(Debug)]
pub struct ValidatePartitionSizeValue {
    pub name: String,
}

impl From<config::ValidatePartitionSizeValue> for ValidatePartitionSizeValue {
    fn from(value: config::ValidatePartitionSizeValue) -> (seen: Self) {
        ValidatePartitionSizeValue {
            name: value.name,
        }
    }
}

impl vstd::std_specs::convert::FromSpecImpl<config::ValidatePartitionSizeValue> for ValidatePartitionSizeValue {
    open spec fn obeys_from_spec() -> bool {
        true
    }

    open spec fn from_spec(value: config::ValidatePartitionSizeValue) -> Self {
        ValidatePartitionSizeValue {
            name: value.name,
        }
    }
}

/// The arguments of a partition restore.
#[derive(Debug)]
pub struct RestorePartitionValue {
    pub name: String,
    pub data: DataOrFile,
}

impl From<config::RestorePartitionValue> for RestorePartitionValue {
    fn from(value: config::RestorePartitionValue) -> (seen: Self) {
        RestorePartitionValue {
            name: value.name,
            data: DataOrFile::from(value.data),
        }
    }
}

impl vstd::std_specs::convert::FromSpecImpl<config::RestorePartitionValue> for RestorePartitionValue {
    open spec fn obeys_from_spec() -> bool {
        true
    }

    open spec fn from_spec(value: config::RestorePartitionValue) -> Self {
        RestorePartitionValue {
            name: value.name,
            data: vstd::std_specs::convert::FromSpec::from_spec(value.data),
        }
    }
}

/// The arguments of a boot hardware partition write.
#[derive(Debug)]
pub struct WriteBootPartitionValue {
    pub hwpart: u8,
    pub data: DataOrFile,
}

impl From<config::WriteBootPartitionValue> for WriteBootPartitionValue {
    fn from(value: config::WriteBootPartitionValue) -> (seen: Self) {
        WriteBootPartitionValue {
            hwpart: value.hwpart,
            data: DataOrFile::from(value.data),
        }
    }
}

impl vstd::std_specs::convert::FromSpecImpl<config::WriteBootPartitionValue> for WriteBootPartitionValue {
    open spec fn obeys_from_spec() -> bool {
        true
    }

    open spec fn from_spec(value: config::WriteBootPartitionValue) -> Self {
        WriteBootPartitionValue {
            hwpart: value.hwpart,
            data: vstd::std_specs::convert::FromSpec::from_spec(value.data),
        }
    }
}

/// The arguments of a user area write.
#[derive(Debug)]
pub struct WriteUserAreaValue {
    pub lba: u32,
    pub data: DataOrFile,
    pub sparse: Option<bool>,
}

impl From<config::WriteUserAreaValue> for WriteUserAreaValue {
    fn from(value: config::WriteUserAreaValue) -> (seen: Self) {
        WriteUserAreaValue {
            lba: value.lba,
            data: DataOrFile::from(value.data),
            sparse: value.sparse,
        }
    }
}

impl vstd::std_specs::convert::FromSpecImpl<config::WriteUserAreaValue> for WriteUserAreaValue {
    open spec fn obeys_from_spec() -> bool {
        true
    }

    open spec fn from_spec(value: config::WriteUserAreaValue) -> Self {
        WriteUserAreaValue {
            lba: value.lba,
            data: vstd::std_specs::convert::FromSpec::from_spec(value.data),
            sparse: value.sparse,
        }
    }
}

/// What a wait step waits for.
#[derive(Debug)]
pub enum WaitValue {
    UserInput { message: String },
    Time { time: u32 },
}

impl From<config::WaitValue> for WaitValue {
    fn from(value: config::WaitValue) -> (seen: Self) {
        match value {
            config::WaitValue::UserInput { message } => WaitValue::UserInput { message },
            config::WaitValue::Time { time } => WaitValue::Time { time: cut(time) },
        }
    }
}

impl vstd::std_specs::convert::FromSpecImpl<config::WaitValue> for WaitValue {
    open spec fn obeys_from_spec() -> bool {
        true
    }

    open spec fn from_spec(value: config::WaitValue) -> Self {
        match value {
            config::WaitValue::UserInput { message } => WaitValue::UserInput { message },
            config::WaitValue::Time { time } => WaitValue::Time { time: low_word(time as int) },
        }
    }
}

/// One step of a flash configuration.
#[allow(inconsistent_fields)]
#[derive(Debug)]
pub enum FlashStep {
    Identify { variable: Option<String> },
    Bulkcmd { value: String },
    BulkcmdStat { value: String, variable: Option<String> },
    Run { value: RunValue },
    WriteSimpleMemory { value: WriteSimpleMemoryValue },
    WriteLargeMemory { value: WriteLargeMemoryValue },
    ReadSimpleMemory { value: ReadMemoryValue, variable: Option<String> },
    ReadLargeMemory { value: ReadMemoryValue, variable: Option<String> },
    GetBootAmlc { variable: Option<String> },
    WriteAmlcData { value: WriteAmlcDataValue },
    Bl2Boot { value: Bl2BootValue },
    ValidatePartitionSize { value: ValidatePartitionSizeValue, variable: Option<String> },
    RestorePartition { value: RestorePartitionValue },
    WriteBootPartition { value: WriteBootPartitionValue },
    WriteUserArea { value: WriteUserAreaValue },
    WriteEnv { value: StringOrFile },
    Log { value: String },
    Wait { value: WaitValue },
}

impl From<config::FlashStep> for FlashStep {
    fn from(step: config::FlashStep) -> (seen: Self) {
        match step {
            config::FlashStep::Identify { variable } => FlashStep::Identify { variable },
            config::FlashStep::Bulkcmd { value } => FlashStep::Bulkcmd { value },
            config::FlashStep::BulkcmdStat { value, variable } => FlashStep::BulkcmdStat { value, variable },
            config::FlashStep::Run { value } => FlashStep::Run { value: RunValue::from(value) },
            config::FlashStep::WriteSimpleMemory { value } => FlashStep::WriteSimpleMemory {
                value: WriteSimpleMemoryValue::from(value),
            },
            config::FlashStep::WriteLargeMemory { value } => FlashStep::WriteLargeMemory {
                value: WriteLargeMemoryValue::from(value),
            },
            config::FlashStep::ReadSimpleMemory { value, variable } => FlashStep::ReadSimpleMemory {
                value: ReadMemoryValue::from(value),
                variable,
            },
            config::FlashStep::ReadLargeMemory { value, variable } => FlashStep::ReadLargeMemory {
                value: ReadMemoryValue::from(value),
                variable,
            },
            config::FlashStep::GetBootAMLC { variable } => FlashStep::GetBootAmlc { variable },
            config::FlashStep::WriteAMLCData { value } => FlashStep::WriteAmlcData {
                value: WriteAmlcDataValue::from(value),
            },
            config::FlashStep::Bl2Boot { value } => FlashStep::Bl2Boot { value: Bl2BootValue::from(value) },
            config::FlashStep::ValidatePartitionSize { value, variable } => FlashStep::ValidatePartitionSize {
                value: ValidatePartitionSizeValue::from(value),
                variable,
            },
            config::FlashStep::RestorePartition { value } => FlashStep::RestorePartition {
                value: RestorePartitionValue::from(value),
            },
            config::FlashStep::WriteBootPartition { value } => FlashStep::WriteBootPartition {
                value: WriteBootPartitionValue::from(value),
            },
            config::FlashStep::WriteUserArea { value } => FlashStep::WriteUserArea {
                value: WriteUserAreaValue::from(value),
            },
            config::FlashStep::WriteEnv { value } => FlashStep::WriteEnv { value: StringOrFile::from(value) },
            config::FlashStep::Log { value } => FlashStep::Log { value },
            config::FlashStep::Wait { value } => FlashStep::Wait { value: WaitValue::from(value) },
        }
    }
}

impl vstd::std_specs::convert::FromSpecImpl<config::FlashStep> for FlashStep {
    open spec fn obeys_from_spec() -> bool {
        true
    }

    open spec fn from_spec(step: config::FlashStep) -> Self {
        match step {
            config::FlashStep::Identify { variable } => FlashStep::Identify { variable },
            config::FlashStep::Bulkcmd { value } => FlashStep::Bulkcmd { value },
            config::FlashStep::BulkcmdStat { value, variable } => FlashStep::BulkcmdStat { value, variable },
            config::FlashStep::Run { value } => FlashStep::Run {
                value: vstd::std_specs::convert::FromSpec::from_spec(value),
            },
            config::FlashStep::WriteSimpleMemory { value } => FlashStep::WriteSimpleMemory {
                value: vstd::std_specs::convert::FromSpec::from_spec(value),
            },
            config::FlashStep::WriteLargeMemory { value } => FlashStep::WriteLargeMemory {
                value: vstd::std_specs::convert::FromSpec::from_spec(value),
            },
            config::FlashStep::ReadSimpleMemory { value, variable } => FlashStep::ReadSimpleMemory {
                value: vstd::std_specs::convert::FromSpec::from_spec(value),
                variable,
            },
            config::FlashStep::ReadLargeMemory { value, variable } => FlashStep::ReadLargeMemory {
                value: vstd::std_specs::convert::FromSpec::from_spec(value),
                variable,
            },
            config::FlashStep::GetBootAMLC { variable } => FlashStep::GetBootAmlc { variable },
            config::FlashStep::WriteAMLCData { value } => FlashStep::WriteAmlcData {
                value: vstd::std_specs::convert::FromSpec::from_spec(value),
            },
            config::FlashStep::Bl2Boot { value } => FlashStep::Bl2Boot {
                value: vstd::std_specs::convert::FromSpec::from_spec(value),
            },
            config::FlashStep::ValidatePartitionSize { value, variable } => FlashStep::ValidatePartitionSize {
                value: vstd::std_specs::convert::FromSpec::from_spec(value),
                variable,
            },
            config::FlashStep::RestorePartition { value } => FlashStep::RestorePartition {
                value: vstd::std_specs::convert::FromSpec::from_spec(value),
            },
            config::FlashStep::WriteBootPartition { value } => FlashStep::WriteBootPartition {
                value: vstd::std_specs::convert::FromSpec::from_spec(value),
            },
            config::FlashStep::WriteUserArea { value } => FlashStep::WriteUserArea {
                value: vstd::std_specs::convert::FromSpec::from_spec(value),
            },
            config::FlashStep::WriteEnv { value } => FlashStep::WriteEnv {
                value: vstd::std_specs::convert::FromSpec::from_spec(value),
            },
            config::FlashStep::Log { value } => FlashStep::Log { value },
            config::FlashStep::Wait { value } => FlashStep::Wait {
                value: vstd::std_specs::convert::FromSpec::from_spec(value),
            },
        }
    }
}

/// Files are shown with their path and encoding; inline data is not shown, and inline text is.
pub proof fn files_are_shown_as_they_are(
    data: config::DataOrFile,
    seen_data: DataOrFile,
    text: config::StringOrFile,
    seen_text: StringOrFile,
)
    requires
        seen_data == <DataOrFile as vstd::std_specs::convert::FromSpec<config::DataOrFile>>::from_spec(data),
        seen_text == <StringOrFile as vstd::std_specs::convert::FromSpec<config::StringOrFile>>::from_spec(text),
    ensures
        data is Data <==> seen_data is Data,
        data matches config::DataOrFile::File(file) ==> (seen_data matches DataOrFile::File { file: seen }
            && seen.file_path == file.file_path && seen.encoding == file.encoding),
        text matches config::StringOrFile::String(shown) ==> (seen_text matches StringOrFile::String { string }
            && string
            == shown),
        text matches config::StringOrFile::File(file) ==> (seen_text matches StringOrFile::File { file: seen }
            && seen.file_path == file.file_path && seen.encoding == file.encoding),
{
}

/// Modes are shown under their own names.
pub proof fn modes_are_shown_as_they_are(mode: usb::DeviceMode, seen: DeviceMode)
    requires
        seen == <DeviceMode as vstd::std_specs::convert::FromSpec<usb::DeviceMode>>::from_spec(mode),
    ensures
        mode == usb::DeviceMode::Normal <==> seen == DeviceMode::Normal,
        mode == usb::DeviceMode::Usb <==> seen == DeviceMode::Usb,
        mode == usb::DeviceMode::UsbBurn <==> seen == DeviceMode::UsbBurn,
        mode == usb::DeviceMode::Fastboot <==> seen == DeviceMode::Fastboot,
        mode == usb::DeviceMode::NotFound <==> seen == DeviceMode::NotFound,
{
}

/// A step is shown as the same kind of step with each of its own values, numbers of more than 32 bits being cut.
pub proof fn steps_are_shown_as_they_are(step: config::FlashStep, seen: FlashStep)
    requires
        seen == <FlashStep as vstd::std_specs::convert::FromSpec<config::FlashStep>>::from_spec(step),
    ensures
        step matches config::FlashStep::Identify { variable } ==> seen == (FlashStep::Identify { variable }),
        step matches config::FlashStep::Bulkcmd { value } ==> seen == (FlashStep::Bulkcmd { value }),
        step matches config::FlashStep::BulkcmdStat { value, variable } ==> seen == (FlashStep::BulkcmdStat {
            value,
            variable,
        }),
        step matches config::FlashStep::Run { value } ==> (seen matches FlashStep::Run { value: v } && v.address
            == value.address && v.keep_power == value.keep_power),
        step matches config::FlashStep::WriteSimpleMemory { value } ==> (seen matches FlashStep::WriteSimpleMemory {
            value: v,
        } && v.address == value.address
            && v.data == <DataOrFile as vstd::std_specs::convert::FromSpec<config::DataOrFile>>::from_spec(value.data)),
        step matches config::FlashStep::WriteLargeMemory { value } ==> (seen matches FlashStep::WriteLargeMemory {
            value: v,
        } && {
            &&& v.address == value.address
            &&& v.data == <DataOrFile as vstd::std_specs::convert::FromSpec<config::DataOrFile>>::from_spec(value.data)
            &&& value.block_length < 0x1_0000_0000 ==> v.block_length == value.block_length
            &&& v.append_zeros == value.append_zeros
        }),
        step matches config::FlashStep::ReadSimpleMemory { value, variable } ==> (seen matches
            FlashStep::ReadSimpleMemory { value: v, variable: kept } && {
            &&& v.address == value.address && kept == variable
            &&& value.length < 0x1_0000_0000 ==> v.length == value.length
        }),
        step matches config::FlashStep::ReadLargeMemory { value, variable } ==> (seen matches
            FlashStep::ReadLargeMemory { value: v, variable: kept } && {
            &&& v.address == value.address && kept == variable
            &&& value.length < 0x1_0000_0000 ==> v.length == value.length
        }),
        step matches config::FlashStep::GetBootAMLC { variable } ==> seen == (FlashStep::GetBootAmlc { variable }),
        step matches config::FlashStep::WriteAMLCData { value } ==> (seen matches FlashStep::WriteAmlcData { value: v }
            && v.seq == value.seq && v.amlc_offset == value.amlc_offset && v.data
            == <DataOrFile as vstd::std_specs::convert::FromSpec<config::DataOrFile>>::from_spec(value.data)),
        step matches config::FlashStep::Bl2Boot { value } ==> (seen matches FlashStep::Bl2Boot { value: v } && v.bl2
            == <DataOrFile as vstd::std_specs::convert::FromSpec<config::DataOrFile>>::from_spec(value.bl2)
                && v.bootloader
            == <DataOrFile as vstd::std_specs::convert::FromSpec<config::DataOrFile>>::from_spec(value.bootloader)),
        step matches config::FlashStep::ValidatePartitionSize { value, variable } ==> (seen matches
            FlashStep::ValidatePartitionSize { value: v, variable: kept } && v.name == value.name && kept == variable),
        step matches config::FlashStep::RestorePartition { value } ==> (seen matches FlashStep::RestorePartition {
            value: v,
        } && v.name == value.name
            && v.data == <DataOrFile as vstd::std_specs::convert::FromSpec<config::DataOrFile>>::from_spec(value.data)),
        step matches config::FlashStep::WriteBootPartition { value } ==> (seen matches FlashStep::WriteBootPartition {
            value: v,
        } && v.hwpart == value.hwpart
            && v.data == <DataOrFile as vstd::std_specs::convert::FromSpec<config::DataOrFile>>::from_spec(value.data)),
        step matches config::FlashStep::WriteUserArea { value } ==> (seen matches FlashStep::WriteUserArea { value: v }
            && v.lba == value.lba && v.sparse == value.sparse && v.data
            == <DataOrFile as vstd::std_specs::convert::FromSpec<config::DataOrFile>>::from_spec(value.data)),
        step matches config::FlashStep::WriteEnv { value } ==> (seen matches FlashStep::WriteEnv { value: v } && v
            == <StringOrFile as vstd::std_specs::convert::FromSpec<config::StringOrFile>>::from_spec(value)),
        step matches config::FlashStep::Log { value } ==> seen == (FlashStep::Log { value }),
        step matches config::FlashStep::Wait { value: config::WaitValue::UserInput { message } } ==> seen == (
        FlashStep::Wait { value: WaitValue::UserInput { message } }),
        step matches config::FlashStep::Wait { value: config::WaitValue::Time { time } } ==> (seen matches
            FlashStep::Wait { value: WaitValue::Time { time: shown } } && (time < 0x1_0000_0000 ==> shown == time)),
{
}

/// A number is cut to what is left of it below the thirty-third bit.
pub proof fn numbers_are_cut_to_their_low_bits(high: nat, low: u32)
    ensures
        low_word(0x1_0000_0000 * high + low) == low,
{
}

} // verus!
