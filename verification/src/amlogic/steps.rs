//! The steps of a flash configuration, over vendor U-Boot.
use vstd::prelude::*;
use vstd::utf8::*;

use super::command::Command;
use super::partition;
use super::partition::ScriptItem;
use super::stream::TRANSFER_BLOCK_SIZE;
use super::Reply;
use crate::boot_image;
use crate::bytes;
use crate::config::{DataOrFile, FlashStep, StringOrFile, WaitValue};
use crate::error;
use crate::error::{Error, Outcome};
use crate::flash::FlashOutcome;
use crate::text;

verus! {

/// What a step asks of the device, with the defaults filled in.
pub enum Operation<'a> {
    Identify,
    Bulkcmd { line: &'a String },
    Run { address: u32, keep_power: Option<bool> },
    WriteSimpleMemory { address: u32, data: &'a DataOrFile },
    WriteToDisk { address: u32, data: &'a DataOrFile, block_length: usize, append_zeros: bool },
    ReadSimpleMemory { address: u32, length: usize },
    ReadMemory { address: u32, length: usize },
    GetBootAmlc,
    WriteAmlcPacket { seq: u8, amlc_offset: u32, data: &'a DataOrFile },
    Bl2Boot { bl2: &'a DataOrFile, bootloader: &'a DataOrFile },
    ValidatePartition { name: &'a String },
    RestorePartition { name: &'a String, data: &'a DataOrFile },
    /// Restore the partition `name`, which is the bootloader: not a plain partition write.
    RestoreBootloader { name: &'a String, data: &'a DataOrFile },
    WriteBootPartition { hwpart: u8, data: &'a DataOrFile },
    WriteUserArea { lba: u32, data: &'a DataOrFile, sparse: bool },
    WriteEnv { value: &'a StringOrFile },
    Log { text: &'a String },
    Sleep { millis: u64 },
}

/// A flag, or what it is when nothing is said.
pub open spec fn flag_or(flag: Option<bool>, default: bool) -> bool {
    match flag {
        Some(set) => set,
        None => default,
    }
}

fn flag_unwrapped(flag: Option<bool>, default: bool) -> (set: bool)
    ensures
        set == flag_or(flag, default),
{
    match flag {
        Some(set) => set,
        None => default,
    }
}

/// Whether a step can be run: all can but a wait for user input.
pub open spec fn is_supported(step: FlashStep) -> bool {
    !(step matches FlashStep::Wait { value: WaitValue::UserInput { .. } })
}

/// What a step asks of the device.
pub open spec fn operation_of<'a>(step: &'a FlashStep) -> Operation<'a> {
    match step {
        FlashStep::Identify { .. } => Operation::Identify,
        FlashStep::Bulkcmd { value } => Operation::Bulkcmd { line: value },
        FlashStep::BulkcmdStat { value, .. } => Operation::Bulkcmd { line: value },
        FlashStep::Run { value } => Operation::Run { address: value.address, keep_power: value.keep_power },
        FlashStep::WriteSimpleMemory { value } => Operation::WriteSimpleMemory {
            address: value.address,
            data: &value.data,
        },
        FlashStep::WriteLargeMemory { value } => Operation::WriteToDisk {
            address: value.address,
            data: &value.data,
            block_length: value.block_length,
            append_zeros: flag_or(value.append_zeros, true),
        },
        FlashStep::ReadSimpleMemory { value, .. } => Operation::ReadSimpleMemory {
            address: value.address,
            length: value.length,
        },
        FlashStep::ReadLargeMemory { value, .. } => Operation::ReadMemory {
            address: value.address,
            length: value.length,
        },
        FlashStep::GetBootAMLC { .. } => Operation::GetBootAmlc,
        FlashStep::WriteAMLCData { value } => Operation::WriteAmlcPacket {
            seq: value.seq,
            amlc_offset: value.amlc_offset,
            data: &value.data,
        },
        FlashStep::Bl2Boot { value } => Operation::Bl2Boot { bl2: &value.bl2, bootloader: &value.bootloader },
        FlashStep::ValidatePartitionSize { value, .. } => Operation::ValidatePartition { name: &value.name },
        FlashStep::RestorePartition { value } => if value.name@ == "bootloader"@ {
            Operation::RestoreBootloader { name: &value.name, data: &value.data }
        } else {
            Operation::RestorePartition { name: &value.name, data: &value.data }
        },
        FlashStep::WriteBootPartition { value } => Operation::WriteBootPartition {
            hwpart: value.hwpart,
            data: &value.data,
        },
        FlashStep::WriteUserArea { value } => Operation::WriteUserArea {
            lba: value.lba,
            data: &value.data,
            sparse: flag_or(value.sparse, false),
        },
        FlashStep::WriteEnv { value } => Operation::WriteEnv { value },
        FlashStep::Log { value } => Operation::Log { text: value },
        FlashStep::Wait { value } => match value {
            WaitValue::Time { time } => Operation::Sleep { millis: *time },
            WaitValue::UserInput { .. } => Operation::Sleep { millis: 0 },
        },
    }
}

/// Finds out what a step asks of the device. A wait for user input is not supported.
pub fn plan_step<'a>(step: &'a FlashStep) -> (operation: Operation<'a>)
    requires
        is_supported(*step),
    ensures
        operation == operation_of(step),
        match *step {
            FlashStep::Identify { .. } => operation is Identify,
            FlashStep::Bulkcmd { value } => operation matches Operation::Bulkcmd { line } && *line == value,
            FlashStep::BulkcmdStat { value, .. } => operation matches Operation::Bulkcmd { line } && *line == value,
            FlashStep::Run { value } => operation matches Operation::Run { address, keep_power }
                && address == value.address
                && keep_power == value.keep_power,
            FlashStep::WriteSimpleMemory { value } => {
                operation matches Operation::WriteSimpleMemory { address, data } && address
                    == value.address && *data == value.data
            },
            FlashStep::WriteLargeMemory { value } => operation matches Operation::WriteToDisk {
                address,
                data,
                block_length,
                append_zeros,
            } && {
                &&& address == value.address
                &&& *data == value.data
                &&& block_length == value.block_length
                &&& append_zeros <==> value.append_zeros != Some(false)
            },
            FlashStep::ReadSimpleMemory { value, .. } => {
                operation matches Operation::ReadSimpleMemory { address, length }
                    && address == value.address && length == value.length
            },
            FlashStep::ReadLargeMemory { value, .. } => {
                operation matches Operation::ReadMemory { address, length } && address
                    == value.address && length == value.length
            },
            FlashStep::GetBootAMLC { .. } => operation is GetBootAmlc,
            FlashStep::WriteAMLCData { value } => {
                operation matches Operation::WriteAmlcPacket { seq, amlc_offset, data } && {
                    &&& seq == value.seq
                    &&& amlc_offset == value.amlc_offset
                    &&& *data == value.data
                }
            },
            FlashStep::Bl2Boot { value } => operation matches Operation::Bl2Boot { bl2, bootloader }
                && *bl2 == value.bl2
                && *bootloader == value.bootloader,
            FlashStep::ValidatePartitionSize { value, .. } => {
                operation matches Operation::ValidatePartition { name } && *name
                    == value.name
            },
            FlashStep::RestorePartition { value } => if value.name@ == "bootloader"@ {
                operation matches Operation::RestoreBootloader { name, data } && *name == value.name
                    && *data == value.data
            } else {
                operation matches Operation::RestorePartition { name, data } && *name == value.name
                    && *data == value.data
            },
            FlashStep::WriteBootPartition { value } => {
                operation matches Operation::WriteBootPartition { hwpart, data } && hwpart
                    == value.hwpart && *data == value.data
            },
            FlashStep::WriteUserArea { value } => operation matches Operation::WriteUserArea { lba, data, sparse } && {
                &&& lba == value.lba
                &&& *data == value.data
                &&& sparse <==> value.sparse == Some(true)
            },
            FlashStep::WriteEnv { value } => operation matches Operation::WriteEnv { value: text } && *text == value,
            FlashStep::Log { value } => operation matches Operation::Log { text } && *text == value,
            FlashStep::Wait { value } => value matches WaitValue::Time { time }
                && (operation matches Operation::Sleep { millis }
                && millis == time),
        },
{
    match step {
        FlashStep::Identify { .. } => Operation::Identify,
        FlashStep::Bulkcmd { value } => Operation::Bulkcmd { line: value },
        FlashStep::BulkcmdStat { value, .. } => Operation::Bulkcmd { line: value },
        FlashStep::Run { value } => Operation::Run { address: value.address, keep_power: value.keep_power },
        FlashStep::WriteSimpleMemory { value } => {
            Operation::WriteSimpleMemory { address: value.address, data: &value.data }
        },
        FlashStep::WriteLargeMemory { value } => {
            Operation::WriteToDisk {
                address: value.address,
                data: &value.data,
                block_length: value.block_length,
                append_zeros: flag_unwrapped(value.append_zeros, true),
            }
        },
        FlashStep::ReadSimpleMemory { value, .. } => {
            Operation::ReadSimpleMemory { address: value.address, length: value.length }
        },
        FlashStep::ReadLargeMemory { value, .. } => {
            Operation::ReadMemory { address: value.address, length: value.length }
        },
        FlashStep::GetBootAMLC { .. } => Operation::GetBootAmlc,
        FlashStep::WriteAMLCData { value } => {
            Operation::WriteAmlcPacket { seq: value.seq, amlc_offset: value.amlc_offset, data: &value.data }
        },
        FlashStep::Bl2Boot { value } => Operation::Bl2Boot { bl2: &value.bl2, bootloader: &value.bootloader },
        FlashStep::ValidatePartitionSize { value, .. } => Operation::ValidatePartition { name: &value.name },
        FlashStep::RestorePartition { value } => {
            if text::same_text(value.name.as_str(), "bootloader") {
                Operation::RestoreBootloader { name: &value.name, data: &value.data }
            } else {
                Operation::RestorePartition { name: &value.name, data: &value.data }
            }
        },
        FlashStep::WriteBootPartition { value } => {
            Operation::WriteBootPartition { hwpart: value.hwpart, data: &value.data }
        },
        FlashStep::WriteUserArea { value } => {
            Operation::WriteUserArea {
                lba: value.lba,
                data: &value.data,
                sparse: flag_unwrapped(value.sparse, false),
            }
        },
        FlashStep::WriteEnv { value } => Operation::WriteEnv { value },
        FlashStep::Log { value } => Operation::Log { text: value },
        FlashStep::Wait { value } => match value {
            WaitValue::Time { time } => Operation::Sleep { millis: *time },
            WaitValue::UserInput { .. } => Operation::Sleep { millis: 0 },
        },
    }
}

/// What an operation brought back.
pub enum StepResult {
    Nothing,
    Text(String),
    /// The size in bytes and the offset of a partition that was checked.
    Partition(Option<(usize, usize)>),
}

/// What a step that has succeeded ends with: an identification, a response, or a partition's size and offset where
/// the step is for one of these, and nothing special otherwise.
pub fn conclude(step: &FlashStep, result: StepResult) -> (outcome: FlashOutcome)
    ensures
        match (*step, result) {
            (FlashStep::Identify { .. }, StepResult::Text(name)) => outcome == FlashOutcome::IdentifyResult(name),
            (FlashStep::BulkcmdStat { .. }, StepResult::Text(response)) => outcome == FlashOutcome::BulkcmdStatResult(
                response,
            ),
            (FlashStep::ValidatePartitionSize { .. }, StepResult::Partition(Some((size, offset)))) => outcome
                == FlashOutcome::ValidatePartitionResult(Some(size), Some(offset)),
            (FlashStep::ValidatePartitionSize { .. }, StepResult::Partition(None)) => outcome
                == FlashOutcome::ValidatePartitionResult(None, None),
            _ => outcome is Normal,
        },
{
    match step {
        FlashStep::Identify { .. } => match result {
            StepResult::Text(name) => FlashOutcome::IdentifyResult(name),
            _ => FlashOutcome::Normal,
        },
        FlashStep::BulkcmdStat { .. } => match result {
            StepResult::Text(response) => FlashOutcome::BulkcmdStatResult(response),
            _ => FlashOutcome::Normal,
        },
        FlashStep::ValidatePartitionSize { .. } => match result {
            StepResult::Partition(Some((size, offset))) => {
                FlashOutcome::ValidatePartitionResult(Some(size), Some(offset))
            },
            StepResult::Partition(None) => FlashOutcome::ValidatePartitionResult(None, None),
            _ => FlashOutcome::Normal,
        },
        _ => FlashOutcome::Normal,
    }
}

/// The size that a restore goes by: that of a partition that was checked. Without one the restore is refused.
pub fn restore_size(checked: Option<(usize, usize)>) -> (size: Result<usize, Error>)
    ensures
        match checked {
            Some((found, _)) => size == Ok::<usize, Error>(found),
            None => size matches Err(e) && error::is_invalid(e, "Failed to validate partition size!"@),
        },
{
    match checked {
        Some((found, _)) => Ok(found),
        None => Err(error::invalid("Failed to validate partition size!")),
    }
}

/// Imports a text environment: set up the environment, stage the text, and import it. It has to be ASCII.
pub fn write_env(env: &str) -> (script: Result<Vec<ScriptItem>, Error>)
    ensures
        script is Ok <==> is_ascii_chars(env@),
        script matches Ok(items) ==> {
            &&& items@.len() == 3
            &&& items@[0] == ScriptItem::Run(Command::InitEnv)
            &&& partition::stages(items@[1], encode_utf8(env@))
            &&& items@[1] matches ScriptItem::Stage { data, block_length: 4096 } && data@ == encode_utf8(env@)
            &&& items@[2] == ScriptItem::Run(Command::ImportEnv { size: encode_utf8(env@).len() as u64 })
        },
        script matches Err(e) ==> error::is_invalid(e, "env data must be ascii"@),
{
    if !env.is_ascii() {
        return Err(error::invalid("env data must be ascii"));
    }
    let spelled = env.as_bytes();
    let size: usize = spelled.len();
    let data = bytes::copy_between(spelled, 0, size);
    assert(data@ =~= encode_utf8(env@));
    let mut items: Vec<ScriptItem> = Vec::new();
    items.push(ScriptItem::Run(Command::InitEnv));
    items.push(ScriptItem::Stage { data, block_length: TRANSFER_BLOCK_SIZE });
    items.push(ScriptItem::Run(Command::ImportEnv { size: size as u64 }));
    Ok(items)
}

/// Whether a script writes an image to a boot hardware partition and then selects the user area again.
pub open spec fn writes_boot(items: Seq<ScriptItem>, hwpart: u8, image: Seq<u8>) -> bool {
    &&& items.len() == 5
    &&& items[0] == ScriptItem::Run(Command::SelectHwpart { hwpart })
    &&& items[1] == ScriptItem::Run(Command::UnlockKey)
    &&& partition::stages(items[2], image)
    &&& items[3] == ScriptItem::Run(Command::WriteBoot { sectors: bytes::div_up(image.len(), 512) as u64 })
    &&& items[4] == ScriptItem::Run(Command::SelectHwpart { hwpart: 0 })
}

/// Writes a bootloader to a boot hardware partition, in the form that the device boots from: a bare one gets an info
/// sector, a prepared one is written as it is. How much the partition holds is for the caller to know.
pub(crate) fn write_boot_step(hwpart: u8, data: &[u8]) -> (script: Result<Vec<ScriptItem>, Error>)
    ensures
        script is Ok <==> 1 <= hwpart <= 2,
        script matches Ok(items) ==> writes_boot(items@, hwpart, boot_image::boot_image(data@)),
        script matches Ok(items) ==> {
            let image = boot_image::boot_image(data@);
            &&& items@.len() == 5
            &&& items@[0] == ScriptItem::Run(Command::SelectHwpart { hwpart })
            &&& items@[1] == ScriptItem::Run(Command::UnlockKey)
            &&& items@[2] matches ScriptItem::Stage { data: staged, block_length: 4096 } && staged@ == image
            &&& items@[3] matches ScriptItem::Run(Command::WriteBoot { sectors }) && image.len() <= 512 * sectors
                < image.len() + 512
            &&& items@[4] == ScriptItem::Run(Command::SelectHwpart { hwpart: 0 })
        },
        script matches Err(e) ==> error::is_invalid(
            e,
            "boot hwpart must be 1 or 2, got "@ + text::decimal(hwpart as nat),
        ),
{
    partition::write_boot_partition(hwpart, boot_image::to_boot_image(data))
}

/// Writes a bootloader to a boot hardware partition of whichever size: in the form that the device boots from, and as
/// much as the smaller partitions hold. One with content past that is refused.
pub fn write_hwpart_step(hwpart: u8, data: &[u8]) -> (script: Result<Vec<ScriptItem>, Error>)
    ensures
        script is Ok <==> 1 <= hwpart <= 2 && boot_image::fits_hwpart(boot_image::boot_image(data@)),
        script matches Ok(items) ==> writes_boot(
            items@,
            hwpart,
            boot_image::hwpart_part(boot_image::boot_image(data@)),
        ),
        script matches Ok(items) ==> {
            &&& items@.len() == 5
            &&& items@[0] == ScriptItem::Run(Command::SelectHwpart { hwpart })
            &&& items@[1] == ScriptItem::Run(Command::UnlockKey)
            &&& items@[2] matches ScriptItem::Stage { data: staged, block_length: 4096 } && staged@
                == boot_image::hwpart_part(boot_image::boot_image(data@))
            &&& items@[3] == ScriptItem::Run(Command::WriteBoot { sectors: 4096 })
            &&& items@[4] == ScriptItem::Run(Command::SelectHwpart { hwpart: 0 })
        },
        script matches Err(e) ==> if !(1 <= hwpart <= 2) {
            error::is_invalid(e, "boot hwpart must be 1 or 2, got "@ + text::decimal(hwpart as nat))
        } else {
            error::is_invalid(e, boot_image::overflow_text())
        },
{
    if hwpart < 1 || hwpart > 2 {
        return write_boot_step(hwpart, data);
    }
    let image = boot_image::to_boot_image(data);
    match boot_image::for_hwpart(image.as_slice()) {
        Ok(sized) => {
            proof {
                boot_image::sizing_keeps_the_info_sector(data@);
            }
            write_boot_step(hwpart, sized.as_slice())
        },
        Err(e) => Err(e),
    }
}

/// What a write to the user area wants done once its payload is open.
pub enum UserAreaAction {
    /// Read the first bytes of the payload.
    ReadHead { length: usize },
    /// Write `size` bytes from a sector on: `lead`, and then the rest of the payload.
    Write { lba: u32, lead: Vec<u8>, size: usize, sparse: bool },
}

/// Whether an action writes so many bytes, of which the given ones come first.
pub open spec fn writes_user_area(
    action: UserAreaAction,
    first: u32,
    ahead: Seq<u8>,
    total: int,
    erase: bool,
) -> bool {
    action matches UserAreaAction::Write { lba, lead, size, sparse } && {
        &&& lba == first
        &&& lead@ == ahead
        &&& size == total
        &&& sparse == erase
    }
}

/// Starts a write of `size` bytes to the user area: one that may be that of a bootloader is looked at first.
pub fn open_user_area(lba: u32, size: usize, sparse: bool) -> (action: UserAreaAction)
    ensures
        if boot_image::may_be_bootloader(lba, size) {
            action == (UserAreaAction::ReadHead { length: boot_image::head_bytes(size as nat) as usize })
        } else {
            writes_user_area(action, lba, Seq::empty(), size as int, sparse)
        },
        lba == 0 && 0 < size <= 4194304 ==> (action matches UserAreaAction::ReadHead { length } && length == (if size
            < 512 {
            size
        } else {
            512
        })),
        lba != 0 || size == 0 || size > 4194304 ==> (action matches UserAreaAction::Write {
            lba: first,
            lead,
            size: total,
            sparse: erase,
        } && first == lba && lead@.len() == 0 && total == size && erase == sparse),
{
    match boot_image::head_to_read(lba, size) {
        Some(length) => UserAreaAction::ReadHead { length },
        None => {
            let lead: Vec<u8> = Vec::new();
            assert(lead@ =~= Seq::<u8>::empty());
            UserAreaAction::Write { lba, lead, size, sparse }
        },
    }
}

/// Goes on with a write to the user area that was looked at: a bare bootloader gets an info sector.
pub fn lead_user_area(lba: u32, size: usize, sparse: bool, head: Vec<u8>) -> (action: UserAreaAction)
    requires
        boot_image::may_be_bootloader(lba, size),
        head@.len() == boot_image::head_bytes(size as nat),
    ensures
        writes_user_area(
            action,
            lba,
            boot_image::lead(head@),
            boot_image::led_size(size as nat, head@),
            sparse,
        ),
        action matches UserAreaAction::Write { lba: first, lead, size: total, sparse: erase } && {
            &&& first == lba
            &&& erase == sparse
            &&& boot_image::opens_with_info_sector(head@) ==> lead@ == head@ && total == size
            &&& !boot_image::opens_with_info_sector(head@) ==> lead@ == boot_image::info_sector_bytes() + head@
                && total
                == size + 512
        },
{
    let (lead, total) = boot_image::lead_payload(head, size);
    UserAreaAction::Write { lba, lead, size: total, sparse }
}

/// Where a restore of the bootloader stands, with the image that it still needs.
pub enum BootloaderRestore {
    /// The image is being written to the start of the user area.
    Mirror { image: Vec<u8> },
    /// The image is being written to the first boot hardware partition.
    First { image: Vec<u8> },
    /// The image is being written to the second boot hardware partition.
    Second,
    Finished,
}

/// What a restore of the bootloader wants done.
pub enum BootloaderAction {
    /// Write the data to the user area from a sector on.
    WriteUserArea { lba: u32, data: Vec<u8>, sparse: bool },
    /// Perform these operations.
    Perform { items: Vec<ScriptItem> },
    Finish(Outcome),
}

impl BootloaderRestore {
    /// Whether the image is one in the form that the device boots from.
    pub open spec fn wf(self) -> bool {
        match self {
            BootloaderRestore::Mirror { image } => boot_image::boot_image(image@) == image@,
            BootloaderRestore::First { image } => boot_image::boot_image(image@) == image@,
            _ => true,
        }
    }

    /// How a restore starts: with the whole image, at the start of the user area.
    pub open spec fn starts(data: Seq<u8>, started: (Self, BootloaderAction)) -> bool {
        &&& started.0 matches BootloaderRestore::Mirror { image } && image@ == boot_image::boot_image(data)
        &&& started.1 matches BootloaderAction::WriteUserArea { lba, data: sent, sparse } && {
            &&& lba == 0
            &&& sent@ == boot_image::boot_image(data)
            &&& !sparse
        }
    }

    /// Starts a restore from a bare or a prepared bootloader.
    pub fn restore_bootloader(data: &[u8]) -> (started: (Self, BootloaderAction))
        ensures
            started.0.wf(),
            Self::starts(data@, started),
            started.0 matches BootloaderRestore::Mirror { image } && image@ == boot_image::boot_image(data@),
            started.1 matches BootloaderAction::WriteUserArea { lba, data: sent, sparse } && lba == 0 && !sparse
                && sent@ == boot_image::boot_image(data@),
    {
        let image = boot_image::to_boot_image(data);
        let copy = bytes::copy_between(image.as_slice(), 0, image.len());
        assert(copy@ =~= image@);
        proof {
            boot_image::boot_image_is_idempotent(data@);
        }
        (
            BootloaderRestore::Mirror { image },
            BootloaderAction::WriteUserArea { lba: 0, data: copy, sparse: false },
        )
    }

    /// Whether the image goes to a boot hardware partition next, as much of it as the smaller ones hold; a restore
    /// whose image does not fit ends there.
    pub open spec fn goes_to(image: Seq<u8>, hwpart: u8, post: Self, action: BootloaderAction) -> bool {
        if boot_image::fits_hwpart(image) {
            &&& action matches BootloaderAction::Perform { items } && writes_boot(
                items@,
                hwpart,
                boot_image::hwpart_part(image),
            )
            &&& if hwpart == 1 {
                post matches BootloaderRestore::First { image: kept } && kept@ == image
            } else {
                post is Second
            }
        } else {
            &&& post is Finished
            &&& action matches BootloaderAction::Finish(Outcome::Failed(e)) && error::is_invalid(
                e,
                boot_image::overflow_text(),
            )
        }
    }

    /// One step of a restore: a failure ends it.
    pub open spec fn advances(pre: Self, reply: Reply, post: Self, action: BootloaderAction) -> bool {
        if reply is Failed {
            post is Finished && (action matches BootloaderAction::Finish(Outcome::Rethrow))
        } else {
            match pre {
                BootloaderRestore::Mirror { image } => Self::goes_to(image@, 1, post, action),
                BootloaderRestore::First { image } => Self::goes_to(image@, 2, post, action),
                BootloaderRestore::Second => {
                    post is Finished && (action matches BootloaderAction::Finish(Outcome::Done))
                },
                BootloaderRestore::Finished => false,
            }
        }
    }

    /// Takes in how the last action went and gives the next one.
    pub fn resume(self, reply: Reply) -> (next: (Self, BootloaderAction))
        requires
            self.wf(),
            !(self is Finished),
        ensures
            next.0.wf(),
            Self::advances(self, reply, next.0, next.1),
    {
        match reply {
            Reply::Failed => {
                return (BootloaderRestore::Finished, BootloaderAction::Finish(Outcome::Rethrow));
            },
            Reply::Done => {},
        }
        match self {
            BootloaderRestore::Mirror { image } => match write_hwpart_step(1, image.as_slice()) {
                Ok(items) => (BootloaderRestore::First { image }, BootloaderAction::Perform { items }),
                Err(e) => (BootloaderRestore::Finished, BootloaderAction::Finish(Outcome::Failed(e))),
            },
            BootloaderRestore::First { image } => match write_hwpart_step(2, image.as_slice()) {
                Ok(items) => (BootloaderRestore::Second, BootloaderAction::Perform { items }),
                Err(e) => (BootloaderRestore::Finished, BootloaderAction::Finish(Outcome::Failed(e))),
            },
            _ => (BootloaderRestore::Finished, BootloaderAction::Finish(Outcome::Done)),
        }
    }
}

/// Restoring a bootloader that fits the boot hardware partitions puts it in three places when all goes well: at the
/// start of the user area, where all of the image goes, and in both boot hardware partitions.
pub proof fn bootloader_goes_to_all_three_places(
    data: Seq<u8>,
    start: (BootloaderRestore, BootloaderAction),
    first: (BootloaderRestore, BootloaderAction),
    second: (BootloaderRestore, BootloaderAction),
    end: (BootloaderRestore, BootloaderAction),
)
    requires
        boot_image::fits_hwpart(boot_image::boot_image(data)),
        BootloaderRestore::starts(data, start),
        BootloaderRestore::advances(start.0, Reply::Done, first.0, first.1),
        BootloaderRestore::advances(first.0, Reply::Done, second.0, second.1),
        BootloaderRestore::advances(second.0, Reply::Done, end.0, end.1),
    ensures
        ({
            let image = boot_image::boot_image(data);
            let part = boot_image::hwpart_part(image);
            &&& start.1 matches BootloaderAction::WriteUserArea { lba, data: sent, .. } && lba == 0 && sent@ == image
            &&& first.1 matches BootloaderAction::Perform { items } && writes_boot(items@, 1, part)
            &&& second.1 matches BootloaderAction::Perform { items } && writes_boot(items@, 2, part)
            &&& end.1 matches BootloaderAction::Finish(Outcome::Done)
        }),
{
}

/// A write of no more than a bootloader's size to the start of the disk is written whole, behind an info sector when
/// it has none of its own.
pub proof fn writes_at_the_start_are_prepared(payload: Seq<u8>, size: usize, sparse: bool, action: UserAreaAction)
    requires
        1 <= size <= boot_image::BOOT_IMAGE_BYTES,
        payload.len() == size,
        ({
            let head = payload.take(boot_image::head_bytes(size as nat) as int);
            writes_user_area(action, 0, boot_image::lead(head), boot_image::led_size(size as nat, head), sparse)
        }),
    ensures
        ({
            let whole = if boot_image::opens_with_info_sector(payload) {
                payload
            } else {
                boot_image::info_sector_bytes() + payload
            };
            action matches UserAreaAction::Write { lba, lead, size: total, .. } && {
                &&& lba == 0
                &&& lead@ + payload.skip(boot_image::head_bytes(size as nat) as int) == whole
                &&& total == whole.len()
            }
        }),
{
    boot_image::lead_completes_the_payload(payload);
}

/// What each kind of step asks of the device, field by field: every payload, address, name and number of the operation
/// is the one that the step gives for it. Zeros are appended unless the step declines, and a write erases first only
/// when the step asks for it.
pub proof fn operations_are_what_the_steps_say<'a>(step: &'a FlashStep)
    requires
        !(*step matches FlashStep::Wait { value: WaitValue::UserInput { .. } }),
    ensures
        match *step {
            FlashStep::Identify { .. } => operation_of(step) is Identify,
            FlashStep::Bulkcmd { value } => operation_of(step) matches Operation::Bulkcmd { line } && *line == value,
            FlashStep::BulkcmdStat { value, .. } => operation_of(step) matches Operation::Bulkcmd { line }
                && *line == value,
            FlashStep::Run { value } => operation_of(step) matches Operation::Run { address, keep_power }
                && address == value.address
                && keep_power == value.keep_power,
            FlashStep::WriteSimpleMemory { value } => {
                operation_of(step) matches Operation::WriteSimpleMemory { address, data } && address
                    == value.address && *data == value.data
            },
            FlashStep::WriteLargeMemory { value } => operation_of(step) matches Operation::WriteToDisk {
                address,
                data,
                block_length,
                append_zeros,
            } && {
                &&& address == value.address
                &&& *data == value.data
                &&& block_length == value.block_length
                &&& append_zeros <==> value.append_zeros != Some(false)
            },
            FlashStep::ReadSimpleMemory { value, .. } => {
                operation_of(step) matches Operation::ReadSimpleMemory { address, length }
                    && address == value.address && length == value.length
            },
            FlashStep::ReadLargeMemory { value, .. } => {
                operation_of(step) matches Operation::ReadMemory { address, length } && address
                    == value.address && length == value.length
            },
            FlashStep::GetBootAMLC { .. } => operation_of(step) is GetBootAmlc,
            FlashStep::WriteAMLCData { value } => {
                operation_of(step) matches Operation::WriteAmlcPacket { seq, amlc_offset, data } && {
                    &&& seq == value.seq
                    &&& amlc_offset == value.amlc_offset
                    &&& *data == value.data
                }
            },
            FlashStep::Bl2Boot { value } => operation_of(step) matches Operation::Bl2Boot { bl2, bootloader }
                && *bl2 == value.bl2
                && *bootloader == value.bootloader,
            FlashStep::ValidatePartitionSize { value, .. } => {
                operation_of(step) matches Operation::ValidatePartition { name } && *name
                    == value.name
            },
            FlashStep::RestorePartition { value } => if value.name@ == "bootloader"@ {
                operation_of(step) matches Operation::RestoreBootloader { name, data } && *name == value.name
                    && *data == value.data
            } else {
                operation_of(step) matches Operation::RestorePartition { name, data } && *name == value.name
                    && *data == value.data
            },
            FlashStep::WriteBootPartition { value } => {
                operation_of(step) matches Operation::WriteBootPartition { hwpart, data } && hwpart
                    == value.hwpart && *data == value.data
            },
            FlashStep::WriteUserArea { value } => {
                operation_of(step) matches Operation::WriteUserArea { lba, data, sparse } && {
                    &&& lba == value.lba
                    &&& *data == value.data
                    &&& sparse <==> value.sparse == Some(true)
                }
            },
            FlashStep::WriteEnv { value } => operation_of(step) matches Operation::WriteEnv { value: text }
                && *text == value,
            FlashStep::Log { value } => operation_of(step) matches Operation::Log { text } && *text == value,
            FlashStep::Wait { value } => value matches WaitValue::Time { time }
                && (operation_of(step) matches Operation::Sleep { millis }
                && millis == time),
        },
{
}

/// Every step but a wait for user input can be run.
pub proof fn only_waits_for_the_user_are_left_out(step: FlashStep, flag: Option<bool>, default: bool)
    ensures
        is_supported(step) <==> !(step matches FlashStep::Wait { value: WaitValue::UserInput { .. } }),
        flag matches Some(set) ==> flag_or(flag, default) == set,
        flag is None ==> flag_or(flag, default) == default,
{
}

/// A restore of the bootloader writes the prepared image to sector 0 of the user area, then what fits 2 MiB of it to
/// boot hardware partition 1 and to boot hardware partition 2, each with the user area selected again behind it. It
/// ends at the first failure, and before the first partition when the image has content past 2 MiB.
pub proof fn bootloader_restores_go_in_order(
    pre: BootloaderRestore,
    reply: Reply,
    post: BootloaderRestore,
    action: BootloaderAction,
)
    requires
        pre.wf(),
        !(pre is Finished),
        BootloaderRestore::advances(pre, reply, post, action),
    ensures
        reply is Failed ==> action == BootloaderAction::Finish(Outcome::Rethrow),
        reply is Done ==> match pre {
            BootloaderRestore::Mirror { image } => if forall|i: int| 2097152 <= i < image@.len() ==> image@[i] == 0 {
                &&& post matches BootloaderRestore::First { image: kept } && kept@ == image@
                &&& action matches BootloaderAction::Perform { items } && {
                    &&& items@.len() == 5
                    &&& items@[0] == ScriptItem::Run(Command::SelectHwpart { hwpart: 1 })
                    &&& items@[1] == ScriptItem::Run(Command::UnlockKey)
                    &&& items@[2] matches ScriptItem::Stage { data, .. } && data@ == boot_image::hwpart_part(image@)
                    &&& items@[3] == ScriptItem::Run(Command::WriteBoot { sectors: 4096 })
                    &&& items@[4] == ScriptItem::Run(Command::SelectHwpart { hwpart: 0 })
                }
            } else {
                action matches BootloaderAction::Finish(Outcome::Failed(Error::InvalidOperation(_)))
            },
            BootloaderRestore::First { image } => if forall|i: int| 2097152 <= i < image@.len() ==> image@[i] == 0 {
                &&& post is Second
                &&& action matches BootloaderAction::Perform { items } && {
                    &&& items@.len() == 5
                    &&& items@[0] == ScriptItem::Run(Command::SelectHwpart { hwpart: 2 })
                    &&& items@[1] == ScriptItem::Run(Command::UnlockKey)
                    &&& items@[2] matches ScriptItem::Stage { data, .. } && data@ == boot_image::hwpart_part(image@)
                    &&& items@[3] == ScriptItem::Run(Command::WriteBoot { sectors: 4096 })
                    &&& items@[4] == ScriptItem::Run(Command::SelectHwpart { hwpart: 0 })
                }
            } else {
                action matches BootloaderAction::Finish(Outcome::Failed(Error::InvalidOperation(_)))
            },
            BootloaderRestore::Second => action == BootloaderAction::Finish(Outcome::Done),
            BootloaderRestore::Finished => false,
        },
{
    match pre {
        BootloaderRestore::Mirror { image } => boot_image::hwparts_get_two_mebibytes(image@),
        BootloaderRestore::First { image } => boot_image::hwparts_get_two_mebibytes(image@),
        _ => {},
    }
}

/// A script writes a boot hardware partition in five items: it selects the partition, unlocks the key, stages the
/// image in blocks of 4096 bytes, writes as many sectors as the image takes, and selects the user area again.
pub proof fn boot_scripts_have_five_items(items: Seq<ScriptItem>, hwpart: u8, image: Seq<u8>)
    requires
        writes_boot(items, hwpart, image),
        image.len() < 0x1_0000_0000,
    ensures
        items.len() == 5,
        items[0] == ScriptItem::Run(Command::SelectHwpart { hwpart }),
        items[1] == ScriptItem::Run(Command::UnlockKey),
        items[2] matches ScriptItem::Stage { data, block_length: 4096 } && data@ == image,
        items[3] matches ScriptItem::Run(Command::WriteBoot { sectors }) && image.len() <= 512 * sectors < image.len()
            + 512,
        items[4] == ScriptItem::Run(Command::SelectHwpart { hwpart: 0 }),
{
}

/// A restore of the bootloader starts with sector 0 of the user area: the whole prepared image goes there, with
/// nothing erased before, and is kept for what follows.
pub proof fn bootloader_restores_start_with_the_user_area(data: Seq<u8>, started: (BootloaderRestore, BootloaderAction))
    requires
        BootloaderRestore::starts(data, started),
    ensures
        started.1 matches BootloaderAction::WriteUserArea { lba: 0, data: sent, sparse: false } && {
            &&& started.0 matches BootloaderRestore::Mirror { image } && image@ == sent@
            &&& sent@ == boot_image::boot_image(data)
            &&& sent@.len() <= 4194304
        },
{
}

/// A write to the user area has the first sector, the bytes ahead, the size and the erasing that are named, and no
/// others.
pub proof fn user_area_writes_are_what_they_say(
    action: UserAreaAction,
    first: u32,
    ahead: Seq<u8>,
    total: int,
    erase: bool,
)
    requires
        writes_user_area(action, first, ahead, total, erase),
    ensures
        action matches UserAreaAction::Write { lba, lead, size, sparse } && lba == first && lead@ == ahead
            && size == total
            && sparse == erase,
{
}

/// A restore of the bootloader has ended exactly when its action says so.
pub proof fn restores_end_when_they_say_so(
    pre: BootloaderRestore,
    reply: Reply,
    post: BootloaderRestore,
    action: BootloaderAction,
)
    requires
        !(pre is Finished),
        BootloaderRestore::advances(pre, reply, post, action),
    ensures
        action is Finish <==> post is Finished,
{
}

} // verus!
