//! The steps of a flash configuration, over fastboot.
//!
//! The steps are written for the vendor protocol; each is turned into what does the same on mainline U-Boot.
use vstd::prelude::*;

use super::vendor;
use crate::boot_image;
use crate::bytes;
use crate::config::{DataOrFile, FlashStep, StringOrFile, WaitValue};
use crate::error;
use crate::error::{Error, Outcome};
use crate::partitions;
use crate::partitions::{Partition, PartitionInfo};
use crate::text;

verus! {

/// Where a step stands, with what it still needs.
pub enum StepRun {
    /// The last action is out.
    Last,
    /// The payload of a write to the user area is being opened.
    OpenUserArea { lba: u32, sparse: bool },
    /// The first bytes of that payload are being read.
    Classify { lba: u32, sparse: bool, size: usize },
    /// The payload of a write to the disk is being opened.
    OpenDisk { start_lba: u64, sparse: bool },
    /// The payload of a stock partition is being opened.
    OpenStock { name: String, info: PartitionInfo, sparse: bool },
    /// The payload of another partition is being opened.
    OpenNamed { name: String },
    /// The payload of a boot hardware partition is being read.
    ReadBoot { hwpart: u8 },
    /// The payload of the bootloader is being read.
    ReadBootloader,
    /// The bootloader is being written to the user area.
    BootloaderMirror { image: Vec<u8> },
    /// The bootloader is being written to the first boot hardware partition.
    BootloaderFirst { image: Vec<u8> },
    /// The environment is being read.
    ReadEnv,
    /// A command is running on the console.
    Console { line: String },
    /// The version of the bootloader was asked for.
    Version,
    /// The product was asked for.
    Product { version: String },
    /// The size of a partition was asked for.
    Size { name: String },
    Finished,
}

/// What a step wants done.
#[allow(inconsistent_fields)]
pub enum StepAction {
    /// Show a text.
    Note { text: String },
    Sleep { millis: u64 },
    /// Open a payload for reading, and find out its size.
    Open { data: DataOrFile },
    /// Read the first bytes of the payload that is open.
    ReadHead { length: usize },
    /// Read a whole payload.
    ReadAll { data: DataOrFile },
    /// Read a text.
    ReadText { value: StringOrFile },
    /// Write `size` bytes from a sector on: `lead`, and then the rest of the payload that is open.
    WriteOpen { start_lba: u64, lead: Vec<u8>, size: usize, sparse: bool },
    /// Write bytes from a sector on.
    WriteBytes { start_lba: u64, data: Vec<u8>, sparse: bool },
    /// Write the open payload to a partition that the device finds by name.
    WriteNamed { name: String, size: usize },
    /// Write a prepared image to a boot hardware partition.
    WriteHwpart { hwpart: u8, image: Vec<u8> },
    /// Import and save an environment.
    WriteEnv { env: String },
    /// Run a command on the console and bring back its output.
    Console { line: String },
    /// Ask for a variable.
    GetVar { name: String },
    Finish(Outcome),
}

/// How the last action went.
pub enum StepReply {
    Done,
    Opened { size: usize },
    Bytes(Vec<u8>),
    Text(String),
    Failed,
}

/// Whether a table gives no partition more bytes than can be counted.
pub open spec fn countable(table: Seq<Partition>) -> bool {
    forall|i: int| 0 <= i < table.len() ==> (#[trigger] table[i]).info.size * 512 <= usize::MAX
}

/// Whether `found` is what a table says of a partition.
pub open spec fn looked_up(table: Seq<Partition>, name: Seq<char>, found: Option<PartitionInfo>) -> bool {
    match found {
        Some(info) => exists|i: int| #[trigger] partitions::is_first(table, name, i) && table[i].info == info,
        None => !partitions::is_listed(table, name),
    }
}

/// What a started step is, and what it wants first.
pub type Started = Result<(StepRun, StepAction), Error>;

/// Whether a step of a kind that is run on its own starts with the given action, which is also its last.
pub open spec fn is_last(started: Started, action: StepAction) -> bool {
    started matches Ok(s) && s.0 is Last && s.1 == action
}

/// Whether a step ends at once.
pub open spec fn is_skipped(started: Started) -> bool {
    started matches Ok(s) && s.0 is Finished && (s.1 matches StepAction::Finish(Outcome::Done))
}

/// Whether a step is refused as unsupported.
pub open spec fn is_unsupported(started: Started, step: FlashStep) -> bool {
    started matches Err(e) && e == Error::UnsupportedFeature(step)
}

/// How a step starts.
///
/// Waiting for the user and reading memory are not supported. Steps that only the boot ROM can do, and commands that
/// only vendor U-Boot has, are skipped.
pub open spec fn starts(step: FlashStep, force_sparse: bool, table: Seq<Partition>, started: Started) -> bool {
    match step {
        FlashStep::Log { value } => started matches Ok(s) && {
            &&& s.0 is Last
            &&& s.1 matches StepAction::Note { text: shown } && shown@ == ">> "@ + text::debug_text(value@)
        },
        FlashStep::Wait { value } => match value {
            WaitValue::UserInput { .. } => is_unsupported(started, step),
            WaitValue::Time { time } => is_last(started, StepAction::Sleep { millis: time }),
        },
        FlashStep::WriteUserArea { value } => started matches Ok(s) && {
            &&& s.0 == (StepRun::OpenUserArea { lba: value.lba, sparse: value.sparse == Some(true) || force_sparse })
            &&& s.1 == (StepAction::Open { data: value.data })
        },
        FlashStep::WriteLargeMemory { value } => if value.address % 512 != 0 {
            started matches Err(e) && error::is_invalid(
                e,
                "writeLargeMemory address "@ + text::hex_lower(value.address as nat)
                    + " is not a multiple of the "@ + text::decimal(512) + "-byte sector size"@,
            )
        } else {
            started matches Ok(s) && {
                &&& s.0 == (StepRun::OpenDisk { start_lba: (value.address / 512) as u64, sparse: force_sparse })
                &&& s.1 == (StepAction::Open { data: value.data })
            }
        },
        FlashStep::WriteBootPartition { value } => started matches Ok(s) && {
            &&& s.0 == (StepRun::ReadBoot { hwpart: value.hwpart })
            &&& s.1 == (StepAction::ReadAll { data: value.data })
        },
        FlashStep::RestorePartition { value } => if value.name@ == "bootloader"@ {
            started matches Ok(s) && {
                &&& s.0 is ReadBootloader
                &&& s.1 == (StepAction::ReadAll { data: value.data })
            }
        } else {
            exists|found: Option<PartitionInfo>| #[trigger]
                looked_up(table, value.name@, found) && (started matches Ok(s) && {
                    &&& s.1 == (StepAction::Open { data: value.data })
                    &&& match found {
                        Some(info) => s.0 == (StepRun::OpenStock { name: value.name, info, sparse: force_sparse }),
                        None => s.0 == (StepRun::OpenNamed { name: value.name }),
                    }
                })
        },
        FlashStep::WriteEnv { value } => started matches Ok(s) && {
            &&& s.0 is ReadEnv
            &&& s.1 == (StepAction::ReadText { value })
        },
        FlashStep::Bulkcmd { value } => starts_command(value@, started),
        FlashStep::BulkcmdStat { value, .. } => starts_command(value@, started),
        FlashStep::Identify { .. } => started matches Ok(s) && {
            &&& s.0 is Version
            &&& s.1 matches StepAction::GetVar { name } && name@ == "version-bootloader"@
        },
        FlashStep::ValidatePartitionSize { value, .. } => exists|found: Option<PartitionInfo>| #[trigger]
            looked_up(table, value.name@, found) && (started matches Ok(s) && match found {
                Some(info) => {
                    &&& s.0 is Last
                    &&& s.1 matches StepAction::Note { text: shown } && shown@ == value.name@ + ": "@
                        + text::decimal(info.size as nat) + " sectors"@
                },
                None => {
                    &&& s.0 == (StepRun::Size { name: value.name })
                    &&& s.1 matches StepAction::GetVar { name } && name@ == "partition-size:"@ + value.name@
                },
            }),
        FlashStep::Bl2Boot { .. } | FlashStep::Run { .. } | FlashStep::WriteSimpleMemory { .. }
        | FlashStep::WriteAMLCData { .. } | FlashStep::GetBootAMLC { .. } => is_skipped(started),
        FlashStep::ReadSimpleMemory { .. } | FlashStep::ReadLargeMemory { .. } => is_unsupported(started, step),
    }
}

/// How a vendor command starts: rewritten and put on the console, or skipped.
pub open spec fn starts_command(command: Seq<char>, started: Started) -> bool {
    match vendor::rewriting(command) {
        Some(line) => started matches Ok(s) && {
            &&& s.0 matches StepRun::Console { line: shown } && shown@ == line
            &&& s.1 matches StepAction::Console { line: shown } && shown@ == line
        },
        None => is_skipped(started),
    }
}

/// Whether a partition of a given number of sectors has room for a number of bytes. One without a size takes any.
pub open spec fn has_room(sectors: usize, size: usize) -> bool {
    sectors == 0 || size <= sectors * 512
}

fn start_command(command: &str) -> (started: Started)
    ensures
        starts_command(command@, started),
{
    match vendor::translate_vendor_command(command) {
        Some(line) => {
            let shown = line.as_str().to_owned();
            Ok((StepRun::Console { line: shown }, StepAction::Console { line }))
        },
        None => Ok((StepRun::Finished, StepAction::Finish(Outcome::Done))),
    }
}

fn look_up(table: &Vec<Partition>, name: &str) -> (found: Option<PartitionInfo>)
    requires
        countable(table@),
    ensures
        looked_up(table@, name@, found),
        found matches Some(info) ==> info.size * 512 <= usize::MAX,
{
    partitions::find_partition(table, name)
}

impl StepRun {
    /// Whether the size of a stock partition can be counted in bytes.
    pub open spec fn wf(self) -> bool {
        &&& self matches StepRun::OpenStock { info, .. } ==> info.size * 512 <= usize::MAX
        &&& self matches StepRun::Classify { lba, size, .. } ==> boot_image::may_be_bootloader(lba, size)
    }

    /// Starts a step. `table` holds the stock partitions; with `force_sparse` writes erase first and skip zeros
    /// whatever the step says.
    pub fn run_step(step: FlashStep, force_sparse: bool, table: &Vec<Partition>) -> (started: Started)
        requires
            countable(table@),
        ensures
            starts(step, force_sparse, table@, started),
            started matches Ok(s) ==> s.0.wf(),
    {
        match step {
            FlashStep::Log { value } => {
                let mut shown = ">> ".to_owned();
                let quoted = text::debug_form(value.as_str());
                shown.append(quoted.as_str());
                Ok((StepRun::Last, StepAction::Note { text: shown }))
            },
            FlashStep::Wait { value } => match value {
                WaitValue::UserInput { message } => {
                    Err(Error::UnsupportedFeature(FlashStep::Wait { value: WaitValue::UserInput { message } }))
                },
                WaitValue::Time { time } => Ok((StepRun::Last, StepAction::Sleep { millis: time })),
            },
            FlashStep::WriteUserArea { value } => {
                let asked: bool = match value.sparse {
                    Some(sparse) => sparse,
                    None => false,
                };
                Ok(
                    (
                        StepRun::OpenUserArea { lba: value.lba, sparse: asked || force_sparse },
                        StepAction::Open { data: value.data },
                    ),
                )
            },
            FlashStep::WriteLargeMemory { value } => {
                if value.address % 512 != 0 {
                    let mut shown = "writeLargeMemory address ".to_owned();
                    text::push_hex(&mut shown, value.address as u64, false);
                    shown.append(" is not a multiple of the ");
                    text::push_decimal(&mut shown, 512);
                    shown.append("-byte sector size");
                    return Err(Error::InvalidOperation(shown));
                }
                Ok(
                    (
                        StepRun::OpenDisk { start_lba: (value.address / 512) as u64, sparse: force_sparse },
                        StepAction::Open { data: value.data },
                    ),
                )
            },
            FlashStep::WriteBootPartition { value } => {
                Ok((StepRun::ReadBoot { hwpart: value.hwpart }, StepAction::ReadAll { data: value.data }))
            },
            FlashStep::RestorePartition { value } => {
                if text::same_text(value.name.as_str(), "bootloader") {
                    return Ok((StepRun::ReadBootloader, StepAction::ReadAll { data: value.data }));
                }
                let found = look_up(table, value.name.as_str());
                assert(looked_up(table@, value.name@, found));
                match found {
                    Some(info) => {
                        Ok(
                            (
                                StepRun::OpenStock { name: value.name, info, sparse: force_sparse },
                                StepAction::Open { data: value.data },
                            ),
                        )
                    },
                    None => Ok((StepRun::OpenNamed { name: value.name }, StepAction::Open { data: value.data })),
                }
            },
            FlashStep::WriteEnv { value } => Ok((StepRun::ReadEnv, StepAction::ReadText { value })),
            FlashStep::Bulkcmd { value } => start_command(value.as_str()),
            FlashStep::BulkcmdStat { value, .. } => start_command(value.as_str()),
            FlashStep::Identify { .. } => {
                Ok((StepRun::Version, StepAction::GetVar { name: "version-bootloader".to_owned() }))
            },
            FlashStep::ValidatePartitionSize { value, .. } => {
                let found = look_up(table, value.name.as_str());
                assert(looked_up(table@, value.name@, found));
                match found {
                    Some(info) => {
                        let mut shown = value.name.as_str().to_owned();
                        shown.append(": ");
                        text::push_decimal(&mut shown, info.size as u64);
                        shown.append(" sectors");
                        Ok((StepRun::Last, StepAction::Note { text: shown }))
                    },
                    None => {
                        let mut name = "partition-size:".to_owned();
                        name.append(value.name.as_str());
                        Ok((StepRun::Size { name: value.name }, StepAction::GetVar { name }))
                    },
                }
            },
            FlashStep::ReadSimpleMemory { value, variable } => {
                Err(Error::UnsupportedFeature(FlashStep::ReadSimpleMemory { value, variable }))
            },
            FlashStep::ReadLargeMemory { value, variable } => {
                Err(Error::UnsupportedFeature(FlashStep::ReadLargeMemory { value, variable }))
            },
            _ => Ok((StepRun::Finished, StepAction::Finish(Outcome::Done))),
        }
    }

    /// Whether a reply answers the action that is out.
    pub open spec fn awaits(self, reply: StepReply) -> bool {
        match self {
            StepRun::Last | StepRun::BootloaderMirror { .. } | StepRun::BootloaderFirst { .. } => reply is Done
                || reply is Failed,
            StepRun::OpenUserArea { .. } | StepRun::OpenDisk { .. } | StepRun::OpenStock { .. }
            | StepRun::OpenNamed { .. } => reply is Opened || reply is Failed,
            StepRun::Classify { size, .. } => {
                ||| reply matches StepReply::Bytes(head) && head@.len() == boot_image::head_bytes(size as nat)
                ||| reply is Failed
            },
            StepRun::ReadBoot { .. } | StepRun::ReadBootloader => reply is Bytes || reply is Failed,
            StepRun::ReadEnv | StepRun::Console { .. } | StepRun::Version | StepRun::Product { .. }
            | StepRun::Size { .. } => reply is Text || reply is Failed,
            StepRun::Finished => false,
        }
    }

    /// Whether a step ends with a success.
    pub open spec fn completes(post: Self, action: StepAction) -> bool {
        post is Finished && (action matches StepAction::Finish(Outcome::Done))
    }

    /// Whether a step ends with an error of its own.
    pub open spec fn fails(post: Self, action: StepAction, reason: Seq<char>) -> bool {
        post is Finished && (action matches StepAction::Finish(Outcome::Failed(e)) && error::is_invalid(e, reason))
    }

    /// Whether a write of `size` bytes of the open payload is the last thing to do.
    pub open spec fn writes_open(
        post: Self,
        action: StepAction,
        lba: int,
        ahead: Seq<u8>,
        bytes: int,
        erase: bool,
    ) -> bool {
        &&& post is Last
        &&& action matches StepAction::WriteOpen { start_lba, lead, size, sparse } && {
            &&& start_lba == lba
            &&& lead@ == ahead
            &&& size == bytes
            &&& sparse == erase
        }
    }

    /// Whether an image goes to a boot hardware partition next.
    pub open spec fn writes_hwpart(action: StepAction, number: u8, bytes: Seq<u8>) -> bool {
        action matches StepAction::WriteHwpart { hwpart, image } && hwpart == number && image@ == bytes
    }

    /// What is known of the version or the product once it was asked for.
    pub open spec fn told(reply: StepReply) -> Seq<char> {
        match reply {
            StepReply::Text(said) => said@,
            _ => "unknown"@,
        }
    }

    /// One step of a step.
    ///
    /// A failure ends it, except that of asking for the version or the product.
    pub open spec fn advances(pre: Self, reply: StepReply, post: Self, action: StepAction) -> bool {
        if reply is Failed && !(pre is Version) && !(pre is Product) {
            post is Finished && (action matches StepAction::Finish(Outcome::Rethrow))
        } else {
            match pre {
                StepRun::Last => Self::completes(post, action),
                StepRun::OpenUserArea { lba, sparse } => {
                    let size = reply->size;
                    if boot_image::may_be_bootloader(lba, size) {
                        &&& post == (StepRun::Classify { lba, sparse, size })
                        &&& action == (StepAction::ReadHead {
                            length: boot_image::head_bytes(size as nat) as usize,
                        })
                    } else {
                        Self::writes_open(post, action, lba as int, Seq::empty(), size as int, sparse)
                    }
                },
                StepRun::Classify { lba, sparse, size } => {
                    let head = reply->Bytes_0@;
                    Self::writes_open(
                        post,
                        action,
                        lba as int,
                        boot_image::lead(head),
                        boot_image::led_size(size as nat, head),
                        sparse,
                    )
                },
                StepRun::OpenDisk { start_lba, sparse } => Self::writes_open(
                    post,
                    action,
                    start_lba as int,
                    Seq::empty(),
                    reply->size as int,
                    sparse,
                ),
                StepRun::OpenStock { name, info, sparse } => if has_room(info.size, reply->size) {
                    Self::writes_open(post, action, info.offset as int, Seq::empty(), reply->size as int, sparse)
                } else {
                    Self::fails(
                        post,
                        action,
                        name@ + " image is "@ + text::decimal(reply->size as nat)
                            + " bytes but the partition only holds "@ + text::decimal((info.size * 512) as nat),
                    )
                },
                StepRun::OpenNamed { name } => {
                    &&& post is Last
                    &&& action == (StepAction::WriteNamed { name, size: reply->size })
                },
                StepRun::ReadBoot { hwpart } => {
                    &&& post is Last
                    &&& Self::writes_hwpart(action, hwpart, boot_image::boot_image(reply->Bytes_0@))
                },
                StepRun::ReadBootloader => {
                    let image = boot_image::boot_image(reply->Bytes_0@);
                    &&& post matches StepRun::BootloaderMirror { image: kept } && kept@ == image
                    &&& action matches StepAction::WriteBytes { start_lba, data, sparse } && {
                        &&& start_lba == 0
                        &&& data@ == image
                        &&& !sparse
                    }
                },
                StepRun::BootloaderMirror { image } => {
                    &&& post matches StepRun::BootloaderFirst { image: kept } && kept@ == image@
                    &&& Self::writes_hwpart(action, 1, image@)
                },
                StepRun::BootloaderFirst { image } => {
                    &&& post is Last
                    &&& Self::writes_hwpart(action, 2, image@)
                },
                StepRun::ReadEnv => {
                    &&& post is Last
                    &&& action == (StepAction::WriteEnv { env: reply->Text_0 })
                },
                StepRun::Console { line } => {
                    let lower = text::lowered(reply->Text_0@);
                    if vendor::is_complaint(lower) {
                        Self::fails(
                            post,
                            action,
                            vendor::complaint_about(text::debug_text(line@), reply->Text_0@, lower),
                        )
                    } else {
                        Self::completes(post, action)
                    }
                },
                StepRun::Version => {
                    &&& post matches StepRun::Product { version } && version@ == Self::told(reply)
                    &&& action matches StepAction::GetVar { name } && name@ == "product"@
                },
                StepRun::Product { version } => {
                    &&& post is Last
                    &&& action matches StepAction::Note { text: shown } && shown@ == "device: "@ + text::trimmed(
                        Self::told(reply),
                    ) + ", bootloader "@ + text::trimmed(version@)
                },
                StepRun::Size { name } => {
                    &&& post is Last
                    &&& action matches StepAction::Note { text: shown } && shown@ == name@ + ": "@ + text::trimmed(
                        reply->Text_0@,
                    )
                },
                StepRun::Finished => false,
            }
        }
    }

    fn opened(self, size: usize) -> (next: (Self, StepAction))
        requires
            self.wf(),
            self.awaits(StepReply::Opened { size }),
        ensures
            next.0.wf(),
            Self::advances(self, (StepReply::Opened { size }), next.0, next.1),
    {
        let lead: Vec<u8> = Vec::new();
        assert(lead@ =~= Seq::<u8>::empty());
        match self {
            StepRun::OpenUserArea { lba, sparse } => {
                match boot_image::head_to_read(lba, size) {
                    Some(length) => (StepRun::Classify { lba, sparse, size }, StepAction::ReadHead { length }),
                    None => (StepRun::Last, StepAction::WriteOpen { start_lba: lba as u64, lead, size, sparse }),
                }
            },
            StepRun::OpenDisk { start_lba, sparse } => {
                (StepRun::Last, StepAction::WriteOpen { start_lba, lead, size, sparse })
            },
            StepRun::OpenStock { name, info, sparse } => {
                let limit: usize = info.size * 512;
                if info.size > 0 && size > limit {
                    let mut shown = name;
                    shown.append(" image is ");
                    text::push_decimal(&mut shown, size as u64);
                    shown.append(" bytes but the partition only holds ");
                    text::push_decimal(&mut shown, limit as u64);
                    return (
                        StepRun::Finished,
                        StepAction::Finish(Outcome::Failed(Error::InvalidOperation(shown))),
                    );
                }
                (StepRun::Last, StepAction::WriteOpen { start_lba: info.offset as u64, lead, size, sparse })
            },
            StepRun::OpenNamed { name } => (StepRun::Last, StepAction::WriteNamed { name, size }),
            _ => (StepRun::Finished, StepAction::Finish(Outcome::Rethrow)),
        }
    }

    fn got_bytes(self, data: Vec<u8>) -> (next: (Self, StepAction))
        requires
            self.wf(),
            self.awaits(StepReply::Bytes(data)),
        ensures
            next.0.wf(),
            Self::advances(self, StepReply::Bytes(data), next.0, next.1),
    {
        match self {
            StepRun::Classify { lba, sparse, size } => {
                let (lead, total) = boot_image::lead_payload(data, size);
                (StepRun::Last, StepAction::WriteOpen { start_lba: lba as u64, lead, size: total, sparse })
            },
            StepRun::ReadBoot { hwpart } => {
                let image = boot_image::to_boot_image(data.as_slice());
                (StepRun::Last, StepAction::WriteHwpart { hwpart, image })
            },
            StepRun::ReadBootloader => {
                let image = boot_image::to_boot_image(data.as_slice());
                let copy = bytes::copy_between(image.as_slice(), 0, image.len());
                assert(copy@ =~= image@);
                (
                    StepRun::BootloaderMirror { image },
                    StepAction::WriteBytes { start_lba: 0, data: copy, sparse: false },
                )
            },
            _ => (StepRun::Finished, StepAction::Finish(Outcome::Rethrow)),
        }
    }

    fn got_text(self, said: String) -> (next: (Self, StepAction))
        requires
            self.wf(),
            self.awaits(StepReply::Text(said)),
        ensures
            next.0.wf(),
            Self::advances(self, StepReply::Text(said), next.0, next.1),
    {
        match self {
            StepRun::ReadEnv => (StepRun::Last, StepAction::WriteEnv { env: said }),
            StepRun::Console { line } => {
                match vendor::judge_console(line.as_str(), said.as_str()) {
                    Ok(_) => (StepRun::Finished, StepAction::Finish(Outcome::Done)),
                    Err(e) => (StepRun::Finished, StepAction::Finish(Outcome::Failed(e))),
                }
            },
            StepRun::Version => Self::ask_product(said),
            StepRun::Product { version } => Self::introduce(version.as_str(), said.as_str()),
            StepRun::Size { name } => {
                let mut shown = name;
                shown.append(": ");
                let inner = text::trim(said.as_str());
                shown.append(inner.as_str());
                (StepRun::Last, StepAction::Note { text: shown })
            },
            _ => (StepRun::Finished, StepAction::Finish(Outcome::Rethrow)),
        }
    }

    fn ask_product(version: String) -> (next: (Self, StepAction))
        ensures
            next.0.wf(),
            next.0 matches StepRun::Product { version: kept } && kept@ == version@,
            next.1 matches StepAction::GetVar { name } && name@ == "product"@,
    {
        (StepRun::Product { version }, StepAction::GetVar { name: "product".to_owned() })
    }

    fn introduce(version: &str, product: &str) -> (next: (Self, StepAction))
        ensures
            next.0 is Last,
            next.1 matches StepAction::Note { text: shown } && shown@ == "device: "@ + text::trimmed(product@)
                + ", bootloader "@ + text::trimmed(version@),
    {
        let mut shown = "device: ".to_owned();
        let inner = text::trim(product);
        shown.append(inner.as_str());
        shown.append(", bootloader ");
        let inner = text::trim(version);
        shown.append(inner.as_str());
        (StepRun::Last, StepAction::Note { text: shown })
    }

    /// Takes in how the last action went and gives the next one.
    pub fn resume(self, reply: StepReply) -> (next: (Self, StepAction))
        requires
            self.wf(),
            self.awaits(reply),
        ensures
            next.0.wf(),
            Self::advances(self, reply, next.0, next.1),
    {
        match reply {
            StepReply::Failed => match self {
                StepRun::Version => Self::ask_product("unknown".to_owned()),
                StepRun::Product { version } => Self::introduce(version.as_str(), "unknown"),
                _ => (StepRun::Finished, StepAction::Finish(Outcome::Rethrow)),
            },
            StepReply::Opened { size } => self.opened(size),
            StepReply::Bytes(data) => self.got_bytes(data),
            StepReply::Text(said) => self.got_text(said),
            StepReply::Done => match self {
                StepRun::BootloaderMirror { image } => {
                    let copy = bytes::copy_between(image.as_slice(), 0, image.len());
                    assert(copy@ =~= image@);
                    (StepRun::BootloaderFirst { image }, StepAction::WriteHwpart { hwpart: 1, image: copy })
                },
                StepRun::BootloaderFirst { image } => {
                    (StepRun::Last, StepAction::WriteHwpart { hwpart: 2, image })
                },
                _ => (StepRun::Finished, StepAction::Finish(Outcome::Done)),
            },
        }
    }
}

/// Restoring the bootloader writes one image three times when all goes well: to the start of the user area, and to
/// both boot hardware partitions.
pub proof fn bootloader_goes_to_all_three_places(
    data: Vec<u8>,
    mirror: (StepRun, StepAction),
    first: (StepRun, StepAction),
    second: (StepRun, StepAction),
    end: (StepRun, StepAction),
)
    requires
        StepRun::advances(StepRun::ReadBootloader, StepReply::Bytes(data), mirror.0, mirror.1),
        StepRun::advances(mirror.0, StepReply::Done, first.0, first.1),
        StepRun::advances(first.0, StepReply::Done, second.0, second.1),
        StepRun::advances(second.0, StepReply::Done, end.0, end.1),
    ensures
        ({
            let image = boot_image::boot_image(data@);
            &&& mirror.1 matches StepAction::WriteBytes { start_lba: 0, data: sent, .. } && sent@ == image
            &&& StepRun::writes_hwpart(first.1, 1, image)
            &&& StepRun::writes_hwpart(second.1, 2, image)
            &&& end.1 matches StepAction::Finish(Outcome::Done)
        }),
{
}

/// A write of no more than a bootloader's size to the start of the disk is written whole, behind an info sector when
/// it has none of its own.
pub proof fn writes_at_the_start_are_prepared(
    payload: Seq<u8>,
    size: usize,
    sparse: bool,
    head: Vec<u8>,
    look: (StepRun, StepAction),
    write: (StepRun, StepAction),
)
    requires
        1 <= size <= boot_image::BOOT_IMAGE_BYTES,
        payload.len() == size,
        StepRun::advances(
            StepRun::OpenUserArea { lba: 0, sparse },
            (StepReply::Opened { size }),
            look.0,
            look.1,
        ),
        head@ == payload.take(head@.len() as int),
        look.1 matches StepAction::ReadHead { length } && length == head@.len(),
        StepRun::advances(look.0, StepReply::Bytes(head), write.0, write.1),
    ensures
        ({
            let whole = if boot_image::opens_with_info_sector(payload) {
                payload
            } else {
                boot_image::info_sector_bytes() + payload
            };
            &&& write.0 is Last
            &&& write.1 matches StepAction::WriteOpen { start_lba, lead, size: total, sparse: erase } && {
                &&& start_lba == 0
                &&& lead@ + payload.skip(head@.len() as int) == whole
                &&& total == whole.len()
                &&& erase == sparse
            }
        }),
{
    boot_image::lead_completes_the_payload(payload);
}

/// A write to the user area away from the start of the disk, or of more than a bootloader's size, goes through as it
/// is.
pub proof fn other_user_area_writes_are_untouched(
    lba: u32,
    sparse: bool,
    size: usize,
    post: StepRun,
    action: StepAction,
)
    requires
        lba != 0 || size > boot_image::BOOT_IMAGE_BYTES,
        StepRun::advances(
            StepRun::OpenUserArea { lba, sparse },
            (StepReply::Opened { size }),
            post,
            action,
        ),
    ensures
        StepRun::writes_open(post, action, lba as int, Seq::empty(), size as int, sparse),
{
}

/// How each kind of step starts over fastboot, field by field.
///
/// Writes open the payload that the step gives and remember the place that it names; the disk address of a large write
/// has to be a multiple of 512. What only the boot ROM can do is done at once, and what reads memory or waits for the
/// user is refused with the step itself.
pub proof fn steps_start_with_their_own_values(
    step: FlashStep,
    force_sparse: bool,
    table: Seq<Partition>,
    started: Started,
)
    requires
        starts(step, force_sparse, table, started),
    ensures
        step matches FlashStep::WriteUserArea { value } ==> (started matches Ok(s) && (s.1 matches StepAction::Open {
            data,
        } && data == value.data) && (s.0 matches StepRun::OpenUserArea { lba, sparse } && lba == value.lba && (sparse
            <==> force_sparse || value.sparse == Some(true)))),
        step matches FlashStep::WriteLargeMemory { value } ==> {
            &&& value.address % 512 != 0 ==> (started matches Err(Error::InvalidOperation(shown)) && shown@
                == "writeLargeMemory address "@ + text::hex_lower(value.address as nat)
                + " is not a multiple of the 512-byte sector size"@)
            &&& value.address % 512 == 0 ==> (started matches Ok(s) && (s.1 matches StepAction::Open { data } && data
                == value.data) && (s.0 matches StepRun::OpenDisk { start_lba, sparse } && 512 * start_lba
                == value.address && sparse == force_sparse))
        },
        step matches FlashStep::WriteBootPartition { value } ==> (started matches Ok(s) && (s.1 matches
            StepAction::ReadAll { data } && data == value.data) && (s.0 matches StepRun::ReadBoot { hwpart } && hwpart
            == value.hwpart)),
        step matches FlashStep::RestorePartition { value } ==> (started matches Ok(s) && {
            &&& value.name@ == "bootloader"@ ==> s.0 is ReadBootloader && (s.1 matches StepAction::ReadAll { data }
                && data == value.data)
            &&& value.name@ != "bootloader"@ ==> (s.1 matches StepAction::Open { data } && data == value.data)
            &&& value.name@ != "bootloader"@ && (exists|i: int|
                0 <= i < table.len() && (#[trigger] table[i]).name@ == value.name@) ==> (s.0 matches
                StepRun::OpenStock { name, info, sparse } && name == value.name && sparse == force_sparse
                    && exists|i: int|
                0 <= i < table.len() && (#[trigger] table[i]).name@ == value.name@ && table[i].info == info
                    && forall|j: int|
                    0 <= j < i ==> (#[trigger] table[j]).name@ != value.name@)
            &&& value.name@ != "bootloader"@ && (forall|i: int|
                0 <= i < table.len() ==> (#[trigger] table[i]).name@ != value.name@) ==> s.0 == (StepRun::OpenNamed {
                name: value.name,
            })
        }),
        step matches FlashStep::WriteEnv { value } ==> (started matches Ok(s) && s.0 is ReadEnv && (s.1 matches
            StepAction::ReadText { value: text } && text == value)),
        step matches FlashStep::Identify { .. } ==> (started matches Ok(s) && s.0 is Version && (s.1 matches
            StepAction::GetVar { name } && name@ == "version-bootloader"@)),
        step matches FlashStep::Log { value } ==> (started matches Ok(s) && s.0 is Last && (s.1 matches
            StepAction::Note { text: shown } && shown@ == ">> "@ + text::debug_text(value@))),
        step matches FlashStep::Wait { value: WaitValue::Time { time } } ==> (started matches Ok(s) && s.0 is Last
            && s.1 == (StepAction::Sleep { millis: time })),
        (step matches FlashStep::Wait { value: WaitValue::UserInput { .. } }) || step is ReadSimpleMemory || step
            is ReadLargeMemory ==> (started matches Err(Error::UnsupportedFeature(refused)) && refused == step),
        step is Bl2Boot || step is Run || step is WriteSimpleMemory || step is WriteAMLCData || step is GetBootAMLC
            ==> (started matches Ok(s) && s.1 == StepAction::Finish(Outcome::Done)),
{
    reveal_strlit(" is not a multiple of the ");
    reveal_strlit("-byte sector size");
    reveal_strlit(" is not a multiple of the 512-byte sector size");
    reveal_with_fuel(text::digits, 4);
    assert(text::decimal(512) =~= seq!['5', '1', '2']);
    assert(" is not a multiple of the "@ + seq!['5', '1', '2'] + "-byte sector size"@
        =~= " is not a multiple of the 512-byte sector size"@);
    if let FlashStep::WriteLargeMemory { value } = step {
        let head = "writeLargeMemory address "@ + text::hex_lower(value.address as nat);
        assert(head + " is not a multiple of the "@ + seq!['5', '1', '2'] + "-byte sector size"@ =~= head + (
        " is not a multiple of the "@ + seq!['5', '1', '2'] + "-byte sector size"@));
    }
}

/// The size of a partition is that of the first entry with its name, and is asked of the device when there is none.
pub proof fn sizes_are_looked_up_first(
    step: FlashStep,
    force_sparse: bool,
    table: Seq<Partition>,
    started: Started,
)
    requires
        starts(step, force_sparse, table, started),
    ensures
        step matches FlashStep::ValidatePartitionSize { value, .. } ==> (started matches Ok(s) && {
            &&& (forall|i: int| 0 <= i < table.len() ==> (#[trigger] table[i]).name@ != value.name@) ==> s.0 == (
            StepRun::Size { name: value.name }) && (s.1 matches StepAction::GetVar { name } && name@
                == "partition-size:"@ + value.name@)
            &&& (exists|i: int| 0 <= i < table.len()
                && (#[trigger] table[i]).name@ == value.name@) ==> s.0 is Last && (
            s.1 matches StepAction::Note { text: shown } && exists|i: int|
                0 <= i < table.len() && (#[trigger] table[i]).name@ == value.name@ && (forall|j: int|
                    0 <= j < i ==> (#[trigger] table[j]).name@ != value.name@) && shown@ == value.name@ + ": "@
                    + text::decimal(table[i].info.size as nat) + " sectors"@)
        }),
{
}

/// A vendor command is put on the console as it is rewritten, and done at once when it is dropped.
pub proof fn commands_are_put_on_the_console(
    step: FlashStep,
    command: String,
    force_sparse: bool,
    table: Seq<Partition>,
    started: Started,
)
    requires
        starts(step, force_sparse, table, started),
        (step matches FlashStep::Bulkcmd { value } && value == command) || (step matches FlashStep::BulkcmdStat {
            value,
            ..
        } && value == command),
    ensures
        vendor::rewriting(command@) matches Some(line) ==> (started matches Ok(s) && (s.0 matches StepRun::Console {
            line: kept,
        } && kept@ == line) && (s.1 matches StepAction::Console { line: sent } && sent@ == line)),
        vendor::rewriting(command@) is None ==> (started matches Ok(s) && s.1 == StepAction::Finish(Outcome::Done)),
{
}

/// What an open payload is written to: the sector that the step names, with all of its bytes. A stock partition takes
/// it if it has room, a partition without a size takes any, and one that is not in the table goes by its name.
pub proof fn open_payloads_go_to_their_place(pre: StepRun, size: usize, post: StepRun, action: StepAction)
    requires
        pre.awaits(StepReply::Opened { size }),
        StepRun::advances(pre, (StepReply::Opened { size }), post, action),
    ensures
        pre matches StepRun::OpenUserArea { lba, sparse } ==> {
            &&& lba == 0 && 0 < size <= 4194304 ==> (action matches StepAction::ReadHead { length }
                && length == (if size
                < 512 {
                size
            } else {
                512
            })) && post == (StepRun::Classify { lba, sparse, size })
            &&& !(lba == 0 && 0 < size <= 4194304) ==> (action matches StepAction::WriteOpen {
                start_lba,
                lead,
                size: total,
                sparse: erase,
            } && start_lba == lba && lead@.len() == 0 && total == size && erase == sparse)
        },
        pre matches StepRun::OpenDisk { start_lba: first, sparse } ==> (action matches StepAction::WriteOpen {
            start_lba,
            lead,
            size: total,
            sparse: erase,
        } && start_lba == first && lead@.len() == 0 && total == size && erase == sparse),
        pre matches StepRun::OpenStock { name, info, sparse } ==> {
            &&& info.size == 0 || size <= 512 * info.size ==> (action matches StepAction::WriteOpen {
                start_lba,
                lead,
                size: total,
                sparse: erase,
            } && start_lba == info.offset && lead@.len() == 0 && total == size && erase == sparse)
            &&& info.size > 0 && size > 512 * info.size ==> (action matches StepAction::Finish(
                Outcome::Failed(Error::InvalidOperation(shown)),
            ) && shown@ == name@ + " image is "@ + text::decimal(size as nat)
                + " bytes but the partition only holds "@ + text::decimal((512 * info.size) as nat))
        },
        pre matches StepRun::OpenNamed { name } ==> action == (StepAction::WriteNamed { name, size }),
        !(pre matches StepRun::OpenUserArea { .. }) && !(action is Finish) ==> post is Last,
{
}

/// What is made of bytes that were read: the head of a write at the start of the disk decides whether an info sector
/// goes in front, and a bootloader is prepared before it is written, for a boot hardware partition to the one that was
/// named, for a restore to sector 0 first.
pub proof fn bootloaders_are_prepared(pre: StepRun, data: Vec<u8>, post: StepRun, action: StepAction)
    requires
        pre.awaits(StepReply::Bytes(data)),
        StepRun::advances(pre, StepReply::Bytes(data), post, action),
    ensures
        pre matches StepRun::Classify { lba, sparse, size } ==> (action matches StepAction::WriteOpen {
            start_lba,
            lead,
            size: total,
            sparse: erase,
        } && {
            &&& start_lba == lba && erase == sparse
            &&& boot_image::opens_with_info_sector(data@) ==> lead@ == data@ && total == size
            &&& !boot_image::opens_with_info_sector(data@) ==> lead@ == boot_image::info_sector_bytes() + data@
                && total
                == size + 512
        }),
        pre matches StepRun::ReadBoot { hwpart }
            ==> (action matches StepAction::WriteHwpart { hwpart: to, image } && to
            == hwpart && image@ == boot_image::boot_image(data@)),
        pre is ReadBootloader ==> (action matches StepAction::WriteBytes { start_lba: 0, data: sent, sparse: false }
            && sent@ == boot_image::boot_image(data@)),
{
    boot_image::info_sector_has_its_fields(0);
}

/// What is made of a text that came back: an environment is written, console output is judged, and what was asked for
/// is shown. A failure ends the step, but for the version and the product, which are shown as unknown.
pub proof fn texts_are_written_judged_or_shown(pre: StepRun, reply: StepReply, post: StepRun, action: StepAction)
    requires
        pre.awaits(reply),
        StepRun::advances(pre, reply, post, action),
    ensures
        reply is Failed && !(pre is Version) && !(pre is Product) ==> action == StepAction::Finish(Outcome::Rethrow),
        pre is Last && reply is Done ==> action == StepAction::Finish(Outcome::Done),
        pre is ReadEnv && reply is Text ==> action == (StepAction::WriteEnv { env: reply->Text_0 }),
        pre is Console && reply is Text ==> {
            let bad = vendor::is_complaint(text::lowered(reply->Text_0@));
            &&& !bad <==> action == StepAction::Finish(Outcome::Done)
            &&& bad ==> (action matches StepAction::Finish(Outcome::Failed(Error::InvalidOperation(shown))) && shown@
                == vendor::complaint_about(
                text::debug_text(pre->Console_line@),
                reply->Text_0@,
                text::lowered(reply->Text_0@),
            ))
        },
        pre is Version ==> {
            &&& action matches StepAction::GetVar { name } && name@ == "product"@
            &&& reply is Text ==> (post matches StepRun::Product { version } && version@ == reply->Text_0@)
            &&& reply is Failed ==> (post matches StepRun::Product { version } && version@ == "unknown"@)
        },
        pre matches StepRun::Product { version } ==> {
            &&& reply is Text ==> (action matches StepAction::Note { text: shown } && shown@ == "device: "@
                + text::trimmed(reply->Text_0@) + ", bootloader "@ + text::trimmed(version@))
            &&& reply is Failed ==> (action matches StepAction::Note { text: shown } && shown@ == "device: "@
                + text::trimmed("unknown"@) + ", bootloader "@ + text::trimmed(version@))
        },
        pre is Size && reply is Text ==> (action matches StepAction::Note { text: shown }
            && shown@ == pre->Size_name@ + ": "@ + text::trimmed(reply->Text_0@)),
        pre is BootloaderMirror && reply is Done ==> (action matches StepAction::WriteHwpart {
            hwpart: 1,
            image: sent,
        } && sent@ == pre->BootloaderMirror_image@),
        pre is BootloaderFirst && reply is Done ==> (action matches StepAction::WriteHwpart {
            hwpart: 2,
            image: sent,
        } && sent@ == pre->BootloaderFirst_image@),
{
}

/// A partition without a size takes any payload; another takes what its sectors of 512 bytes hold.
pub proof fn rooms_are_counted_in_sectors(sectors: usize, size: usize)
    ensures
        has_room(sectors, size) <==> sectors == 0 || size <= 512 * sectors,
{
}

/// A step that has come to what it does last waits for that alone, and then ends. Only the mirror and the first
/// hardware partition of a bootloader, a head that is looked at and a question to the device are followed by something
/// else.
pub proof fn steps_end_behind_their_last_action(pre: StepRun, reply: StepReply, post: StepRun, action: StepAction)
    requires
        pre.wf(),
        pre.awaits(reply),
        StepRun::advances(pre, reply, post, action),
    ensures
        action is Finish <==> post is Finished,
        action is Finish || action is ReadHead || action is GetVar || action is WriteBytes || pre is BootloaderMirror
            <==> !(post is Last),
        pre is Last ==> action is Finish,
{
}

} // verus!
