//! USB identities of the device, and how it is found, told apart and claimed.
use vstd::prelude::*;

use crate::error;
use crate::error::{Error, Outcome};
use crate::text;

verus! {

/// Vendor ID of the boot ROM and of vendor burn mode.
pub const VENDOR_ID: u16 = 0x1b8e;

/// Product ID of the boot ROM and of vendor burn mode.
pub const PRODUCT_ID: u16 = 0xc003;

/// Vendor ID of a device that runs its regular firmware.
pub const VENDOR_ID_NORMAL: u16 = 0x18d1;

/// Product ID of a device that runs its regular firmware.
pub const PRODUCT_ID_NORMAL: u16 = 0x4e40;

/// Vendor ID of the fastboot gadget.
pub const VENDOR_ID_FASTBOOT: u16 = 0x18d1;

/// Product ID of the fastboot gadget.
pub const PRODUCT_ID_FASTBOOT: u16 = 0xfada;

/// The one interface of the boot ROM.
pub const MASKROM_INTERFACE: u8 = 0;

/// Class of a fastboot interface.
pub const FASTBOOT_CLASS: u8 = 0xff;

/// Subclass of a fastboot interface.
pub const FASTBOOT_SUBCLASS: u8 = 0x42;

/// Protocol of a fastboot interface.
pub const FASTBOOT_PROTOCOL: u8 = 0x03;

/// How often a device is tried before the last attempt.
pub const ACQUIRE_ATTEMPTS: usize = 3;

/// Milliseconds between two attempts.
pub const ACQUIRE_REST_MILLIS: u64 = 1000;

/// How often a device that re-enumerates is looked for before the user is asked.
pub const REACQUIRE_ATTEMPTS: usize = 8;

/// Milliseconds before each such look.
pub const REACQUIRE_INTERVAL_MILLIS: u64 = 250;

/// The mode that a device is in.
#[derive(Debug, Clone, Copy, PartialEq, Eq, Structural)]
pub enum DeviceMode {
    /// Running its regular firmware.
    Normal,
    /// USB mode, entered by holding buttons 1 and 4 at power-on.
    Usb,
    /// USB burn mode.
    UsbBurn,
    /// Running the fastboot gadget of mainline U-Boot.
    Fastboot,
    /// Not detected.
    NotFound,
}

/// Which USB personality to look for when claiming a device.
#[derive(Debug, Clone, Copy, PartialEq, Eq, Structural)]
pub enum UsbTarget {
    /// The boot ROM, or vendor burn mode.
    Maskrom,
    /// The fastboot gadget.
    Fastboot,
}

impl UsbTarget {
    /// The vendor and product ID that a target has.
    pub open spec fn identity(self) -> (u16, u16) {
        match self {
            UsbTarget::Maskrom => (VENDOR_ID, PRODUCT_ID),
            UsbTarget::Fastboot => (VENDOR_ID_FASTBOOT, PRODUCT_ID_FASTBOOT),
        }
    }

    /// The name of a target.
    pub open spec fn name(self) -> Seq<char> {
        match self {
            UsbTarget::Maskrom => "Maskrom"@,
            UsbTarget::Fastboot => "Fastboot"@,
        }
    }

    /// The vendor and product ID that this target enumerates as.
    pub fn ids(self) -> (pair: (u16, u16))
        ensures
            pair == self.identity(),
            self is Maskrom ==> pair == (0x1b8eu16, 0xc003u16),
            self is Fastboot ==> pair == (0x18d1u16, 0xfadau16),
    {
        match self {
            UsbTarget::Maskrom => (VENDOR_ID, PRODUCT_ID),
            UsbTarget::Fastboot => (VENDOR_ID_FASTBOOT, PRODUCT_ID_FASTBOOT),
        }
    }
}

/// The two targets cannot be mistaken for each other, nor for a device that runs its regular firmware.
pub proof fn targets_have_distinct_ids()
    ensures
        UsbTarget::Maskrom.identity() != UsbTarget::Fastboot.identity(),
        UsbTarget::Maskrom.identity() != (VENDOR_ID_NORMAL, PRODUCT_ID_NORMAL),
        UsbTarget::Fastboot.identity() != (VENDOR_ID_NORMAL, PRODUCT_ID_NORMAL),
{
}

/// Why the user is asked for a click.
#[derive(Debug, Clone, Copy, PartialEq, Eq, Structural)]
pub enum GestureReason {
    /// No device was chosen yet.
    Initial,
    /// The device re-enumerated and its old permission is gone.
    Reconnect,
}

impl GestureReason {
    /// The reason in one word.
    pub fn as_str(self) -> (word: &'static str)
        ensures
            word@ == (match self {
                GestureReason::Initial => "initial"@,
                GestureReason::Reconnect => "reconnect"@,
            }),
    {
        match self {
            GestureReason::Initial => "initial",
            GestureReason::Reconnect => "reconnect",
        }
    }

    /// The reason for which a device is acquired: again, when one was claimed before.
    pub fn of(claimed_before: bool) -> (reason: Self)
        ensures
            reason == (if claimed_before {
                GestureReason::Reconnect
            } else {
                GestureReason::Initial
            }),
    {
        if claimed_before {
            GestureReason::Reconnect
        } else {
            GestureReason::Initial
        }
    }
}

/// What a pair of IDs stands for.
#[derive(Debug, Clone, Copy, PartialEq, Eq, Structural)]
pub enum Identity {
    Normal,
    Fastboot,
    /// The boot ROM or vendor burn mode: the product string tells.
    Amlogic,
    Other,
}

/// What a pair of IDs stands for.
pub open spec fn identity_of(ids: (u16, u16)) -> Identity {
    if ids == (VENDOR_ID_NORMAL, PRODUCT_ID_NORMAL) {
        Identity::Normal
    } else if ids == (VENDOR_ID_FASTBOOT, PRODUCT_ID_FASTBOOT) {
        Identity::Fastboot
    } else if ids == (VENDOR_ID, PRODUCT_ID) {
        Identity::Amlogic
    } else {
        Identity::Other
    }
}

/// Finds out what a pair of IDs stands for.
pub fn identify_ids(vendor: u16, product: u16) -> (identity: Identity)
    ensures
        identity == identity_of((vendor, product)),
        identity == Identity::Normal <==> vendor == 0x18d1 && product == 0x4e40,
        identity == Identity::Fastboot <==> vendor == 0x18d1 && product == 0xfada,
        identity == Identity::Amlogic <==> vendor == 0x1b8e && product == 0xc003,
{
    if vendor == VENDOR_ID_NORMAL && product == PRODUCT_ID_NORMAL {
        Identity::Normal
    } else if vendor == VENDOR_ID_FASTBOOT && product == PRODUCT_ID_FASTBOOT {
        Identity::Fastboot
    } else if vendor == VENDOR_ID && product == PRODUCT_ID {
        Identity::Amlogic
    } else {
        Identity::Other
    }
}

/// Finds the first device in a list of IDs that is one of ours.
pub fn find_device(ids: &Vec<(u16, u16)>) -> (found: Option<usize>)
    ensures
        match found {
            Some(i) => {
                &&& i < ids@.len()
                &&& identity_of(ids@[i as int]) != Identity::Other
                &&& forall|j: int| 0 <= j < i ==> identity_of(#[trigger] ids@[j]) == Identity::Other
            },
            None => forall|j: int| 0 <= j < ids@.len() ==> identity_of(#[trigger] ids@[j]) == Identity::Other,
        },
{
    let mut i: usize = 0;
    while i < ids.len()
        invariant
            i <= ids@.len(),
            forall|j: int| 0 <= j < i ==> identity_of(#[trigger] ids@[j]) == Identity::Other,
        decreases ids@.len() - i,
    {
        let (vendor, product) = ids[i];
        if identify_ids(vendor, product) != Identity::Other {
            return Some(i);
        }
        i = i + 1;
    }
    None
}

/// The mode of a device. The product string decides between the two modes that share their IDs: only the boot ROM
/// calls itself `GX-CHIP`, and a string that cannot be read means burn mode.
pub fn mode_of(identity: Identity, product: Option<&str>) -> (mode: DeviceMode)
    ensures
        mode == (match identity {
            Identity::Normal => DeviceMode::Normal,
            Identity::Fastboot => DeviceMode::Fastboot,
            Identity::Amlogic => if product is Some && product->0@ == "GX-CHIP"@ {
                DeviceMode::Usb
            } else {
                DeviceMode::UsbBurn
            },
            Identity::Other => DeviceMode::NotFound,
        }),
{
    match identity {
        Identity::Normal => DeviceMode::Normal,
        Identity::Fastboot => DeviceMode::Fastboot,
        Identity::Amlogic => {
            match product {
                Some(name) => {
                    if text::same_text(name, "GX-CHIP") {
                        return DeviceMode::Usb;
                    }
                },
                None => {},
            }
            DeviceMode::UsbBurn
        },
        Identity::Other => DeviceMode::NotFound,
    }
}

/// Finds the first device in a list of IDs that a target enumerates as.
pub fn find_target(ids: &Vec<(u16, u16)>, target: UsbTarget) -> (found: Result<usize, Error>)
    ensures
        match found {
            Ok(i) => {
                &&& i < ids@.len()
                &&& ids@[i as int] == target.identity()
                &&& forall|j: int| 0 <= j < i ==> #[trigger] ids@[j] != target.identity()
            },
            Err(e) => {
                &&& forall|j: int| 0 <= j < ids@.len() ==> #[trigger] ids@[j] != target.identity()
                &&& error::is_invalid(e, "Device not found"@)
            },
        },
{
    let (vendor, product) = target.ids();
    let mut i: usize = 0;
    while i < ids.len()
        invariant
            i <= ids@.len(),
            (vendor, product) == target.identity(),
            forall|j: int| 0 <= j < i ==> #[trigger] ids@[j] != target.identity(),
        decreases ids@.len() - i,
    {
        let pair: (u16, u16) = ids[i];
        if pair.0 == vendor && pair.1 == product {
            return Ok(i);
        }
        i = i + 1;
    }
    Err(error::invalid("Device not found"))
}

/// An endpoint of an interface.
#[derive(Clone, Copy)]
pub struct Endpoint {
    pub address: u8,
    /// Whether it carries data to the host.
    pub inward: bool,
}

/// An interface of a device.
pub struct Interface {
    pub number: u8,
    pub class: u8,
    pub subclass: u8,
    pub protocol: u8,
    pub endpoints: Vec<Endpoint>,
}

/// An interface to claim, and the endpoints to use.
#[derive(Clone, Copy, PartialEq, Eq, Structural)]
pub struct Claim {
    pub interface: u8,
    pub endpoint_in: u8,
    pub endpoint_out: u8,
}

impl Interface {
    /// Whether this is the interface that a target speaks over. Fastboot is told by its class, since another
    /// interface may come before it.
    pub open spec fn serves(self, target: UsbTarget) -> bool {
        match target {
            UsbTarget::Maskrom => self.number == MASKROM_INTERFACE,
            UsbTarget::Fastboot => {
                &&& self.class == FASTBOOT_CLASS
                &&& self.subclass == FASTBOOT_SUBCLASS
                &&& self.protocol == FASTBOOT_PROTOCOL
            },
        }
    }

    /// Whether endpoint `i` is the first one of its direction.
    pub open spec fn is_first(self, i: int, inward: bool) -> bool {
        &&& 0 <= i < self.endpoints@.len()
        &&& self.endpoints@[i].inward == inward
        &&& forall|j: int| 0 <= j < i ==> (#[trigger] self.endpoints@[j]).inward != inward
    }

    /// Whether the interface has an endpoint of a direction.
    pub open spec fn has_endpoint(self, inward: bool) -> bool {
        exists|i: int| 0 <= i < self.endpoints@.len() && (#[trigger] self.endpoints@[i]).inward == inward
    }

    /// Whether the interface can be used for a target: it is the right one, and has an endpoint of each direction.
    pub open spec fn usable(self, target: UsbTarget) -> bool {
        self.serves(target) && self.has_endpoint(true) && self.has_endpoint(false)
    }

    /// Whether a claim is of this interface with its first endpoints.
    pub open spec fn claimed_by(self, claim: Claim) -> bool {
        &&& claim.interface == self.number
        &&& exists|i: int| #[trigger] self.is_first(i, true) && self.endpoints@[i].address == claim.endpoint_in
        &&& exists|i: int| #[trigger] self.is_first(i, false) && self.endpoints@[i].address == claim.endpoint_out
    }

    fn first_endpoint(&self, inward: bool) -> (address: Option<u8>)
        ensures
            address is Some <==> self.has_endpoint(inward),
            address matches Some(a) ==> exists|i: int| #[trigger]
                self.is_first(i, inward) && self.endpoints@[i].address == a,
    {
        let mut i: usize = 0;
        while i < self.endpoints.len()
            invariant
                i <= self.endpoints@.len(),
                forall|j: int| 0 <= j < i ==> (#[trigger] self.endpoints@[j]).inward != inward,
            decreases self.endpoints@.len() - i,
        {
            if self.endpoints[i].inward == inward {
                assert(self.is_first(i as int, inward));
                return Some(self.endpoints[i].address);
            }
            i = i + 1;
        }
        None
    }

    fn claim(&self, target: UsbTarget) -> (claim: Option<Claim>)
        ensures
            claim is Some <==> self.usable(target),
            claim matches Some(c) ==> self.claimed_by(c),
    {
        let serves: bool = match target {
            UsbTarget::Maskrom => self.number == MASKROM_INTERFACE,
            UsbTarget::Fastboot => {
                self.class == FASTBOOT_CLASS && self.subclass == FASTBOOT_SUBCLASS && self.protocol
                    == FASTBOOT_PROTOCOL
            },
        };
        if !serves {
            return None;
        }
        match self.first_endpoint(true) {
            Some(endpoint_in) => match self.first_endpoint(false) {
                Some(endpoint_out) => Some(Claim { interface: self.number, endpoint_in, endpoint_out }),
                None => None,
            },
            None => None,
        }
    }
}

/// Picks the interface that a target speaks over, and its endpoints: the first one that can be used.
pub fn interface_for(interfaces: &Vec<Interface>, target: UsbTarget) -> (claim: Result<Claim, Error>)
    ensures
        match claim {
            Ok(c) => exists|i: int|
                0 <= i < interfaces@.len() && (#[trigger] interfaces@[i]).usable(target)
                    && interfaces@[i].claimed_by(c)
                    && forall|j: int| 0 <= j < i ==> !(#[trigger] interfaces@[j]).usable(target),
            Err(e) => {
                &&& forall|j: int| 0 <= j < interfaces@.len() ==> !(#[trigger] interfaces@[j]).usable(target)
                &&& error::is_invalid(e, "no usable "@ + target.name() + " interface on this device"@)
            },
        },
{
    let mut i: usize = 0;
    while i < interfaces.len()
        invariant
            i <= interfaces@.len(),
            forall|j: int| 0 <= j < i ==> !(#[trigger] interfaces@[j]).usable(target),
        decreases interfaces@.len() - i,
    {
        match interfaces[i].claim(target) {
            Some(claim) => {
                assert(interfaces@[i as int].usable(target));
                return Ok(claim);
            },
            None => {},
        }
        i = i + 1;
    }
    let mut shown = "no usable ".to_owned();
    match target {
        UsbTarget::Maskrom => {
            shown.append("Maskrom");
        },
        UsbTarget::Fastboot => {
            shown.append("Fastboot");
        },
    }
    shown.append(" interface on this device");
    Err(Error::InvalidOperation(shown))
}

/// What an attempt to claim a device wants done.
pub enum AcquireAction {
    /// Open and claim the device.
    Open,
    Sleep { millis: u64 },
    Finish(Outcome),
}

/// How the last action went.
#[derive(Clone, Copy, PartialEq, Eq, Structural)]
pub enum AcquireReply {
    Done,
    Failed,
}

/// Claiming a device that may still be coming up.
#[derive(Clone, Copy, PartialEq, Eq, Structural)]
pub struct Acquire {
    /// How often the device could not be claimed.
    pub failures: usize,
    /// Whether the next reply is that of a rest.
    pub resting: bool,
}

impl Acquire {
    /// Whether no more than the allowed attempts failed.
    pub open spec fn wf(self) -> bool {
        &&& self.failures <= ACQUIRE_ATTEMPTS
        &&& self.resting ==> self.failures > 0
    }

    /// Starts with an attempt.
    pub fn acquire() -> (started: (Self, AcquireAction))
        ensures
            started.0 == (Acquire { failures: 0, resting: false }),
            started.1 is Open,
    {
        (Acquire { failures: 0, resting: false }, AcquireAction::Open)
    }

    /// One step: three failures are each followed by a rest and another attempt, and the attempt after that decides.
    pub open spec fn advances(pre: Self, reply: AcquireReply, post: Self, action: AcquireAction) -> bool {
        if pre.resting {
            &&& post == (Acquire { resting: false, ..pre })
            &&& action is Open
        } else if reply == AcquireReply::Done {
            &&& post == pre
            &&& action matches AcquireAction::Finish(Outcome::Done)
        } else if pre.failures < ACQUIRE_ATTEMPTS {
            &&& post == (Acquire { failures: (pre.failures + 1) as usize, resting: true })
            &&& action == (AcquireAction::Sleep { millis: ACQUIRE_REST_MILLIS })
        } else {
            &&& post == pre
            &&& action matches AcquireAction::Finish(Outcome::Rethrow)
        }
    }

    /// Takes in how the last action went and gives the next one.
    pub fn resume(&mut self, reply: AcquireReply) -> (action: AcquireAction)
        requires
            old(self).wf(),
        ensures
            final(self).wf(),
            Self::advances(*old(self), reply, *final(self), action),
    {
        if self.resting {
            self.resting = false;
            return AcquireAction::Open;
        }
        match reply {
            AcquireReply::Done => AcquireAction::Finish(Outcome::Done),
            AcquireReply::Failed => {
                if self.failures < ACQUIRE_ATTEMPTS {
                    self.failures = self.failures + 1;
                    self.resting = true;
                    return AcquireAction::Sleep { millis: ACQUIRE_REST_MILLIS };
                }
                AcquireAction::Finish(Outcome::Rethrow)
            },
        }
    }
}

/// What the search for a device that was granted before wants done.
#[derive(Clone, Copy, PartialEq, Eq, Structural)]
pub enum SearchAction {
    /// See whether a device is granted.
    Look,
    Sleep { millis: u64 },
    /// Use the device that was found.
    Take,
    /// Ask the user to choose a device.
    Prompt,
}

/// How the last action went.
#[derive(Clone, Copy, PartialEq, Eq, Structural)]
pub enum SearchReply {
    Found,
    Missing,
    Rested,
}

/// The search for a device that was granted before, which a device that re-enumerates may still be.
#[derive(Clone, Copy, PartialEq, Eq, Structural)]
pub struct Search {
    pub reason: GestureReason,
    /// How many rests were taken.
    pub rests: usize,
}

impl Search {
    /// Starts with a look.
    pub fn next_device(reason: GestureReason) -> (started: (Self, SearchAction))
        ensures
            started.0 == (Search { reason, rests: 0 }),
            started.1 == SearchAction::Look,
    {
        (Search { reason, rests: 0 }, SearchAction::Look)
    }

    /// One step: after a reset the device is looked for again for a while; otherwise the user is asked at once.
    pub open spec fn advances(pre: Self, reply: SearchReply, post: Self, action: SearchAction) -> bool {
        match reply {
            SearchReply::Found => post == pre && action == SearchAction::Take,
            SearchReply::Rested => post == pre && action == SearchAction::Look,
            SearchReply::Missing => if pre.reason == GestureReason::Reconnect && pre.rests < REACQUIRE_ATTEMPTS {
                &&& post == (Search { rests: (pre.rests + 1) as usize, ..pre })
                &&& action == (SearchAction::Sleep { millis: REACQUIRE_INTERVAL_MILLIS })
            } else {
                post == pre && action == SearchAction::Prompt
            },
        }
    }

    /// Takes in how the last action went and gives the next one.
    pub fn resume(&mut self, reply: SearchReply) -> (action: SearchAction)
        ensures
            Self::advances(*old(self), reply, *final(self), action),
    {
        match reply {
            SearchReply::Found => SearchAction::Take,
            SearchReply::Rested => SearchAction::Look,
            SearchReply::Missing => {
                if self.reason == GestureReason::Reconnect && self.rests < REACQUIRE_ATTEMPTS {
                    self.rests = self.rests + 1;
                    return SearchAction::Sleep { millis: REACQUIRE_INTERVAL_MILLIS };
                }
                SearchAction::Prompt
            },
        }
    }
}

/// Whether the chooser is opened again after it was rejected: only when it was dismissed without a choice.
pub fn retries_chooser(error_name: Option<&str>) -> (again: bool)
    ensures
        again == (error_name is Some && error_name->0@ == "NotFoundError"@),
{
    match error_name {
        Some(name) => text::same_text(name, "NotFoundError"),
        None => false,
    }
}

/// The three identities by their numbers, in the order of vendor and product.
pub proof fn identities_have_their_numbers(vendor: u16, product: u16)
    ensures
        UsbTarget::Maskrom.identity() == (0x1b8eu16, 0xc003u16),
        UsbTarget::Fastboot.identity() == (0x18d1u16, 0xfadau16),
        identity_of((vendor, product)) == Identity::Amlogic <==> vendor == 0x1b8e && product == 0xc003,
        identity_of((vendor, product)) == Identity::Fastboot <==> vendor == 0x18d1 && product == 0xfada,
        identity_of((vendor, product)) == Identity::Normal <==> vendor == 0x18d1 && product == 0x4e40,
        VENDOR_ID == 0x1b8e && PRODUCT_ID == 0xc003,
        VENDOR_ID_FASTBOOT == 0x18d1 && PRODUCT_ID_FASTBOOT == 0xfada,
        VENDOR_ID_NORMAL == 0x18d1 && PRODUCT_ID_NORMAL == 0x4e40,
        UsbTarget::Maskrom.name() == "Maskrom"@,
        UsbTarget::Fastboot.name() == "Fastboot"@,
{
}

/// The boot ROM speaks over interface 0, and fastboot over the one with class 0xff, subclass 0x42 and protocol 3.
/// Either needs an endpoint of each direction, and the first one of each is used.
pub proof fn interfaces_are_told_by_number_or_class(interface: Interface, claim: Claim)
    ensures
        interface.usable(UsbTarget::Maskrom) <==> {
            &&& interface.number == 0
            &&& exists|i: int| 0 <= i < interface.endpoints@.len() && (#[trigger] interface.endpoints@[i]).inward
            &&& exists|i: int| 0 <= i < interface.endpoints@.len() && !(#[trigger] interface.endpoints@[i]).inward
        },
        interface.usable(UsbTarget::Fastboot) <==> {
            &&& interface.class == 0xff && interface.subclass == 0x42 && interface.protocol == 3
            &&& exists|i: int| 0 <= i < interface.endpoints@.len() && (#[trigger] interface.endpoints@[i]).inward
            &&& exists|i: int| 0 <= i < interface.endpoints@.len() && !(#[trigger] interface.endpoints@[i]).inward
        },
        interface.claimed_by(claim) ==> {
            &&& claim.interface == interface.number
            &&& exists|i: int|
                0 <= i < interface.endpoints@.len() && (#[trigger] interface.endpoints@[i]).inward
                    && interface.endpoints@[i].address == claim.endpoint_in && forall|j: int|
                    0 <= j < i ==> !(#[trigger] interface.endpoints@[j]).inward
            &&& exists|i: int|
                0 <= i < interface.endpoints@.len() && !(#[trigger] interface.endpoints@[i]).inward
                    && interface.endpoints@[i].address == claim.endpoint_out && forall|j: int|
                    0 <= j < i ==> (#[trigger] interface.endpoints@[j]).inward
        },
{
    if interface.claimed_by(claim) {
        let a = choose|i: int| #[trigger]
            interface.is_first(i, true) && interface.endpoints@[i].address == claim.endpoint_in;
        let b = choose|i: int| #[trigger]
            interface.is_first(i, false) && interface.endpoints@[i].address == claim.endpoint_out;
        assert(interface.endpoints@[a].inward);
        assert(!interface.endpoints@[b].inward);
    }
}

/// A device that cannot be claimed is tried again after 1000 ms, three times; the fourth failure is final. A claim
/// ends the attempts at once.
pub proof fn claims_are_tried_four_times(pre: Acquire, reply: AcquireReply, post: Acquire, action: AcquireAction)
    requires
        pre.wf(),
        Acquire::advances(pre, reply, post, action),
    ensures
        pre.resting ==> action is Open && !post.resting && post.failures == pre.failures,
        !pre.resting && reply == AcquireReply::Done ==> action == AcquireAction::Finish(Outcome::Done),
        !pre.resting && reply == AcquireReply::Failed && pre.failures < 3 ==> {
            &&& action == (AcquireAction::Sleep { millis: 1000 })
            &&& post.resting
            &&& post.failures == pre.failures + 1
        },
        !pre.resting && reply == AcquireReply::Failed && pre.failures == 3 ==> action == AcquireAction::Finish(
            Outcome::Rethrow,
        ),
{
}

/// A device that was granted is taken. After a reset one that is missing is looked for again eight times, 250 ms
/// apart, before the user is asked; otherwise the user is asked at once.
pub proof fn missing_devices_are_looked_for_again(
    pre: Search,
    reply: SearchReply,
    post: Search,
    action: SearchAction,
)
    requires
        Search::advances(pre, reply, post, action),
    ensures
        post.reason == pre.reason,
        reply == SearchReply::Found ==> action == SearchAction::Take,
        reply == SearchReply::Rested ==> action == SearchAction::Look && post.rests == pre.rests,
        reply == SearchReply::Missing && pre.reason == GestureReason::Reconnect && pre.rests < 8 ==> action == (
        SearchAction::Sleep { millis: 250 }) && post.rests == pre.rests + 1,
        reply == SearchReply::Missing && (pre.reason == GestureReason::Initial || pre.rests >= 8) ==> action
            == SearchAction::Prompt,
{
}

} // verus!
