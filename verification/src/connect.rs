//! Bringing a device up: which modes are accepted, and what leads from them to a device that can be flashed.
use vstd::prelude::*;

use crate::amlogic::bootstrap::RESET_SETTLE_MILLIS;
use crate::error::{Error, Outcome};
use crate::usb::{DeviceMode, UsbTarget};

verus! {

/// What a device is to be brought up as.
#[derive(Clone, Copy, PartialEq, Eq, Structural)]
pub enum Goal {
    /// Vendor burn mode.
    Burn,
    /// Fastboot.
    Fastboot,
}

impl Goal {
    /// The identity that the device has once it is up.
    pub open spec fn target(self) -> UsbTarget {
        match self {
            Goal::Burn => UsbTarget::Maskrom,
            Goal::Fastboot => UsbTarget::Fastboot,
        }
    }

    /// Whether a device in the given mode is already up.
    pub open spec fn is_up(self, mode: DeviceMode) -> bool {
        match self {
            Goal::Burn => mode == DeviceMode::UsbBurn,
            Goal::Fastboot => mode == DeviceMode::Fastboot,
        }
    }
}

/// Where a connection stands.
#[derive(Clone, Copy, PartialEq, Eq, Structural)]
pub enum ConnectState {
    /// The search was announced.
    Finding,
    /// The mode was asked for.
    Probing,
    /// The mode was announced.
    Probed { mode: DeviceMode },
    /// The device is being claimed.
    Claiming { mode: DeviceMode },
    /// A bootloader is being booted.
    Booting,
    /// The reset was announced.
    Resetting,
    /// Waiting for the device to come back.
    Settling,
    /// The device is being claimed again.
    Reclaiming,
    /// The version of the bootloader was asked for.
    Greeting,
    Finished,
}

/// What a connection wants done.
pub enum ConnectAction {
    /// Tell whoever listens that a device is looked for.
    AnnounceFinding,
    /// Find out the mode of the device.
    Probe,
    /// Tell whoever listens which mode the device is in.
    AnnounceMode(DeviceMode),
    /// Claim the device.
    Acquire(UsbTarget),
    /// Boot the bootloader from memory.
    Bootstrap,
    /// Tell whoever listens that the device resets.
    AnnounceResetting,
    Sleep { millis: u64 },
    /// Ask for the version of the bootloader, which shows that the device answers. A failure is of no account.
    Greet,
    Finish(Outcome),
}

/// How the last action went.
#[derive(Clone, Copy, PartialEq, Eq, Structural)]
pub enum ConnectReply {
    Done,
    Mode(DeviceMode),
    Failed,
}

/// A device being brought up.
#[derive(Clone, Copy, PartialEq, Eq, Structural)]
pub struct Connect {
    pub goal: Goal,
    pub state: ConnectState,
}

impl Connect {
    /// Whether a mode that is claimed is one that was accepted.
    pub open spec fn wf(self) -> bool {
        self.state matches ConnectState::Claiming { mode } ==> mode == DeviceMode::Usb || self.goal.is_up(mode)
    }

    /// Whether a reply answers the action that is out.
    pub open spec fn awaits(self, reply: ConnectReply) -> bool {
        match self.state {
            ConnectState::Probing => reply is Mode,
            ConnectState::Claiming { .. } | ConnectState::Booting | ConnectState::Reclaiming
            | ConnectState::Greeting => reply == ConnectReply::Done || reply == ConnectReply::Failed,
            ConnectState::Finished => false,
            _ => reply == ConnectReply::Done,
        }
    }

    /// Starts bringing up a device.
    pub fn init(goal: Goal) -> (started: (Self, ConnectAction))
        ensures
            started.0.wf(),
            started.0 == (Connect { goal, state: ConnectState::Finding }),
            started.1 is AnnounceFinding,
    {
        (Connect { goal, state: ConnectState::Finding }, ConnectAction::AnnounceFinding)
    }

    /// Whether a device that is up and claimed is greeted, or done with.
    pub open spec fn is_claimed(pre: Self, post: Self, action: ConnectAction) -> bool {
        match pre.goal {
            Goal::Burn => {
                &&& post == (Connect { state: ConnectState::Finished, ..pre })
                &&& action matches ConnectAction::Finish(Outcome::Done)
            },
            Goal::Fastboot => {
                &&& post == (Connect { state: ConnectState::Greeting, ..pre })
                &&& action is Greet
            },
        }
    }

    /// One step of a connection.
    ///
    /// A device that is up is claimed as it is. One in USB mode is claimed as the boot ROM, booted, given time to come
    /// back, and claimed as what it has become. Any other mode is refused.
    pub open spec fn advances(pre: Self, reply: ConnectReply, post: Self, action: ConnectAction) -> bool {
        let goal = pre.goal;
        match pre.state {
            ConnectState::Finding => {
                &&& post == (Connect { goal, state: ConnectState::Probing })
                &&& action is Probe
            },
            ConnectState::Probing => {
                &&& post == (Connect { goal, state: ConnectState::Probed { mode: reply->Mode_0 } })
                &&& action == ConnectAction::AnnounceMode(reply->Mode_0)
            },
            ConnectState::Probed { mode } => if mode == DeviceMode::Usb {
                &&& post == (Connect { goal, state: ConnectState::Claiming { mode } })
                &&& action == ConnectAction::Acquire(UsbTarget::Maskrom)
            } else if goal.is_up(mode) {
                &&& post == (Connect { goal, state: ConnectState::Claiming { mode } })
                &&& action == ConnectAction::Acquire(goal.target())
            } else {
                &&& post == (Connect { goal, state: ConnectState::Finished })
                &&& action == ConnectAction::Finish(
                    Outcome::Failed(
                        if mode == DeviceMode::NotFound {
                            Error::NotFound
                        } else {
                            Error::WrongMode
                        },
                    ),
                )
            },
            ConnectState::Greeting => {
                &&& post == (Connect { goal, state: ConnectState::Finished })
                &&& action matches ConnectAction::Finish(Outcome::Done)
            },
            _ => if reply == ConnectReply::Failed {
                &&& post == (Connect { goal, state: ConnectState::Finished })
                &&& action matches ConnectAction::Finish(Outcome::Rethrow)
            } else {
                match pre.state {
                    ConnectState::Claiming { mode } => if mode == DeviceMode::Usb {
                        &&& post == (Connect { goal, state: ConnectState::Booting })
                        &&& action is Bootstrap
                    } else {
                        Self::is_claimed(pre, post, action)
                    },
                    ConnectState::Booting => {
                        &&& post == (Connect { goal, state: ConnectState::Resetting })
                        &&& action is AnnounceResetting
                    },
                    ConnectState::Resetting => {
                        &&& post == (Connect { goal, state: ConnectState::Settling })
                        &&& action == (ConnectAction::Sleep { millis: RESET_SETTLE_MILLIS })
                    },
                    ConnectState::Settling => {
                        &&& post == (Connect { goal, state: ConnectState::Reclaiming })
                        &&& action == ConnectAction::Acquire(goal.target())
                    },
                    ConnectState::Reclaiming => Self::is_claimed(pre, post, action),
                    _ => false,
                }
            },
        }
    }

    fn claimed(&mut self) -> (action: ConnectAction)
        ensures
            final(self).wf(),
            Self::is_claimed(*old(self), *final(self), action),
    {
        match self.goal {
            Goal::Burn => {
                self.state = ConnectState::Finished;
                ConnectAction::Finish(Outcome::Done)
            },
            Goal::Fastboot => {
                self.state = ConnectState::Greeting;
                ConnectAction::Greet
            },
        }
    }

    fn weigh(&mut self, mode: DeviceMode) -> (action: ConnectAction)
        requires
            old(self).state == (ConnectState::Probed { mode }),
        ensures
            final(self).wf(),
            Self::advances(*old(self), ConnectReply::Done, *final(self), action),
    {
        let up: bool = match self.goal {
            Goal::Burn => mode == DeviceMode::UsbBurn,
            Goal::Fastboot => mode == DeviceMode::Fastboot,
        };
        if mode == DeviceMode::Usb {
            self.state = ConnectState::Claiming { mode };
            return ConnectAction::Acquire(UsbTarget::Maskrom);
        }
        if up {
            self.state = ConnectState::Claiming { mode };
            return ConnectAction::Acquire(self.identity());
        }
        self.state = ConnectState::Finished;
        let error = if mode == DeviceMode::NotFound { Error::NotFound } else { Error::WrongMode };
        ConnectAction::Finish(Outcome::Failed(error))
    }

    fn identity(&self) -> (target: UsbTarget)
        ensures
            target == self.goal.target(),
    {
        match self.goal {
            Goal::Burn => UsbTarget::Maskrom,
            Goal::Fastboot => UsbTarget::Fastboot,
        }
    }

    /// Takes in how the last action went and gives the next one.
    pub fn resume(&mut self, reply: ConnectReply) -> (action: ConnectAction)
        requires
            old(self).wf(),
            old(self).awaits(reply),
        ensures
            final(self).wf(),
            Self::advances(*old(self), reply, *final(self), action),
    {
        if reply == ConnectReply::Failed && self.state != ConnectState::Greeting {
            self.state = ConnectState::Finished;
            return ConnectAction::Finish(Outcome::Rethrow);
        }
        match self.state {
            ConnectState::Finding => {
                self.state = ConnectState::Probing;
                ConnectAction::Probe
            },
            ConnectState::Probing => {
                let mode: DeviceMode = match reply {
                    ConnectReply::Mode(mode) => mode,
                    _ => DeviceMode::NotFound,
                };
                self.state = ConnectState::Probed { mode };
                ConnectAction::AnnounceMode(mode)
            },
            ConnectState::Probed { mode } => self.weigh(mode),
            ConnectState::Claiming { mode } => {
                if mode == DeviceMode::Usb {
                    self.state = ConnectState::Booting;
                    return ConnectAction::Bootstrap;
                }
                self.claimed()
            },
            ConnectState::Booting => {
                self.state = ConnectState::Resetting;
                ConnectAction::AnnounceResetting
            },
            ConnectState::Resetting => {
                self.state = ConnectState::Settling;
                ConnectAction::Sleep { millis: RESET_SETTLE_MILLIS }
            },
            ConnectState::Settling => {
                self.state = ConnectState::Reclaiming;
                ConnectAction::Acquire(self.identity())
            },
            ConnectState::Reclaiming => self.claimed(),
            _ => {
                self.state = ConnectState::Finished;
                ConnectAction::Finish(Outcome::Done)
            },
        }
    }
}

/// A device is claimed only in USB mode or when it is up already. One that runs its regular firmware, or that is up
/// as the other of the two, is refused for its mode; one that is not there is reported as not found.
pub proof fn only_accepted_modes_are_claimed(goal: Goal, mode: DeviceMode, post: Connect, action: ConnectAction)
    requires
        Connect::advances(
            (Connect { goal, state: ConnectState::Probed { mode } }),
            ConnectReply::Done,
            post,
            action,
        ),
    ensures
        action is Acquire <==> mode == DeviceMode::Usb || goal.is_up(mode),
        mode == DeviceMode::Normal ==> action == ConnectAction::Finish(Outcome::Failed(Error::WrongMode)),
        mode == DeviceMode::NotFound ==> action == ConnectAction::Finish(Outcome::Failed(Error::NotFound)),
        goal == Goal::Fastboot && mode == DeviceMode::UsbBurn ==> action == ConnectAction::Finish(
            Outcome::Failed(Error::WrongMode),
        ),
        goal == Goal::Burn && mode == DeviceMode::Fastboot ==> action == ConnectAction::Finish(
            Outcome::Failed(Error::WrongMode),
        ),
{
}

/// Which mode counts as up, and what the device is claimed as: burn mode as the boot ROM, fastboot as itself.
pub proof fn goals_have_their_mode_and_target(mode: DeviceMode)
    ensures
        Goal::Burn.is_up(mode) <==> mode == DeviceMode::UsbBurn,
        Goal::Fastboot.is_up(mode) <==> mode == DeviceMode::Fastboot,
        Goal::Burn.target() == UsbTarget::Maskrom,
        Goal::Fastboot.target() == UsbTarget::Fastboot,
{
}

/// A device is looked for, asked for its mode, and announced in it. One in USB mode is claimed as the boot ROM,
/// booted, announced as resetting, given 5000 ms, and claimed as what it has become; one that is up is claimed as it
/// is. Over fastboot it is greeted behind that, whatever it answers; in burn mode it is done. A failure to claim or to
/// boot ends it.
pub proof fn devices_are_brought_up_in_order(pre: Connect, reply: ConnectReply, post: Connect, action: ConnectAction)
    requires
        pre.wf(),
        pre.awaits(reply),
        Connect::advances(pre, reply, post, action),
    ensures
        post.goal == pre.goal,
        pre.state == ConnectState::Finding ==> action is Probe && post.state == ConnectState::Probing,
        pre.state == ConnectState::Probing ==> (reply matches ConnectReply::Mode(mode) && action
            == ConnectAction::AnnounceMode(mode) && post.state == (ConnectState::Probed { mode })),
        pre.state matches ConnectState::Probed { mode } ==> {
            &&& mode == DeviceMode::Usb ==> action == ConnectAction::Acquire(UsbTarget::Maskrom) && post.state == (
            ConnectState::Claiming { mode })
            &&& mode == DeviceMode::UsbBurn && pre.goal == Goal::Burn ==> action == ConnectAction::Acquire(
                UsbTarget::Maskrom,
            )
            &&& mode == DeviceMode::Fastboot && pre.goal == Goal::Fastboot ==> action == ConnectAction::Acquire(
                UsbTarget::Fastboot,
            )
            &&& mode == DeviceMode::NotFound ==> action == ConnectAction::Finish(Outcome::Failed(Error::NotFound))
            &&& mode == DeviceMode::Normal || (mode == DeviceMode::UsbBurn && pre.goal == Goal::Fastboot) || (mode
                == DeviceMode::Fastboot && pre.goal == Goal::Burn) ==> action == ConnectAction::Finish(
                Outcome::Failed(Error::WrongMode),
            )
        },
        (pre.state is Claiming || pre.state == ConnectState::Booting || pre.state == ConnectState::Reclaiming) && reply
            == ConnectReply::Failed ==> action == ConnectAction::Finish(Outcome::Rethrow),
        pre.state == (ConnectState::Claiming { mode: DeviceMode::Usb }) && reply == ConnectReply::Done ==> action
            is Bootstrap && post.state == ConnectState::Booting,
        pre.state == ConnectState::Booting && reply == ConnectReply::Done ==> action is AnnounceResetting && post.state
            == ConnectState::Resetting,
        pre.state == ConnectState::Resetting ==> action == (ConnectAction::Sleep { millis: 5000 }) && post.state
            == ConnectState::Settling,
        pre.state == ConnectState::Settling ==> {
            &&& post.state == ConnectState::Reclaiming
            &&& pre.goal == Goal::Burn ==> action == ConnectAction::Acquire(UsbTarget::Maskrom)
            &&& pre.goal == Goal::Fastboot ==> action == ConnectAction::Acquire(UsbTarget::Fastboot)
        },
        (pre.state == ConnectState::Reclaiming || (pre.state is Claiming && pre.state != (ConnectState::Claiming {
            mode: DeviceMode::Usb,
        }))) && reply == ConnectReply::Done ==> {
            &&& pre.goal == Goal::Burn ==> action == ConnectAction::Finish(Outcome::Done)
            &&& pre.goal == Goal::Fastboot ==> action is Greet && post.state == ConnectState::Greeting
        },
        pre.state == ConnectState::Greeting ==> action == ConnectAction::Finish(Outcome::Done),
{
}

} // verus!
