//! The walk through the steps of a flash configuration.
use vstd::prelude::*;

verus! {

/// Result of a flash step.
#[derive(Debug)]
pub enum FlashOutcome {
    /// The step completed normally.
    Normal,
    /// All steps are finished.
    Complete,
    /// The user has to act before the flash can go on.
    AwaitUserInput(String),
    /// The response to a command.
    BulkcmdStatResult(String),
    /// Bytes that were read.
    ReadResult(Vec<u8>),
    /// The identification of the device.
    IdentifyResult(String),
    /// The length and offset that the boot ROM asks for.
    GetBootAMLCResult(u32, u32),
    /// The size and offset of a partition.
    ValidatePartitionResult(Option<usize>, Option<usize>),
}

/// How far a flash has come.
#[derive(Clone, Copy)]
pub struct FlashSession {
    /// How many steps the configuration has.
    pub steps: usize,
    /// How many steps were begun.
    pub step: usize,
}

impl FlashSession {
    /// Starts before the first step.
    pub fn new(steps: usize) -> (session: Self)
        ensures
            session.steps == steps,
            session.step == 0,
    {
        FlashSession { steps, step: 0 }
    }

    /// Counts one more step as begun and gives its number, which starts at one.
    pub fn begin_step(&mut self) -> (number: usize)
        requires
            old(self).step < usize::MAX,
        ensures
            final(self).steps == old(self).steps,
            final(self).step == old(self).step + 1,
            number == final(self).step,
    {
        self.step = self.step + 1;
        self.step
    }

    /// How many steps there are.
    pub fn num_steps(&self) -> (count: usize)
        ensures
            count == self.steps,
    {
        self.steps
    }

    /// The number of the step that comes next.
    pub fn current_step(&self) -> (number: usize)
        requires
            self.step < usize::MAX,
        ensures
            number == self.step + 1,
    {
        self.step + 1
    }
}

} // verus!
