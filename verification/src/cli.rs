//! What the command line asks for.
use vstd::prelude::*;

verus! {

/// The switches of the command line.
pub struct Options {
    pub setup: bool,
    pub unbrick: bool,
    pub console: Option<String>,
    pub bulkcmd: Option<String>,
    pub fastboot: bool,
    pub stock: bool,
    pub sparse: bool,
}

/// The one thing to do.
pub enum Task {
    /// Set up the host.
    Setup,
    /// Unbrick the device.
    Unbrick { fastboot: bool },
    /// Run a command over fastboot.
    Console { line: String },
    /// Run a command over vendor burn mode.
    Bulkcmd { line: String },
    /// Flash over fastboot.
    FlashFastboot { stock: bool, sparse: bool },
    /// Flash over vendor burn mode.
    FlashAmlogic { stock: bool },
}

/// Picks the one thing to do: the host is set up before anything else, then comes unbricking, then a single command,
/// and flashing is what is left.
pub fn pick(options: Options) -> (task: Task)
    ensures
        if options.setup {
            task is Setup
        } else if options.unbrick {
            task == (Task::Unbrick { fastboot: options.fastboot })
        } else if options.console is Some {
            task == (Task::Console { line: options.console->0 })
        } else if options.bulkcmd is Some {
            task == (Task::Bulkcmd { line: options.bulkcmd->0 })
        } else if options.fastboot {
            task == (Task::FlashFastboot { stock: options.stock, sparse: options.sparse })
        } else {
            task == (Task::FlashAmlogic { stock: options.stock })
        },
{
    if options.setup {
        return Task::Setup;
    }
    if options.unbrick {
        return Task::Unbrick { fastboot: options.fastboot };
    }
    match options.console {
        Some(line) => {
            return Task::Console { line };
        },
        None => {},
    }
    match options.bulkcmd {
        Some(line) => {
            return Task::Bulkcmd { line };
        },
        None => {},
    }
    if options.fastboot {
        Task::FlashFastboot { stock: options.stock, sparse: options.sparse }
    } else {
        Task::FlashAmlogic { stock: options.stock }
    }
}

/// Which kind of thing a path names.
#[derive(Clone, Copy, PartialEq, Eq, Structural)]
pub enum Source {
    Archive,
    Directory,
}

/// Tells an archive, which is a file with the extension `zip`, from a directory; a path that names neither cannot be
/// flashed.
pub fn classify(is_file: bool, is_dir: bool, has_zip_extension: bool) -> (source: Option<Source>)
    ensures
        source == (if is_file && has_zip_extension {
            Some(Source::Archive)
        } else if is_dir {
            Some(Source::Directory)
        } else {
            None
        }),
{
    if is_file && has_zip_extension {
        Some(Source::Archive)
    } else if is_dir {
        Some(Source::Directory)
    } else {
        None
    }
}

} // verus!
