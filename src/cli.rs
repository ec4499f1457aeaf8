//! The commands of the kernel runner.

use vstd::prelude::*;

verus! {

/// How QEMU boots the kernel image.
#[derive(Debug, Clone, Copy, PartialEq, Eq, Structural)]
pub enum BootMode {
    /// Boot through UEFI firmware.
    Uefi,
    /// Boot through legacy BIOS.
    Bios,
}

/// What the runner does.
#[derive(Debug, Clone, Copy, PartialEq, Eq, Structural)]
pub enum Commands {
    /// Run the kernel in QEMU.
    Run {
        /// The firmware to boot with.
        boot_mode: BootMode,
    },
    /// Copy the disk images next to the runner's executable.
    CopyDiskImages,
}

/// The runner's parsed command line.
#[derive(Debug, Clone, Copy)]
pub struct Cli {
    command: Option<Commands>,
}

impl Cli {
    /// The command line, with the command given on it, if any.
    pub fn new(command: Option<Commands>) -> (r: Self)
        ensures
            r.given() == command,
    {
        Cli { command }
    }

    /// The command given on the command line, if any.
    pub closed spec fn given(&self) -> Option<Commands> {
        self.command
    }

    /// The command to carry out: the one given, or running under UEFI when none was.
    pub fn command(&self) -> (r: Commands)
        ensures
            r == (match self.given() {
                Some(c) => c,
                None => Commands::Run { boot_mode: BootMode::Uefi },
            }),
    {
        match self.command {
            Some(c) => c,
            None => Commands::Run { boot_mode: BootMode::Uefi },
        }
    }
}

} // verus!
