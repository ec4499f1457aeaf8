//! Interrupt vector numbers of the chained programmable interrupt controllers.

use vstd::prelude::*;

verus! {

/// Interrupt vector number offset for the primary interrupt controller.
pub const PIC_1_OFFSET: u8 = 32;

/// Interrupt vector number offset for the secondary interrupt controller.
pub const PIC_2_OFFSET: u8 = 40;

/// Interrupt indexes in the interrupt descriptor table, past the vectors that
/// the CPU reserves.
#[derive(Debug, Clone, Copy, PartialEq, Eq, Structural)]
pub enum InterruptIndex {
    /// The timer interrupt, the first line of the primary controller.
    Timer,
    /// The keyboard interrupt, the second line of the primary controller.
    Keyboard,
}

impl InterruptIndex {
    /// The vector number of this interrupt.
    pub open spec fn vector(self) -> u8 {
        match self {
            InterruptIndex::Timer => PIC_1_OFFSET,
            InterruptIndex::Keyboard => (PIC_1_OFFSET + 1) as u8,
        }
    }

    /// The vector number of this interrupt.
    pub fn as_u8(self) -> (r: u8)
        ensures
            r == self.vector(),
    {
        match self {
            InterruptIndex::Timer => PIC_1_OFFSET,
            InterruptIndex::Keyboard => PIC_1_OFFSET + 1,
        }
    }
}

/// Codes that, written to QEMU's debug-exit port, make QEMU exit with status
/// `(code << 1) | 1`.
#[derive(Debug, Clone, Copy, PartialEq, Eq, Structural)]
pub enum QemuExitCode {
    /// The run succeeded.
    Success,
    /// The run failed.
    Failure,
}

impl QemuExitCode {
    /// The value to write to the debug-exit port.
    pub fn code(self) -> (r: u32)
        ensures
            r == (match self {
                QemuExitCode::Success => 0x10u32,
                QemuExitCode::Failure => 0x11u32,
            }),
    {
        match self {
            QemuExitCode::Success => 0x10,
            QemuExitCode::Failure => 0x11,
        }
    }
}

} // verus!
