//! The privileged operations that the library asks the platform layer to
//! perform. The library decides which operations, with which values and in
//! which order; the platform layer executes them one by one.
use vstd::prelude::*;

verus! {

#[derive(Clone, Copy, Debug, PartialEq, Eq, Structural)]
pub enum Op {
    /// Write the secure configuration register.
    WriteSecureConfiguration(u64),
    /// Write the saved program status register of the current level.
    WriteSavedStatus(u64),
    /// Write the exception link register of the current level with the
    /// address of the instruction that follows the exception return.
    WriteReturnAddress,
    /// Return from the exception: the core takes the level and stack that
    /// the saved status names and goes on at the return address.
    ExceptionReturn,
    /// Copy the image of the finished translation tables to their arena.
    InstallTables,
    /// Write the translation control register.
    WriteTranslationControl(u64),
    /// Write the table base register of the lower half of the address space.
    WriteTableBase0(u64),
    /// Write the table base register of the upper half of the address space.
    WriteTableBase1(u64),
    /// Invalidate every cached translation of the current regime, on all
    /// cores of the inner shareable domain.
    InvalidateTranslations,
    /// Instruction synchronization barrier.
    InstructionBarrier,
    /// Data synchronization barrier.
    DataBarrier,
    /// Write the system control register.
    WriteSystemControl(u64),
    /// Ask the hardware to translate this virtual address for a read at the
    /// operating level; the result appears in the physical address register.
    Translate(u64),
    /// Write this pattern to the indicator lights.
    WriteLeds(u8),
    /// Wait for an event, again and again, for ever.
    Park,
}

/// What the platform layer is to do next: perform the operations in order,
/// and send the text.
#[derive(Debug, PartialEq, Eq)]
pub struct Step {
    pub ops: Vec<Op>,
    pub text: Vec<u8>,
}

} // verus!
