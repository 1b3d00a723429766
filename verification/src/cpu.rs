//! Exception levels: which core boots, how the levels below the highest are
//! configured, and the one-way step down to the operating level.
use crate::leds::{LEDs, PATTERN_FAILURE, PATTERN_OK};
use crate::ops::Op;
use vstd::prelude::*;

verus! {

/// The bits of the secure configuration register that `init` sets: the
/// levels below run in the 64-bit state (bit 10), in the non-secure state
/// (bit 0), and may call the level above them (bit 8).
pub const LOWER_LEVEL_CONFIGURATION: u64 = 0x501;

/// The exception level at which the core leaves reset.
pub const HIGHEST_LEVEL: u8 = 3;

/// An exception level together with the stack pointer it runs on.
#[derive(Clone, Copy, Debug, PartialEq, Eq, Structural)]
pub enum EL {
    EL0t,
    EL1t,
    EL1h,
    EL2t,
    EL2h,
}

impl EL {
    /// The mode field of the saved status that names this level and stack.
    pub open spec fn spec_bits(self) -> u8 {
        match self {
            EL::EL0t => 0b0000,
            EL::EL1t => 0b0100,
            EL::EL1h => 0b0101,
            EL::EL2t => 0b1000,
            EL::EL2h => 0b1001,
        }
    }

    #[verifier::when_used_as_spec(spec_bits)]
    pub fn bits(self) -> (mode: u8)
        ensures
            mode == self.spec_bits(),
    {
        match self {
            EL::EL0t => 0b0000,
            EL::EL1t => 0b0100,
            EL::EL1h => 0b0101,
            EL::EL2t => 0b1000,
            EL::EL2h => 0b1001,
        }
    }

    /// The number of the level, 0 to 2.
    pub open spec fn spec_level(self) -> u8 {
        match self {
            EL::EL0t => 0,
            EL::EL1t => 1,
            EL::EL1h => 1,
            EL::EL2t => 2,
            EL::EL2h => 2,
        }
    }

    #[verifier::when_used_as_spec(spec_level)]
    pub fn level(self) -> (number: u8)
        ensures
            number == self.spec_level(),
            number == self.spec_bits() / 4,
    {
        match self {
            EL::EL0t => 0,
            EL::EL1t => 1,
            EL::EL1h => 1,
            EL::EL2t => 2,
            EL::EL2h => 2,
        }
    }
}

/// Why a step down was refused.
#[derive(Clone, Copy, Debug, PartialEq, Eq, Structural)]
pub enum CpuError {
    /// The target level is not below the current one.
    NotLower,
}

/// Whether the core with this identity is the one that boots: the low four
/// bits of its multiprocessor affinity are zero.
pub open spec fn is_boot_core(mpidr_el1: u32) -> bool {
    mpidr_el1 % 16 == 0
}

/// The operations that halt the core: a data barrier, then wait for ever.
pub open spec fn stop_ops() -> Seq<Op> {
    seq![Op::DataBarrier, Op::Park]
}

/// The operations that step down to `el`: name the level in the saved
/// status, set the return address, return from the exception.
pub open spec fn transition_ops(el: EL) -> Seq<Op> {
    seq![Op::WriteSavedStatus(el.spec_bits() as u64), Op::WriteReturnAddress, Op::ExceptionReturn]
}

pub struct CPU;

impl CPU {
    pub fn new() -> (cpu: CPU) {
        CPU
    }

    /// First step after reset, from the core's identity and the secure
    /// configuration as read. Any core but the boot core parks and does
    /// nothing else. The boot core sets up the levels below it and leaves
    /// the other bits of the configuration as they were.
    pub fn init(&self, mpidr_el1: u32, scr_el3: u64) -> (ops: Vec<Op>)
        ensures
            !is_boot_core(mpidr_el1) ==> ops@ == seq![Op::Park],
            is_boot_core(mpidr_el1) ==> ops@ == seq![
                Op::WriteSecureConfiguration(scr_el3 | LOWER_LEVEL_CONFIGURATION),
            ],
    {
        let mut ops: Vec<Op> = Vec::new();
        let affinity: u32 = mpidr_el1 & 0xf;
        assert(affinity == mpidr_el1 % 16) by (bit_vector)
            requires
                affinity == mpidr_el1 & 0xf,
        ;
        if affinity != 0 {
            ops.push(Op::Park);
        } else {
            ops.push(Op::WriteSecureConfiguration(scr_el3 | LOWER_LEVEL_CONFIGURATION));
        }
        ops
    }

    /// The number of the current exception level, from the low byte of the
    /// current level register, which holds it above two zero bits.
    pub fn get_current_EL(&self, current_el: u8) -> (level: u8)
        ensures
            level == current_el / 4,
    {
        let level: u8 = current_el >> 2;
        assert(level == current_el / 4) by (bit_vector)
            requires
                level == current_el >> 2,
        ;
        level
    }

    /// Steps down from level `current` to `el`. A target that is not below
    /// the current level is refused, and then nothing is to be written.
    pub fn goto_EL(&self, current: u8, el: EL) -> (r: Result<Vec<Op>, CpuError>)
        ensures
            el.spec_level() >= current <==> r == Err::<Vec<Op>, CpuError>(CpuError::NotLower),
            el.spec_level() < current <==> r is Ok,
            r is Ok ==> r->Ok_0@ == transition_ops(el),
    {
        if el.level() >= current {
            return Err(CpuError::NotLower);
        }
        let mut ops: Vec<Op> = Vec::new();
        ops.push(Op::WriteSavedStatus(el.bits() as u64));
        ops.push(Op::WriteReturnAddress);
        ops.push(Op::ExceptionReturn);
        assert(ops@ =~= transition_ops(el));
        Ok(ops)
    }

    /// Halts the core.
    pub fn stop(&self) -> (ops: Vec<Op>)
        ensures
            ops@ == stop_ops(),
    {
        let mut ops: Vec<Op> = Vec::new();
        ops.push(Op::DataBarrier);
        ops.push(Op::Park);
        assert(ops@ =~= stop_ops());
        ops
    }

    /// Shows the success pattern, then halts the core.
    pub fn stop_ok(&self) -> (ops: Vec<Op>)
        ensures
            ops@ == seq![Op::WriteLeds(PATTERN_OK)] + stop_ops(),
    {
        let mut ops: Vec<Op> = Vec::new();
        ops.push(LEDs::new().light_ok());
        let mut halt = self.stop();
        ops.append(&mut halt);
        ops
    }

    /// Shows the failure pattern, then halts the core.
    pub fn stop_fail(&self) -> (ops: Vec<Op>)
        ensures
            ops@ == seq![Op::WriteLeds(PATTERN_FAILURE)] + stop_ops(),
    {
        let mut ops: Vec<Op> = Vec::new();
        ops.push(LEDs::new().light_failure());
        let mut halt = self.stop();
        ops.append(&mut halt);
        ops
    }
}

} // verus!
