//! Turning translation on: the control register, the table base, the
//! invalidation of cached translations and the enable bit, in that order
//! and in no other.
use crate::bits::{bits_of, get_bits, set_bits, with_bits};
use crate::ops::{Op, Step};
use crate::page_table::{frame_of, AddressSpace};
use crate::uart::{hex_text, text_bytes, UART};
use vstd::prelude::*;

verus! {

/// The size offset for which a walk through 4 KiB tables starts at level 1:
/// the range then has 64 - 25 = 39 address bits, nine for each of three
/// tables and twelve within the page.
pub const THREE_LEVEL_SIZE_OFFSET: u8 = 25;

/// The translation enable bit of the system control register.
pub const TRANSLATION_ENABLE: u64 = 1;

/// The half of the virtual address space that a table base register serves.
#[derive(Clone, Copy, Debug, PartialEq, Eq, Structural)]
pub enum AddressRange {
    /// Addresses from zero up; table base register 0.
    Lower,
    /// Addresses up to the top; table base register 1.
    Upper,
}

/// The fields of the translation control register that are programmed for
/// one half of the address space.
#[derive(Clone, Copy, Debug, PartialEq, Eq, Structural)]
pub struct TranslationConfig {
    /// The half that is configured.
    pub range: AddressRange,
    /// The size offset of the range, six bits: the range has
    /// `64 - size_offset` address bits.
    pub size_offset: u8,
    /// The granule field of the range, two bits, as the register encodes it.
    pub granule: u8,
}

impl TranslationConfig {
    /// Both values fit their fields.
    pub open spec fn wf(&self) -> bool {
        self.size_offset < 64 && self.granule < 4
    }

    /// A configuration, if both values fit their fields.
    pub fn new(range: AddressRange, size_offset: u8, granule: u8) -> (r: Option<
        TranslationConfig,
    >)
        ensures
            size_offset < 64 && granule < 4 <==> r is Some,
            r is Some ==> r->Some_0 == (TranslationConfig { range, size_offset, granule }),
    {
        if size_offset < 64 && granule < 4 {
            Some(TranslationConfig { range, size_offset, granule })
        } else {
            None
        }
    }

    /// Three levels of 4 KiB tables in `range`. The register encodes the
    /// 4 KiB granule as `0b00` for the lower and `0b10` for the upper half.
    pub fn three_level_4k(range: AddressRange) -> (config: TranslationConfig)
        ensures
            config.wf(),
            config.range == range,
            config.size_offset == THREE_LEVEL_SIZE_OFFSET,
            config.granule == match range {
                AddressRange::Lower => 0b00u8,
                AddressRange::Upper => 0b10u8,
            },
    {
        let granule: u8 = match range {
            AddressRange::Lower => 0b00,
            AddressRange::Upper => 0b10,
        };
        TranslationConfig { range, size_offset: THREE_LEVEL_SIZE_OFFSET, granule }
    }
}

/// The translation control register after `config` is programmed into
/// `tcr_el1`: the size offset in bits 5..=0 and the granule in bits
/// 15..=14 for the lower half, in bits 21..=16 and 31..=30 for the upper
/// half.
pub open spec fn programmed_control(tcr_el1: u64, config: TranslationConfig) -> u64 {
    match config.range {
        AddressRange::Lower => with_bits(
            with_bits(tcr_el1, 5, 0, config.size_offset as u64),
            15,
            14,
            config.granule as u64,
        ),
        AddressRange::Upper => with_bits(
            with_bits(tcr_el1, 21, 16, config.size_offset as u64),
            31,
            30,
            config.granule as u64,
        ),
    }
}

/// The report of the translation control register: as read, then as
/// programmed, a line each.
pub open spec fn control_text(tcr_el1: u64, config: TranslationConfig) -> Seq<u8> {
    hex_text(tcr_el1, 16) + text_bytes("\n"@) + hex_text(programmed_control(tcr_el1, config), 16)
        + text_bytes("\n"@)
}

/// How far the sequence that turns translation on has come.
#[derive(Clone, Copy, Debug, PartialEq, Eq, Structural)]
pub enum Stage {
    /// Nothing is programmed.
    Off,
    /// The control register is programmed.
    ControlProgrammed,
    /// The table base is programmed.
    BaseProgrammed,
    /// Cached translations are invalidated.
    Invalidated,
    /// Translation is on.
    On,
}

#[derive(Clone, Copy, Debug, PartialEq, Eq, Structural)]
pub enum MmuError {
    /// The step does not follow the step that was taken last.
    OutOfOrder,
    /// The hardware found no valid mapping for the address.
    TranslationFault,
}

/// The operations that program a table base register with `base`.
pub open spec fn table_base_ops(range: AddressRange, base: u64) -> Seq<Op> {
    match range {
        AddressRange::Lower => seq![Op::WriteTableBase0(base), Op::InstructionBarrier],
        AddressRange::Upper => seq![Op::WriteTableBase1(base), Op::InstructionBarrier],
    }
}

/// The operations that invalidate the cached translations.
pub open spec fn invalidate_ops() -> Seq<Op> {
    seq![Op::InvalidateTranslations, Op::InstructionBarrier, Op::DataBarrier]
}

/// The operations that turn translation on, given the system control
/// register as read.
pub open spec fn enable_ops(sctlr_el1: u64) -> Seq<Op> {
    seq![Op::WriteSystemControl(sctlr_el1 | TRANSLATION_ENABLE), Op::InstructionBarrier]
}

/// Whether the physical address register reports a fault: its bit 0.
pub open spec fn is_fault(par_el1: u64) -> bool {
    par_el1 % 2 == 1
}

pub struct MMU {
    stage: Stage,
}

impl MMU {
    /// How far the sequence has come.
    pub closed spec fn spec_stage(&self) -> Stage {
        self.stage
    }

    pub fn new() -> (mmu: MMU)
        ensures
            mmu.spec_stage() == Stage::Off,
    {
        MMU { stage: Stage::Off }
    }

    #[verifier::when_used_as_spec(spec_stage)]
    pub fn stage(&self) -> (stage: Stage)
        ensures
            stage == self.spec_stage(),
    {
        self.stage
    }

    /// First step: programs the fields of `config` into the translation
    /// control register as read, and leaves its other bits as they were.
    /// The text reports the register as read and as programmed.
    pub fn setup_tcr_el1(&mut self, tcr_el1: u64, config: &TranslationConfig) -> (r: Result<
        Step,
        MmuError,
    >)
        ensures
            old(self).spec_stage() == Stage::Off <==> r is Ok,
            r is Err ==> r->Err_0 == MmuError::OutOfOrder && final(self).spec_stage() == old(
                self,
            ).spec_stage(),
            r is Ok ==> {
                &&& final(self).spec_stage() == Stage::ControlProgrammed
                &&& r->Ok_0.ops@ == seq![
                    Op::WriteTranslationControl(programmed_control(tcr_el1, *config)),
                ]
                &&& r->Ok_0.text@ == control_text(tcr_el1, *config)
            },
    {
        match self.stage {
            Stage::Off => {},
            _ => { return Err(MmuError::OutOfOrder); },
        }
        let uart = UART;
        let mut text: Vec<u8> = uart.putx64(tcr_el1);
        let mut part: Vec<u8> = uart.puts("\n");
        text.append(&mut part);
        let value: u64 = match config.range {
            AddressRange::Lower => {
                let sized: u64 = set_bits(tcr_el1, 5, 0, config.size_offset as u64);
                set_bits(sized, 15, 14, config.granule as u64)
            },
            AddressRange::Upper => {
                let sized: u64 = set_bits(tcr_el1, 21, 16, config.size_offset as u64);
                set_bits(sized, 31, 30, config.granule as u64)
            },
        };
        part = uart.putx64(value);
        text.append(&mut part);
        part = uart.puts("\n");
        text.append(&mut part);
        let mut ops: Vec<Op> = Vec::new();
        ops.push(Op::WriteTranslationControl(value));
        self.stage = Stage::ControlProgrammed;
        Ok(Step { ops, text })
    }

    fn setup_table_base(&mut self, range: AddressRange, space: &AddressSpace) -> (r: Result<
        Vec<Op>,
        MmuError,
    >)
        ensures
            old(self).spec_stage() == Stage::ControlProgrammed <==> r is Ok,
            r is Err ==> r->Err_0 == MmuError::OutOfOrder && final(self).spec_stage() == old(
                self,
            ).spec_stage(),
            r is Ok ==> final(self).spec_stage() == Stage::BaseProgrammed && r->Ok_0@
                == table_base_ops(range, space@.base_of(space.root()) as u64),
            space@.maps_frame(space.root(), frame_of(space.code_address())),
    {
        let base: u64 = space.root_base();
        match self.stage {
            Stage::ControlProgrammed => {},
            _ => { return Err(MmuError::OutOfOrder); },
        }
        let mut ops: Vec<Op> = Vec::new();
        match range {
            AddressRange::Lower => ops.push(Op::WriteTableBase0(base)),
            AddressRange::Upper => ops.push(Op::WriteTableBase1(base)),
        }
        ops.push(Op::InstructionBarrier);
        assert(ops@ =~= table_base_ops(range, base));
        self.stage = Stage::BaseProgrammed;
        Ok(ops)
    }

    /// Second step, for the lower half: hands the root of a finished
    /// hierarchy to table base register 0, then synchronizes the
    /// instruction stream.
    pub fn setup_ttbr0_el1(&mut self, space: &AddressSpace) -> (r: Result<Vec<Op>, MmuError>)
        ensures
            old(self).spec_stage() == Stage::ControlProgrammed <==> r is Ok,
            r is Err ==> r->Err_0 == MmuError::OutOfOrder && final(self).spec_stage() == old(
                self,
            ).spec_stage(),
            r is Ok ==> final(self).spec_stage() == Stage::BaseProgrammed && r->Ok_0@
                == table_base_ops(AddressRange::Lower, space@.base_of(space.root()) as u64),
            space@.maps_frame(space.root(), frame_of(space.code_address())),
    {
        self.setup_table_base(AddressRange::Lower, space)
    }

    /// Second step, for the upper half: hands the root of a finished
    /// hierarchy to table base register 1, then synchronizes the
    /// instruction stream.
    pub fn setup_ttbr1_el1(&mut self, space: &AddressSpace) -> (r: Result<Vec<Op>, MmuError>)
        ensures
            old(self).spec_stage() == Stage::ControlProgrammed <==> r is Ok,
            r is Err ==> r->Err_0 == MmuError::OutOfOrder && final(self).spec_stage() == old(
                self,
            ).spec_stage(),
            r is Ok ==> final(self).spec_stage() == Stage::BaseProgrammed && r->Ok_0@
                == table_base_ops(AddressRange::Upper, space@.base_of(space.root()) as u64),
            space@.maps_frame(space.root(), frame_of(space.code_address())),
    {
        self.setup_table_base(AddressRange::Upper, space)
    }

    /// Third step: invalidates every cached translation, then synchronizes
    /// instructions and data.
    pub fn invalidate_tlb(&mut self) -> (r: Result<Vec<Op>, MmuError>)
        ensures
            old(self).spec_stage() == Stage::BaseProgrammed <==> r is Ok,
            r is Err ==> r->Err_0 == MmuError::OutOfOrder && final(self).spec_stage() == old(
                self,
            ).spec_stage(),
            r is Ok ==> final(self).spec_stage() == Stage::Invalidated && r->Ok_0@
                == invalidate_ops(),
    {
        match self.stage {
            Stage::BaseProgrammed => {},
            _ => { return Err(MmuError::OutOfOrder); },
        }
        let mut ops: Vec<Op> = Vec::new();
        ops.push(Op::InvalidateTranslations);
        ops.push(Op::InstructionBarrier);
        ops.push(Op::DataBarrier);
        assert(ops@ =~= invalidate_ops());
        self.stage = Stage::Invalidated;
        Ok(ops)
    }

    /// Last step: sets the enable bit in the system control register as
    /// read, leaves its other bits as they were, then synchronizes the
    /// instruction stream.
    pub fn enable(&mut self, sctlr_el1: u64) -> (r: Result<Vec<Op>, MmuError>)
        ensures
            old(self).spec_stage() == Stage::Invalidated <==> r is Ok,
            r is Err ==> r->Err_0 == MmuError::OutOfOrder && final(self).spec_stage() == old(
                self,
            ).spec_stage(),
            r is Ok ==> final(self).spec_stage() == Stage::On && r->Ok_0@ == enable_ops(sctlr_el1),
    {
        match self.stage {
            Stage::Invalidated => {},
            _ => { return Err(MmuError::OutOfOrder); },
        }
        let mut ops: Vec<Op> = Vec::new();
        ops.push(Op::WriteSystemControl(sctlr_el1 | TRANSLATION_ENABLE));
        ops.push(Op::InstructionBarrier);
        assert(ops@ =~= enable_ops(sctlr_el1));
        self.stage = Stage::On;
        Ok(ops)
    }

    /// Reads the result of a translation request from the physical address
    /// register. A fault is an error. Otherwise the result is the number of
    /// the frame: bits 43..=12 of the register, the physical address
    /// without its low twelve bits, as far as 32 bits hold it.
    pub fn translate_el1_s1r(&self, par_el1: u64) -> (r: Result<u32, MmuError>)
        ensures
            is_fault(par_el1) <==> r == Err::<u32, MmuError>(MmuError::TranslationFault),
            !is_fault(par_el1) <==> r is Ok,
            r is Ok ==> r->Ok_0 == bits_of(par_el1, 43, 12),
    {
        let fault: u64 = get_bits(par_el1, 0, 0);
        let frame: u64 = get_bits(par_el1, 43, 12);
        proof {
            lemma_result_fields(par_el1);
        }
        if fault != 0 {
            Err(MmuError::TranslationFault)
        } else {
            Ok(frame as u32)
        }
    }
}

proof fn lemma_result_fields(par_el1: u64)
    by (bit_vector)
    ensures
        bits_of(par_el1, 0, 0) == par_el1 % 2,
        bits_of(par_el1, 43, 12) <= 0xffff_ffff,
        bits_of(par_el1, 43, 12) == ((par_el1 & 0x0fff_ffff_ffff_ffff) >> 12) & 0xffff_ffff,
{
}

proof fn lemma_control_fields(tcr_el1: u64, size_offset: u8, granule: u8)
    by (bit_vector)
    requires
        size_offset < 64,
        granule < 4,
    ensures
        bits_of(with_bits(with_bits(tcr_el1, 5, 0, size_offset as u64), 15, 14, granule as u64), 5, 0)
            == size_offset,
        bits_of(
            with_bits(with_bits(tcr_el1, 5, 0, size_offset as u64), 15, 14, granule as u64),
            15,
            14,
        ) == granule,
        with_bits(with_bits(tcr_el1, 5, 0, size_offset as u64), 15, 14, granule as u64)
            & !0xc03fu64 == tcr_el1 & !0xc03fu64,
        bits_of(
            with_bits(with_bits(tcr_el1, 21, 16, size_offset as u64), 31, 30, granule as u64),
            21,
            16,
        ) == size_offset,
        bits_of(
            with_bits(with_bits(tcr_el1, 21, 16, size_offset as u64), 31, 30, granule as u64),
            31,
            30,
        ) == granule,
        with_bits(with_bits(tcr_el1, 21, 16, size_offset as u64), 31, 30, granule as u64)
            & !0xc03f_0000u64 == tcr_el1 & !0xc03f_0000u64,
{
}

/// The bits of the control register that belong to the size offset and the
/// granule of a range.
pub open spec fn control_bits(range: AddressRange) -> u64 {
    match range {
        AddressRange::Lower => 0xc03f,
        AddressRange::Upper => 0xc03f_0000,
    }
}

/// The size offset that a control register holds for a range.
pub open spec fn size_offset_of(tcr_el1: u64, range: AddressRange) -> u64 {
    match range {
        AddressRange::Lower => bits_of(tcr_el1, 5, 0),
        AddressRange::Upper => bits_of(tcr_el1, 21, 16),
    }
}

/// The granule field that a control register holds for a range.
pub open spec fn granule_of(tcr_el1: u64, range: AddressRange) -> u64 {
    match range {
        AddressRange::Lower => bits_of(tcr_el1, 15, 14),
        AddressRange::Upper => bits_of(tcr_el1, 31, 30),
    }
}

/// After programming, the control register holds the size offset and the
/// granule of the configuration in the fields of its range, and every bit
/// outside those two fields is as it was.
pub proof fn lemma_programmed_control(tcr_el1: u64, config: TranslationConfig)
    requires
        config.wf(),
    ensures
        size_offset_of(programmed_control(tcr_el1, config), config.range) == config.size_offset,
        granule_of(programmed_control(tcr_el1, config), config.range) == config.granule,
        programmed_control(tcr_el1, config) & !control_bits(config.range) == tcr_el1
            & !control_bits(config.range),
{
    lemma_control_fields(tcr_el1, config.size_offset, config.granule);
}

} // verus!
