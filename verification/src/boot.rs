//! The way from reset to running with translation on, as a state machine.
//!
//! The platform layer reads what a phase waits for, hands it over as an
//! event, performs the operations that come back and sends the text that
//! comes back, until a terminal phase is reached.
use crate::bits::bits_of;
use crate::cpu::{
    is_boot_core, stop_ops, transition_ops, CPU, EL, HIGHEST_LEVEL, LOWER_LEVEL_CONFIGURATION,
};
use crate::descriptor::{
    descriptor_page_4k_lvl3, descriptor_table_lvl012, encode_page_spec, encode_table_spec,
    is_page_address, lemma_encode_page_fields, lemma_encode_table_fields,
};
use crate::leds::{PATTERN_FAILURE, PATTERN_OK};
use crate::mmu::{
    control_text, enable_ops, invalidate_ops, is_fault, programmed_control, table_base_ops,
    AddressRange, MmuError, Stage, TranslationConfig, MMU,
};
use crate::ops::{Op, Step};
use crate::page_table::{
    frame_of, lemma_table_address, AddressSpace, ArenaModel, BuildError, PageTableBuilder,
    ADDRESS_LIMIT, ENTRIES, GRANULE,
};
use crate::uart::{decimal_text, hex_text, text_bytes, UART};
use vstd::prelude::*;

verus! {

/// What is to be set up: the level to run at, the translation
/// configuration, where the tables lie, where the code runs, and the two
/// frames to map.
#[derive(Clone, Copy, Debug)]
pub struct BootPlan {
    /// The level and stack to step down to.
    pub target: EL,
    /// The fields of the translation control register.
    pub config: TranslationConfig,
    /// Where the three tables lie: root, level 2 and level 3, 4096 bytes
    /// each.
    pub arena_base: u64,
    /// An address within the running code.
    pub code_address: u64,
    /// The frame mapped by entry 0 of the level-3 table.
    pub first_frame: u64,
    /// The frame mapped by entry 1 of the level-3 table.
    pub second_frame: u64,
    /// The attribute byte of both pages.
    pub attrs: u8,
    /// The virtual address whose translation is requested once translation
    /// is on.
    pub probe_address: u64,
}

/// The first address of the upper half when it has 39 address bits.
pub const UPPER_HALF_BASE: u64 = 0xffff_ff80_0000_0000;

impl BootPlan {
    /// The plan of the reference platform: down to level 1 on the thread
    /// stack, three levels of 4 KiB tables for the upper half, the frames
    /// at 0x8000_0000 and 0x8100_0000 mapped with the attribute byte 0x71,
    /// and the first address of the upper half translated as the final
    /// check.
    pub fn new(arena_base: u64, code_address: u64) -> (plan: BootPlan)
        ensures
            plan == (BootPlan {
                target: EL::EL1t,
                config: TranslationConfig {
                    range: AddressRange::Upper,
                    size_offset: 25,
                    granule: 0b10,
                },
                arena_base,
                code_address,
                first_frame: 0x8000_0000,
                second_frame: 0x8100_0000,
                attrs: 0x71,
                probe_address: UPPER_HALF_BASE,
            }),
    {
        BootPlan {
            target: EL::EL1t,
            config: TranslationConfig::three_level_4k(AddressRange::Upper),
            arena_base,
            code_address,
            first_frame: 0x8000_0000,
            second_frame: 0x8100_0000,
            attrs: 0x71,
            probe_address: UPPER_HALF_BASE,
        }
    }

    /// The arena has room for three tables below 2^48.
    pub open spec fn arena_fits(&self) -> bool {
        self.arena_base % GRANULE == 0 && self.arena_base + 3 * GRANULE <= ADDRESS_LIMIT
    }

    /// Both frames are 4096-aligned and below 2^48.
    pub open spec fn frames_fit(&self) -> bool {
        is_page_address(self.first_frame) && is_page_address(self.second_frame)
    }

    /// One of the two frames holds the running code.
    pub open spec fn code_mapped(&self) -> bool {
        frame_of(self.code_address) == self.first_frame || frame_of(self.code_address)
            == self.second_frame
    }

    /// The tables of this plan can be built.
    pub open spec fn admissible(&self) -> bool {
        self.arena_fits() && self.frames_fit() && self.code_mapped()
    }

    /// The tables of this plan: a root whose entry 0 leads to a level-2
    /// table, whose entry 0 leads to a level-3 table, whose entries 0 and 1
    /// map the two frames. Every other entry is zero.
    pub open spec fn tables(&self) -> ArenaModel {
        (ArenaModel {
            arena_base: self.arena_base,
            capacity: 3,
            levels: Seq::empty(),
            words: Seq::empty(),
        }).allocated(1).allocated(2).allocated(3).linked(0, 0, 1).linked(1, 0, 2).mapped(
            2,
            0,
            self.first_frame,
            self.attrs,
        ).mapped(2, 1, self.second_frame, self.attrs)
    }

    /// Builds and seals the tables of this plan. Refused if the arena does
    /// not fit, else if a frame does not fit, else if neither frame holds
    /// the running code.
    pub fn build(&self) -> (r: Result<AddressSpace, BuildError>)
        ensures
            self.admissible() <==> r is Ok,
            !self.arena_fits() <==> r is Err && r->Err_0 == BuildError::BadArena,
            self.arena_fits() && !self.frames_fit() <==> r is Err && r->Err_0
                == BuildError::BadFrame,
            self.arena_fits() && self.frames_fit() && !self.code_mapped() <==> r is Err
                && r->Err_0 == BuildError::CodeUnmapped,
            r is Ok ==> {
                &&& r->Ok_0@ == self.tables()
                &&& r->Ok_0.root() == 0
                &&& r->Ok_0.code_address() == self.code_address
            },
    {
        let mut builder = match PageTableBuilder::new(self.arena_base, 3) {
            Ok(b) => b,
            Err(e) => { return Err(e); },
        };
        assert(builder@ =~= (ArenaModel {
            arena_base: self.arena_base,
            capacity: 3,
            levels: Seq::empty(),
            words: Seq::empty(),
        }));
        let root: usize = match builder.allocate(1) {
            Ok(h) => h,
            Err(e) => { return Err(e); },
        };
        let middle: usize = match builder.allocate(2) {
            Ok(h) => h,
            Err(e) => { return Err(e); },
        };
        let leaf: usize = match builder.allocate(3) {
            Ok(h) => h,
            Err(e) => { return Err(e); },
        };
        match builder.link_table(root, 0, middle) {
            Ok(()) => {},
            Err(e) => { return Err(e); },
        }
        match builder.link_table(middle, 0, leaf) {
            Ok(()) => {},
            Err(e) => { return Err(e); },
        }
        match builder.map_page(leaf, 0, self.first_frame, self.attrs) {
            Ok(()) => {},
            Err(e) => { return Err(e); },
        }
        match builder.map_page(leaf, 1, self.second_frame, self.attrs) {
            Ok(()) => {},
            Err(e) => { return Err(e); },
        }
        assert(builder@ == self.tables());
        proof {
            lemma_plan_walks(*self, frame_of(self.code_address));
        }
        builder.seal(root, self.code_address)
    }
}

proof fn lemma_zero_entry()
    by (bit_vector)
    ensures
        bits_of(0u64, 1, 0) == 0,
{
}

/// The tables of a plan whose arena and frames fit map the two frames of
/// the plan, at the indices (0, 0, 0) and (0, 0, 1), and nothing else.
pub proof fn lemma_plan_walks(plan: BootPlan, frame: u64)
    requires
        plan.arena_fits(),
        plan.frames_fit(),
    ensures
        plan.tables().wf(),
        plan.tables().walk(0, 0, 0, 0) == Some(plan.first_frame),
        plan.tables().walk(0, 0, 0, 1) == Some(plan.second_frame),
        forall|i1: int, i2: int, i3: int|
            0 <= i1 < ENTRIES && 0 <= i2 < ENTRIES && 0 <= i3 < ENTRIES && !(i1 == 0 && i2 == 0
                && i3 <= 1) ==> (#[trigger] plan.tables().walk(0, i1, i2, i3)) is None,
        plan.tables().maps_frame(0, frame) <==> frame == plan.first_frame || frame
            == plan.second_frame,
{
    let m = plan.tables();
    let to_middle = encode_table_spec((plan.arena_base + GRANULE) as u64);
    let to_leaf = encode_table_spec((plan.arena_base + 2 * GRANULE) as u64);
    let first = encode_page_spec(plan.first_frame, plan.attrs);
    let second = encode_page_spec(plan.second_frame, plan.attrs);
    lemma_zero_entry();
    lemma_encode_table_fields((plan.arena_base + GRANULE) as u64);
    lemma_encode_table_fields((plan.arena_base + 2 * GRANULE) as u64);
    lemma_encode_page_fields(plan.first_frame, plan.attrs);
    lemma_encode_page_fields(plan.second_frame, plan.attrs);
    lemma_table_address((plan.arena_base + GRANULE) as u64);
    lemma_table_address((plan.arena_base + 2 * GRANULE) as u64);
    assert(m.levels =~= seq![1u8, 2u8, 3u8]);
    assert(m.words.len() == 3 * ENTRIES);
    assert forall|t: int, i: int| 0 <= t < 3 && 0 <= i < ENTRIES implies #[trigger] m.entry(t, i)
        == (if t == 0 && i == 0 {
        to_middle
    } else if t == 1 && i == 0 {
        to_leaf
    } else if t == 2 && i == 0 {
        first
    } else if t == 2 && i == 1 {
        second
    } else {
        0u64
    }) by {}
    assert(m.table_at((plan.arena_base + GRANULE) as u64) == Some(1int));
    assert(m.table_at((plan.arena_base + 2 * GRANULE) as u64) == Some(2int));
    assert(m.next_table(to_middle, 2) == Some(1int));
    assert(m.next_table(to_leaf, 3) == Some(2int));
    assert(m.next_table(0u64, 2) is None);
    assert(m.next_table(0u64, 3) is None);
    assert(m.walk(0, 0, 0, 0) == Some(plan.first_frame));
    assert(m.walk(0, 0, 0, 1) == Some(plan.second_frame));
    assert forall|i1: int, i2: int, i3: int|
        0 <= i1 < ENTRIES && 0 <= i2 < ENTRIES && 0 <= i3 < ENTRIES && !(i1 == 0 && i2 == 0 && i3
            <= 1) implies (#[trigger] m.walk(0, i1, i2, i3)) is None by {
        let e1 = m.entry(0, i1);
        if i1 == 0 {
            let e2 = m.entry(1, i2);
            if i2 == 0 {
                let e3 = m.entry(2, i3);
                assert(e3 == 0);
            } else {
                assert(e2 == 0);
            }
        } else {
            assert(e1 == 0);
        }
    }
    if m.maps_frame(0, frame) {
        let (i1, i2, i3) = choose|i1: int, i2: int, i3: int|
            0 <= i1 < ENTRIES && 0 <= i2 < ENTRIES && 0 <= i3 < ENTRIES && #[trigger] m.walk(
                0,
                i1,
                i2,
                i3,
            ) == Some(frame);
        assert(i1 == 0 && i2 == 0 && i3 <= 1);
    }
}

/// Where the machine stands.
#[derive(Clone, Copy, Debug, PartialEq, Eq, Structural)]
pub enum Phase {
    /// Out of reset. Waits for the identity of the core and the secure
    /// configuration.
    Reset,
    /// The boot core, with the lower levels configured. Waits for the
    /// current level, which must be the highest.
    AtHighest,
    /// The exception return is made. Waits for the current level, which
    /// must be the target.
    Lowered,
    /// At the target level, with the tables built. Waits for the
    /// translation control register.
    Configuring,
    /// Control and table base are programmed, cached translations are
    /// invalidated. Waits for the system control register.
    Enabling,
    /// Translation is on. Waits for the result of the translation request.
    Probing,
    /// Terminal: a core that does not boot.
    Parked,
    /// Terminal: translation is on and the request was answered.
    Succeeded,
    /// Terminal: a check did not hold.
    Failed,
}

/// What the platform layer has read.
#[derive(Clone, Copy, Debug, PartialEq, Eq, Structural)]
pub enum Event {
    /// The multiprocessor affinity register and the secure configuration
    /// register.
    Identity { mpidr_el1: u32, scr_el3: u64 },
    /// The low byte of the current level register.
    CurrentLevel(u8),
    /// The translation control register.
    TranslationControl(u64),
    /// The system control register.
    SystemControl(u64),
    /// The physical address register after a translation request.
    Translated(u64),
}

/// What a phase waits for: which registers the platform layer is to read
/// for the next event.
#[derive(Clone, Copy, Debug, PartialEq, Eq, Structural)]
pub enum Awaited {
    /// The multiprocessor affinity register and the secure configuration
    /// register, for `Event::Identity`.
    Identity,
    /// The current level register, for `Event::CurrentLevel`.
    CurrentLevel,
    /// The translation control register, for `Event::TranslationControl`.
    TranslationControl,
    /// The system control register, for `Event::SystemControl`.
    SystemControl,
    /// The physical address register, for `Event::Translated`.
    Translated,
    /// Nothing: the phase is terminal.
    Nothing,
}

/// What `phase` waits for.
pub open spec fn awaited(phase: Phase) -> Awaited {
    match phase {
        Phase::Reset => Awaited::Identity,
        Phase::AtHighest => Awaited::CurrentLevel,
        Phase::Lowered => Awaited::CurrentLevel,
        Phase::Configuring => Awaited::TranslationControl,
        Phase::Enabling => Awaited::SystemControl,
        Phase::Probing => Awaited::Translated,
        Phase::Parked => Awaited::Nothing,
        Phase::Succeeded => Awaited::Nothing,
        Phase::Failed => Awaited::Nothing,
    }
}

/// Whether `event` is what `awaited` asks for.
pub open spec fn answers(event: Event, awaited: Awaited) -> bool {
    match (event, awaited) {
        (Event::Identity { mpidr_el1, scr_el3 }, Awaited::Identity) => true,
        (Event::CurrentLevel(_), Awaited::CurrentLevel) => true,
        (Event::TranslationControl(_), Awaited::TranslationControl) => true,
        (Event::SystemControl(_), Awaited::SystemControl) => true,
        (Event::Translated(_), Awaited::Translated) => true,
        _ => false,
    }
}

/// Whether no event leads out of `phase`.
pub open spec fn is_terminal(phase: Phase) -> bool {
    phase == Phase::Parked || phase == Phase::Succeeded || phase == Phase::Failed
}

/// Whether the translation tables have been built when `phase` is reached.
pub open spec fn has_tables(phase: Phase) -> bool {
    phase == Phase::Configuring || phase == Phase::Enabling || phase == Phase::Probing || phase
        == Phase::Succeeded
}

/// The operations of the terminal failure.
pub open spec fn failure_ops() -> Seq<Op> {
    seq![Op::WriteLeds(PATTERN_FAILURE)] + stop_ops()
}

/// The operations of the terminal success.
pub open spec fn success_ops() -> Seq<Op> {
    seq![Op::WriteLeds(PATTERN_OK)] + stop_ops()
}

/// The report of a failure: a banner, then the file and line of the check
/// that did not hold where they are known.
pub open spec fn panic_text(location: Option<(Seq<char>, u32)>) -> Seq<u8> {
    text_bytes("\n***PANIC!***"@) + match location {
        Some((file, line)) => text_bytes(" at the "@) + text_bytes(file) + text_bytes(
            "\nline# "@,
        ) + decimal_text(line as nat),
        None => Seq::<u8>::empty(),
    } + text_bytes("\n"@)
}

/// The report of the current level: the label, the number, a line end.
pub open spec fn level_text(label: Seq<char>, level: u8) -> Seq<u8> {
    text_bytes(label) + decimal_text(level as nat) + text_bytes("\n"@)
}

/// The name of the table base register of a range, with a colon.
pub open spec fn table_base_label(range: AddressRange) -> Seq<char> {
    match range {
        AddressRange::Lower => "TTBR0_EL1: "@,
        AddressRange::Upper => "TTBR1_EL1: "@,
    }
}

/// The report of the finished tables: the four descriptors that are set,
/// from the root down, then the table base.
pub open spec fn tables_text(plan: BootPlan) -> Seq<u8> {
    descriptor_table_lvl012(plan.tables().entry(0, 0)).dump_text() + descriptor_table_lvl012(
        plan.tables().entry(1, 0),
    ).dump_text() + descriptor_page_4k_lvl3(plan.tables().entry(2, 0)).dump_text()
        + descriptor_page_4k_lvl3(plan.tables().entry(2, 1)).dump_text() + text_bytes(
        table_base_label(plan.config.range),
    ) + hex_text(plan.arena_base, 16) + text_bytes("\n"@)
}

/// The phase that follows `phase` on `event`. A terminal phase stays. An
/// event that the phase does not wait for, or a check that does not hold,
/// leads to failure.
pub open spec fn next_phase(plan: BootPlan, phase: Phase, event: Event) -> Phase {
    match (phase, event) {
        (Phase::Parked, _) => Phase::Parked,
        (Phase::Succeeded, _) => Phase::Succeeded,
        (Phase::Failed, _) => Phase::Failed,
        (Phase::Reset, Event::Identity { mpidr_el1, scr_el3 }) => if is_boot_core(mpidr_el1) {
            Phase::AtHighest
        } else {
            Phase::Parked
        },
        (Phase::AtHighest, Event::CurrentLevel(raw)) => if raw / 4 == HIGHEST_LEVEL {
            Phase::Lowered
        } else {
            Phase::Failed
        },
        (Phase::Lowered, Event::CurrentLevel(raw)) => if raw / 4 == plan.target.spec_level()
            && plan.admissible() {
            Phase::Configuring
        } else {
            Phase::Failed
        },
        (Phase::Configuring, Event::TranslationControl(_)) => Phase::Enabling,
        (Phase::Enabling, Event::SystemControl(_)) => Phase::Probing,
        (Phase::Probing, Event::Translated(par_el1)) => if is_fault(par_el1) {
            Phase::Failed
        } else {
            Phase::Succeeded
        },
        _ => Phase::Failed,
    }
}

/// The operations that the step from `phase` on `event` asks for.
pub open spec fn step_ops(plan: BootPlan, phase: Phase, event: Event) -> Seq<Op> {
    match (phase, event) {
        (Phase::Parked, _) => Seq::<Op>::empty(),
        (Phase::Succeeded, _) => Seq::<Op>::empty(),
        (Phase::Failed, _) => Seq::<Op>::empty(),
        (Phase::Reset, Event::Identity { mpidr_el1, scr_el3 }) => if is_boot_core(mpidr_el1) {
            seq![Op::WriteSecureConfiguration(scr_el3 | LOWER_LEVEL_CONFIGURATION)]
        } else {
            seq![Op::Park]
        },
        (Phase::AtHighest, Event::CurrentLevel(raw)) => if raw / 4 == HIGHEST_LEVEL {
            transition_ops(plan.target)
        } else {
            failure_ops()
        },
        (Phase::Lowered, Event::CurrentLevel(raw)) => if raw / 4 == plan.target.spec_level()
            && plan.admissible() {
            seq![Op::InstallTables]
        } else {
            failure_ops()
        },
        (Phase::Configuring, Event::TranslationControl(tcr_el1)) => seq![
            Op::WriteTranslationControl(programmed_control(tcr_el1, plan.config)),
        ] + table_base_ops(plan.config.range, plan.arena_base) + invalidate_ops(),
        (Phase::Enabling, Event::SystemControl(sctlr_el1)) => enable_ops(sctlr_el1) + seq![
            Op::Translate(plan.probe_address),
        ],
        (Phase::Probing, Event::Translated(par_el1)) => if is_fault(par_el1) {
            failure_ops()
        } else {
            success_ops()
        },
        _ => failure_ops(),
    }
}

/// The text that the step from `phase` on `event` sends.
pub open spec fn step_text(plan: BootPlan, phase: Phase, event: Event) -> Seq<u8> {
    match (phase, event) {
        (Phase::Parked, _) => Seq::<u8>::empty(),
        (Phase::Succeeded, _) => Seq::<u8>::empty(),
        (Phase::Failed, _) => Seq::<u8>::empty(),
        (Phase::Reset, Event::Identity { mpidr_el1, scr_el3 }) => Seq::<u8>::empty(),
        (Phase::AtHighest, Event::CurrentLevel(raw)) => level_text(
            "Currently at EL"@,
            raw / 4,
        ) + if raw / 4 == HIGHEST_LEVEL {
            Seq::<u8>::empty()
        } else {
            panic_text(None)
        },
        (Phase::Lowered, Event::CurrentLevel(raw)) => level_text("And now at EL"@, raw / 4)
            + if raw / 4 == plan.target.spec_level() && plan.admissible() {
            tables_text(plan)
        } else {
            panic_text(None)
        },
        (Phase::Configuring, Event::TranslationControl(tcr_el1)) => control_text(
            tcr_el1,
            plan.config,
        ),
        (Phase::Enabling, Event::SystemControl(_)) => Seq::<u8>::empty(),
        (Phase::Probing, Event::Translated(par_el1)) => if is_fault(par_el1) {
            panic_text(None)
        } else {
            Seq::<u8>::empty()
        },
        _ => panic_text(None),
    }
}

/// The banner of a failure and where it was found, with the operations of
/// the terminal failure.
pub fn panic_report(location: Option<(&str, u32)>) -> (out: Step)
    ensures
        out.ops@ == failure_ops(),
        out.text@ == panic_text(
            match location {
                Some((file, line)) => Some((file@, line)),
                None => None,
            },
        ),
{
    let uart = UART;
    let mut text: Vec<u8> = uart.puts("\n***PANIC!***");
    match location {
        Some((file, line)) => {
            let mut part: Vec<u8> = uart.puts(" at the ");
            text.append(&mut part);
            part = uart.puts(file);
            text.append(&mut part);
            part = uart.puts("\nline# ");
            text.append(&mut part);
            part = uart.putu32(line);
            text.append(&mut part);
            assert(text@ =~= text_bytes("\n***PANIC!***"@) + (text_bytes(" at the "@)
                + text_bytes(file@) + text_bytes("\nline# "@) + decimal_text(line as nat)));
        },
        None => {
            assert(text@ =~= text_bytes("\n***PANIC!***"@) + Seq::<u8>::empty());
        },
    }
    let mut end: Vec<u8> = uart.puts("\n");
    text.append(&mut end);
    Step { ops: CPU::new().stop_fail(), text }
}

/// The label, the number of the level and a line end.
fn level_report(label: &str, level: u8) -> (text: Vec<u8>)
    ensures
        text@ == level_text(label@, level),
{
    let uart = UART;
    let mut text: Vec<u8> = uart.puts(label);
    let mut part: Vec<u8> = uart.putu32(level as u32);
    text.append(&mut part);
    part = uart.puts("\n");
    text.append(&mut part);
    text
}

/// The report of the finished tables.
fn tables_report(plan: &BootPlan, space: &AddressSpace) -> (text: Vec<u8>)
    requires
        space@ == plan.tables(),
        space.root() == 0,
        plan.arena_fits(),
        plan.frames_fit(),
    ensures
        text@ == tables_text(*plan),
{
    proof {
        lemma_plan_walks(*plan, 0);
    }
    let uart = UART;
    let mut text: Vec<u8> = descriptor_table_lvl012(space.entry(0, 0)).dump_descriptor();
    let mut part: Vec<u8> = descriptor_table_lvl012(space.entry(1, 0)).dump_descriptor();
    text.append(&mut part);
    part = descriptor_page_4k_lvl3(space.entry(2, 0)).dump_descriptor();
    text.append(&mut part);
    part = descriptor_page_4k_lvl3(space.entry(2, 1)).dump_descriptor();
    text.append(&mut part);
    part = match plan.config.range {
        AddressRange::Lower => uart.puts("TTBR0_EL1: "),
        AddressRange::Upper => uart.puts("TTBR1_EL1: "),
    };
    text.append(&mut part);
    part = uart.putx64(space.root_base());
    text.append(&mut part);
    part = uart.puts("\n");
    text.append(&mut part);
    text
}

/// The boot state machine.
pub struct Boot {
    plan: BootPlan,
    phase: Phase,
    mmu: MMU,
    space: Option<AddressSpace>,
}

impl Boot {
    /// What is to be set up.
    pub closed spec fn spec_plan(&self) -> BootPlan {
        self.plan
    }

    /// Where the machine stands.
    pub closed spec fn spec_phase(&self) -> Phase {
        self.phase
    }

    /// The finished tables, once they are built.
    pub closed spec fn spec_space(&self) -> Option<AddressSpace> {
        self.space
    }

    /// The tables are there from the phase on in which they are needed, and
    /// the translation controller has come as far as the phase says.
    pub closed spec fn wf(&self) -> bool {
        &&& has_tables(self.phase) ==> {
            &&& self.plan.admissible()
            &&& self.space is Some
            &&& self.space->Some_0@ == self.plan.tables()
            &&& self.space->Some_0.root() == 0
            &&& self.space->Some_0.code_address() == self.plan.code_address
        }
        &&& self.phase == Phase::Configuring ==> self.mmu.spec_stage() == Stage::Off
        &&& self.phase == Phase::Enabling ==> self.mmu.spec_stage() == Stage::Invalidated
    }

    /// The machine out of reset.
    pub fn new(plan: BootPlan) -> (boot: Boot)
        ensures
            boot.wf(),
            boot.spec_plan() == plan,
            boot.spec_phase() == Phase::Reset,
            boot.spec_space() is None,
    {
        Boot { plan, phase: Phase::Reset, mmu: MMU::new(), space: None }
    }

    #[verifier::when_used_as_spec(spec_phase)]
    pub fn phase(&self) -> (phase: Phase)
        ensures
            phase == self.spec_phase(),
    {
        self.phase
    }

    #[verifier::when_used_as_spec(spec_plan)]
    pub fn plan(&self) -> (plan: BootPlan)
        ensures
            plan == self.spec_plan(),
    {
        self.plan
    }

    /// What the machine waits for: which registers the platform layer is
    /// to read for the next event.
    pub fn awaits(&self) -> (w: Awaited)
        ensures
            w == awaited(self.spec_phase()),
    {
        match self.phase {
            Phase::Reset => Awaited::Identity,
            Phase::AtHighest | Phase::Lowered => Awaited::CurrentLevel,
            Phase::Configuring => Awaited::TranslationControl,
            Phase::Enabling => Awaited::SystemControl,
            Phase::Probing => Awaited::Translated,
            Phase::Parked | Phase::Succeeded | Phase::Failed => Awaited::Nothing,
        }
    }

    /// The finished tables, once they are built: their image is what the
    /// platform layer installs.
    pub fn space(&self) -> (space: Option<&AddressSpace>)
        ensures
            space is Some <==> self.spec_space() is Some,
            space is Some ==> *space->Some_0 == self.spec_space()->Some_0,
    {
        self.space.as_ref()
    }

    /// Enters the terminal failure.
    fn fail(&mut self) -> (out: Step)
        ensures
            final(self).spec_phase() == Phase::Failed,
            final(self).spec_plan() == old(self).spec_plan(),
            final(self).spec_space() == old(self).spec_space(),
            final(self).wf(),
            out.ops@ == failure_ops(),
            out.text@ == panic_text(None),
    {
        self.phase = Phase::Failed;
        panic_report(None)
    }

    /// Takes one event and says what the platform layer is to do.
    pub fn step(&mut self, event: Event) -> (out: Step)
        requires
            old(self).wf(),
        ensures
            final(self).wf(),
            final(self).spec_plan() == old(self).spec_plan(),
            final(self).spec_phase() == next_phase(
                old(self).spec_plan(),
                old(self).spec_phase(),
                event,
            ),
            out.ops@ == step_ops(old(self).spec_plan(), old(self).spec_phase(), event),
            out.text@ == step_text(old(self).spec_plan(), old(self).spec_phase(), event),
            has_tables(final(self).spec_phase()) ==> {
                &&& final(self).spec_space() is Some
                &&& final(self).spec_space()->Some_0@ == old(self).spec_plan().tables()
                &&& final(self).spec_space()->Some_0.root() == 0
                &&& final(self).spec_space()->Some_0.code_address() == old(
                    self,
                ).spec_plan().code_address
            },
            !has_tables(old(self).spec_phase()) && !has_tables(final(self).spec_phase())
                ==> final(self).spec_space() == old(self).spec_space(),
    {
        let cpu = CPU::new();
        match (self.phase, event) {
            (Phase::Parked, _) | (Phase::Succeeded, _) | (Phase::Failed, _) => Step {
                ops: Vec::new(),
                text: Vec::new(),
            },
            (Phase::Reset, Event::Identity { mpidr_el1, scr_el3 }) => {
                let ops = cpu.init(mpidr_el1, scr_el3);
                let affinity: u32 = mpidr_el1 % 16;
                if affinity == 0 {
                    self.phase = Phase::AtHighest;
                } else {
                    self.phase = Phase::Parked;
                }
                Step { ops, text: Vec::new() }
            },
            (Phase::AtHighest, Event::CurrentLevel(raw)) => {
                let level: u8 = cpu.get_current_EL(raw);
                let mut text: Vec<u8> = level_report("Currently at EL", level);
                if level != HIGHEST_LEVEL {
                    let mut out = self.fail();
                    text.append(&mut out.text);
                    return Step { ops: out.ops, text };
                }
                match cpu.goto_EL(level, self.plan.target) {
                    Ok(ops) => {
                        self.phase = Phase::Lowered;
                        assert(text@ =~= text@ + Seq::<u8>::empty());
                        Step { ops, text }
                    },
                    Err(_) => {
                        let mut out = self.fail();
                        text.append(&mut out.text);
                        Step { ops: out.ops, text }
                    },
                }
            },
            (Phase::Lowered, Event::CurrentLevel(raw)) => {
                let level: u8 = cpu.get_current_EL(raw);
                let mut text: Vec<u8> = level_report("And now at EL", level);
                if level != self.plan.target.level() {
                    let mut out = self.fail();
                    text.append(&mut out.text);
                    return Step { ops: out.ops, text };
                }
                match self.plan.build() {
                    Ok(space) => {
                        let mut part: Vec<u8> = tables_report(&self.plan, &space);
                        text.append(&mut part);
                        let mut ops: Vec<Op> = Vec::new();
                        ops.push(Op::InstallTables);
                        self.mmu = MMU::new();
                        self.space = Some(space);
                        self.phase = Phase::Configuring;
                        Step { ops, text }
                    },
                    Err(_) => {
                        let mut out = self.fail();
                        text.append(&mut out.text);
                        Step { ops: out.ops, text }
                    },
                }
            },
            (Phase::Configuring, Event::TranslationControl(tcr_el1)) => {
                let programmed = match self.mmu.setup_tcr_el1(tcr_el1, &self.plan.config) {
                    Ok(programmed) => programmed,
                    Err(_) => { return self.fail(); },
                };
                let mut ops: Vec<Op> = programmed.ops;
                let text: Vec<u8> = programmed.text;
                let based = match &self.space {
                    Some(space) => match self.plan.config.range {
                        AddressRange::Lower => self.mmu.setup_ttbr0_el1(space),
                        AddressRange::Upper => self.mmu.setup_ttbr1_el1(space),
                    },
                    None => Err(MmuError::OutOfOrder),
                };
                let mut more: Vec<Op> = match based {
                    Ok(more) => more,
                    Err(_) => { return self.fail(); },
                };
                ops.append(&mut more);
                more = match self.mmu.invalidate_tlb() {
                    Ok(more) => more,
                    Err(_) => { return self.fail(); },
                };
                ops.append(&mut more);
                self.phase = Phase::Enabling;
                Step { ops, text }
            },
            (Phase::Enabling, Event::SystemControl(sctlr_el1)) => {
                let mut ops: Vec<Op> = match self.mmu.enable(sctlr_el1) {
                    Ok(ops) => ops,
                    Err(_) => { return self.fail(); },
                };
                ops.push(Op::Translate(self.plan.probe_address));
                self.phase = Phase::Probing;
                Step { ops, text: Vec::new() }
            },
            (Phase::Probing, Event::Translated(par_el1)) => {
                match self.mmu.translate_el1_s1r(par_el1) {
                    Ok(_) => {
                        self.phase = Phase::Succeeded;
                        Step { ops: cpu.stop_ok(), text: Vec::new() }
                    },
                    Err(_) => self.fail(),
                }
            },
            _ => self.fail(),
        }
    }
}

/// The phase that the machine is in after it has taken `events` one by one
/// from `phase` on.
pub open spec fn run(plan: BootPlan, phase: Phase, events: Seq<Event>) -> Phase
    decreases events.len(),
{
    if events.len() == 0 {
        phase
    } else {
        run(plan, next_phase(plan, phase, events[0]), events.drop_first())
    }
}

/// Whether one of the operations writes the system control register, which
/// is how translation is turned on.
pub open spec fn enables(ops: Seq<Op>) -> bool {
    exists|i: int| 0 <= i < ops.len() && (#[trigger] ops[i]) is WriteSystemControl
}

/// An event that is not what the phase waits for ends the boot in failure,
/// unless the phase is terminal already.
pub proof fn lemma_unawaited_event_fails(plan: BootPlan, phase: Phase, event: Event)
    requires
        !is_terminal(phase),
        !answers(event, awaited(phase)),
    ensures
        next_phase(plan, phase, event) == Phase::Failed,
        step_ops(plan, phase, event) == failure_ops(),
        step_text(plan, phase, event) == panic_text(None),
{
}

/// A terminal phase waits for nothing, and every other phase for something.
pub proof fn lemma_terminal_awaits_nothing(phase: Phase)
    ensures
        is_terminal(phase) <==> awaited(phase) == Awaited::Nothing,
{
}

/// A terminal phase is never left, and nothing is asked for in it.
pub proof fn lemma_terminal_stays(plan: BootPlan, phase: Phase, events: Seq<Event>)
    requires
        is_terminal(phase),
    ensures
        run(plan, phase, events) == phase,
        forall|event: Event| #[trigger] step_ops(plan, phase, event) == Seq::<Op>::empty(),
    decreases events.len(),
{
    if events.len() > 0 {
        lemma_terminal_stays(plan, phase, events.drop_first());
    }
}

/// A core whose identity has nonzero low bits is parked by its first
/// event, with no operation but the parking, and stays parked whatever
/// events follow: it never comes to a phase in which tables are built.
pub proof fn lemma_secondary_core_parks(
    plan: BootPlan,
    mpidr_el1: u32,
    scr_el3: u64,
    rest: Seq<Event>,
)
    requires
        !is_boot_core(mpidr_el1),
    ensures
        step_ops(plan, Phase::Reset, Event::Identity { mpidr_el1, scr_el3 }) == seq![Op::Park],
        run(plan, Phase::Reset, seq![Event::Identity { mpidr_el1, scr_el3 }] + rest)
            == Phase::Parked,
        !has_tables(run(plan, Phase::Reset, seq![Event::Identity { mpidr_el1, scr_el3 }] + rest)),
{
    let events = seq![Event::Identity { mpidr_el1, scr_el3 }] + rest;
    assert(events.drop_first() =~= rest);
    lemma_terminal_stays(plan, Phase::Parked, rest);
}

/// Where neither frame of the plan holds the running code, no sequence of
/// events brings the machine to a phase with tables, so the step that
/// turns translation on is never reached.
pub proof fn lemma_unmapped_code_never_enables(plan: BootPlan, events: Seq<Event>)
    requires
        !plan.code_mapped(),
    ensures
        !has_tables(run(plan, Phase::Reset, events)),
{
    lemma_no_tables_kept(plan, Phase::Reset, events);
}

proof fn lemma_no_tables_kept(plan: BootPlan, phase: Phase, events: Seq<Event>)
    requires
        !plan.code_mapped(),
        !has_tables(phase),
    ensures
        !has_tables(run(plan, phase, events)),
    decreases events.len(),
{
    if events.len() > 0 {
        lemma_no_tables_kept(plan, next_phase(plan, phase, events[0]), events.drop_first());
    }
}

/// Only the step out of the phase `Enabling` writes the system control
/// register.
pub proof fn lemma_enabled_only_after_invalidation(plan: BootPlan, phase: Phase, event: Event)
    requires
        phase != Phase::Enabling,
    ensures
        !enables(step_ops(plan, phase, event)),
{
}

/// The boot core of an admissible plan, with the highest level read first
/// and the target level read after the exception return, with any values
/// of the two control registers and with a translation result that reports
/// no fault, comes to the terminal success.
pub proof fn lemma_boot_succeeds(
    plan: BootPlan,
    mpidr_el1: u32,
    scr_el3: u64,
    tcr_el1: u64,
    sctlr_el1: u64,
    par_el1: u64,
)
    requires
        plan.admissible(),
        is_boot_core(mpidr_el1),
        !is_fault(par_el1),
    ensures
        run(
            plan,
            Phase::Reset,
            seq![
                Event::Identity { mpidr_el1, scr_el3 },
                Event::CurrentLevel(12),
                Event::CurrentLevel((4 * plan.target.spec_level()) as u8),
                Event::TranslationControl(tcr_el1),
                Event::SystemControl(sctlr_el1),
                Event::Translated(par_el1),
            ],
        ) == Phase::Succeeded,
{
    let e0 = Event::Identity { mpidr_el1, scr_el3 };
    let e1 = Event::CurrentLevel(12);
    let e2 = Event::CurrentLevel((4 * plan.target.spec_level()) as u8);
    let e3 = Event::TranslationControl(tcr_el1);
    let e4 = Event::SystemControl(sctlr_el1);
    let e5 = Event::Translated(par_el1);
    let s0 = seq![e0, e1, e2, e3, e4, e5];
    let s1 = seq![e1, e2, e3, e4, e5];
    let s2 = seq![e2, e3, e4, e5];
    let s3 = seq![e3, e4, e5];
    let s4 = seq![e4, e5];
    let s5 = seq![e5];
    assert(s0.drop_first() =~= s1);
    assert(s1.drop_first() =~= s2);
    assert(s2.drop_first() =~= s3);
    assert(s3.drop_first() =~= s4);
    assert(s4.drop_first() =~= s5);
    assert(s5.drop_first() =~= Seq::<Event>::empty());
    assert(run(plan, Phase::Succeeded, Seq::<Event>::empty()) == Phase::Succeeded);
    assert(run(plan, Phase::Probing, s5) == Phase::Succeeded);
    assert(run(plan, Phase::Enabling, s4) == Phase::Succeeded);
    assert(run(plan, Phase::Configuring, s3) == Phase::Succeeded);
    assert(run(plan, Phase::Lowered, s2) == Phase::Succeeded);
    assert(run(plan, Phase::AtHighest, s1) == Phase::Succeeded);
}

} // verus!
