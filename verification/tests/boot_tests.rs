use aarch64_boot::boot::{
    panic_report, Awaited, Boot, BootPlan, Event, Phase, UPPER_HALF_BASE,
};
use aarch64_boot::cpu::EL;
use aarch64_boot::mmu::{AddressRange, TranslationConfig};
use aarch64_boot::ops::Op;
use aarch64_boot::page_table::BuildError;

const ARENA: u64 = 0x8008_0000;
const CODE: u64 = 0x8000_0040;

/// A register file that behaves as the hardware does, as far as the boot
/// sequence can tell.
struct Machine {
    mpidr_el1: u32,
    scr_el3: u64,
    current_el: u8,
    saved_status: u64,
    return_address_set: bool,
    tcr_el1: u64,
    ttbr0_el1: u64,
    ttbr1_el1: u64,
    sctlr_el1: u64,
    par_el1: u64,
    leds: Option<u8>,
    parked: bool,
    installed: Vec<u64>,
    stale_translations: bool,
    performed: Vec<Op>,
    sent: Vec<u8>,
    eret_works: bool,
}

impl Machine {
    fn new(mpidr_el1: u32) -> Machine {
        Machine {
            mpidr_el1,
            scr_el3: 0x30,
            current_el: 0b1100,
            saved_status: 0,
            return_address_set: false,
            tcr_el1: 0,
            ttbr0_el1: 0,
            ttbr1_el1: 0,
            sctlr_el1: 0x30d0_0800,
            par_el1: 0,
            leds: None,
            parked: false,
            installed: Vec::new(),
            stale_translations: true,
            performed: Vec::new(),
            sent: Vec::new(),
            eret_works: true,
        }
    }

    fn read(&self, awaited: Awaited) -> Event {
        match awaited {
            Awaited::Identity => {
                Event::Identity { mpidr_el1: self.mpidr_el1, scr_el3: self.scr_el3 }
            }
            Awaited::CurrentLevel => Event::CurrentLevel(self.current_el),
            Awaited::TranslationControl => Event::TranslationControl(self.tcr_el1),
            Awaited::SystemControl => Event::SystemControl(self.sctlr_el1),
            Awaited::Translated => Event::Translated(self.par_el1),
            Awaited::Nothing => panic!("a terminal phase waits for nothing"),
        }
    }

    fn perform(&mut self, op: Op, boot: &Boot) {
        assert!(!self.parked, "operation after parking");
        self.performed.push(op);
        match op {
            Op::WriteSecureConfiguration(v) => self.scr_el3 = v,
            Op::WriteSavedStatus(v) => self.saved_status = v,
            Op::WriteReturnAddress => self.return_address_set = true,
            Op::ExceptionReturn => {
                assert!(self.return_address_set);
                if self.eret_works {
                    self.current_el = (self.saved_status as u8) & 0b1100;
                }
            }
            Op::InstallTables => self.installed = boot.space().unwrap().image().clone(),
            Op::WriteTranslationControl(v) => {
                assert_eq!(self.sctlr_el1 & 1, 0);
                self.tcr_el1 = v;
            }
            Op::WriteTableBase0(v) => self.ttbr0_el1 = v,
            Op::WriteTableBase1(v) => self.ttbr1_el1 = v,
            Op::InvalidateTranslations => self.stale_translations = false,
            Op::InstructionBarrier | Op::DataBarrier => {}
            Op::WriteSystemControl(v) => {
                assert!(!self.stale_translations);
                self.sctlr_el1 = v;
            }
            Op::Translate(va) => {
                let i1 = ((va >> 30) & 0x1ff) as usize;
                let i2 = ((va >> 21) & 0x1ff) as usize;
                let i3 = ((va >> 12) & 0x1ff) as usize;
                let mapped = if self.sctlr_el1 & 1 == 1 && !self.installed.is_empty() {
                    boot.space().unwrap().resolve(i1, i2, i3)
                } else {
                    None
                };
                self.par_el1 = match mapped {
                    Some(frame) => frame,
                    None => 1,
                };
            }
            Op::WriteLeds(v) => self.leds = Some(v),
            Op::Park => self.parked = true,
        }
    }

    fn run(&mut self, boot: &mut Boot) {
        let mut steps = 0;
        while !self.parked {
            let event = self.read(boot.awaits());
            let step = boot.step(event);
            for op in step.ops {
                self.perform(op, boot);
            }
            self.sent.extend_from_slice(&step.text);
            steps += 1;
            assert!(steps < 20, "no terminal phase reached");
        }
    }
}

fn position(ops: &[Op], wanted: fn(&Op) -> bool) -> Option<usize> {
    ops.iter().position(wanted)
}

#[test]
fn standard_plan_values() {
    let plan = BootPlan::new(ARENA, CODE);
    assert_eq!(plan.target, EL::EL1t);
    assert_eq!(
        plan.config,
        TranslationConfig { range: AddressRange::Upper, size_offset: 0x19, granule: 0b10 }
    );
    assert_eq!(plan.arena_base, ARENA);
    assert_eq!(plan.code_address, CODE);
    assert_eq!(plan.first_frame, 0x8000_0000);
    assert_eq!(plan.second_frame, 0x8100_0000);
    assert_eq!(plan.attrs, 0x71);
    assert_eq!(plan.probe_address, 0xffff_ff80_0000_0000);
    assert_eq!(UPPER_HALF_BASE, 0xffff_ff80_0000_0000);
}

#[test]
fn end_to_end_boot_succeeds() {
    let mut machine = Machine::new(0x8000_0000);
    let mut boot = Boot::new(BootPlan::new(ARENA, CODE));
    assert_eq!(boot.phase(), Phase::Reset);
    machine.run(&mut boot);
    assert_eq!(boot.phase(), Phase::Succeeded);
    assert_eq!(machine.leds, Some(0xaa));
    assert_eq!(machine.current_el >> 2, 1);
    assert_eq!(machine.scr_el3, 0x531);
    assert_eq!(machine.tcr_el1, 0x8019_0000);
    assert_eq!(machine.ttbr1_el1, ARENA);
    assert_eq!(machine.sctlr_el1, 0x30d0_0801);
    assert_eq!(machine.par_el1, 0x8000_0000);
    assert_eq!(
        machine.performed,
        vec![
            Op::WriteSecureConfiguration(0x531),
            Op::WriteSavedStatus(0b0100),
            Op::WriteReturnAddress,
            Op::ExceptionReturn,
            Op::InstallTables,
            Op::WriteTranslationControl(0x8019_0000),
            Op::WriteTableBase1(ARENA),
            Op::InstructionBarrier,
            Op::InvalidateTranslations,
            Op::InstructionBarrier,
            Op::DataBarrier,
            Op::WriteSystemControl(0x30d0_0801),
            Op::InstructionBarrier,
            Op::Translate(0xffff_ff80_0000_0000),
            Op::WriteLeds(0xaa),
            Op::DataBarrier,
            Op::Park,
        ]
    );
}

#[test]
fn end_to_end_tables() {
    let mut machine = Machine::new(0);
    let mut boot = Boot::new(BootPlan::new(ARENA, CODE));
    machine.run(&mut boot);
    let space = boot.space().unwrap();
    assert_eq!(space.resolve(0, 0, 0), Some(0x8000_0000));
    assert_eq!(space.resolve(0, 0, 1), Some(0x8100_0000));
    assert_eq!(space.resolve(0, 0, 2), None);
    assert_eq!(space.root_base(), ARENA);
    assert_eq!(machine.installed.len(), 3 * 512);
    assert_eq!(machine.installed[0], (ARENA + 0x1000) | 3);
    assert_eq!(machine.installed[512], (ARENA + 0x2000) | 3);
    assert_eq!(machine.installed[1024], 0x8000_0713);
    assert_eq!(machine.installed[1025], 0x8100_0713);
}

#[test]
fn end_to_end_text() {
    let mut machine = Machine::new(0);
    let mut boot = Boot::new(BootPlan::new(ARENA, CODE));
    machine.run(&mut boot);
    let text = String::from_utf8(machine.sent).unwrap();
    let expected = "Currently at EL3\n\r\
        And now at EL1\n\r\
        descriptor_table_lvl012\n\rType: 0x00000003\n\r\
        Next level table address: 0x0000000080081000\n\rRaw: 0x0000000080081003\n\r\
        descriptor_table_lvl012\n\rType: 0x00000003\n\r\
        Next level table address: 0x0000000080082000\n\rRaw: 0x0000000080082003\n\r\
        descriptor_page_4k_lvl3\n\rType: 0x00000003\n\rOutput address: 0x80000000\n\r\
        Lower attributes: 0x00000710\n\rRaw: 0x0000000080000713\n\r\
        descriptor_page_4k_lvl3\n\rType: 0x00000003\n\rOutput address: 0x81000000\n\r\
        Lower attributes: 0x00000710\n\rRaw: 0x0000000081000713\n\r\
        TTBR1_EL1: 0x0000000080080000\n\r\
        0x0000000000000000\n\r0x0000000080190000\n\r";
    assert_eq!(text, expected);
}

#[test]
fn privilege_transition_reaches_level_one() {
    let mut machine = Machine::new(0);
    let mut boot = Boot::new(BootPlan::new(ARENA, CODE));
    let step = boot.step(machine.read(boot.awaits()));
    for op in step.ops {
        machine.perform(op, &boot);
    }
    assert_eq!(boot.phase(), Phase::AtHighest);
    assert_eq!(machine.current_el >> 2, 3);
    let step = boot.step(machine.read(boot.awaits()));
    assert_eq!(
        step.ops,
        vec![Op::WriteSavedStatus(0b0100), Op::WriteReturnAddress, Op::ExceptionReturn]
    );
    assert_eq!(step.text, b"Currently at EL3\n\r".to_vec());
    for op in step.ops {
        machine.perform(op, &boot);
    }
    assert_eq!(boot.phase(), Phase::Lowered);
    assert_eq!(machine.current_el >> 2, EL::EL1t.level());
    let step = boot.step(machine.read(boot.awaits()));
    assert_eq!(step.ops, vec![Op::InstallTables]);
    assert_eq!(boot.phase(), Phase::Configuring);
}

#[test]
fn transition_to_another_target() {
    let mut plan = BootPlan::new(ARENA, CODE);
    plan.target = EL::EL2h;
    let mut machine = Machine::new(0);
    let mut boot = Boot::new(plan);
    machine.run(&mut boot);
    assert_eq!(boot.phase(), Phase::Succeeded);
    assert_eq!(machine.current_el >> 2, 2);
    assert_eq!(machine.saved_status, 0b1001);
}

#[test]
fn secondary_core_is_parked_at_once() {
    for id in [1u32, 2, 3, 0xf, 0x8000_0001] {
        let mut machine = Machine::new(id);
        let mut boot = Boot::new(BootPlan::new(ARENA, CODE));
        let step = boot.step(machine.read(boot.awaits()));
        assert_eq!(step.ops, vec![Op::Park]);
        assert!(step.text.is_empty());
        for op in step.ops {
            machine.perform(op, &boot);
        }
        assert_eq!(boot.phase(), Phase::Parked);
        assert!(machine.parked);
        assert!(boot.space().is_none());
        assert_eq!(machine.scr_el3, 0x30);
        assert_eq!(machine.leds, None);
    }
}

#[test]
fn secondary_core_never_builds_tables() {
    let mut boot = Boot::new(BootPlan::new(ARENA, CODE));
    boot.step(Event::Identity { mpidr_el1: 1, scr_el3: 0 });
    let events = [
        Event::CurrentLevel(0b1100),
        Event::CurrentLevel(0b0100),
        Event::TranslationControl(0),
        Event::SystemControl(0),
        Event::Translated(0),
        Event::Identity { mpidr_el1: 0, scr_el3: 0 },
    ];
    for event in events {
        let step = boot.step(event);
        assert!(step.ops.is_empty());
        assert!(step.text.is_empty());
        assert_eq!(boot.phase(), Phase::Parked);
        assert!(boot.space().is_none());
    }
}

#[test]
fn unmapped_code_is_rejected_before_enable() {
    let mut machine = Machine::new(0);
    let mut boot = Boot::new(BootPlan::new(ARENA, 0x8200_0000));
    machine.run(&mut boot);
    assert_eq!(boot.phase(), Phase::Failed);
    assert_eq!(machine.leds, Some(0x55));
    assert!(boot.space().is_none());
    assert_eq!(machine.sctlr_el1 & 1, 0);
    assert_eq!(position(&machine.performed, |op| matches!(op, Op::WriteSystemControl(_))), None);
    assert_eq!(position(&machine.performed, |op| matches!(op, Op::WriteTableBase1(_))), None);
    assert_eq!(position(&machine.performed, |op| matches!(op, Op::InstallTables)), None);
    assert_eq!(
        machine.performed,
        vec![
            Op::WriteSecureConfiguration(0x531),
            Op::WriteSavedStatus(0b0100),
            Op::WriteReturnAddress,
            Op::ExceptionReturn,
            Op::WriteLeds(0x55),
            Op::DataBarrier,
            Op::Park,
        ]
    );
    assert_eq!(
        String::from_utf8(machine.sent).unwrap(),
        "Currently at EL3\n\rAnd now at EL1\n\r\n\r***PANIC!***\n\r"
    );
}

#[test]
fn code_in_the_second_frame_is_accepted() {
    let mut machine = Machine::new(0);
    let mut boot = Boot::new(BootPlan::new(ARENA, 0x8100_0ffc));
    machine.run(&mut boot);
    assert_eq!(boot.phase(), Phase::Succeeded);
}

#[test]
fn build_reports_each_error() {
    assert!(BootPlan::new(ARENA, CODE).build().is_ok());
    assert_eq!(BootPlan::new(ARENA + 1, CODE).build().err(), Some(BuildError::BadArena));
    assert_eq!(
        BootPlan::new((1u64 << 48) - 0x2000, CODE).build().err(),
        Some(BuildError::BadArena)
    );
    assert!(BootPlan::new((1u64 << 48) - 0x3000, CODE).build().is_ok());
    let mut plan = BootPlan::new(ARENA, CODE);
    plan.second_frame = 0x8100_0800;
    assert_eq!(plan.build().err(), Some(BuildError::BadFrame));
    let mut plan = BootPlan::new(ARENA, CODE);
    plan.first_frame = 1u64 << 48;
    assert_eq!(plan.build().err(), Some(BuildError::BadFrame));
    assert_eq!(BootPlan::new(ARENA, 0x8000_1000).build().err(), Some(BuildError::CodeUnmapped));
    assert_eq!(BootPlan::new(ARENA, 0x7fff_ffff).build().err(), Some(BuildError::CodeUnmapped));
}

#[test]
fn wrong_level_after_reset_fails() {
    let mut machine = Machine::new(0);
    machine.current_el = 0b1000;
    let mut boot = Boot::new(BootPlan::new(ARENA, CODE));
    machine.run(&mut boot);
    assert_eq!(boot.phase(), Phase::Failed);
    assert_eq!(machine.leds, Some(0x55));
    assert_eq!(position(&machine.performed, |op| matches!(op, Op::ExceptionReturn)), None);
    assert_eq!(
        String::from_utf8(machine.sent).unwrap(),
        "Currently at EL2\n\r\n\r***PANIC!***\n\r"
    );
}

#[test]
fn level_unchanged_after_return_fails() {
    let mut machine = Machine::new(0);
    machine.eret_works = false;
    let mut boot = Boot::new(BootPlan::new(ARENA, CODE));
    machine.run(&mut boot);
    assert_eq!(boot.phase(), Phase::Failed);
    assert_eq!(machine.leds, Some(0x55));
    assert_eq!(position(&machine.performed, |op| matches!(op, Op::InstallTables)), None);
    assert_eq!(
        String::from_utf8(machine.sent).unwrap(),
        "Currently at EL3\n\rAnd now at EL3\n\r\n\r***PANIC!***\n\r"
    );
}

#[test]
fn translation_fault_fails() {
    let mut plan = BootPlan::new(ARENA, CODE);
    plan.probe_address = 0xffff_ff80_0000_2000;
    let mut machine = Machine::new(0);
    let mut boot = Boot::new(plan);
    machine.run(&mut boot);
    assert_eq!(boot.phase(), Phase::Failed);
    assert_eq!(machine.leds, Some(0x55));
    assert_eq!(machine.sctlr_el1 & 1, 1);
    assert_eq!(machine.par_el1, 1);
}

#[test]
fn second_page_translates() {
    let mut plan = BootPlan::new(ARENA, CODE);
    plan.probe_address = 0xffff_ff80_0000_1abc;
    let mut machine = Machine::new(0);
    let mut boot = Boot::new(plan);
    machine.run(&mut boot);
    assert_eq!(boot.phase(), Phase::Succeeded);
    assert_eq!(machine.par_el1, 0x8100_0000);
}

#[test]
fn unexpected_event_fails() {
    let mut boot = Boot::new(BootPlan::new(ARENA, CODE));
    let step = boot.step(Event::CurrentLevel(0b1100));
    assert_eq!(boot.phase(), Phase::Failed);
    assert_eq!(step.ops, vec![Op::WriteLeds(0x55), Op::DataBarrier, Op::Park]);
    assert_eq!(step.text, b"\n\r***PANIC!***\n\r".to_vec());

    let mut boot = Boot::new(BootPlan::new(ARENA, CODE));
    boot.step(Event::Identity { mpidr_el1: 0, scr_el3: 0 });
    boot.step(Event::CurrentLevel(0b1100));
    boot.step(Event::CurrentLevel(0b0100));
    assert_eq!(boot.phase(), Phase::Configuring);
    let step = boot.step(Event::SystemControl(0));
    assert_eq!(boot.phase(), Phase::Failed);
    assert_eq!(step.ops, vec![Op::WriteLeds(0x55), Op::DataBarrier, Op::Park]);
}

#[test]
fn terminal_phases_stay() {
    let mut machine = Machine::new(0);
    let mut boot = Boot::new(BootPlan::new(ARENA, CODE));
    machine.run(&mut boot);
    assert_eq!(boot.phase(), Phase::Succeeded);
    let step = boot.step(Event::Translated(1));
    assert!(step.ops.is_empty());
    assert!(step.text.is_empty());
    assert_eq!(boot.phase(), Phase::Succeeded);

    let mut boot = Boot::new(BootPlan::new(ARENA, CODE));
    boot.step(Event::Translated(0));
    assert_eq!(boot.phase(), Phase::Failed);
    let step = boot.step(Event::Identity { mpidr_el1: 0, scr_el3: 0 });
    assert!(step.ops.is_empty());
    assert_eq!(boot.phase(), Phase::Failed);
}

#[test]
fn lower_half_plan_uses_the_other_registers() {
    let mut plan = BootPlan::new(ARENA, CODE);
    plan.config = TranslationConfig::three_level_4k(AddressRange::Lower);
    plan.probe_address = 0x1000;
    let mut machine = Machine::new(0);
    machine.tcr_el1 = 0xffff_ffff;
    let mut boot = Boot::new(plan);
    machine.run(&mut boot);
    assert_eq!(boot.phase(), Phase::Succeeded);
    assert_eq!(machine.ttbr0_el1, ARENA);
    assert_eq!(machine.ttbr1_el1, 0);
    assert_eq!(machine.tcr_el1, 0xffff_3fd9);
    assert!(String::from_utf8(machine.sent).unwrap().contains("TTBR0_EL1: 0x0000000080080000"));
}

#[test]
fn panic_report_without_location() {
    let step = panic_report(None);
    assert_eq!(step.text, b"\n\r***PANIC!***\n\r".to_vec());
    assert_eq!(step.ops, vec![Op::WriteLeds(0x55), Op::DataBarrier, Op::Park]);
}

#[test]
fn panic_report_with_location() {
    let step = panic_report(Some(("src/main.rs", 120)));
    assert_eq!(
        String::from_utf8(step.text).unwrap(),
        "\n\r***PANIC!*** at the src/main.rs\n\rline# 120\n\r"
    );
    assert_eq!(step.ops, vec![Op::WriteLeds(0x55), Op::DataBarrier, Op::Park]);
}

#[test]
fn each_phase_awaits_its_registers() {
    let mut boot = Boot::new(BootPlan::new(ARENA, CODE));
    assert_eq!(boot.awaits(), Awaited::Identity);
    boot.step(Event::Identity { mpidr_el1: 0, scr_el3: 0 });
    assert_eq!((boot.phase(), boot.awaits()), (Phase::AtHighest, Awaited::CurrentLevel));
    boot.step(Event::CurrentLevel(0b1100));
    assert_eq!((boot.phase(), boot.awaits()), (Phase::Lowered, Awaited::CurrentLevel));
    boot.step(Event::CurrentLevel(0b0100));
    assert_eq!((boot.phase(), boot.awaits()), (Phase::Configuring, Awaited::TranslationControl));
    boot.step(Event::TranslationControl(0));
    assert_eq!((boot.phase(), boot.awaits()), (Phase::Enabling, Awaited::SystemControl));
    boot.step(Event::SystemControl(0));
    assert_eq!((boot.phase(), boot.awaits()), (Phase::Probing, Awaited::Translated));
    boot.step(Event::Translated(0x8000_0000));
    assert_eq!((boot.phase(), boot.awaits()), (Phase::Succeeded, Awaited::Nothing));

    let mut parked = Boot::new(BootPlan::new(ARENA, CODE));
    parked.step(Event::Identity { mpidr_el1: 3, scr_el3: 0 });
    assert_eq!((parked.phase(), parked.awaits()), (Phase::Parked, Awaited::Nothing));

    let mut failed = Boot::new(BootPlan::new(ARENA, CODE));
    failed.step(Event::SystemControl(0));
    assert_eq!((failed.phase(), failed.awaits()), (Phase::Failed, Awaited::Nothing));
}

#[test]
fn tables_are_there_from_the_step_that_installs_them() {
    let mut boot = Boot::new(BootPlan::new(ARENA, CODE));
    assert!(boot.space().is_none());
    boot.step(Event::Identity { mpidr_el1: 0, scr_el3: 0 });
    assert!(boot.space().is_none());
    boot.step(Event::CurrentLevel(0b1100));
    assert!(boot.space().is_none());
    let step = boot.step(Event::CurrentLevel(0b0100));
    assert_eq!(step.ops, vec![Op::InstallTables]);
    let space = boot.space().unwrap();
    assert_eq!(space.root_base(), ARENA);
    assert_eq!(space.image()[1025], 0x8100_0713);
    boot.step(Event::TranslationControl(0));
    assert!(boot.space().is_some());
    boot.step(Event::SystemControl(0));
    boot.step(Event::Translated(1));
    assert_eq!(boot.phase(), Phase::Failed);
    assert!(boot.space().is_some());
}
