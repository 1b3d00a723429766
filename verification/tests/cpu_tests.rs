use aarch64_boot::cpu::{CpuError, CPU, EL, HIGHEST_LEVEL, LOWER_LEVEL_CONFIGURATION};
use aarch64_boot::leds::{LEDs, PATTERN_FAILURE, PATTERN_OK};
use aarch64_boot::ops::Op;

#[test]
fn level_encodings() {
    assert_eq!(EL::EL0t.bits(), 0b0000);
    assert_eq!(EL::EL1t.bits(), 0b0100);
    assert_eq!(EL::EL1h.bits(), 0b0101);
    assert_eq!(EL::EL2t.bits(), 0b1000);
    assert_eq!(EL::EL2h.bits(), 0b1001);
    assert_eq!(EL::EL0t.level(), 0);
    assert_eq!(EL::EL1t.level(), 1);
    assert_eq!(EL::EL1h.level(), 1);
    assert_eq!(EL::EL2t.level(), 2);
    assert_eq!(EL::EL2h.level(), 2);
    assert_eq!(HIGHEST_LEVEL, 3);
}

#[test]
fn init_configures_lower_levels_on_boot_core() {
    assert_eq!(LOWER_LEVEL_CONFIGURATION, (1 << 10) | (1 << 8) | 1);
    assert_eq!(CPU::new().init(0x8000_0000, 0), vec![Op::WriteSecureConfiguration(0x501)]);
    assert_eq!(CPU::new().init(0, 0x30), vec![Op::WriteSecureConfiguration(0x531)]);
    assert_eq!(
        CPU::new().init(0x8000_0100, 0xffff_0000_0000_0000),
        vec![Op::WriteSecureConfiguration(0xffff_0000_0000_0501)]
    );
}

#[test]
fn init_parks_other_cores() {
    for id in 1u32..16 {
        assert_eq!(CPU::new().init(id, 0), vec![Op::Park]);
        assert_eq!(CPU::new().init(0x8000_0000 | id, 0x30), vec![Op::Park]);
    }
}

#[test]
fn init_looks_at_the_low_four_bits_only() {
    assert_eq!(CPU::new().init(0x10, 0), vec![Op::WriteSecureConfiguration(0x501)]);
    assert_eq!(CPU::new().init(0xffff_fff0, 0), vec![Op::WriteSecureConfiguration(0x501)]);
}

#[test]
fn current_level_is_above_two_zero_bits() {
    let cpu = CPU::new();
    assert_eq!(cpu.get_current_EL(0b1100), 3);
    assert_eq!(cpu.get_current_EL(0b1000), 2);
    assert_eq!(cpu.get_current_EL(0b0100), 1);
    assert_eq!(cpu.get_current_EL(0b0000), 0);
    assert_eq!(cpu.get_current_EL(0b0111), 1);
    assert_eq!(cpu.get_current_EL(0xff), 63);
}

#[test]
fn goto_lower_level_writes_status_then_address_then_returns() {
    assert_eq!(
        CPU::new().goto_EL(3, EL::EL1t),
        Ok(vec![Op::WriteSavedStatus(0b0100), Op::WriteReturnAddress, Op::ExceptionReturn])
    );
    assert_eq!(
        CPU::new().goto_EL(3, EL::EL2h),
        Ok(vec![Op::WriteSavedStatus(0b1001), Op::WriteReturnAddress, Op::ExceptionReturn])
    );
    assert_eq!(
        CPU::new().goto_EL(1, EL::EL0t),
        Ok(vec![Op::WriteSavedStatus(0), Op::WriteReturnAddress, Op::ExceptionReturn])
    );
}

#[test]
fn goto_same_or_higher_level_is_refused() {
    assert_eq!(CPU::new().goto_EL(1, EL::EL1t), Err(CpuError::NotLower));
    assert_eq!(CPU::new().goto_EL(1, EL::EL1h), Err(CpuError::NotLower));
    assert_eq!(CPU::new().goto_EL(1, EL::EL2t), Err(CpuError::NotLower));
    assert_eq!(CPU::new().goto_EL(2, EL::EL2h), Err(CpuError::NotLower));
    assert_eq!(CPU::new().goto_EL(0, EL::EL0t), Err(CpuError::NotLower));
}

#[test]
fn stop_sequences() {
    assert_eq!(CPU::new().stop(), vec![Op::DataBarrier, Op::Park]);
    assert_eq!(CPU::new().stop_ok(), vec![Op::WriteLeds(0xaa), Op::DataBarrier, Op::Park]);
    assert_eq!(CPU::new().stop_fail(), vec![Op::WriteLeds(0x55), Op::DataBarrier, Op::Park]);
}

#[test]
fn led_patterns() {
    assert_eq!(PATTERN_OK, 0xaa);
    assert_eq!(PATTERN_FAILURE, 0x55);
    assert_eq!(LEDs::new().light_ok(), Op::WriteLeds(0xaa));
    assert_eq!(LEDs::new().light_failure(), Op::WriteLeds(0x55));
    assert_eq!(LEDs::new().light_mask(0x0f), Op::WriteLeds(0x0f));
}
