use nesium_core::cpu::{Cpu, CpuBus};
use nesium_core::status::Status;
use nesium_core::micro_op::load::{lax_absolute, lax_absolute_y, lax_immediate, lax_indirect_x, lax_indirect_y, lax_zero_page, lax_zero_page_y};

/// A CPU at `pc` with the given registers and all flags clear, and a bus
/// whose memory `mem_setup` has filled in.
fn setup(pc: u16, a: u8, x: u8, y: u8, mem_setup: impl FnOnce(&mut CpuBus)) -> (Cpu, CpuBus) {
    let mut mock = CpuBus::new();
    mem_setup(&mut mock);

    let mut cpu = Cpu::new();
    cpu.pc = pc;
    cpu.a = a;
    cpu.x = x;
    cpu.y = y;
    cpu.p = Status::empty();

    (cpu, mock)
}

#[test]
fn las_test_lax_immediate() {
    let instr = lax_immediate();
    let (mut cpu, mut bus) = setup(0xC000, 0x00, 0x00, 0x00, |mock| {
        mock.mem[0xC001] = 0b1010_1010; // immediate operand
    });

    cpu.test_clock(&mut bus, &instr);

    assert_eq!(cpu.a, 0b1010_1010);
    assert_eq!(cpu.x, 0b1010_1010);
    assert_eq!(cpu.pc, 0xC002);
    assert!(cpu.p.contains(Status::NEGATIVE));
    assert!(!cpu.p.contains(Status::ZERO));
}

#[test]
fn las_test_lax_zero_page() {
    let instr = lax_zero_page();
    let (mut cpu, mut bus) = setup(0xC000, 0x00, 0x00, 0x00, |mock| {
        mock.mem[0xC001] = 0x34; // ZP address
        mock.mem[0x0034] = 0b1100_1100; // memory value
    });

    cpu.test_clock(&mut bus, &instr);

    assert_eq!(cpu.a, 0b1100_1100);
    assert_eq!(cpu.x, 0b1100_1100);
    assert_eq!(cpu.pc, 0xC002);
    assert!(cpu.p.contains(Status::NEGATIVE));
    assert!(!cpu.p.contains(Status::ZERO));
}

#[test]
fn las_test_lax_zero_page_y() {
    let instr = lax_zero_page_y();
    let (mut cpu, mut bus) = setup(0xC000, 0x00, 0x00, 0x05, |mock| {
        mock.mem[0xC001] = 0x30; // base ZP address
        mock.mem[0x0035] = 0b0101_0101; // $30 + Y=5 = $35
    });

    cpu.test_clock(&mut bus, &instr);

    assert_eq!(cpu.a, 0b0101_0101);
    assert_eq!(cpu.x, 0b0101_0101);
    assert_eq!(cpu.pc, 0xC002);
    assert!(!cpu.p.contains(Status::NEGATIVE));
    assert!(!cpu.p.contains(Status::ZERO));
}

#[test]
fn las_test_lax_absolute() {
    let instr = lax_absolute();
    let (mut cpu, mut bus) = setup(0xC000, 0x00, 0x00, 0x00, |mock| {
        mock.mem[0xC001] = 0x34;
        mock.mem[0xC002] = 0x12; // address $1234
        mock.mem[0x1234] = 0b1111_0000;
    });

    cpu.test_clock(&mut bus, &instr);

    assert_eq!(cpu.a, 0b1111_0000);
    assert_eq!(cpu.x, 0b1111_0000);
    assert_eq!(cpu.pc, 0xC003);
    assert!(cpu.p.contains(Status::NEGATIVE));
    assert!(!cpu.p.contains(Status::ZERO));
}

#[test]
fn las_test_lax_absolute_y_no_page_cross() {
    let instr = lax_absolute_y();
    let (mut cpu, mut bus) = setup(0xC000, 0x00, 0x00, 0x10, |mock| {
        mock.mem[0xC001] = 0x34;
        mock.mem[0xC002] = 0x12; // base $1234
        mock.mem[0x1244] = 0b0011_1100; // $1234 + Y=$10 = $1244
    });

    cpu.test_clock(&mut bus, &instr);

    assert_eq!(cpu.a, 0b0011_1100);
    assert_eq!(cpu.x, 0b0011_1100);
    assert_eq!(cpu.pc, 0xC003);
    assert!(!cpu.p.contains(Status::NEGATIVE));
    assert!(!cpu.p.contains(Status::ZERO));
    assert!(!cpu.crossed_page);
}

#[test]
fn las_test_lax_absolute_y_page_cross() {
    let instr = lax_absolute_y();
    let (mut cpu, mut bus) = setup(0xC000, 0x00, 0x00, 0x01, |mock| {
        mock.mem[0xC001] = 0xFF;
        mock.mem[0xC002] = 0x10; // base $10FF
        mock.mem[0x1100] = 0b1000_0001; // $10FF + Y=1 = $1100 (page cross)
    });

    cpu.test_clock(&mut bus, &instr);

    assert_eq!(cpu.a, 0b1000_0001);
    assert_eq!(cpu.x, 0b1000_0001);
    assert_eq!(cpu.pc, 0xC003);
    assert!(cpu.p.contains(Status::NEGATIVE));
    assert!(!cpu.p.contains(Status::ZERO));
    assert!(cpu.crossed_page);
}

#[test]
fn las_test_lax_indirect_x() {
    let instr = lax_indirect_x();
    let (mut cpu, mut bus) = setup(0xC000, 0x00, 0x03, 0x00, |mock| {
        mock.mem[0xC001] = 0x40; // ZP pointer base
        // Pointer at $40 + X=3 = $43
        mock.mem[0x0043] = 0x78; // target low byte
        mock.mem[0x0044] = 0x9A; // target high byte -> $9A78
        mock.mem[0x9A78] = 0b0101_1010; // final value
    });

    cpu.test_clock(&mut bus, &instr);

    assert_eq!(cpu.a, 0b0101_1010);
    assert_eq!(cpu.x, 0b0101_1010);
    assert_eq!(cpu.pc, 0xC002);
    assert!(!cpu.p.contains(Status::NEGATIVE));
    assert!(!cpu.p.contains(Status::ZERO));
}

#[test]
fn las_test_lax_indirect_y_no_page_cross() {
    let instr = lax_indirect_y();
    let (mut cpu, mut bus) = setup(0xC000, 0x00, 0x00, 0x10, |mock| {
        mock.mem[0xC001] = 0x50; // ZP pointer
        mock.mem[0x0050] = 0x00; // base low
        mock.mem[0x0051] = 0x80; // base high -> $8000
        mock.mem[0x8010] = 0b0011_0011; // $8000 + Y=$10 = $8010
    });

    cpu.test_clock(&mut bus, &instr);

    assert_eq!(cpu.a, 0b0011_0011);
    assert_eq!(cpu.x, 0b0011_0011);
    assert_eq!(cpu.pc, 0xC002);
    assert!(!cpu.p.contains(Status::NEGATIVE));
    assert!(!cpu.p.contains(Status::ZERO));
    assert!(!cpu.crossed_page);
}

#[test]
fn las_test_lax_indirect_y_page_cross() {
    let instr = lax_indirect_y();
    let (mut cpu, mut bus) = setup(0xC000, 0x00, 0x00, 0x01, |mock| {
        mock.mem[0xC001] = 0xFF; // ZP pointer (wraps)
        mock.mem[0x00FF] = 0xFF; // base low
        mock.mem[0x0000] = 0x00; // base high (wraps) -> $00FF
        mock.mem[0x0100] = 0b1100_0011; // $00FF + Y=1 = $0100 (page cross)
    });

    cpu.test_clock(&mut bus, &instr);

    assert_eq!(cpu.a, 0b1100_0011);
    assert_eq!(cpu.x, 0b1100_0011);
    assert_eq!(cpu.pc, 0xC002);
    assert!(cpu.p.contains(Status::NEGATIVE));
    assert!(!cpu.p.contains(Status::ZERO));
    assert!(cpu.crossed_page);
}

#[test]
fn las_test_lax_zero_flag() {
    let instr = lax_immediate();
    let (mut cpu, mut bus) = setup(0xC000, 0xFF, 0xFF, 0x00, |mock| {
        mock.mem[0xC001] = 0x00; // immediate zero
    });

    cpu.test_clock(&mut bus, &instr);

    assert_eq!(cpu.a, 0x00);
    assert_eq!(cpu.x, 0x00);
    assert_eq!(cpu.pc, 0xC002);
    assert!(!cpu.p.contains(Status::NEGATIVE));
    assert!(cpu.p.contains(Status::ZERO));
}

#[test]
fn las_test_lax_preserves_y_register() {
    let instr = lax_zero_page();
    let initial_y = 0x55;
    let (mut cpu, mut bus) = setup(0xC000, 0x00, 0x00, initial_y, |mock| {
        mock.mem[0xC001] = 0x60;
        mock.mem[0x0060] = 0x77;
    });

    cpu.test_clock(&mut bus, &instr);

    assert_eq!(cpu.a, 0x77);
    assert_eq!(cpu.x, 0x77);
    assert_eq!(cpu.y, initial_y); // Y should be unchanged
    assert_eq!(cpu.pc, 0xC002);
}
