use nesium_core::cpu::{Cpu, CpuBus};
use nesium_core::status::Status;
use nesium_core::micro_op::load::{ldy_absolute, ldy_absolute_x, ldy_immediate, ldy_zero_page, ldy_zero_page_x};

/// A CPU at `pc` with the given registers and all flags clear, and a bus
/// whose memory `mem_setup` has filled in.
fn setup(pc: u16, a: u8, x: u8, y: u8, mem_setup: impl FnOnce(&mut CpuBus)) -> (Cpu, CpuBus) {
    let mut mock = CpuBus::new();
    mem_setup(&mut mock);

    let mut cpu = Cpu::new();
    cpu.pc = pc;
    cpu.a = a;
    cpu.x = x;
    cpu.y = y;
    cpu.p = Status::empty();

    (cpu, mock)
}

#[test]
fn test_ldy_immediate() {
    let instr = ldy_immediate();
    let (mut cpu, mut bus) = setup(0xB000, 0x00, 0x00, 0x00, |mock| {
        mock.mem[0xB001] = 0b1101_0011; // Operand: 0xD3
    });

    cpu.test_clock(&mut bus, &instr);

    assert_eq!(cpu.y, 0xD3);
    assert_eq!(cpu.a, 0x00); // A unchanged
    assert_eq!(cpu.x, 0x00); // X unchanged
    assert_eq!(cpu.pc, 0xB002);
    assert!(cpu.p.contains(Status::NEGATIVE)); // Bit7 set
    assert!(!cpu.p.contains(Status::ZERO));
}

#[test]
fn test_ldy_zero_page() {
    let instr = ldy_zero_page();
    let (mut cpu, mut bus) = setup(0xB000, 0x12, 0x34, 0x00, |mock| {
        mock.mem[0xB001] = 0x66; // ZP address: $66
        mock.mem[0x0066] = 0b0011_0101; // Value: 0x35
    });

    cpu.test_clock(&mut bus, &instr);

    assert_eq!(cpu.y, 0x35);
    assert_eq!(cpu.a, 0x12); // A preserved
    assert_eq!(cpu.x, 0x34); // X preserved
    assert_eq!(cpu.pc, 0xB002);
    assert!(!cpu.p.contains(Status::NEGATIVE));
    assert!(!cpu.p.contains(Status::ZERO));
}

#[test]
fn test_ldy_zero_page_x_normal() {
    let instr = ldy_zero_page_x();
    let (mut cpu, mut bus) = setup(0xB000, 0x00, 0x09, 0x00, |mock| {
        mock.mem[0xB001] = 0x20; // Base ZP: $20
        mock.mem[0x0029] = 0b0111_0000; // $20 + X=9 = $29
    });

    cpu.test_clock(&mut bus, &instr);

    assert_eq!(cpu.y, 0x70);
    assert_eq!(cpu.x, 0x09); // X unchanged
    assert_eq!(cpu.pc, 0xB002);
    assert!(!cpu.p.contains(Status::NEGATIVE));
    assert!(!cpu.p.contains(Status::ZERO));
}

#[test]
fn test_ldy_zero_page_x_wrap() {
    let instr = ldy_zero_page_x();
    let (mut cpu, mut bus) = setup(0xB000, 0x00, 0x15, 0x00, |mock| {
        mock.mem[0xB001] = 0xEE; // Base ZP: $EE
        mock.mem[0x0009] = 0x8C; // $EE + X=0x15 = 0x103 → wraps to $03? Wait: 0xEE + 0x15 = 0x103 → 0x03? No: 0xEE is 238, 0x15 is 21 → 238+21=259 → 259-256=3 → $03. Fix mock:
        mock.mem[0x0003] = 0x8C; // Correct wrapped address: $03
    });

    cpu.test_clock(&mut bus, &instr);

    assert_eq!(cpu.y, 0x8C);
    assert_eq!(cpu.pc, 0xB002);
    assert!(cpu.p.contains(Status::NEGATIVE)); // 0x8C has bit7 set
    assert!(!cpu.p.contains(Status::ZERO));
}

#[test]
fn test_ldy_absolute() {
    let instr = ldy_absolute();
    let (mut cpu, mut bus) = setup(0xB000, 0x00, 0x00, 0x00, |mock| {
        mock.mem[0xB001] = 0x9A; // Low byte: $9A
        mock.mem[0xB002] = 0xBC; // High byte: $BC → address $BC9A
        mock.mem[0xBC9A] = 0x07; // Value: 0x07
    });

    cpu.test_clock(&mut bus, &instr);

    assert_eq!(cpu.y, 0x07);
    assert_eq!(cpu.pc, 0xB003);
    assert!(!cpu.p.contains(Status::NEGATIVE));
    assert!(!cpu.p.contains(Status::ZERO));
}

#[test]
fn test_ldy_absolute_x_no_cross() {
    let instr = ldy_absolute_x();
    let (mut cpu, mut bus) = setup(0xB000, 0x00, 0x0E, 0x00, |mock| {
        mock.mem[0xB001] = 0x40; // Low byte: $40
        mock.mem[0xB002] = 0x22; // High byte: $22 → base $2240
        mock.mem[0x224E] = 0x6D; // $2240 + X=0xE = $224E (same page)
    });

    cpu.test_clock(&mut bus, &instr);

    assert_eq!(cpu.y, 0x6D);
    assert_eq!(cpu.pc, 0xB003);
    assert!(!cpu.p.contains(Status::NEGATIVE));
    assert!(!cpu.p.contains(Status::ZERO));
    assert!(!cpu.crossed_page);
}

#[test]
fn test_ldy_absolute_x_cross() {
    let instr = ldy_absolute_x();
    let (mut cpu, mut bus) = setup(0xB000, 0x00, 0x03, 0x00, |mock| {
        mock.mem[0xB001] = 0xFD; // Low byte: $FD
        mock.mem[0xB002] = 0x55; // High byte: $55 → base $55FD
        mock.mem[0x5600] = 0xE1; // $55FD + X=3 = $5600 (page cross)
    });

    cpu.test_clock(&mut bus, &instr);

    assert_eq!(cpu.y, 0xE1);
    assert_eq!(cpu.pc, 0xB003);
    assert!(cpu.p.contains(Status::NEGATIVE));
    assert!(!cpu.p.contains(Status::ZERO));
    assert!(cpu.crossed_page);
}

#[test]
fn test_ldy_zero_flag() {
    let instr = ldy_immediate();
    let (mut cpu, mut bus) = setup(0xB000, 0xAB, 0xCD, 0xEF, |mock| {
        mock.mem[0xB001] = 0x00; // Operand: 0x00
    });

    cpu.test_clock(&mut bus, &instr);

    assert_eq!(cpu.y, 0x00);
    assert!(cpu.p.contains(Status::ZERO));
    assert!(!cpu.p.contains(Status::NEGATIVE));
    assert_eq!(cpu.a, 0xAB); // A preserved
    assert_eq!(cpu.x, 0xCD); // X preserved
}

#[test]
fn test_ldy_negative_flag() {
    let instr = ldy_zero_page();
    let (mut cpu, mut bus) = setup(0xB000, 0x00, 0x00, 0x00, |mock| {
        mock.mem[0xB001] = 0x99; // ZP address: $99
        mock.mem[0x0099] = 0b1001_0000; // Value: 0x90 (bit7 set)
    });

    cpu.test_clock(&mut bus, &instr);

    assert_eq!(cpu.y, 0x90);
    assert!(cpu.p.contains(Status::NEGATIVE));
    assert!(!cpu.p.contains(Status::ZERO));
}

#[test]
fn test_ldy_preserve_registers() {
    let instr = ldy_absolute_x();
    let initial_a = 0x77;
    let initial_x = 0x88;
    let (mut cpu, mut bus) = setup(0xB000, initial_a, initial_x, 0x00, |mock| {
        mock.mem[0xB001] = 0x10; // Low byte: $10
        mock.mem[0xB002] = 0x30; // High byte: $30 → base $3010
        mock.mem[0x3010 + initial_x as usize] = 0xCC; // Value at $3010 + X=0x88
    });

    cpu.test_clock(&mut bus, &instr);

    assert_eq!(cpu.y, 0xCC);
    assert_eq!(cpu.a, initial_a); // A preserved
    assert_eq!(cpu.x, initial_x); // X preserved
}
