use nesium_core::cpu::{Cpu, CpuBus};
use nesium_core::status::Status;
use nesium_core::micro_op::logic::{and_absolute, and_absolute_x, and_absolute_y, and_immediate, and_indirect_x, and_indirect_y, and_zero_page, and_zero_page_x};

/// A CPU at `pc` with the given registers and all flags clear, and a bus
/// whose memory `mem_setup` has filled in.
fn setup(pc: u16, a: u8, x: u8, y: u8, mem_setup: impl FnOnce(&mut CpuBus)) -> (Cpu, CpuBus) {
    let mut mock = CpuBus::new();
    mem_setup(&mut mock);

    let mut cpu = Cpu::new();
    cpu.pc = pc;
    cpu.a = a;
    cpu.x = x;
    cpu.y = y;
    cpu.p = Status::empty();

    (cpu, mock)
}

#[test]
fn test_and_immediate() {
    let instr = and_immediate();
    let (mut cpu, mut bus) = setup(
        0xC000,
        0b1111_0000, // A init
        0,
        0,
        |mock| {
            mock.mem[0xC001] = 0b1010_1010; // immediate operand
        },
    );

    cpu.test_clock(&mut bus, &instr);

    assert_eq!(cpu.pc, 0xC002);
    assert_eq!(cpu.a, 0b1010_0000);
    assert!(cpu.p.contains(Status::NEGATIVE));
    assert!(!cpu.p.contains(Status::ZERO));
    assert!(!cpu.crossed_page);
}

#[test]
fn test_and_zeropage() {
    let instr = and_zero_page();
    let (mut cpu, mut bus) = setup(0xC000, 0b1111_0000, 0, 0, |mock| {
        mock.mem[0xC001] = 0x34; // ZP address
        mock.mem[0x0034] = 0b1010_1010; // operand
    });

    cpu.test_clock(&mut bus, &instr);

    assert_eq!(cpu.pc, 0xC002);
    assert_eq!(cpu.a, 0b1010_0000);
    assert!(cpu.p.contains(Status::NEGATIVE));
    assert!(!cpu.p.contains(Status::ZERO));
    assert!(!cpu.crossed_page);
}

#[test]
fn test_and_zeropage_x() {
    let instr = and_zero_page_x();
    let (mut cpu, mut bus) = setup(
        0xC000,
        0b1111_0000,
        0x05, // X = 5
        0,
        |mock| {
            mock.mem[0xC001] = 0x34; // base ZP
            mock.mem[0x0039] = 0b1010_1010; // 0x34 + 0x05 = 0x39
        },
    );

    cpu.test_clock(&mut bus, &instr);

    assert_eq!(cpu.pc, 0xC002);
    assert_eq!(cpu.a, 0b1010_0000);
    assert!(cpu.p.contains(Status::NEGATIVE));
    assert!(!cpu.p.contains(Status::ZERO));
    assert!(!cpu.crossed_page);
}

#[test]
fn test_and_absolute() {
    let instr = and_absolute();
    let (mut cpu, mut bus) = setup(0xC000, 0b1111_0000, 0, 0, |mock| {
        mock.mem[0xC001] = 0x34;
        mock.mem[0xC002] = 0x12; // $1234
        mock.mem[0x1234] = 0b1010_1010;
    });

    cpu.test_clock(&mut bus, &instr);

    assert_eq!(cpu.pc, 0xC003);
    assert_eq!(cpu.a, 0b1010_0000);
    assert!(cpu.p.contains(Status::NEGATIVE));
    assert!(!cpu.p.contains(Status::ZERO));
    assert!(!cpu.crossed_page);
}

#[test]
fn test_and_absolute_x_no_page_cross() {
    let instr = and_absolute_x();
    let (mut cpu, mut bus) = setup(
        0xC000,
        0b1111_0000,
        0x10, // X = 0x10
        0,
        |mock| {
            mock.mem[0xC001] = 0x34;
            mock.mem[0xC002] = 0x12; // base $1234
            mock.mem[0x1244] = 0b1010_1010; // $1234 + $10 = $1244
        },
    );

    cpu.test_clock(&mut bus, &instr);

    assert_eq!(cpu.pc, 0xC003);
    assert_eq!(cpu.a, 0b1010_0000);
    assert!(cpu.p.contains(Status::NEGATIVE));
    assert!(!cpu.p.contains(Status::ZERO));
    assert!(!cpu.crossed_page);
}

#[test]
fn test_and_absolute_y_no_page_cross() {
    let instr = and_absolute_y();
    let (mut cpu, mut bus) = setup(
        0xC000,
        0b1111_0000,
        0,
        0x20, // Y = 0x20
        |mock| {
            mock.mem[0xC001] = 0x34;
            mock.mem[0xC002] = 0x12; // $1234
            mock.mem[0x1254] = 0b1010_1010; // $1234 + $20 = $1254
        },
    );

    cpu.test_clock(&mut bus, &instr);

    assert_eq!(cpu.pc, 0xC003);
    assert_eq!(cpu.a, 0b1010_0000);
    assert!(cpu.p.contains(Status::NEGATIVE));
    assert!(!cpu.p.contains(Status::ZERO));
    assert!(!cpu.crossed_page);
}

#[test]
fn test_and_indirect_x() {
    let instr = and_indirect_x();
    let (mut cpu, mut bus) = setup(
        0xC000,
        0b1111_0000,
        0x05, // X = 5
        0,
        |mock| {
            mock.mem[0xC001] = 0x34; // ZP pointer base
            let ptr = 0x34u8.wrapping_add(0x05); // 0x39
            mock.mem[ptr as usize] = 0x78; // low  byte of target
            mock.mem[ptr.wrapping_add(1) as usize] = 0x9A; // high byte -> $9A78
            mock.mem[0x9A78] = 0b1010_1010; // operand
        },
    );

    cpu.test_clock(&mut bus, &instr);

    assert_eq!(cpu.pc, 0xC002);
    assert_eq!(cpu.a, 0b1010_0000);
    assert!(cpu.p.contains(Status::NEGATIVE));
    assert!(!cpu.p.contains(Status::ZERO));
    assert!(!cpu.crossed_page);
}

#[test]
fn test_and_indirect_y_no_page_cross() {
    let instr = and_indirect_y();
    let (mut cpu, mut bus) = setup(
        0xC000,
        0b1111_0000,
        0,
        0x20, // Y = 0x20
        |mock| {
            mock.mem[0xC001] = 0x50; // ZP pointer
            mock.mem[0x50] = 0x00; // base low
            mock.mem[0x51] = 0x80; // base high -> $8000
            mock.mem[0x8020] = 0b1010_1010; // $8000 + $20 = $8020
        },
    );

    cpu.test_clock(&mut bus, &instr);

    assert_eq!(cpu.pc, 0xC002);
    assert_eq!(cpu.a, 0b1010_0000);
    assert!(cpu.p.contains(Status::NEGATIVE));
    assert!(!cpu.p.contains(Status::ZERO));
    assert!(!cpu.crossed_page);
}

#[test]
fn test_and_result_zero_sets_z_flag() {
    let instr = and_immediate();
    let (mut cpu, mut bus) = setup(0xC000, 0x00, 0, 0, |mock| {
        mock.mem[0xC001] = 0xFF;
    });

    cpu.test_clock(&mut bus, &instr);

    assert_eq!(cpu.a, 0x00);
    assert!(!cpu.p.contains(Status::NEGATIVE));
    assert!(cpu.p.contains(Status::ZERO));
}

// Page-crossing AND cases: A starts at $F0 and the operand is $AA, so A becomes
// $F0 AND $AA = $A0 (not $AA).

#[test]
fn and_absolute_x_page_cross_masks_a() {
    let instr = and_absolute_x();
    let (mut cpu, mut bus) = setup(0xC000, 0b1111_0000, 0x01, 0, |mock| {
        mock.mem[0xC001] = 0xFF;
        mock.mem[0xC002] = 0x00; // base $00FF
        mock.mem[0x0100] = 0b1010_1010; // $00FF + 1 = $0100 (crosses page)
    });

    cpu.test_clock(&mut bus, &instr);

    assert_eq!(cpu.pc, 0xC003);
    assert_eq!(cpu.a, 0b1010_0000);
    assert!(cpu.p.contains(Status::NEGATIVE));
    assert!(!cpu.p.contains(Status::ZERO));
    assert!(cpu.crossed_page);
}

#[test]
fn and_absolute_y_page_cross_masks_a() {
    let instr = and_absolute_y();
    let (mut cpu, mut bus) = setup(0xC000, 0b1111_0000, 0, 0x01, |mock| {
        mock.mem[0xC001] = 0xFF;
        mock.mem[0xC002] = 0x00; // $00FF
        mock.mem[0x0100] = 0b1010_1010; // $00FF + 1 = $0100
    });

    cpu.test_clock(&mut bus, &instr);

    assert_eq!(cpu.pc, 0xC003);
    assert_eq!(cpu.a, 0b1010_0000);
    assert!(cpu.p.contains(Status::NEGATIVE));
    assert!(!cpu.p.contains(Status::ZERO));
    assert!(cpu.crossed_page);
}

#[test]
fn and_indirect_y_page_cross_masks_a() {
    let instr = and_indirect_y();
    let (mut cpu, mut bus) = setup(0xC000, 0b1111_0000, 0, 0x01, |mock| {
        mock.mem[0xC001] = 0xFF; // ZP pointer
        mock.mem[0xFF] = 0xFF; // base low
        mock.mem[0x00] = 0x00; // wraps: high from $00 -> $00FF
        mock.mem[0x0100] = 0b1010_1010; // $00FF + 1 = $0100
    });

    cpu.test_clock(&mut bus, &instr);

    assert_eq!(cpu.pc, 0xC002);
    assert_eq!(cpu.a, 0b1010_0000);
    assert!(cpu.p.contains(Status::NEGATIVE));
    assert!(!cpu.p.contains(Status::ZERO));
    assert!(cpu.crossed_page);
}
