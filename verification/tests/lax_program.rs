use nesium_core::cpu::{Cpu, CpuBus};
use nesium_core::status::Status;
use nesium_core::micro_op::load::{lax_absolute, lax_absolute_y, lax_immediate, lax_indirect_x, lax_indirect_y, lax_zero_page, lax_zero_page_y, lda_absolute, lda_absolute_x, lda_absolute_y, lda_immediate, lda_indirect_x, lda_indirect_y, lda_zero_page, lda_zero_page_x};

/// A CPU at `pc` with the given registers and all flags clear, and a bus
/// whose memory `mem_setup` has filled in.
fn setup(pc: u16, a: u8, x: u8, y: u8, mem_setup: impl FnOnce(&mut CpuBus)) -> (Cpu, CpuBus) {
    let mut mock = CpuBus::new();
    mem_setup(&mut mock);

    let mut cpu = Cpu::new();
    cpu.pc = pc;
    cpu.a = a;
    cpu.x = x;
    cpu.y = y;
    cpu.p = Status::empty();

    (cpu, mock)
}

#[test]
fn lax_test_lax_immediate() {
    let instr = lax_immediate();
    let (mut cpu, mut bus) = setup(0xC000, 0x00, 0x00, 0x00, |mock| {
        mock.mem[0xC001] = 0b1010_1010; // immediate operand
    });

    cpu.test_clock(&mut bus, &instr);

    assert_eq!(cpu.a, 0b1010_1010);
    assert_eq!(cpu.x, 0b1010_1010);
    assert_eq!(cpu.pc, 0xC002);
    assert!(cpu.p.contains(Status::NEGATIVE));
    assert!(!cpu.p.contains(Status::ZERO));
}

#[test]
fn lax_test_lax_zero_page() {
    let instr = lax_zero_page();
    let (mut cpu, mut bus) = setup(0xC000, 0x00, 0x00, 0x00, |mock| {
        mock.mem[0xC001] = 0x34; // ZP address
        mock.mem[0x0034] = 0b1100_1100; // memory value
    });

    cpu.test_clock(&mut bus, &instr);

    assert_eq!(cpu.a, 0b1100_1100);
    assert_eq!(cpu.x, 0b1100_1100);
    assert_eq!(cpu.pc, 0xC002);
    assert!(cpu.p.contains(Status::NEGATIVE));
    assert!(!cpu.p.contains(Status::ZERO));
}

#[test]
fn lax_test_lax_zero_page_y() {
    let instr = lax_zero_page_y();
    let (mut cpu, mut bus) = setup(0xC000, 0x00, 0x00, 0x05, |mock| {
        mock.mem[0xC001] = 0x30; // base ZP address
        mock.mem[0x0035] = 0b0101_0101; // $30 + Y=5 = $35
    });

    cpu.test_clock(&mut bus, &instr);

    assert_eq!(cpu.a, 0b0101_0101);
    assert_eq!(cpu.x, 0b0101_0101);
    assert_eq!(cpu.pc, 0xC002);
    assert!(!cpu.p.contains(Status::NEGATIVE));
    assert!(!cpu.p.contains(Status::ZERO));
}

#[test]
fn lax_test_lax_absolute() {
    let instr = lax_absolute();
    let (mut cpu, mut bus) = setup(0xC000, 0x00, 0x00, 0x00, |mock| {
        mock.mem[0xC001] = 0x34;
        mock.mem[0xC002] = 0x12; // address $1234
        mock.mem[0x1234] = 0b1111_0000;
    });

    cpu.test_clock(&mut bus, &instr);

    assert_eq!(cpu.a, 0b1111_0000);
    assert_eq!(cpu.x, 0b1111_0000);
    assert_eq!(cpu.pc, 0xC003);
    assert!(cpu.p.contains(Status::NEGATIVE));
    assert!(!cpu.p.contains(Status::ZERO));
}

#[test]
fn lax_test_lax_absolute_y_no_page_cross() {
    let instr = lax_absolute_y();
    let (mut cpu, mut bus) = setup(0xC000, 0x00, 0x00, 0x10, |mock| {
        mock.mem[0xC001] = 0x34;
        mock.mem[0xC002] = 0x12; // base $1234
        mock.mem[0x1244] = 0b0011_1100; // $1234 + Y=$10 = $1244
    });

    cpu.test_clock(&mut bus, &instr);

    assert_eq!(cpu.a, 0b0011_1100);
    assert_eq!(cpu.x, 0b0011_1100);
    assert_eq!(cpu.pc, 0xC003);
    assert!(!cpu.p.contains(Status::NEGATIVE));
    assert!(!cpu.p.contains(Status::ZERO));
    assert!(!cpu.crossed_page);
}

#[test]
fn lax_test_lax_absolute_y_page_cross() {
    let instr = lax_absolute_y();
    let (mut cpu, mut bus) = setup(0xC000, 0x00, 0x00, 0x01, |mock| {
        mock.mem[0xC001] = 0xFF;
        mock.mem[0xC002] = 0x10; // base $10FF
        mock.mem[0x1100] = 0b1000_0001; // $10FF + Y=1 = $1100 (page cross)
    });

    cpu.test_clock(&mut bus, &instr);

    assert_eq!(cpu.a, 0b1000_0001);
    assert_eq!(cpu.x, 0b1000_0001);
    assert_eq!(cpu.pc, 0xC003);
    assert!(cpu.p.contains(Status::NEGATIVE));
    assert!(!cpu.p.contains(Status::ZERO));
    assert!(cpu.crossed_page);
}

#[test]
fn lax_test_lax_indirect_x() {
    let instr = lax_indirect_x();
    let (mut cpu, mut bus) = setup(0xC000, 0x00, 0x03, 0x00, |mock| {
        mock.mem[0xC001] = 0x40; // ZP pointer base
        // Pointer at $40 + X=3 = $43
        mock.mem[0x0043] = 0x78; // target low byte
        mock.mem[0x0044] = 0x9A; // target high byte -> $9A78
        mock.mem[0x9A78] = 0b0101_1010; // final value
    });

    cpu.test_clock(&mut bus, &instr);

    assert_eq!(cpu.a, 0b0101_1010);
    assert_eq!(cpu.x, 0b0101_1010);
    assert_eq!(cpu.pc, 0xC002);
    assert!(!cpu.p.contains(Status::NEGATIVE));
    assert!(!cpu.p.contains(Status::ZERO));
}

#[test]
fn lax_test_lax_indirect_y_no_page_cross() {
    let instr = lax_indirect_y();
    let (mut cpu, mut bus) = setup(0xC000, 0x00, 0x00, 0x10, |mock| {
        mock.mem[0xC001] = 0x50; // ZP pointer
        mock.mem[0x0050] = 0x00; // base low
        mock.mem[0x0051] = 0x80; // base high -> $8000
        mock.mem[0x8010] = 0b0011_0011; // $8000 + Y=$10 = $8010
    });

    cpu.test_clock(&mut bus, &instr);

    assert_eq!(cpu.a, 0b0011_0011);
    assert_eq!(cpu.x, 0b0011_0011);
    assert_eq!(cpu.pc, 0xC002);
    assert!(!cpu.p.contains(Status::NEGATIVE));
    assert!(!cpu.p.contains(Status::ZERO));
    assert!(!cpu.crossed_page);
}

#[test]
fn lax_test_lax_indirect_y_page_cross() {
    let instr = lax_indirect_y();
    let (mut cpu, mut bus) = setup(0xC000, 0x00, 0x00, 0x01, |mock| {
        mock.mem[0xC001] = 0xFF; // ZP pointer (wraps)
        mock.mem[0x00FF] = 0xFF; // base low
        mock.mem[0x0000] = 0x00; // base high (wraps) -> $00FF
        mock.mem[0x0100] = 0b1100_0011; // $00FF + Y=1 = $0100 (page cross)
    });

    cpu.test_clock(&mut bus, &instr);

    assert_eq!(cpu.a, 0b1100_0011);
    assert_eq!(cpu.x, 0b1100_0011);
    assert_eq!(cpu.pc, 0xC002);
    assert!(cpu.p.contains(Status::NEGATIVE));
    assert!(!cpu.p.contains(Status::ZERO));
    assert!(cpu.crossed_page);
}

#[test]
fn lax_test_lax_zero_flag() {
    let instr = lax_immediate();
    let (mut cpu, mut bus) = setup(0xC000, 0xFF, 0xFF, 0x00, |mock| {
        mock.mem[0xC001] = 0x00; // immediate zero
    });

    cpu.test_clock(&mut bus, &instr);

    assert_eq!(cpu.a, 0x00);
    assert_eq!(cpu.x, 0x00);
    assert_eq!(cpu.pc, 0xC002);
    assert!(!cpu.p.contains(Status::NEGATIVE));
    assert!(cpu.p.contains(Status::ZERO));
}

#[test]
fn lax_test_lax_preserves_y_register() {
    let instr = lax_zero_page();
    let initial_y = 0x55;
    let (mut cpu, mut bus) = setup(0xC000, 0x00, 0x00, initial_y, |mock| {
        mock.mem[0xC001] = 0x60;
        mock.mem[0x0060] = 0x77;
    });

    cpu.test_clock(&mut bus, &instr);

    assert_eq!(cpu.a, 0x77);
    assert_eq!(cpu.x, 0x77);
    assert_eq!(cpu.y, initial_y); // Y should be unchanged
    assert_eq!(cpu.pc, 0xC002);
}

#[test]
fn test_lax_indirect_x_zp_wrap() {
    let instr = lax_indirect_x();
    let (mut cpu, mut bus) = setup(0xC000, 0x00, 0x01, 0x00, |mock| {
        mock.mem[0xC001] = 0xFF; // ZP base pointer ($FF)
        // $FF + X=1 wraps to $00 (ZP boundary wrap)
        mock.mem[0x0000] = 0x20; // Target address low byte
        mock.mem[0x0001] = 0x30; // Target address high byte -> $3020
        mock.mem[0x3020] = 0xAA; // Value to load
    });

    cpu.test_clock(&mut bus, &instr);

    assert_eq!(cpu.a, 0xAA);
    assert_eq!(cpu.x, 0xAA);
    assert_eq!(cpu.pc, 0xC002);
    assert!(cpu.p.contains(Status::NEGATIVE));
    assert!(!cpu.p.contains(Status::ZERO));
}

#[test]
fn test_lax_absolute_y_zero_y() {
    let instr = lax_absolute_y();
    let (mut cpu, mut bus) = setup(0xC000, 0x00, 0x00, 0x00, |mock| {
        mock.mem[0xC001] = 0x34; // Absolute address low byte
        mock.mem[0xC002] = 0x12; // Absolute address high byte -> $1234
        mock.mem[0x1234] = 0x33; // Value at base address (Y=0 means no offset)
    });

    cpu.test_clock(&mut bus, &instr);

    assert_eq!(cpu.a, 0x33);
    assert_eq!(cpu.x, 0x33);
    assert_eq!(cpu.pc, 0xC003);
    assert!(!cpu.p.contains(Status::NEGATIVE)); // 0x33 is positive
    assert!(!cpu.p.contains(Status::ZERO));
    assert!(!cpu.crossed_page); // No offset, so no page cross
}

#[test]
fn test_lax_zero_page_y_zp_wrap() {
    let instr = lax_zero_page_y();
    let (mut cpu, mut bus) = setup(0xC000, 0x00, 0x00, 0x20, |mock| {
        mock.mem[0xC001] = 0xF0; // ZP base address ($F0)
        // $F0 + Y=0x20 = 0x110 -> wraps to $10 in ZP
        mock.mem[0x0010] = 0x55; // Value at wrapped address
    });

    cpu.test_clock(&mut bus, &instr);

    assert_eq!(cpu.a, 0x55);
    assert_eq!(cpu.x, 0x55);
    assert_eq!(cpu.pc, 0xC002);
    assert!(!cpu.p.contains(Status::NEGATIVE)); // 0x55 is positive
    assert!(!cpu.p.contains(Status::ZERO));
}

#[test]
fn test_lax_indirect_x_uninit_ptr() {
    let instr = lax_indirect_x();
    let (mut cpu, mut bus) = setup(0xC000, 0x00, 0x02, 0x00, |mock| {
        mock.mem[0xC001] = 0x7F; // ZP base pointer ($7F)
        // $7F + X=2 = $81 (no wrap)
        mock.mem[0x0081] = 0x00; // Target address low byte
        mock.mem[0x0082] = 0xFF; // Arbitrary high byte (uninitialized-like) -> $FF00
        mock.mem[0xFF00] = 0x00; // Zero value to test flags
    });

    cpu.test_clock(&mut bus, &instr);

    assert_eq!(cpu.a, 0x00);
    assert_eq!(cpu.x, 0x00);
    assert_eq!(cpu.pc, 0xC002);
    assert!(!cpu.p.contains(Status::NEGATIVE));
    assert!(cpu.p.contains(Status::ZERO)); // Zero value should set Z flag
}

#[test]
fn lax_test_lda_immediate() {
    let instr = lda_immediate();
    let (mut cpu, mut bus) = setup(0x9000, 0x00, 0x00, 0x00, |mock| {
        mock.mem[0x9001] = 0b1100_0111; // Operand: 0xC7
    });

    cpu.test_clock(&mut bus, &instr);

    assert_eq!(cpu.a, 0xC7);
    assert_eq!(cpu.x, 0x00); // X unchanged
    assert_eq!(cpu.pc, 0x9002);
    assert!(cpu.p.contains(Status::NEGATIVE));
    assert!(!cpu.p.contains(Status::ZERO));
}

#[test]
fn lax_test_lda_zero_page() {
    let instr = lda_zero_page();
    let (mut cpu, mut bus) = setup(0x9000, 0x00, 0xAB, 0xCD, |mock| {
        mock.mem[0x9001] = 0x77; // ZP address: $77
        mock.mem[0x0077] = 0b0001_1000; // Value: 0x18
    });

    cpu.test_clock(&mut bus, &instr);

    assert_eq!(cpu.a, 0x18);
    assert_eq!(cpu.x, 0xAB); // X preserved
    assert_eq!(cpu.y, 0xCD); // Y preserved
    assert_eq!(cpu.pc, 0x9002);
    assert!(!cpu.p.contains(Status::NEGATIVE));
    assert!(!cpu.p.contains(Status::ZERO));
}

#[test]
fn lax_test_lda_zero_page_x_normal() {
    let instr = lda_zero_page_x();
    let (mut cpu, mut bus) = setup(0x9000, 0x00, 0x06, 0x00, |mock| {
        mock.mem[0x9001] = 0x30; // Base ZP: $30
        mock.mem[0x0036] = 0b0110_0110; // $30 + X=6 = $36
    });

    cpu.test_clock(&mut bus, &instr);

    assert_eq!(cpu.a, 0x66);
    assert_eq!(cpu.x, 0x06); // X unchanged
    assert_eq!(cpu.pc, 0x9002);
    assert!(!cpu.p.contains(Status::NEGATIVE));
    assert!(!cpu.p.contains(Status::ZERO));
}

#[test]
fn lax_test_lda_zero_page_x_wrap() {
    let instr = lda_zero_page_x();
    let (mut cpu, mut bus) = setup(0x9000, 0x00, 0x10, 0x00, |mock| {
        mock.mem[0x9001] = 0xF5; // Base ZP: $F5
        mock.mem[0x0005] = 0xF0; // $F5 + X=0x10 = 0x105 → wraps to $05
    });

    cpu.test_clock(&mut bus, &instr);

    assert_eq!(cpu.a, 0xF0);
    assert_eq!(cpu.pc, 0x9002);
    assert!(cpu.p.contains(Status::NEGATIVE));
    assert!(!cpu.p.contains(Status::ZERO));
}

#[test]
fn lax_test_lda_absolute() {
    let instr = lda_absolute();
    let (mut cpu, mut bus) = setup(0x9000, 0x00, 0x00, 0x00, |mock| {
        mock.mem[0x9001] = 0x12; // Low byte: $12
        mock.mem[0x9002] = 0x34; // High byte: $34 → address $3412
        mock.mem[0x3412] = 0x55; // Value: 0x55
    });

    cpu.test_clock(&mut bus, &instr);

    assert_eq!(cpu.a, 0x55);
    assert_eq!(cpu.pc, 0x9003);
    assert!(!cpu.p.contains(Status::NEGATIVE));
    assert!(!cpu.p.contains(Status::ZERO));
}

#[test]
fn lax_test_lda_absolute_x_no_cross() {
    let instr = lda_absolute_x();
    let (mut cpu, mut bus) = setup(0x9000, 0x00, 0x0C, 0x00, |mock| {
        mock.mem[0x9001] = 0x80; // Low byte: $80
        mock.mem[0x9002] = 0x50; // High byte: $50 → base $5080
        mock.mem[0x508C] = 0x0F; // $5080 + X=0xC = $508C (same page)
    });

    cpu.test_clock(&mut bus, &instr);

    assert_eq!(cpu.a, 0x0F);
    assert_eq!(cpu.pc, 0x9003);
    assert!(!cpu.p.contains(Status::NEGATIVE));
    assert!(!cpu.p.contains(Status::ZERO));
    assert!(!cpu.crossed_page);
}

#[test]
fn lax_test_lda_absolute_x_cross() {
    let instr = lda_absolute_x();
    let (mut cpu, mut bus) = setup(0x9000, 0x00, 0x05, 0x00, |mock| {
        mock.mem[0x9001] = 0xFB; // Low byte: $FB
        mock.mem[0x9002] = 0x22; // High byte: $22 → base $22FB
        mock.mem[0x2300] = 0xD0; // $22FB + X=5 = $2300 (page cross)
    });

    cpu.test_clock(&mut bus, &instr);

    assert_eq!(cpu.a, 0xD0);
    assert_eq!(cpu.pc, 0x9003);
    assert!(cpu.p.contains(Status::NEGATIVE));
    assert!(!cpu.p.contains(Status::ZERO));
    assert!(cpu.crossed_page);
}

#[test]
fn lax_test_lda_absolute_y_no_cross() {
    let instr = lda_absolute_y();
    let (mut cpu, mut bus) = setup(0x9000, 0x00, 0x00, 0x20, |mock| {
        mock.mem[0x9001] = 0x40; // Low byte: $40
        mock.mem[0x9002] = 0x11; // High byte: $11 → base $1140
        mock.mem[0x1160] = 0x2A; // $1140 + Y=0x20 = $1160 (same page)
    });

    cpu.test_clock(&mut bus, &instr);

    assert_eq!(cpu.a, 0x2A);
    assert_eq!(cpu.pc, 0x9003);
    assert!(!cpu.p.contains(Status::NEGATIVE));
    assert!(!cpu.p.contains(Status::ZERO));
    assert!(!cpu.crossed_page);
}

#[test]
fn lax_test_lda_absolute_y_cross() {
    let instr = lda_absolute_y();
    let (mut cpu, mut bus) = setup(0x9000, 0x00, 0x00, 0x03, |mock| {
        mock.mem[0x9001] = 0xFF; // Low byte: $FF
        mock.mem[0x9002] = 0x77; // High byte: $77 → base $77FF
        mock.mem[0x7802] = 0x00; // $77FF + Y=3 = $7802 (page cross)
    });

    cpu.test_clock(&mut bus, &instr);

    assert_eq!(cpu.a, 0x00);
    assert_eq!(cpu.pc, 0x9003);
    assert!(!cpu.p.contains(Status::NEGATIVE));
    assert!(cpu.p.contains(Status::ZERO));
    assert!(cpu.crossed_page);
}

#[test]
fn lax_test_lda_indirect_x_normal() {
    let instr = lda_indirect_x();
    let (mut cpu, mut bus) = setup(0x9000, 0x00, 0x02, 0x00, |mock| {
        mock.mem[0x9001] = 0x50; // ZP base: $50
        mock.mem[0x0052] = 0x67; // $50 + X=2 = $52 → low byte: $67
        mock.mem[0x0053] = 0x89; // $52 + 1 = $53 → high byte: $89 → address $8967
        mock.mem[0x8967] = 0x9D; // Value: 0x9D
    });

    cpu.test_clock(&mut bus, &instr);

    assert_eq!(cpu.a, 0x9D);
    assert_eq!(cpu.x, 0x02); // X unchanged
    assert_eq!(cpu.pc, 0x9002);
    assert!(cpu.p.contains(Status::NEGATIVE));
    assert!(!cpu.p.contains(Status::ZERO));
}

#[test]
fn lax_test_lda_indirect_y_no_cross() {
    let instr = lda_indirect_y();
    let (mut cpu, mut bus) = setup(0x9000, 0x00, 0x00, 0x0A, |mock| {
        mock.mem[0x9001] = 0x33; // ZP pointer: $33
        mock.mem[0x0033] = 0x50; // Low byte: $50
        mock.mem[0x0034] = 0x60; // High byte: $60 → base $6050
        mock.mem[0x605A] = 0x77; // $6050 + Y=0xA = $605A (same page)
    });

    cpu.test_clock(&mut bus, &instr);

    assert_eq!(cpu.a, 0x77);
    assert_eq!(cpu.y, 0x0A); // Y unchanged
    assert_eq!(cpu.pc, 0x9002);
    assert!(!cpu.p.contains(Status::NEGATIVE));
    assert!(!cpu.p.contains(Status::ZERO));
    assert!(!cpu.crossed_page);
}

#[test]
fn lax_test_lda_indirect_y_cross_wrap() {
    let instr = lda_indirect_y();
    let (mut cpu, mut bus) = setup(0x9000, 0x00, 0x00, 0x02, |mock| {
        mock.mem[0x9001] = 0xFF; // ZP pointer: $FF
        mock.mem[0x00FF] = 0xFC; // Low byte: $FC
        mock.mem[0x0000] = 0x00; // $FF + 1 = $00 → high byte: $00 → base $00FC
        mock.mem[0x00FE] = 0x88; // $00FC + Y=2 = $00FE (no cross) → adjust to cross:
        // To force cross: $00FF + Y=1 = $0100 (modify setup):
        mock.mem[0x00FF] = 0xFF;
        mock.mem[0x0101] = 0x88; // $00FF + Y=2 = $0101 (page cross)
    });

    cpu.test_clock(&mut bus, &instr);

    assert_eq!(cpu.a, 0x88);
    assert_eq!(cpu.pc, 0x9002);
    assert!(cpu.p.contains(Status::NEGATIVE));
    assert!(!cpu.p.contains(Status::ZERO));
    assert!(cpu.crossed_page);
}

#[test]
fn lax_test_lda_zero_flag() {
    let instr = lda_immediate();
    let (mut cpu, mut bus) = setup(0x9000, 0xAA, 0xBB, 0xCC, |mock| {
        mock.mem[0x9001] = 0x00; // Operand: 0x00
    });

    cpu.test_clock(&mut bus, &instr);

    assert_eq!(cpu.a, 0x00);
    assert!(cpu.p.contains(Status::ZERO));
    assert!(!cpu.p.contains(Status::NEGATIVE));
    assert_eq!(cpu.x, 0xBB); // X preserved
}

#[test]
fn lax_test_lda_preserve_registers() {
    let instr = lda_absolute();
    let initial_x = 0x12;
    let initial_y = 0x34;
    let (mut cpu, mut bus) = setup(0x9000, 0x00, initial_x, initial_y, |mock| {
        mock.mem[0x9001] = 0x56;
        mock.mem[0x9002] = 0x78; // Address $7856
        mock.mem[0x7856] = 0x9A;
    });

    cpu.test_clock(&mut bus, &instr);

    assert_eq!(cpu.a, 0x9A);
    assert_eq!(cpu.x, initial_x); // X preserved
    assert_eq!(cpu.y, initial_y); // Y preserved
}

// `(zp,X)` with $FA + 5: the pointer is read at $FF and $00 (wrapping in page
// zero), not at $00 and $01.

#[test]
fn lda_indirect_x_pointer_at_page_zero_end() {
    let instr = lda_indirect_x();
    let (mut cpu, mut bus) = setup(0x9000, 0x00, 0x05, 0x00, |mock| {
        mock.mem[0x9001] = 0xFA; // ZP base: $FA, pointer at $FF
        mock.mem[0x0000] = 0x11; // pointer high byte
        mock.mem[0x0001] = 0x22;
        mock.mem[0x2211] = 0x33;
    });

    cpu.test_clock(&mut bus, &instr);

    // The pointer is $11 << 8 | mem[$FF] = $1100, which holds 0.
    assert_eq!(cpu.a, 0x00);
    assert_eq!(cpu.pc, 0x9002);
    assert!(!cpu.p.contains(Status::NEGATIVE));
    assert!(cpu.p.contains(Status::ZERO));
}
