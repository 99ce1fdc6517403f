use nesium_core::cpu::{Cpu, CpuBus};
use nesium_core::status::Status;
use nesium_core::micro_op::load::{sax_absolute, sax_indirect_x, sax_zero_page, sax_zero_page_y};

/// A CPU at `pc` with the given registers and all flags clear, and a bus
/// whose memory `mem_setup` has filled in.
fn setup(pc: u16, a: u8, x: u8, y: u8, mem_setup: impl FnOnce(&mut CpuBus)) -> (Cpu, CpuBus) {
    let mut mock = CpuBus::new();
    mem_setup(&mut mock);

    let mut cpu = Cpu::new();
    cpu.pc = pc;
    cpu.a = a;
    cpu.x = x;
    cpu.y = y;
    cpu.p = Status::empty();

    (cpu, mock)
}

#[test]
fn test_sax_zero_page() {
    let instr = sax_zero_page();
    let (mut cpu, mut bus) = setup(0xC000, 0b1100_1100, 0b1010_1010, 0x00, |mock| {
        mock.mem[0xC001] = 0x44; // ZP address: $44
        mock.mem[0x0044] = 0x00; // Initial value
    });

    // A & X = 0b11001100 & 0b10101010 = 0x88
    cpu.test_clock(&mut bus, &instr);
    assert_eq!(
        bus.read(0x0044),
        0x88,
        "Zero Page: A & X should be written to $44"
    );
    assert_eq!(cpu.a, 0b1100_1100, "A register should remain unchanged");
    assert_eq!(cpu.x, 0b1010_1010, "X register should remain unchanged");
    assert_eq!(cpu.pc, 0xC002, "PC should increment by 2");
}

#[test]
fn test_sax_zero_page_y_normal() {
    let instr = sax_zero_page_y();
    let (mut cpu, mut bus) = setup(0xC000, 0x3C, 0x33, 0x05, |mock| {
        mock.mem[0xC001] = 0x20; // Base ZP: $20
        mock.mem[0x0025] = 0x00; // $20 + Y=5 = $25 (target)
    });

    // A & X = 0x3C & 0x33 = 0x30
    cpu.test_clock(&mut bus, &instr);
    assert_eq!(
        bus.read(0x0025),
        0x30,
        "Zero Page,Y (normal): A & X should be written to $25"
    );
    assert_eq!(cpu.y, 0x05, "Y register should remain unchanged");
    assert_eq!(cpu.pc, 0xC002, "PC should increment by 2");
}

#[test]
fn test_sax_zero_page_y_wrap() {
    let instr = sax_zero_page_y();
    let (mut cpu, mut bus) = setup(0xC000, 0xF0, 0xCF, 0x10, |mock| {
        mock.mem[0xC001] = 0xF0; // Base ZP: $F0
        mock.mem[0x0000] = 0x00; // $F0 + Y=0x10 = 0x100 → wraps to $00 (target)
    });

    // A & X = 0xF0 & 0xCF = 0xC0 (192)
    cpu.test_clock(&mut bus, &instr);
    assert_eq!(
        bus.read(0x0000),
        0xC0,
        "Zero Page,Y (wrap): A & X should be written to $00"
    );
    assert_eq!(cpu.pc, 0xC002, "PC should increment by 2");
}

#[test]
fn test_sax_absolute() {
    let instr = sax_absolute();
    let (mut cpu, mut bus) = setup(0xC000, 0x55, 0x33, 0x00, |mock| {
        mock.mem[0xC001] = 0x78; // Low byte: $78
        mock.mem[0xC002] = 0x12; // High byte: $12 → target $1278
        mock.mem[0x1278] = 0x00; // Initial value
    });

    // A & X = 0x55 & 0x33 = 0x11
    cpu.test_clock(&mut bus, &instr);
    assert_eq!(
        bus.read(0x1278),
        0x11,
        "Absolute: A & X should be written to $1278"
    );
    assert_eq!(cpu.pc, 0xC003, "PC should increment by 3");
}

#[test]
fn test_sax_zero_result() {
    let instr = sax_zero_page();
    let (mut cpu, mut bus) = setup(0xC000, 0x0F, 0xF0, 0x00, |mock| {
        mock.mem[0xC001] = 0x77; // ZP address: $77
        mock.mem[0x0077] = 0xFF; // Initial value
    });

    // A & X = 0x0F & 0xF0 = 0x00
    cpu.test_clock(&mut bus, &instr);
    assert_eq!(
        bus.read(0x0077),
        0x00,
        "Zero result: 0 should be written to $77"
    );
}

#[test]
fn test_sax_preserve_registers() {
    let instr = sax_absolute();
    let initial_a = 0xAB;
    let initial_x = 0xCD;
    let initial_y = 0xEF;
    let (mut cpu, mut bus) = setup(0xC000, initial_a, initial_x, initial_y, |mock| {
        mock.mem[0xC001] = 0x11; // Low byte: $11
        mock.mem[0xC002] = 0x22; // High byte: $22 → target $2211
        mock.mem[0x2211] = 0x00; // Initial value
    });

    cpu.test_clock(&mut bus, &instr);
    assert_eq!(cpu.a, initial_a, "A register should be preserved");
    assert_eq!(cpu.x, initial_x, "X register should be preserved");
    assert_eq!(cpu.y, initial_y, "Y register should be preserved");
    assert_eq!(
        bus.read(0x2211),
        initial_a & initial_x,
        "A & X should be written to $2211"
    );
}

// `(zp,X)` SAX with a large X: the pointer is read at (zp + X) & $FF, which holds
// zeros here, so A & X goes to $0000 and the cells prepared at zp + 2 (or zp + 5)
// are not used.

#[test]
fn sax_indirect_x_indexes_by_x() {
    let instr = sax_indirect_x();
    let (mut cpu, mut bus) = setup(0xC000, 0x8F, 0x83, 0x02, |mock| {
        mock.mem[0xC001] = 0x30; // ($30 + $83) & $FF = $B3
        mock.mem[0x0032] = 0x45;
        mock.mem[0x0033] = 0x67;
        mock.mem[0x6745] = 0x00;
    });
    cpu.test_clock(&mut bus, &instr);
    assert_eq!(bus.read(0x0000), 0x83);
    assert_eq!(bus.read(0x6745), 0x00);
    assert_eq!(cpu.x, 0x83);
    assert_eq!(cpu.pc, 0xC002);
}

#[test]
fn sax_indirect_x_pointer_wraps_in_page_zero() {
    let instr = sax_indirect_x();
    let (mut cpu, mut bus) = setup(0xC000, 0x3F, 0x55, 0x05, |mock| {
        mock.mem[0xC001] = 0xFB; // ($FB + $55) & $FF = $50
        mock.mem[0x0000] = 0x9A;
        mock.mem[0x0001] = 0xBC;
        mock.mem[0xBC9A] = 0x00;
    });
    cpu.test_clock(&mut bus, &instr);
    // The pointer at $50/$51 is $0000: the store lands on the pointer's own cell.
    assert_eq!(bus.read(0x0000), 0x15);
    assert_eq!(bus.read(0xBC9A), 0x00);
    assert_eq!(cpu.x, 0x55);
    assert_eq!(cpu.pc, 0xC002);
}
