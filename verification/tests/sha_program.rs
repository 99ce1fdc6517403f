use nesium_core::cpu::{Cpu, CpuBus};
use nesium_core::status::Status;
use nesium_core::micro_op::load::{sha_absolute_y, sha_indirect_y};

/// A CPU at `pc` with the given registers and all flags clear, and a bus
/// whose memory `mem_setup` has filled in.
fn setup(pc: u16, a: u8, x: u8, y: u8, mem_setup: impl FnOnce(&mut CpuBus)) -> (Cpu, CpuBus) {
    let mut mock = CpuBus::new();
    mem_setup(&mut mock);

    let mut cpu = Cpu::new();
    cpu.pc = pc;
    cpu.a = a;
    cpu.x = x;
    cpu.y = y;
    cpu.p = Status::empty();

    (cpu, mock)
}

#[test]
fn test_sha_absolute_y_normal() {
    let instr = sha_absolute_y();
    let (mut cpu, mut bus) = setup(0x8000, 0xAA, 0x55, 0x03, |mock| {
        mock.mem[0x8001] = 0x10; // Low byte
        mock.mem[0x8002] = 0x20; // High byte → base = $2010
    });

    cpu.test_clock(&mut bus, &instr);

    let expected_addr = 0x2010 + 0x03;
    let expected_val = 0xAA & 0x55 & 0x21; // V = hi+1 = 0x21
    assert_eq!(bus.read(expected_addr), expected_val);

    assert_eq!(cpu.pc, 0x8003);
    assert_eq!(cpu.a, 0xAA);
    assert_eq!(cpu.x, 0x55);
    assert_eq!(cpu.y, 0x03);
    assert_eq!(cpu.p, Status::empty());
}

#[test]
fn test_sha_absolute_y_cross_page() {
    let instr = sha_absolute_y();
    let (mut cpu, mut bus) = setup(0x9000, 0xF0, 0x0F, 0x0A, |mock| {
        mock.mem[0x9001] = 0xF8; // Low byte
        mock.mem[0x9002] = 0x20; // High byte → base = $20F8
    });

    cpu.test_clock(&mut bus, &instr);

    let expected_addr = 0x20F8 + 0x0A; // = $2102 (cross page)
    let expected_val = 0xF0 & 0x0F & 0x21; // hi+1 = 0x21
    assert_eq!(bus.read(expected_addr), expected_val);

    assert_eq!(cpu.pc, 0x9003);
    assert_eq!(cpu.a, 0xF0);
    assert_eq!(cpu.x, 0x0F);
    assert_eq!(cpu.y, 0x0A);
    assert_eq!(cpu.p, Status::empty());
}

#[test]
fn test_sha_absolute_y_high_overflow() {
    let instr = sha_absolute_y();
    let (mut cpu, mut bus) = setup(0xA000, 0xFF, 0xFF, 0x05, |mock| {
        mock.mem[0xA001] = 0x10;
        mock.mem[0xA002] = 0xFF; // base = $FF10
    });

    cpu.test_clock(&mut bus, &instr);

    let expected_addr = 0xFF10 + 0x05; // $FF15
    let expected_val = 0xFF & 0xFF & 0x00; // hi+1 = 0x00 (overflow)
    assert_eq!(bus.read(expected_addr), expected_val);

    assert_eq!(cpu.pc, 0xA003);
    assert_eq!(cpu.p, Status::empty());
}

#[test]
fn test_sha_absolute_y_zero_a_or_x() {
    let instr = sha_absolute_y();

    // Case A = 0
    let (mut cpu, mut bus) = setup(0xB000, 0x00, 0xFF, 0x01, |mock| {
        mock.mem[0xB001] = 0x00;
        mock.mem[0xB002] = 0x10;
    });
    cpu.test_clock(&mut bus, &instr);
    assert_eq!(bus.read(0x1001), 0x00);

    // Case X = 0
    let (mut cpu, mut bus) = setup(0xB100, 0xFF, 0x00, 0x01, |mock| {
        mock.mem[0xB101] = 0x00;
        mock.mem[0xB102] = 0x10;
    });
    cpu.test_clock(&mut bus, &instr);
    assert_eq!(bus.read(0x1001), 0x00);
}

#[test]
fn test_sha_indirect_y_normal() {
    let instr = sha_indirect_y();
    let (mut cpu, mut bus) = setup(0xC000, 0xAA, 0x55, 0x03, |mock| {
        mock.mem[0xC001] = 0x20; // Pointer = $0020
        mock.mem[0x0020] = 0x34; // low
        mock.mem[0x0021] = 0x12; // high → base = $1234
    });

    cpu.test_clock(&mut bus, &instr);

    let expected_addr = 0x1234 + 0x03;
    let expected_val = 0xAA & 0x55 & (0x34 + 1); // V = [zp]+1 = 0x35
    assert_eq!(bus.read(expected_addr), expected_val);
    assert_eq!(cpu.pc, 0xC002);
    assert_eq!(cpu.p, Status::empty());
}

#[test]
fn test_sha_indirect_y_pointer_wrap() {
    let instr = sha_indirect_y();
    let (mut cpu, mut bus) = setup(0xD000, 0x0F, 0xF0, 0x05, |mock| {
        mock.mem[0xD001] = 0xFF; // Pointer = $00FF
        mock.mem[0x00FF] = 0x00; // low
        mock.mem[0x0000] = 0x20; // high (wraps)
    });

    cpu.test_clock(&mut bus, &instr);

    let expected_addr = 0x2000 + 0x05;
    let expected_val = 0x0F & 0xF0 & (0x00 + 1); // V = 1
    assert_eq!(bus.read(expected_addr), expected_val);
    assert_eq!(cpu.pc, 0xD002);
}

#[test]
fn test_sha_indirect_y_zero_a_or_x() {
    let instr = sha_indirect_y();

    // A = 0
    let (mut cpu, mut bus) = setup(0xE000, 0x00, 0xFF, 0x01, |mock| {
        mock.mem[0xE001] = 0x10;
        mock.mem[0x0010] = 0xAA;
        mock.mem[0x0011] = 0xBB;
    });
    cpu.test_clock(&mut bus, &instr);
    let addr = 0xBBAA + 1; // approximate effective_addr, not crucial here
    assert_eq!(bus.read(addr), 0x00);

    // X = 0
    let (mut cpu, mut bus) = setup(0xE100, 0xFF, 0x00, 0x01, |mock| {
        mock.mem[0xE101] = 0x10;
        mock.mem[0x0010] = 0x11;
        mock.mem[0x0011] = 0x22;
    });
    cpu.test_clock(&mut bus, &instr);
    let addr = 0x2211 + 1;
    assert_eq!(bus.read(addr), 0x00);
}

#[test]
fn test_sha_preserve_registers_and_flags() {
    let instr = sha_absolute_y();
    let (mut cpu, mut bus) = setup(0xF000, 0x33, 0x77, 0x10, |mock| {
        mock.mem[0xF001] = 0x00;
        mock.mem[0xF002] = 0x40;
    });
    cpu.p.insert(Status::CARRY | Status::ZERO);

    cpu.test_clock(&mut bus, &instr);

    // Registers unchanged
    assert_eq!(cpu.a, 0x33);
    assert_eq!(cpu.x, 0x77);
    assert_eq!(cpu.y, 0x10);

    // Flags preserved
    assert!(cpu.p.contains(Status::CARRY));
    assert!(cpu.p.contains(Status::ZERO));

    // PC advanced correctly
    assert_eq!(cpu.pc, 0xF003);
}
