use nesium_core::addressing::Addressing;
use nesium_core::cpu::{Cpu, CpuBus};
use nesium_core::instruction::Instruction;
use nesium_core::lookup::lookup;
use nesium_core::mnemonic::Mnemonic;
use nesium_core::status::{Status, BIT_7};

/// What an instruction started from: the CPU before it ran, the operand
/// address, the byte there, and the high byte H of the unindexed base address.
struct Verify {
    cpu: Cpu,
    m: u8,
    addr: u16,
    addr_hi: u8,
}

impl Verify {
    /// N and Z must describe `v`.
    fn check_nz(&self, p: Status, v: u8) {
        assert_eq!(p.z(), v == 0, "Zero flag mismatch");
        assert_eq!(p.n(), v & BIT_7 != 0, "Negative flag mismatch");
    }
}

/// A small deterministic generator of test bytes.
struct Bytes(u32);

impl Bytes {
    fn next(&mut self) -> u8 {
        self.0 = self.0.wrapping_mul(1_103_515_245).wrapping_add(12_345);
        (self.0 >> 16) as u8
    }
}

fn word(lo: u8, hi: u8) -> u16 {
    ((hi as u16) << 8) | lo as u16
}

/// A random CPU and memory for `opcode`, with the operand bytes at `pc`
/// (the opcode having been fetched), and what the instruction should see.
fn prepare(opcode: u8, instr: Instruction, seed: u32) -> (Cpu, CpuBus, Verify) {
    let mut bytes = Bytes(seed.wrapping_mul(7919).wrapping_add(opcode as u32));
    let mut bus = CpuBus::new();
    for i in 0..0x10000usize {
        bus.mem[i] = bytes.next();
    }
    let mut cpu = Cpu::new();
    cpu.a = bytes.next();
    cpu.x = bytes.next();
    cpu.y = bytes.next();
    cpu.s = bytes.next();
    cpu.p = Status::from_bits_truncate(bytes.next());
    cpu.pc = 0x0400;
    cpu.opcode_in_flight = Some(opcode);
    let b1 = bus.mem[0x0400];
    let b2 = bus.mem[0x0401];
    let mem = |a: u16| bus.mem[a as usize];
    let (addr, addr_hi) = match instr.addressing {
        Addressing::ZeroPage => (b1 as u16, 0),
        Addressing::ZeroPageX => (b1.wrapping_add(cpu.x) as u16, 0),
        Addressing::ZeroPageY => (b1.wrapping_add(cpu.y) as u16, 0),
        Addressing::Absolute => (word(b1, b2), b2),
        Addressing::AbsoluteX => (word(b1, b2).wrapping_add(cpu.x as u16), b2),
        Addressing::AbsoluteY => (word(b1, b2).wrapping_add(cpu.y as u16), b2),
        Addressing::IndirectX => {
            let ptr = b1.wrapping_add(cpu.x);
            (word(mem(ptr as u16), mem(ptr.wrapping_add(1) as u16)), 0)
        }
        Addressing::IndirectY => {
            let hi = mem(b1.wrapping_add(1) as u16);
            (word(mem(b1 as u16), hi).wrapping_add(cpu.y as u16), hi)
        }
        _ => (0, 0),
    };
    let m = mem(addr);
    let verify = Verify { cpu, m, addr, addr_hi };
    (cpu, bus, verify)
}

/// Runs every cycle of `instr`.
fn run(instr: &Instruction, cpu: &mut Cpu, bus: &mut CpuBus) {
    for step in 0..instr.len() {
        instr.exec(cpu, bus, step);
    }
}

/// Runs a check on every opcode of one mnemonic, from many random states.
struct InstrTest {
    mnemonic: Mnemonic,
}

impl InstrTest {
    fn new(mnemonic: Mnemonic) -> Self {
        InstrTest { mnemonic }
    }

    fn test(&self, check: impl Fn(&Verify, &Cpu, &CpuBus)) {
        let mut ran = false;
        for opcode in 0..=255u8 {
            let instr = lookup(opcode);
            if instr.mnemonic != self.mnemonic {
                continue;
            }
            for seed in 1..=8u32 {
                let (mut cpu, mut bus, verify) = prepare(opcode, instr, seed);
                run(&instr, &mut cpu, &mut bus);
                check(&verify, &cpu, &bus);
                ran = true;
            }
        }
        assert!(ran, "no opcode of the mnemonic");
    }
}

#[test]
fn test_dec() {
    InstrTest::new(Mnemonic::DEC).test(|verify, cpu, bus| {
        let expected_value = verify.m.wrapping_sub(1);

        assert_eq!(
            bus.read(verify.addr),
            expected_value,
            "Memory was not decremented correctly"
        );

        assert_eq!(cpu.p.z(), expected_value == 0, "Zero flag mismatch");
        assert_eq!(
            cpu.p.n(),
            expected_value & BIT_7 != 0,
            "Negative flag mismatch"
        );

        verify.check_nz(cpu.p, expected_value);
    });
}

#[test]
fn test_dex() {
    InstrTest::new(Mnemonic::DEX).test(|verify, cpu, _| {
        let expected_x = verify.cpu.x.wrapping_sub(1);

        assert_eq!(
            cpu.x, expected_x,
            "X register was not decremented correctly"
        );

        assert_eq!(cpu.p.z(), expected_x == 0, "Zero flag mismatch");
        assert_eq!(cpu.p.n(), expected_x & BIT_7 != 0, "Negative flag mismatch");

        verify.check_nz(cpu.p, expected_x);
    });
}

#[test]
fn test_dey() {
    InstrTest::new(Mnemonic::DEY).test(|verify, cpu, _| {
        let expected_y = verify.cpu.y.wrapping_sub(1);

        assert_eq!(
            cpu.y, expected_y,
            "Y register was not decremented correctly"
        );

        assert_eq!(cpu.p.z(), expected_y == 0, "Zero flag mismatch");
        assert_eq!(cpu.p.n(), expected_y & BIT_7 != 0, "Negative flag mismatch");

        verify.check_nz(cpu.p, expected_y);
    });
}

#[test]
fn test_inc() {
    InstrTest::new(Mnemonic::INC).test(|verify, cpu, bus| {
        let expected_value = verify.m.wrapping_add(1);

        assert_eq!(
            bus.read(verify.addr),
            expected_value,
            "Memory was not incremented correctly"
        );

        assert_eq!(cpu.p.z(), expected_value == 0, "Zero flag mismatch");
        assert_eq!(
            cpu.p.n(),
            expected_value & BIT_7 != 0,
            "Negative flag mismatch"
        );

        verify.check_nz(cpu.p, expected_value);
    });
}

#[test]
fn test_inx() {
    InstrTest::new(Mnemonic::INX).test(|verify, cpu, _| {
        let expected_x = verify.cpu.x.wrapping_add(1);

        assert_eq!(
            cpu.x, expected_x,
            "X register was not incremented correctly"
        );

        assert_eq!(cpu.p.z(), expected_x == 0, "Zero flag mismatch");
        assert_eq!(cpu.p.n(), expected_x & BIT_7 != 0, "Negative flag mismatch");

        verify.check_nz(cpu.p, expected_x);
    });
}

#[test]
fn test_iny() {
    InstrTest::new(Mnemonic::INY).test(|verify, cpu, _| {
        let expected_y = verify.cpu.y.wrapping_add(1);

        assert_eq!(
            cpu.y, expected_y,
            "Y register was not incremented correctly"
        );

        assert_eq!(cpu.p.z(), expected_y == 0, "Zero flag mismatch");
        assert_eq!(cpu.p.n(), expected_y & BIT_7 != 0, "Negative flag mismatch");

        verify.check_nz(cpu.p, expected_y);
    });
}
