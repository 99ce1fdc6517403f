use nesium_core::addressing::Addressing;
use nesium_core::cpu::{Cpu, CpuBus};
use nesium_core::cycle::{b, c, n, Cycle};
use nesium_core::instruction::Instruction;
use nesium_core::lookup::lookup;
use nesium_core::micro_op::arith::{
    adc_absolute_x, adc_immediate, dcp_zero_page, isc_absolute, slo_indirect_y, xaa_immediate,
};
use nesium_core::micro_op::load::{
    las_absolute_y, sax_zero_page, shx_absolute_y, shy_absolute_x, sta_absolute_x, stx_zero_page_y,
    sty_absolute,
};
use nesium_core::micro_op::shift::{asl_accumulator, asl_zero_page, ror_absolute_x};
use nesium_core::micro_op::stack::{pha_implied, php_implied, pla_implied, plp_implied};
use nesium_core::micro_op::trans::{shs_absolute_y, tay_implied, tsx_implied, txa_implied, txs_implied};
use nesium_core::micro_op::names::Label;
use nesium_core::micro_op::{MicroFn, MicroOp};
use nesium_core::mnemonic::Mnemonic;
use nesium_core::status::Status;
use nesium_core::timing::{timing, Timing};

/// A CPU at `pc` with the given registers and flags, and a bus whose memory
/// `mem_setup` has filled in.
fn setup(pc: u16, a: u8, x: u8, y: u8, p: u8, mem_setup: impl FnOnce(&mut CpuBus)) -> (Cpu, CpuBus) {
    let mut bus = CpuBus::new();
    mem_setup(&mut bus);
    let mut cpu = Cpu::new();
    cpu.pc = pc;
    cpu.a = a;
    cpu.x = x;
    cpu.y = y;
    cpu.p = Status::from_bits_truncate(p);
    (cpu, bus)
}

#[test]
fn adc_immediate_binary_sets_carry_and_overflow() {
    // $50 + $50 = $A0: signed overflow, no carry.
    let (mut cpu, mut bus) = setup(0x8000, 0x50, 0, 0, 0, |m| m.mem[0x8001] = 0x50);
    cpu.test_clock(&mut bus, &adc_immediate());
    assert_eq!(cpu.a, 0xA0);
    assert!(cpu.p.v());
    assert!(!cpu.p.c());
    assert!(cpu.p.n());
    assert_eq!(cpu.pc, 0x8002);

    // $FF + $01 + C = $01 with carry out.
    let (mut cpu, mut bus) = setup(0x8000, 0xFF, 0, 0, Status::CARRY, |m| m.mem[0x8001] = 0x01);
    cpu.test_clock(&mut bus, &adc_immediate());
    assert_eq!(cpu.a, 0x01);
    assert!(cpu.p.c());
    assert!(!cpu.p.v());
}

#[test]
fn adc_immediate_ignores_decimal_flag() {
    // D has no effect on the NES CPU: $09 + $01 = $0A, not BCD $10.
    let (mut cpu, mut bus) = setup(0x8000, 0x09, 0, 0, Status::DECIMAL, |m| m.mem[0x8001] = 0x01);
    cpu.test_clock(&mut bus, &adc_immediate());
    assert_eq!(cpu.a, 0x0A);
    assert!(!cpu.p.c() && !cpu.p.z() && !cpu.p.n() && !cpu.p.v());
    assert!(cpu.p.d());
    // $90 + $80 = $110: binary result $10, carry and signed overflow.
    let (mut cpu, mut bus) = setup(0x8000, 0x90, 0, 0, Status::DECIMAL, |m| m.mem[0x8001] = 0x80);
    cpu.test_clock(&mut bus, &adc_immediate());
    assert_eq!(cpu.a, 0x10);
    assert!(cpu.p.c());
    assert!(cpu.p.v());
}

#[test]
fn adc_absolute_x_crosses_page() {
    let (mut cpu, mut bus) = setup(0x8000, 0x01, 0x01, 0, 0, |m| {
        m.mem[0x8001] = 0xFF;
        m.mem[0x8002] = 0x12;
        m.mem[0x1300] = 0x02;
    });
    let instr = adc_absolute_x();
    assert_eq!(instr.micro_ops.len(), 5);
    cpu.test_clock(&mut bus, &instr);
    assert_eq!(cpu.a, 0x03);
    assert!(cpu.crossed_page);
    assert_eq!(cpu.pc, 0x8003);
}

#[test]
fn dcp_zero_page_decrements_and_compares() {
    let (mut cpu, mut bus) = setup(0x8000, 0x0F, 0, 0, 0, |m| {
        m.mem[0x8001] = 0x44;
        m.mem[0x0044] = 0x10;
    });
    cpu.test_clock(&mut bus, &dcp_zero_page());
    assert_eq!(bus.read(0x0044), 0x0F);
    assert!(cpu.p.z());
    assert!(cpu.p.c());
    assert_eq!(cpu.a, 0x0F);
    assert_eq!(cpu.pc, 0x8002);
}

#[test]
fn isc_absolute_increments_and_subtracts() {
    let (mut cpu, mut bus) = setup(0x8000, 0x10, 0, 0, Status::CARRY, |m| {
        m.mem[0x8001] = 0x34;
        m.mem[0x8002] = 0x12;
        m.mem[0x1234] = 0x0F;
    });
    cpu.test_clock(&mut bus, &isc_absolute());
    assert_eq!(bus.read(0x1234), 0x10);
    assert_eq!(cpu.a, 0x00);
    assert!(cpu.p.z());
    assert!(cpu.p.c());
    assert_eq!(cpu.pc, 0x8003);
}

#[test]
fn slo_indirect_y_shifts_and_ors() {
    let (mut cpu, mut bus) = setup(0x8000, 0x01, 0, 0x02, 0, |m| {
        m.mem[0x8001] = 0x20;
        m.mem[0x0020] = 0x00;
        m.mem[0x0021] = 0x30;
        m.mem[0x3002] = 0x81;
    });
    cpu.test_clock(&mut bus, &slo_indirect_y());
    assert_eq!(bus.read(0x3002), 0x02);
    assert!(cpu.p.c());
    assert_eq!(cpu.a, 0x03);
}

#[test]
fn xaa_immediate_uses_the_magic_constant() {
    let (mut cpu, mut bus) = setup(0x8000, 0xFF, 0x0F, 0, 0, |m| m.mem[0x8001] = 0xF3);
    cpu.test_clock(&mut bus, &xaa_immediate());
    assert_eq!(cpu.a, 0x0F & (0xFF | 0xEE) & 0xF3);
    assert_eq!(cpu.pc, 0x8002);
}

#[test]
fn las_absolute_y_ands_with_s() {
    let (mut cpu, mut bus) = setup(0x8000, 0, 0, 0x10, 0, |m| {
        m.mem[0x8001] = 0x00;
        m.mem[0x8002] = 0x20;
        m.mem[0x2010] = 0xF5;
    });
    cpu.s = 0x3C;
    cpu.test_clock(&mut bus, &las_absolute_y());
    assert_eq!(cpu.a, 0x34);
    assert_eq!(cpu.x, 0x34);
    assert_eq!(cpu.s, 0x34);
}

#[test]
fn stores_write_their_register() {
    let (mut cpu, mut bus) = setup(0x8000, 0x5A, 0x01, 0x77, 0, |m| {
        m.mem[0x8001] = 0xFF;
        m.mem[0x8002] = 0x20;
    });
    cpu.test_clock(&mut bus, &sta_absolute_x());
    assert_eq!(bus.read(0x2100), 0x5A);
    assert_eq!(cpu.pc, 0x8003);

    let (mut cpu, mut bus) = setup(0x8000, 0, 0x99, 0xFF, 0, |m| m.mem[0x8001] = 0x02);
    cpu.test_clock(&mut bus, &stx_zero_page_y());
    // The zero-page index wraps: $02 + $FF = $01.
    assert_eq!(bus.read(0x0001), 0x99);

    let (mut cpu, mut bus) = setup(0x8000, 0, 0, 0x42, 0, |m| {
        m.mem[0x8001] = 0x00;
        m.mem[0x8002] = 0x03;
    });
    cpu.test_clock(&mut bus, &sty_absolute());
    assert_eq!(bus.read(0x0300), 0x42);

    let (mut cpu, mut bus) = setup(0x8000, 0xF0, 0x3C, 0, 0, |m| m.mem[0x8001] = 0x10);
    cpu.test_clock(&mut bus, &sax_zero_page());
    assert_eq!(bus.read(0x0010), 0x30);
}

#[test]
fn masked_stores_use_high_byte_plus_one() {
    let (mut cpu, mut bus) = setup(0x8000, 0, 0xFF, 0x01, 0, |m| {
        m.mem[0x8001] = 0x10;
        m.mem[0x8002] = 0x05;
    });
    cpu.test_clock(&mut bus, &shx_absolute_y());
    assert_eq!(bus.read(0x0511), 0xFF & 0x06);

    let (mut cpu, mut bus) = setup(0x8000, 0, 0x02, 0xFF, 0, |m| {
        m.mem[0x8001] = 0x10;
        m.mem[0x8002] = 0x07;
    });
    cpu.test_clock(&mut bus, &shy_absolute_x());
    assert_eq!(bus.read(0x0712), 0xFF & 0x08);

    let (mut cpu, mut bus) = setup(0x8000, 0xF3, 0x3F, 0x01, 0, |m| {
        m.mem[0x8001] = 0x00;
        m.mem[0x8002] = 0x01;
    });
    cpu.test_clock(&mut bus, &shs_absolute_y());
    assert_eq!(cpu.s, 0x33);
    assert_eq!(bus.read(0x0101), 0x33 & 0x02);
}

#[test]
fn asl_forms() {
    let (mut cpu, mut bus) = setup(0x8000, 0x81, 0, 0, 0, |_| {});
    cpu.test_clock(&mut bus, &asl_accumulator());
    assert_eq!(cpu.a, 0x02);
    assert!(cpu.p.c());
    assert_eq!(cpu.pc, 0x8001);

    let (mut cpu, mut bus) = setup(0x8000, 0, 0, 0, 0, |m| {
        m.mem[0x8001] = 0x40;
        m.mem[0x0040] = 0x40;
    });
    cpu.test_clock(&mut bus, &asl_zero_page());
    assert_eq!(bus.read(0x0040), 0x80);
    assert!(cpu.p.n());
    assert!(!cpu.p.c());
}

#[test]
fn ror_absolute_x_rotates_carry_in() {
    let (mut cpu, mut bus) = setup(0x8000, 0, 0x02, 0, Status::CARRY, |m| {
        m.mem[0x8001] = 0x00;
        m.mem[0x8002] = 0x40;
        m.mem[0x4002] = 0x01;
    });
    let instr = ror_absolute_x();
    assert_eq!(instr.micro_ops.len(), 7);
    cpu.test_clock(&mut bus, &instr);
    assert_eq!(bus.read(0x4002), 0x80);
    assert!(cpu.p.c());
    assert!(cpu.p.n());
}

#[test]
fn push_then_pull_restores_a_and_s() {
    let (mut cpu, mut bus) = setup(0x8000, 0x9C, 0, 0, 0, |_| {});
    cpu.s = 0xFD;
    cpu.test_clock(&mut bus, &pha_implied());
    assert_eq!(cpu.s, 0xFC);
    assert_eq!(bus.read(0x01FD), 0x9C);
    cpu.a = 0;
    cpu.test_clock(&mut bus, &pla_implied());
    assert_eq!(cpu.a, 0x9C);
    assert_eq!(cpu.s, 0xFD);
    assert!(cpu.p.n());
    assert_eq!(cpu.pc, 0x8002);
}

#[test]
fn push_then_pull_status_clears_b_and_u() {
    let (mut cpu, mut bus) = setup(0x8000, 0, 0, 0, Status::CARRY | Status::OVERFLOW, |_| {});
    cpu.test_clock(&mut bus, &php_implied());
    assert_eq!(bus.read(0x01FD), Status::CARRY | Status::OVERFLOW | Status::BREAK | Status::UNUSED);
    cpu.p = Status::empty();
    cpu.test_clock(&mut bus, &plp_implied());
    assert_eq!(cpu.p, Status::from_bits_truncate(Status::CARRY | Status::OVERFLOW));
    assert_eq!(cpu.s, 0xFD);
}

#[test]
fn transfer_programs() {
    let (mut cpu, mut bus) = setup(0x8000, 0x80, 0x00, 0x11, 0, |_| {});
    cpu.test_clock(&mut bus, &tay_implied());
    assert_eq!(cpu.y, 0x80);
    assert!(cpu.p.n());
    cpu.test_clock(&mut bus, &txa_implied());
    assert_eq!(cpu.a, 0x00);
    assert!(cpu.p.z());
    cpu.x = 0x42;
    cpu.test_clock(&mut bus, &txs_implied());
    assert_eq!(cpu.s, 0x42);
    cpu.x = 0;
    cpu.test_clock(&mut bus, &tsx_implied());
    assert_eq!(cpu.x, 0x42);
    assert_eq!(cpu.pc, 0x8004);
}

#[test]
fn mnemonic_micro_ops_are_its_execute_cycles() {
    let ops = Mnemonic::PLA.micro_ops();
    assert_eq!(ops.len(), 3);
    assert_eq!(ops[2], MicroOp { micro_fn: MicroFn::Exec(Mnemonic::PLA, 2), label: Label::Standard });
    assert_eq!(Mnemonic::JMP.micro_ops().len(), 0);
}

#[test]
fn opcode_is_the_first_table_entry() {
    assert_eq!(Instruction::lda(Addressing::Immediate).opcode(), 0xA9);
    assert_eq!(Instruction::sta(Addressing::AbsoluteX).opcode(), 0x9D);
    // NOP implied appears several times; the first is $1A.
    let nop = lookup(0xEA);
    assert_eq!(lookup(nop.opcode()), nop);
    assert!(nop.opcode() <= 0xEA);
    for op in 0..=255u8 {
        let instr = lookup(op);
        let first = instr.opcode();
        assert!(first <= op);
        assert_eq!(lookup(first), instr);
    }
}

#[test]
fn cycle_classes() {
    assert_eq!(Instruction::lda(Addressing::AbsoluteX).cycle(), Timing::PageCross(4));
    assert_eq!(Instruction::sta(Addressing::AbsoluteX).cycle(), Timing::Fixed(5));
    assert_eq!(timing(0xD0), Timing::Branch(2));
    assert_eq!(timing(0xD0).total_cycles(true, true), 4);
    assert_eq!(timing(0xD0).total_cycles(false, true), 3);
    assert_eq!(timing(0xBD).total_cycles(true, false), 5);
    assert_eq!(timing(0x9D).total_cycles(true, false), 5);
}

#[test]
fn cycle_totals() {
    assert_eq!(n(3), Cycle::Normal(3));
    assert_eq!(n(3).total_cycle(true, true), 3);
    assert_eq!(c(4).total_cycle(true, false), 5);
    assert_eq!(c(4).total_cycle(false, false), 4);
    assert_eq!(b(2).basic_cycle(), 2);
    assert_eq!(b(2).total_cycle(false, true), 3);
    assert_eq!(b(2).total_cycle(true, true), 4);
}

#[test]
fn addressing_labels() {
    assert_eq!(Addressing::AbsoluteX.to_str(), "abs,X");
    assert_eq!(Addressing::IndirectY.to_str(), "(zp),Y");
    assert_eq!(Addressing::Immediate.to_str(), "#");
    assert_eq!(Addressing::Relative.to_str(), "rel");
}

#[test]
fn status_flag_updates() {
    let mut p = Status::empty();
    p.set_zn(0);
    assert!(p.z() && !p.n());
    p.set_zn(0x80);
    assert!(!p.z() && p.n());
    p.insert(Status::CARRY | Status::DECIMAL);
    assert!(p.c() && p.d());
    p.remove(Status::CARRY);
    assert!(!p.c() && p.d());
    assert_eq!(p.bits(), Status::NEGATIVE | Status::DECIMAL);
}

#[test]
fn instruction_cycles_load_and_store() {
    let instr = Instruction::lda(Addressing::IndirectX);
    // PC is on the operand byte: the opcode has been fetched.
    let (mut cpu, mut bus) = setup(0x8001, 0, 0x04, 0, 0, |m| {
        m.mem[0x8001] = 0xFE;
        m.mem[0x0002] = 0x34;
        m.mem[0x0003] = 0x12;
        m.mem[0x1234] = 0x80;
    });
    for step in 0..instr.len() {
        instr.exec(&mut cpu, &mut bus, step);
    }
    assert_eq!(cpu.a, 0x80);
    assert!(cpu.p.n());
    assert_eq!(cpu.pc, 0x8002);

    let instr = Instruction::sty(Addressing::ZeroPageX);
    let (mut cpu, mut bus) = setup(0x8001, 0, 0x10, 0x66, 0, |m| m.mem[0x8001] = 0xF8);
    for step in 0..instr.len() {
        instr.exec(&mut cpu, &mut bus, step);
    }
    assert_eq!(bus.read(0x0008), 0x66);
    assert_eq!(cpu.pc, 0x8002);
}

#[test]
fn indirect_x_pointer_wraps_in_page_zero() {
    let instr = nesium_core::micro_op::load::lda_indirect_x();
    let (mut cpu, mut bus) = setup(0x9000, 0, 0x05, 0, 0, |m| {
        m.mem[0x9001] = 0xFA;
        m.mem[0x00FF] = 0x11;
        m.mem[0x0000] = 0x22;
        m.mem[0x2211] = 0x33;
    });
    cpu.test_clock(&mut bus, &instr);
    assert_eq!(cpu.a, 0x33);
    assert_eq!(cpu.pc, 0x9002);
}

/// Runs every execute cycle of `mn`.
fn run_mnemonic(mn: Mnemonic, cpu: &mut Cpu, bus: &mut CpuBus) {
    for step in 0..mn.exec_len() {
        mn.exec(cpu, bus, step);
    }
}

#[test]
fn jsr_then_rts_returns_after_the_call() {
    let (mut cpu, mut bus) = setup(0x8001, 0, 0, 0, 0, |m| {
        m.mem[0x8001] = 0x00;
        m.mem[0x8002] = 0x90;
    });
    cpu.s = 0xFD;
    run_mnemonic(Mnemonic::JSR, &mut cpu, &mut bus);
    assert_eq!(cpu.pc, 0x9000);
    assert_eq!(cpu.s, 0xFB);
    assert_eq!(bus.read(0x01FD), 0x80);
    assert_eq!(bus.read(0x01FC), 0x02);
    run_mnemonic(Mnemonic::RTS, &mut cpu, &mut bus);
    assert_eq!(cpu.pc, 0x8003);
    assert_eq!(cpu.s, 0xFD);
}

#[test]
fn brk_then_rti_returns_past_the_padding_byte() {
    let (mut cpu, mut bus) = setup(0x8001, 0, 0, 0, Status::CARRY, |m| {
        m.mem[0xFFFE] = 0x00;
        m.mem[0xFFFF] = 0xA0;
    });
    cpu.s = 0xFD;
    run_mnemonic(Mnemonic::BRK, &mut cpu, &mut bus);
    assert_eq!(cpu.pc, 0xA000);
    assert_eq!(cpu.s, 0xFA);
    assert!(cpu.p.i());
    assert_eq!(bus.read(0x01FD), 0x80);
    assert_eq!(bus.read(0x01FC), 0x02);
    assert_eq!(bus.read(0x01FB), Status::CARRY | Status::BREAK | Status::UNUSED);
    run_mnemonic(Mnemonic::RTI, &mut cpu, &mut bus);
    assert_eq!(cpu.pc, 0x8002);
    assert_eq!(cpu.s, 0xFD);
    assert_eq!(cpu.p, Status::from_bits_truncate(Status::CARRY));
}

#[test]
fn memory_shifts_ignore_the_latched_opcode() {
    // Even with the accumulator form's opcode latched, the memory form shifts memory.
    let (mut cpu, mut bus) = setup(0x8000, 0x11, 0x02, 0, Status::CARRY, |m| {
        m.mem[0x8001] = 0x00;
        m.mem[0x8002] = 0x40;
        m.mem[0x4002] = 0x01;
    });
    cpu.opcode_in_flight = Some(0x6A);
    cpu.test_clock(&mut bus, &ror_absolute_x());
    assert_eq!(bus.read(0x4002), 0x80);
    assert_eq!(cpu.a, 0x11);
    assert!(cpu.p.c() && cpu.p.n());
    assert_eq!(cpu.pc, 0x8003);

    let (mut cpu, mut bus) = setup(0x8000, 0x11, 0x01, 0, 0, |m| {
        m.mem[0x8001] = 0xFF;
        m.mem[0x8002] = 0x40;
        m.mem[0x4100] = 0x41;
    });
    cpu.opcode_in_flight = Some(0x0A);
    cpu.test_clock(&mut bus, &nesium_core::micro_op::shift::asl_absolute_x());
    assert_eq!(bus.read(0x4100), 0x82);
    assert_eq!(cpu.a, 0x11);
    assert!(!cpu.p.c() && cpu.p.n() && !cpu.p.z());
}

#[test]
fn every_opcode_covers_its_longest_cycle_count() {
    for op in 0..=255u8 {
        let instr = lookup(op);
        assert!(1 + instr.len() as usize >= timing(op).total_cycles(true, true), "opcode {op:#04x}");
    }
    assert_eq!(1 + lookup(0xBD).len() as usize, timing(0xBD).total_cycles(true, true));
}

#[test]
fn micro_op_names() {
    let instr = adc_absolute_x();
    let names: Vec<&str> = instr.micro_ops.iter().map(|op| op.name()).collect();
    assert_eq!(names, ["inc_pc", "fetch_lo", "fetch_hi_add_x", "adc_mem", "extra_cycle_if_crossed"]);
    assert_eq!(dcp_zero_page().micro_ops[3].name(), "dcp_rmw_decrement");
    let names: Vec<&str> = ror_absolute_x().micro_ops.iter().map(|op| op.name()).collect();
    assert_eq!(
        names,
        [
            "inc_pc",
            "fetch_lo",
            "fetch_hi_add_x",
            "read_old_value",
            "write_old_value",
            "extra_cycle_if_crossed",
            "ror_and_write",
        ]
    );
    let names: Vec<&str> = nesium_core::micro_op::load::lda_absolute_x()
        .micro_ops
        .iter()
        .map(|op| op.name())
        .collect();
    assert_eq!(
        names,
        [
            "advance_pc_after_opcode",
            "fetch_abs_addr_lo",
            "fetch_abs_addr_hi_add_x",
            "dummy_read_cross_x",
            "lda",
        ]
    );
}

#[test]
fn execute_cycles_carry_the_mnemonic_names() {
    let names: Vec<&str> = Mnemonic::RRA.micro_ops().iter().map(|op| op.name()).collect();
    assert_eq!(names, ["rra_read_old", "rra_dummy_write_ror_calc", "rra_final_write_adc_exec"]);
    let names: Vec<&str> = Mnemonic::BCC.micro_ops().iter().map(|op| op.name()).collect();
    assert_eq!(names, ["bcc_fetch_branch_offset", "bcc_add_branch_offset", "bcc_add_dummy_read"]);
    assert_eq!(Mnemonic::TAX.micro_ops()[0].name(), "tax");
}

#[test]
fn both_models_add_alike() {
    let (mut cpu, mut bus) = setup(0x8000, 0x7F, 0, 0, Status::CARRY, |m| {
        m.mem[0x8001] = 0x34;
        m.mem[0x8002] = 0x12;
        m.mem[0x1234] = 0x01;
    });
    let (mut cpu2, mut bus2) = (cpu, CpuBus::new());
    bus2.mem.copy_from_slice(&bus.mem);
    cpu.test_clock(&mut bus, &nesium_core::micro_op::arith::adc_absolute());
    cpu2.pc = 0x8001;
    let instr = Instruction::adc(Addressing::Absolute);
    for step in 0..instr.len() {
        instr.exec(&mut cpu2, &mut bus2, step);
    }
    assert_eq!(cpu.a, 0x81);
    assert_eq!((cpu.a, cpu.p, cpu.pc), (cpu2.a, cpu2.p, cpu2.pc));
}

/// Runs the first `n` cycles of `instr` (addressing, then execute).
fn run_first(instr: &Instruction, cpu: &mut Cpu, bus: &mut CpuBus, n: u8) {
    for step in 0..n {
        instr.exec(cpu, bus, step);
    }
}

#[test]
fn page_crossing_decides_the_skipped_fixup_cycle() {
    let instr = lookup(0xBD);
    // $1234 + $01: same page, the fix-up cycle is skipped: 4 cycles.
    let (mut cpu, mut bus) = setup(0x8001, 0, 0x01, 0, 0, |m| {
        m.mem[0x8001] = 0x34;
        m.mem[0x8002] = 0x12;
    });
    cpu.opcode_in_flight = Some(0xBD);
    run_first(&instr, &mut cpu, &mut bus, instr.addr_len());
    assert!(!cpu.crossed_page);
    assert_eq!(cpu.skip_cycles, 1);
    assert_eq!(1 + instr.len() as usize - cpu.skip_cycles as usize, timing(0xBD).total_cycles(false, false));
    // $12FF + $01: page crossed, nothing skipped: 5 cycles.
    let (mut cpu, mut bus) = setup(0x8001, 0, 0x01, 0, 0, |m| {
        m.mem[0x8001] = 0xFF;
        m.mem[0x8002] = 0x12;
    });
    cpu.opcode_in_flight = Some(0xBD);
    run_first(&instr, &mut cpu, &mut bus, instr.addr_len());
    assert!(cpu.crossed_page);
    assert_eq!(cpu.skip_cycles, 0);
    assert_eq!(1 + instr.len() as usize - cpu.skip_cycles as usize, timing(0xBD).total_cycles(true, false));
}

#[test]
fn branch_cycles_follow_the_table() {
    let instr = lookup(0xD0); // BNE
    // Not taken (Z set): two cycles.
    let (mut cpu, mut bus) = setup(0x8001, 0, 0, 0, Status::ZERO, |m| m.mem[0x8001] = 0x10);
    cpu.opcode_in_flight = Some(0xD0);
    run_first(&instr, &mut cpu, &mut bus, 1);
    assert_eq!(cpu.skip_cycles, 2);
    assert_eq!(1 + instr.len() as usize - cpu.skip_cycles as usize, timing(0xD0).total_cycles(false, false));
    // Taken, same page: three cycles.
    let (mut cpu, mut bus) = setup(0x8001, 0, 0, 0, 0, |m| m.mem[0x8001] = 0x10);
    cpu.opcode_in_flight = Some(0xD0);
    run_first(&instr, &mut cpu, &mut bus, 2);
    assert_eq!(cpu.pc, 0x8012);
    assert_eq!(cpu.skip_cycles, 1);
    assert_eq!(1 + instr.len() as usize - cpu.skip_cycles as usize, timing(0xD0).total_cycles(false, true));
    // Taken backwards across a page: four cycles.
    let (mut cpu, mut bus) = setup(0x8001, 0, 0, 0, 0, |m| m.mem[0x8001] = 0xF0);
    cpu.opcode_in_flight = Some(0xD0);
    run_first(&instr, &mut cpu, &mut bus, 2);
    assert_eq!(cpu.pc, 0x7FF2);
    assert_eq!(cpu.skip_cycles, 0);
    assert_eq!(1 + instr.len() as usize - cpu.skip_cycles as usize, timing(0xD0).total_cycles(true, true));
}
