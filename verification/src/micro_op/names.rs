//! The names of micro-operations.

use vstd::prelude::*;

use crate::micro_op::MicroFn;
use crate::mnemonic::Mnemonic;

verus! {

/// The name a builder gives one of its cycles; `Standard` takes the name of
/// what the cycle does.
#[derive(Clone, Copy, PartialEq, Eq, Structural, Debug, Hash)]
pub enum Label {
    /// The name of the micro-function.
    Standard,
    /// `adc_imm`.
    AdcImm,
    /// `adc_mem`.
    AdcMem,
    /// `add_x`.
    AddX,
    /// `add_x_discard`.
    AddXDiscard,
    /// `add_x_dummy`.
    AddXDummy,
    /// `add_x_zp_wrap`.
    AddXZpWrap,
    /// `and_imm`.
    AndImm,
    /// `and_mem`.
    AndMem,
    /// `asl_a`.
    AslA,
    /// `asl_and_write`.
    AslAndWrite,
    /// `bit_test`.
    BitTest,
    /// `dcp_compare_a`.
    DcpCompareA,
    /// `dcp_rmw_decrement`.
    DcpRmwDecrement,
    /// `decrement_s`.
    DecrementS,
    /// `dummy_read_base`.
    DummyReadBase,
    /// `dummy_read_cross`.
    DummyReadCross,
    /// `extra_cycle_if_crossed`.
    ExtraCycleIfCrossed,
    /// `fetch_and_lax`.
    FetchAndLax,
    /// `fetch_and_ldx`.
    FetchAndLdx,
    /// `fetch_and_ldy`.
    FetchAndLdy,
    /// `fetch_base`.
    FetchBase,
    /// `fetch_hi`.
    FetchHi,
    /// `fetch_hi_add_x`.
    FetchHiAddX,
    /// `fetch_hi_add_y`.
    FetchHiAddY,
    /// `fetch_hi_and_s`.
    FetchHiAndS,
    /// `fetch_hi_calc_addr`.
    FetchHiCalcAddr,
    /// `fetch_hi_calc_v`.
    FetchHiCalcV,
    /// `fetch_lo`.
    FetchLo,
    /// `fetch_zp`.
    FetchZp,
    /// `fetch_zp_addr`.
    FetchZpAddr,
    /// `fetch_zp_ptr`.
    FetchZpPtr,
    /// `inc_pc`.
    IncPc,
    /// `increment_s`.
    IncrementS,
    /// `isc_rmw_increment`.
    IscRmwIncrement,
    /// `isc_subtract_with_carry`.
    IscSubtractWithCarry,
    /// `load_a_and_flags`.
    LoadAAndFlags,
    /// `load_p`.
    LoadP,
    /// `push_a`.
    PushA,
    /// `push_p`.
    PushP,
    /// `read_abs_for_rmw`.
    ReadAbsForRmw,
    /// `read_abs_x_for_rmw`.
    ReadAbsXForRmw,
    /// `read_abs_y_for_rmw`.
    ReadAbsYForRmw,
    /// `read_and_las`.
    ReadAndLas,
    /// `read_and_lax`.
    ReadAndLax,
    /// `read_and_ldx`.
    ReadAndLdx,
    /// `read_and_ldy`.
    ReadAndLdy,
    /// `read_from_stack`.
    ReadFromStack,
    /// `read_hi`.
    ReadHi,
    /// `read_hi_calc_addr`.
    ReadHiCalcAddr,
    /// `read_ind_x_for_rmw`.
    ReadIndXForRmw,
    /// `read_ind_y_for_rmw`.
    ReadIndYForRmw,
    /// `read_lo`.
    ReadLo,
    /// `read_lo_calc_v`.
    ReadLoCalcV,
    /// `read_old_value`.
    ReadOldValue,
    /// `read_zp_for_rmw`.
    ReadZpForRmw,
    /// `read_zp_x_for_rmw`.
    ReadZpXForRmw,
    /// `ror_a`.
    RorA,
    /// `ror_and_write`.
    RorAndWrite,
    /// `slo_or_with_a`.
    SloOrWithA,
    /// `slo_rmw_shift_left`.
    SloRmwShiftLeft,
    /// `transfer_and_flags`.
    TransferAndFlags,
    /// `transfer_to_s`.
    TransferToS,
    /// `write_a`.
    WriteA,
    /// `write_and`.
    WriteAnd,
    /// `write_old_value`.
    WriteOldValue,
    /// `write_sha`.
    WriteSha,
    /// `write_shs`.
    WriteShs,
    /// `write_shx`.
    WriteShx,
    /// `write_shy`.
    WriteShy,
    /// `write_x`.
    WriteX,
    /// `write_y`.
    WriteY,
    /// `xaa_abs`.
    XaaAbs,
    /// `xaa_abs_y`.
    XaaAbsY,
    /// `xaa_immediate`.
    XaaImmediate,
    /// `xaa_ind_x`.
    XaaIndX,
    /// `xaa_zp`.
    XaaZp,
    /// `xaa_zp_y`.
    XaaZpY,
}

impl Label {
    /// The name this label gives, if it is not `Standard`.
    pub open spec fn text_spec(self) -> Seq<char> {
        match self {
            Label::Standard => ""@,
            Label::AdcImm => "adc_imm"@,
            Label::AdcMem => "adc_mem"@,
            Label::AddX => "add_x"@,
            Label::AddXDiscard => "add_x_discard"@,
            Label::AddXDummy => "add_x_dummy"@,
            Label::AddXZpWrap => "add_x_zp_wrap"@,
            Label::AndImm => "and_imm"@,
            Label::AndMem => "and_mem"@,
            Label::AslA => "asl_a"@,
            Label::AslAndWrite => "asl_and_write"@,
            Label::BitTest => "bit_test"@,
            Label::DcpCompareA => "dcp_compare_a"@,
            Label::DcpRmwDecrement => "dcp_rmw_decrement"@,
            Label::DecrementS => "decrement_s"@,
            Label::DummyReadBase => "dummy_read_base"@,
            Label::DummyReadCross => "dummy_read_cross"@,
            Label::ExtraCycleIfCrossed => "extra_cycle_if_crossed"@,
            Label::FetchAndLax => "fetch_and_lax"@,
            Label::FetchAndLdx => "fetch_and_ldx"@,
            Label::FetchAndLdy => "fetch_and_ldy"@,
            Label::FetchBase => "fetch_base"@,
            Label::FetchHi => "fetch_hi"@,
            Label::FetchHiAddX => "fetch_hi_add_x"@,
            Label::FetchHiAddY => "fetch_hi_add_y"@,
            Label::FetchHiAndS => "fetch_hi_and_s"@,
            Label::FetchHiCalcAddr => "fetch_hi_calc_addr"@,
            Label::FetchHiCalcV => "fetch_hi_calc_v"@,
            Label::FetchLo => "fetch_lo"@,
            Label::FetchZp => "fetch_zp"@,
            Label::FetchZpAddr => "fetch_zp_addr"@,
            Label::FetchZpPtr => "fetch_zp_ptr"@,
            Label::IncPc => "inc_pc"@,
            Label::IncrementS => "increment_s"@,
            Label::IscRmwIncrement => "isc_rmw_increment"@,
            Label::IscSubtractWithCarry => "isc_subtract_with_carry"@,
            Label::LoadAAndFlags => "load_a_and_flags"@,
            Label::LoadP => "load_p"@,
            Label::PushA => "push_a"@,
            Label::PushP => "push_p"@,
            Label::ReadAbsForRmw => "read_abs_for_rmw"@,
            Label::ReadAbsXForRmw => "read_abs_x_for_rmw"@,
            Label::ReadAbsYForRmw => "read_abs_y_for_rmw"@,
            Label::ReadAndLas => "read_and_las"@,
            Label::ReadAndLax => "read_and_lax"@,
            Label::ReadAndLdx => "read_and_ldx"@,
            Label::ReadAndLdy => "read_and_ldy"@,
            Label::ReadFromStack => "read_from_stack"@,
            Label::ReadHi => "read_hi"@,
            Label::ReadHiCalcAddr => "read_hi_calc_addr"@,
            Label::ReadIndXForRmw => "read_ind_x_for_rmw"@,
            Label::ReadIndYForRmw => "read_ind_y_for_rmw"@,
            Label::ReadLo => "read_lo"@,
            Label::ReadLoCalcV => "read_lo_calc_v"@,
            Label::ReadOldValue => "read_old_value"@,
            Label::ReadZpForRmw => "read_zp_for_rmw"@,
            Label::ReadZpXForRmw => "read_zp_x_for_rmw"@,
            Label::RorA => "ror_a"@,
            Label::RorAndWrite => "ror_and_write"@,
            Label::SloOrWithA => "slo_or_with_a"@,
            Label::SloRmwShiftLeft => "slo_rmw_shift_left"@,
            Label::TransferAndFlags => "transfer_and_flags"@,
            Label::TransferToS => "transfer_to_s"@,
            Label::WriteA => "write_a"@,
            Label::WriteAnd => "write_and"@,
            Label::WriteOldValue => "write_old_value"@,
            Label::WriteSha => "write_sha"@,
            Label::WriteShs => "write_shs"@,
            Label::WriteShx => "write_shx"@,
            Label::WriteShy => "write_shy"@,
            Label::WriteX => "write_x"@,
            Label::WriteY => "write_y"@,
            Label::XaaAbs => "xaa_abs"@,
            Label::XaaAbsY => "xaa_abs_y"@,
            Label::XaaImmediate => "xaa_immediate"@,
            Label::XaaIndX => "xaa_ind_x"@,
            Label::XaaZp => "xaa_zp"@,
            Label::XaaZpY => "xaa_zp_y"@,
        }
    }

    /// The name this label gives (empty for `Standard`).
    pub fn text(&self) -> (r: &'static str)
        ensures
            r@ == self.text_spec(),
    {
        match self {
            Label::Standard => "",
            Label::AdcImm => "adc_imm",
            Label::AdcMem => "adc_mem",
            Label::AddX => "add_x",
            Label::AddXDiscard => "add_x_discard",
            Label::AddXDummy => "add_x_dummy",
            Label::AddXZpWrap => "add_x_zp_wrap",
            Label::AndImm => "and_imm",
            Label::AndMem => "and_mem",
            Label::AslA => "asl_a",
            Label::AslAndWrite => "asl_and_write",
            Label::BitTest => "bit_test",
            Label::DcpCompareA => "dcp_compare_a",
            Label::DcpRmwDecrement => "dcp_rmw_decrement",
            Label::DecrementS => "decrement_s",
            Label::DummyReadBase => "dummy_read_base",
            Label::DummyReadCross => "dummy_read_cross",
            Label::ExtraCycleIfCrossed => "extra_cycle_if_crossed",
            Label::FetchAndLax => "fetch_and_lax",
            Label::FetchAndLdx => "fetch_and_ldx",
            Label::FetchAndLdy => "fetch_and_ldy",
            Label::FetchBase => "fetch_base",
            Label::FetchHi => "fetch_hi",
            Label::FetchHiAddX => "fetch_hi_add_x",
            Label::FetchHiAddY => "fetch_hi_add_y",
            Label::FetchHiAndS => "fetch_hi_and_s",
            Label::FetchHiCalcAddr => "fetch_hi_calc_addr",
            Label::FetchHiCalcV => "fetch_hi_calc_v",
            Label::FetchLo => "fetch_lo",
            Label::FetchZp => "fetch_zp",
            Label::FetchZpAddr => "fetch_zp_addr",
            Label::FetchZpPtr => "fetch_zp_ptr",
            Label::IncPc => "inc_pc",
            Label::IncrementS => "increment_s",
            Label::IscRmwIncrement => "isc_rmw_increment",
            Label::IscSubtractWithCarry => "isc_subtract_with_carry",
            Label::LoadAAndFlags => "load_a_and_flags",
            Label::LoadP => "load_p",
            Label::PushA => "push_a",
            Label::PushP => "push_p",
            Label::ReadAbsForRmw => "read_abs_for_rmw",
            Label::ReadAbsXForRmw => "read_abs_x_for_rmw",
            Label::ReadAbsYForRmw => "read_abs_y_for_rmw",
            Label::ReadAndLas => "read_and_las",
            Label::ReadAndLax => "read_and_lax",
            Label::ReadAndLdx => "read_and_ldx",
            Label::ReadAndLdy => "read_and_ldy",
            Label::ReadFromStack => "read_from_stack",
            Label::ReadHi => "read_hi",
            Label::ReadHiCalcAddr => "read_hi_calc_addr",
            Label::ReadIndXForRmw => "read_ind_x_for_rmw",
            Label::ReadIndYForRmw => "read_ind_y_for_rmw",
            Label::ReadLo => "read_lo",
            Label::ReadLoCalcV => "read_lo_calc_v",
            Label::ReadOldValue => "read_old_value",
            Label::ReadZpForRmw => "read_zp_for_rmw",
            Label::ReadZpXForRmw => "read_zp_x_for_rmw",
            Label::RorA => "ror_a",
            Label::RorAndWrite => "ror_and_write",
            Label::SloOrWithA => "slo_or_with_a",
            Label::SloRmwShiftLeft => "slo_rmw_shift_left",
            Label::TransferAndFlags => "transfer_and_flags",
            Label::TransferToS => "transfer_to_s",
            Label::WriteA => "write_a",
            Label::WriteAnd => "write_and",
            Label::WriteOldValue => "write_old_value",
            Label::WriteSha => "write_sha",
            Label::WriteShs => "write_shs",
            Label::WriteShx => "write_shx",
            Label::WriteShy => "write_shy",
            Label::WriteX => "write_x",
            Label::WriteY => "write_y",
            Label::XaaAbs => "xaa_abs",
            Label::XaaAbsY => "xaa_abs_y",
            Label::XaaImmediate => "xaa_immediate",
            Label::XaaIndX => "xaa_ind_x",
            Label::XaaZp => "xaa_zp",
            Label::XaaZpY => "xaa_zp_y",
        }
    }
}

/// The name of execute cycle `step` of `mn` (the last one's name for a later step).
pub open spec fn exec_name_spec(mn: Mnemonic, step: u8) -> Seq<char> {
    match mn {
            Mnemonic::LAS => "las"@,
            Mnemonic::LAX => "lax"@,
            Mnemonic::LDA => "lda"@,
            Mnemonic::LDX => "ldx"@,
            Mnemonic::LDY => "ldy"@,
            Mnemonic::SAX => "sax"@,
            Mnemonic::SHA => "sha"@,
            Mnemonic::SHX => "shx"@,
            Mnemonic::SHY => "shy"@,
            Mnemonic::STA => "sta"@,
            Mnemonic::STX => "stx"@,
            Mnemonic::STY => "sty"@,
            Mnemonic::SHS => "shs"@,
            Mnemonic::TAX => "tax"@,
            Mnemonic::TAY => "tay"@,
            Mnemonic::TSX => "tsx"@,
            Mnemonic::TXA => "txa"@,
            Mnemonic::TXS => "txs"@,
            Mnemonic::TYA => "tya"@,
            Mnemonic::PHA => if step == 0 {
                    "pha_dummy_read"@
                } else {
                    "pha_push_a"@
                },
            Mnemonic::PHP => if step == 0 {
                    "php_dummy_read"@
                } else {
                    "php_push_p"@
                },
            Mnemonic::PLA => if step == 0 {
                    "pla_dummy_read"@
                } else if step == 1 {
                    "pla_increment_s"@
                } else {
                    "pla_pull_a"@
                },
            Mnemonic::PLP => if step == 0 {
                    "plp_dummy_read"@
                } else if step == 1 {
                    "plp_increment_s"@
                } else {
                    "plp_pull_p"@
                },
            Mnemonic::ASL => if step == 0 {
                    "asl_read_old"@
                } else if step == 1 {
                    "asl_dummy_write"@
                } else {
                    "asl_final_write"@
                },
            Mnemonic::LSR => if step == 0 {
                    "lsr_read_old"@
                } else if step == 1 {
                    "lsr_dummy_write"@
                } else {
                    "lsr_final_write"@
                },
            Mnemonic::ROL => if step == 0 {
                    "rol_read_old"@
                } else if step == 1 {
                    "rol_dummy_write"@
                } else {
                    "rol_final_write"@
                },
            Mnemonic::ROR => if step == 0 {
                    "ror_read_old"@
                } else if step == 1 {
                    "ror_dummy_write"@
                } else {
                    "ror_final_write"@
                },
            Mnemonic::AND => "and"@,
            Mnemonic::BIT => "bit"@,
            Mnemonic::EOR => "eor"@,
            Mnemonic::ORA => "ora"@,
            Mnemonic::ADC => "adc_binary"@,
            Mnemonic::ANC => "anc"@,
            Mnemonic::ARR => "arr_binary"@,
            Mnemonic::ASR => "asr"@,
            Mnemonic::CMP => "cmp"@,
            Mnemonic::CPX => "cpx"@,
            Mnemonic::CPY => "cpy"@,
            Mnemonic::DCP => if step == 0 {
                    "dcp_read_old"@
                } else if step == 1 {
                    "dcp_dummy_write_dec"@
                } else {
                    "dcp_final_write_cmp"@
                },
            Mnemonic::ISC => if step == 0 {
                    "isc_read_old"@
                } else if step == 1 {
                    "isc_dummy_write_inc"@
                } else {
                    "isc_final_write_sbc"@
                },
            Mnemonic::RLA => if step == 0 {
                    "rla_read_old"@
                } else if step == 1 {
                    "rla_dummy_write_rol"@
                } else {
                    "rla_final_write_and"@
                },
            Mnemonic::RRA => if step == 0 {
                    "rra_read_old"@
                } else if step == 1 {
                    "rra_dummy_write_ror_calc"@
                } else {
                    "rra_final_write_adc_exec"@
                },
            Mnemonic::SBC => "sbc_binary"@,
            Mnemonic::SBX => "sbx"@,
            Mnemonic::SLO => if step == 0 {
                    "slo_read_old"@
                } else if step == 1 {
                    "slo_dummy_write_asl_calc"@
                } else {
                    "slo_final_write_ora_exec"@
                },
            Mnemonic::SRE => if step == 0 {
                    "sre_read_old"@
                } else if step == 1 {
                    "sre_dummy_write_lsr_calc"@
                } else {
                    "sre_final_write_eor_exec"@
                },
            Mnemonic::XAA => "xaa"@,
            Mnemonic::DEC => if step == 0 {
                    "dec_read_old"@
                } else if step == 1 {
                    "dec_dummy_write_calc"@
                } else {
                    "dec_final_write_flags"@
                },
            Mnemonic::DEX => "dex"@,
            Mnemonic::DEY => "dey"@,
            Mnemonic::INC => if step == 0 {
                    "inc_read_old"@
                } else if step == 1 {
                    "inc_dummy_write_calc"@
                } else {
                    "inc_final_write_flags"@
                },
            Mnemonic::INX => "inx"@,
            Mnemonic::INY => "iny"@,
            Mnemonic::BRK => if step == 0 {
                    "brk_dummy_read"@
                } else if step == 1 {
                    "brk_push_pch"@
                } else if step == 2 {
                    "brk_push_pcl"@
                } else if step == 3 {
                    "brk_push_p"@
                } else if step == 4 {
                    "brk_fetch_vector_lo"@
                } else {
                    "brk_fetch_vector_hi"@
                },
            Mnemonic::JMP => "exec_step"@,
            Mnemonic::JSR => if step == 0 {
                    "jsr_fetch_lo"@
                } else if step == 1 {
                    "jsr_internal"@
                } else if step == 2 {
                    "jsr_push_pch"@
                } else if step == 3 {
                    "jsr_push_pcl"@
                } else {
                    "jsr_fetch_hi"@
                },
            Mnemonic::RTI => if step == 0 {
                    "rti_dummy_read"@
                } else if step == 1 {
                    "rti_increment_s"@
                } else if step == 2 {
                    "rti_pull_p"@
                } else if step == 3 {
                    "rti_pull_pcl"@
                } else {
                    "rti_pull_pch"@
                },
            Mnemonic::RTS => if step == 0 {
                    "rts_dummy_read"@
                } else if step == 1 {
                    "rts_increment_s"@
                } else if step == 2 {
                    "rts_pull_pcl"@
                } else if step == 3 {
                    "rts_pull_pch"@
                } else {
                    "rts_increment_pc"@
                },
            Mnemonic::BCC => if step == 0 {
                    "bcc_fetch_branch_offset"@
                } else if step == 1 {
                    "bcc_add_branch_offset"@
                } else {
                    "bcc_add_dummy_read"@
                },
            Mnemonic::BCS => if step == 0 {
                    "bcs_fetch_branch_offset"@
                } else if step == 1 {
                    "bcs_add_branch_offset"@
                } else {
                    "bcs_add_dummy_read"@
                },
            Mnemonic::BEQ => if step == 0 {
                    "beq_fetch_branch_offset"@
                } else if step == 1 {
                    "beq_add_branch_offset"@
                } else {
                    "beq_add_dummy_read"@
                },
            Mnemonic::BMI => if step == 0 {
                    "bmi_fetch_branch_offset"@
                } else if step == 1 {
                    "bmi_add_branch_offset"@
                } else {
                    "bmi_add_dummy_read"@
                },
            Mnemonic::BNE => if step == 0 {
                    "bne_fetch_branch_offset"@
                } else if step == 1 {
                    "bne_add_branch_offset"@
                } else {
                    "bne_add_dummy_read"@
                },
            Mnemonic::BPL => if step == 0 {
                    "bpl_fetch_branch_offset"@
                } else if step == 1 {
                    "bpl_add_branch_offset"@
                } else {
                    "bpl_add_dummy_read"@
                },
            Mnemonic::BVC => if step == 0 {
                    "bvc_fetch_branch_offset"@
                } else if step == 1 {
                    "bvc_add_branch_offset"@
                } else {
                    "bvc_add_dummy_read"@
                },
            Mnemonic::BVS => if step == 0 {
                    "bvs_fetch_branch_offset"@
                } else if step == 1 {
                    "bvs_add_branch_offset"@
                } else {
                    "bvs_add_dummy_read"@
                },
            Mnemonic::CLC => "clc_clear_carry"@,
            Mnemonic::CLD => "cld_clear_decimal"@,
            Mnemonic::CLI => "cli_clear_interrupt"@,
            Mnemonic::CLV => "clv_clear_overflow"@,
            Mnemonic::SEC => "sec_set_carry"@,
            Mnemonic::SED => "sed_set_decimal"@,
            Mnemonic::SEI => "sei_set_interrupt"@,
            Mnemonic::JAM => "jam"@,
            Mnemonic::NOP => "nop"@,
    }
}

/// The name of execute cycle `step` of `mn` (the last one's name for a later step).
pub fn exec_name(mn: Mnemonic, step: u8) -> (r: &'static str)
    ensures
        r@ == exec_name_spec(mn, step),
{
    match mn {
            Mnemonic::LAS => "las",
            Mnemonic::LAX => "lax",
            Mnemonic::LDA => "lda",
            Mnemonic::LDX => "ldx",
            Mnemonic::LDY => "ldy",
            Mnemonic::SAX => "sax",
            Mnemonic::SHA => "sha",
            Mnemonic::SHX => "shx",
            Mnemonic::SHY => "shy",
            Mnemonic::STA => "sta",
            Mnemonic::STX => "stx",
            Mnemonic::STY => "sty",
            Mnemonic::SHS => "shs",
            Mnemonic::TAX => "tax",
            Mnemonic::TAY => "tay",
            Mnemonic::TSX => "tsx",
            Mnemonic::TXA => "txa",
            Mnemonic::TXS => "txs",
            Mnemonic::TYA => "tya",
            Mnemonic::PHA => if step == 0 {
                    "pha_dummy_read"
                } else {
                    "pha_push_a"
                },
            Mnemonic::PHP => if step == 0 {
                    "php_dummy_read"
                } else {
                    "php_push_p"
                },
            Mnemonic::PLA => if step == 0 {
                    "pla_dummy_read"
                } else if step == 1 {
                    "pla_increment_s"
                } else {
                    "pla_pull_a"
                },
            Mnemonic::PLP => if step == 0 {
                    "plp_dummy_read"
                } else if step == 1 {
                    "plp_increment_s"
                } else {
                    "plp_pull_p"
                },
            Mnemonic::ASL => if step == 0 {
                    "asl_read_old"
                } else if step == 1 {
                    "asl_dummy_write"
                } else {
                    "asl_final_write"
                },
            Mnemonic::LSR => if step == 0 {
                    "lsr_read_old"
                } else if step == 1 {
                    "lsr_dummy_write"
                } else {
                    "lsr_final_write"
                },
            Mnemonic::ROL => if step == 0 {
                    "rol_read_old"
                } else if step == 1 {
                    "rol_dummy_write"
                } else {
                    "rol_final_write"
                },
            Mnemonic::ROR => if step == 0 {
                    "ror_read_old"
                } else if step == 1 {
                    "ror_dummy_write"
                } else {
                    "ror_final_write"
                },
            Mnemonic::AND => "and",
            Mnemonic::BIT => "bit",
            Mnemonic::EOR => "eor",
            Mnemonic::ORA => "ora",
            Mnemonic::ADC => "adc_binary",
            Mnemonic::ANC => "anc",
            Mnemonic::ARR => "arr_binary",
            Mnemonic::ASR => "asr",
            Mnemonic::CMP => "cmp",
            Mnemonic::CPX => "cpx",
            Mnemonic::CPY => "cpy",
            Mnemonic::DCP => if step == 0 {
                    "dcp_read_old"
                } else if step == 1 {
                    "dcp_dummy_write_dec"
                } else {
                    "dcp_final_write_cmp"
                },
            Mnemonic::ISC => if step == 0 {
                    "isc_read_old"
                } else if step == 1 {
                    "isc_dummy_write_inc"
                } else {
                    "isc_final_write_sbc"
                },
            Mnemonic::RLA => if step == 0 {
                    "rla_read_old"
                } else if step == 1 {
                    "rla_dummy_write_rol"
                } else {
                    "rla_final_write_and"
                },
            Mnemonic::RRA => if step == 0 {
                    "rra_read_old"
                } else if step == 1 {
                    "rra_dummy_write_ror_calc"
                } else {
                    "rra_final_write_adc_exec"
                },
            Mnemonic::SBC => "sbc_binary",
            Mnemonic::SBX => "sbx",
            Mnemonic::SLO => if step == 0 {
                    "slo_read_old"
                } else if step == 1 {
                    "slo_dummy_write_asl_calc"
                } else {
                    "slo_final_write_ora_exec"
                },
            Mnemonic::SRE => if step == 0 {
                    "sre_read_old"
                } else if step == 1 {
                    "sre_dummy_write_lsr_calc"
                } else {
                    "sre_final_write_eor_exec"
                },
            Mnemonic::XAA => "xaa",
            Mnemonic::DEC => if step == 0 {
                    "dec_read_old"
                } else if step == 1 {
                    "dec_dummy_write_calc"
                } else {
                    "dec_final_write_flags"
                },
            Mnemonic::DEX => "dex",
            Mnemonic::DEY => "dey",
            Mnemonic::INC => if step == 0 {
                    "inc_read_old"
                } else if step == 1 {
                    "inc_dummy_write_calc"
                } else {
                    "inc_final_write_flags"
                },
            Mnemonic::INX => "inx",
            Mnemonic::INY => "iny",
            Mnemonic::BRK => if step == 0 {
                    "brk_dummy_read"
                } else if step == 1 {
                    "brk_push_pch"
                } else if step == 2 {
                    "brk_push_pcl"
                } else if step == 3 {
                    "brk_push_p"
                } else if step == 4 {
                    "brk_fetch_vector_lo"
                } else {
                    "brk_fetch_vector_hi"
                },
            Mnemonic::JMP => "exec_step",
            Mnemonic::JSR => if step == 0 {
                    "jsr_fetch_lo"
                } else if step == 1 {
                    "jsr_internal"
                } else if step == 2 {
                    "jsr_push_pch"
                } else if step == 3 {
                    "jsr_push_pcl"
                } else {
                    "jsr_fetch_hi"
                },
            Mnemonic::RTI => if step == 0 {
                    "rti_dummy_read"
                } else if step == 1 {
                    "rti_increment_s"
                } else if step == 2 {
                    "rti_pull_p"
                } else if step == 3 {
                    "rti_pull_pcl"
                } else {
                    "rti_pull_pch"
                },
            Mnemonic::RTS => if step == 0 {
                    "rts_dummy_read"
                } else if step == 1 {
                    "rts_increment_s"
                } else if step == 2 {
                    "rts_pull_pcl"
                } else if step == 3 {
                    "rts_pull_pch"
                } else {
                    "rts_increment_pc"
                },
            Mnemonic::BCC => if step == 0 {
                    "bcc_fetch_branch_offset"
                } else if step == 1 {
                    "bcc_add_branch_offset"
                } else {
                    "bcc_add_dummy_read"
                },
            Mnemonic::BCS => if step == 0 {
                    "bcs_fetch_branch_offset"
                } else if step == 1 {
                    "bcs_add_branch_offset"
                } else {
                    "bcs_add_dummy_read"
                },
            Mnemonic::BEQ => if step == 0 {
                    "beq_fetch_branch_offset"
                } else if step == 1 {
                    "beq_add_branch_offset"
                } else {
                    "beq_add_dummy_read"
                },
            Mnemonic::BMI => if step == 0 {
                    "bmi_fetch_branch_offset"
                } else if step == 1 {
                    "bmi_add_branch_offset"
                } else {
                    "bmi_add_dummy_read"
                },
            Mnemonic::BNE => if step == 0 {
                    "bne_fetch_branch_offset"
                } else if step == 1 {
                    "bne_add_branch_offset"
                } else {
                    "bne_add_dummy_read"
                },
            Mnemonic::BPL => if step == 0 {
                    "bpl_fetch_branch_offset"
                } else if step == 1 {
                    "bpl_add_branch_offset"
                } else {
                    "bpl_add_dummy_read"
                },
            Mnemonic::BVC => if step == 0 {
                    "bvc_fetch_branch_offset"
                } else if step == 1 {
                    "bvc_add_branch_offset"
                } else {
                    "bvc_add_dummy_read"
                },
            Mnemonic::BVS => if step == 0 {
                    "bvs_fetch_branch_offset"
                } else if step == 1 {
                    "bvs_add_branch_offset"
                } else {
                    "bvs_add_dummy_read"
                },
            Mnemonic::CLC => "clc_clear_carry",
            Mnemonic::CLD => "cld_clear_decimal",
            Mnemonic::CLI => "cli_clear_interrupt",
            Mnemonic::CLV => "clv_clear_overflow",
            Mnemonic::SEC => "sec_set_carry",
            Mnemonic::SED => "sed_set_decimal",
            Mnemonic::SEI => "sei_set_interrupt",
            Mnemonic::JAM => "jam",
            Mnemonic::NOP => "nop",
    }
}

/// The mnemonic in lower case, as the operand-reading cycles are named.
pub open spec fn mnemonic_name_spec(mn: Mnemonic) -> Seq<char> {
    match mn {
            Mnemonic::LAS => "las"@,
            Mnemonic::LAX => "lax"@,
            Mnemonic::LDA => "lda"@,
            Mnemonic::LDX => "ldx"@,
            Mnemonic::LDY => "ldy"@,
            Mnemonic::SAX => "sax"@,
            Mnemonic::SHA => "sha"@,
            Mnemonic::SHX => "shx"@,
            Mnemonic::SHY => "shy"@,
            Mnemonic::STA => "sta"@,
            Mnemonic::STX => "stx"@,
            Mnemonic::STY => "sty"@,
            Mnemonic::SHS => "shs"@,
            Mnemonic::TAX => "tax"@,
            Mnemonic::TAY => "tay"@,
            Mnemonic::TSX => "tsx"@,
            Mnemonic::TXA => "txa"@,
            Mnemonic::TXS => "txs"@,
            Mnemonic::TYA => "tya"@,
            Mnemonic::PHA => "pha"@,
            Mnemonic::PHP => "php"@,
            Mnemonic::PLA => "pla"@,
            Mnemonic::PLP => "plp"@,
            Mnemonic::ASL => "asl"@,
            Mnemonic::LSR => "lsr"@,
            Mnemonic::ROL => "rol"@,
            Mnemonic::ROR => "ror"@,
            Mnemonic::AND => "and"@,
            Mnemonic::BIT => "bit"@,
            Mnemonic::EOR => "eor"@,
            Mnemonic::ORA => "ora"@,
            Mnemonic::ADC => "adc"@,
            Mnemonic::ANC => "anc"@,
            Mnemonic::ARR => "arr"@,
            Mnemonic::ASR => "asr"@,
            Mnemonic::CMP => "cmp"@,
            Mnemonic::CPX => "cpx"@,
            Mnemonic::CPY => "cpy"@,
            Mnemonic::DCP => "dcp"@,
            Mnemonic::ISC => "isc"@,
            Mnemonic::RLA => "rla"@,
            Mnemonic::RRA => "rra"@,
            Mnemonic::SBC => "sbc"@,
            Mnemonic::SBX => "sbx"@,
            Mnemonic::SLO => "slo"@,
            Mnemonic::SRE => "sre"@,
            Mnemonic::XAA => "xaa"@,
            Mnemonic::DEC => "dec"@,
            Mnemonic::DEX => "dex"@,
            Mnemonic::DEY => "dey"@,
            Mnemonic::INC => "inc"@,
            Mnemonic::INX => "inx"@,
            Mnemonic::INY => "iny"@,
            Mnemonic::BRK => "brk"@,
            Mnemonic::JMP => "jmp"@,
            Mnemonic::JSR => "jsr"@,
            Mnemonic::RTI => "rti"@,
            Mnemonic::RTS => "rts"@,
            Mnemonic::BCC => "bcc"@,
            Mnemonic::BCS => "bcs"@,
            Mnemonic::BEQ => "beq"@,
            Mnemonic::BMI => "bmi"@,
            Mnemonic::BNE => "bne"@,
            Mnemonic::BPL => "bpl"@,
            Mnemonic::BVC => "bvc"@,
            Mnemonic::BVS => "bvs"@,
            Mnemonic::CLC => "clc"@,
            Mnemonic::CLD => "cld"@,
            Mnemonic::CLI => "cli"@,
            Mnemonic::CLV => "clv"@,
            Mnemonic::SEC => "sec"@,
            Mnemonic::SED => "sed"@,
            Mnemonic::SEI => "sei"@,
            Mnemonic::JAM => "jam"@,
            Mnemonic::NOP => "nop"@,
    }
}

/// The mnemonic in lower case, as the operand-reading cycles are named.
pub fn mnemonic_name(mn: Mnemonic) -> (r: &'static str)
    ensures
        r@ == mnemonic_name_spec(mn),
{
    match mn {
            Mnemonic::LAS => "las",
            Mnemonic::LAX => "lax",
            Mnemonic::LDA => "lda",
            Mnemonic::LDX => "ldx",
            Mnemonic::LDY => "ldy",
            Mnemonic::SAX => "sax",
            Mnemonic::SHA => "sha",
            Mnemonic::SHX => "shx",
            Mnemonic::SHY => "shy",
            Mnemonic::STA => "sta",
            Mnemonic::STX => "stx",
            Mnemonic::STY => "sty",
            Mnemonic::SHS => "shs",
            Mnemonic::TAX => "tax",
            Mnemonic::TAY => "tay",
            Mnemonic::TSX => "tsx",
            Mnemonic::TXA => "txa",
            Mnemonic::TXS => "txs",
            Mnemonic::TYA => "tya",
            Mnemonic::PHA => "pha",
            Mnemonic::PHP => "php",
            Mnemonic::PLA => "pla",
            Mnemonic::PLP => "plp",
            Mnemonic::ASL => "asl",
            Mnemonic::LSR => "lsr",
            Mnemonic::ROL => "rol",
            Mnemonic::ROR => "ror",
            Mnemonic::AND => "and",
            Mnemonic::BIT => "bit",
            Mnemonic::EOR => "eor",
            Mnemonic::ORA => "ora",
            Mnemonic::ADC => "adc",
            Mnemonic::ANC => "anc",
            Mnemonic::ARR => "arr",
            Mnemonic::ASR => "asr",
            Mnemonic::CMP => "cmp",
            Mnemonic::CPX => "cpx",
            Mnemonic::CPY => "cpy",
            Mnemonic::DCP => "dcp",
            Mnemonic::ISC => "isc",
            Mnemonic::RLA => "rla",
            Mnemonic::RRA => "rra",
            Mnemonic::SBC => "sbc",
            Mnemonic::SBX => "sbx",
            Mnemonic::SLO => "slo",
            Mnemonic::SRE => "sre",
            Mnemonic::XAA => "xaa",
            Mnemonic::DEC => "dec",
            Mnemonic::DEX => "dex",
            Mnemonic::DEY => "dey",
            Mnemonic::INC => "inc",
            Mnemonic::INX => "inx",
            Mnemonic::INY => "iny",
            Mnemonic::BRK => "brk",
            Mnemonic::JMP => "jmp",
            Mnemonic::JSR => "jsr",
            Mnemonic::RTI => "rti",
            Mnemonic::RTS => "rts",
            Mnemonic::BCC => "bcc",
            Mnemonic::BCS => "bcs",
            Mnemonic::BEQ => "beq",
            Mnemonic::BMI => "bmi",
            Mnemonic::BNE => "bne",
            Mnemonic::BPL => "bpl",
            Mnemonic::BVC => "bvc",
            Mnemonic::BVS => "bvs",
            Mnemonic::CLC => "clc",
            Mnemonic::CLD => "cld",
            Mnemonic::CLI => "cli",
            Mnemonic::CLV => "clv",
            Mnemonic::SEC => "sec",
            Mnemonic::SED => "sed",
            Mnemonic::SEI => "sei",
            Mnemonic::JAM => "jam",
            Mnemonic::NOP => "nop",
    }
}

/// The name of what the micro-function does: the mnemonic for an operand read,
/// the mnemonic's cycle name for an execute cycle.
pub open spec fn standard_name_spec(f: MicroFn) -> Seq<char> {
    match f {
        MicroFn::AdvancePc => "advance_pc_after_opcode"@,
        MicroFn::FetchZpAddrLo => "fetch_zp_addr_lo"@,
        MicroFn::FetchAbsAddrLo => "fetch_abs_addr_lo"@,
        MicroFn::FetchAbsAddrHi => "fetch_abs_addr_hi"@,
        MicroFn::FetchAbsAddrHiAddX => "fetch_abs_addr_hi_add_x"@,
        MicroFn::FetchAbsAddrHiAddY => "fetch_abs_addr_hi_add_y"@,
        MicroFn::ReadZeroPage => "read_zero_page"@,
        MicroFn::ReadZeroPageAddXDummy => "read_zero_page_add_x_dummy"@,
        MicroFn::ReadZeroPageAddYDummy => "read_zero_page_add_y_dummy"@,
        MicroFn::ReadIndirectXDummy => "read_indirect_x_dummy"@,
        MicroFn::ReadIndirectXLo => "read_indirect_x_lo"@,
        MicroFn::ReadIndirectXHi => "read_indirect_x_hi"@,
        MicroFn::ReadIndirectYHi => "read_indirect_y_hi"@,
        MicroFn::ReadIndirectLo => "read_indirect_lo"@,
        MicroFn::ReadIndirectHiBuggy => "read_indirect_hi_buggy"@,
        MicroFn::DummyReadCrossX => "dummy_read_cross_x"@,
        MicroFn::DummyReadCrossY => "dummy_read_cross_y"@,
        MicroFn::Empty => "empty"@,
        MicroFn::Accumulator(..) => "shift_accumulator"@,
        MicroFn::ShiftWrite(..) => "shift_and_write"@,
        MicroFn::FetchHiCalcV(..) => "fetch_hi_calc_v"@,
        MicroFn::ReadIndirectYHiCalcV => "read_hi_calc_v"@,
        MicroFn::StoreMasked(..) => "write_masked"@,
        MicroFn::RmwRead => "read_for_rmw"@,
        MicroFn::DcpRmw => "dcp_rmw_decrement"@,
        MicroFn::DcpCompare => "dcp_compare_a"@,
        MicroFn::IscRmw => "isc_rmw_increment"@,
        MicroFn::IscSbc => "isc_subtract_with_carry"@,
        MicroFn::SloRmw => "slo_rmw_shift_left"@,
        MicroFn::SloOra => "slo_or_with_a"@,
        MicroFn::Read(mn, _) => mnemonic_name_spec(mn),
        MicroFn::Exec(mn, step) => exec_name_spec(mn, step),
    }
}

/// The name of what the micro-function does.
pub fn standard_name(f: MicroFn) -> (r: &'static str)
    ensures
        r@ == standard_name_spec(f),
{
    match f {
        MicroFn::AdvancePc => "advance_pc_after_opcode",
        MicroFn::FetchZpAddrLo => "fetch_zp_addr_lo",
        MicroFn::FetchAbsAddrLo => "fetch_abs_addr_lo",
        MicroFn::FetchAbsAddrHi => "fetch_abs_addr_hi",
        MicroFn::FetchAbsAddrHiAddX => "fetch_abs_addr_hi_add_x",
        MicroFn::FetchAbsAddrHiAddY => "fetch_abs_addr_hi_add_y",
        MicroFn::ReadZeroPage => "read_zero_page",
        MicroFn::ReadZeroPageAddXDummy => "read_zero_page_add_x_dummy",
        MicroFn::ReadZeroPageAddYDummy => "read_zero_page_add_y_dummy",
        MicroFn::ReadIndirectXDummy => "read_indirect_x_dummy",
        MicroFn::ReadIndirectXLo => "read_indirect_x_lo",
        MicroFn::ReadIndirectXHi => "read_indirect_x_hi",
        MicroFn::ReadIndirectYHi => "read_indirect_y_hi",
        MicroFn::ReadIndirectLo => "read_indirect_lo",
        MicroFn::ReadIndirectHiBuggy => "read_indirect_hi_buggy",
        MicroFn::DummyReadCrossX => "dummy_read_cross_x",
        MicroFn::DummyReadCrossY => "dummy_read_cross_y",
        MicroFn::Empty => "empty",
        MicroFn::Accumulator(..) => "shift_accumulator",
        MicroFn::ShiftWrite(..) => "shift_and_write",
        MicroFn::FetchHiCalcV(..) => "fetch_hi_calc_v",
        MicroFn::ReadIndirectYHiCalcV => "read_hi_calc_v",
        MicroFn::StoreMasked(..) => "write_masked",
        MicroFn::RmwRead => "read_for_rmw",
        MicroFn::DcpRmw => "dcp_rmw_decrement",
        MicroFn::DcpCompare => "dcp_compare_a",
        MicroFn::IscRmw => "isc_rmw_increment",
        MicroFn::IscSbc => "isc_subtract_with_carry",
        MicroFn::SloRmw => "slo_rmw_shift_left",
        MicroFn::SloOra => "slo_or_with_a",
        MicroFn::Read(mn, _) => mnemonic_name(mn),
        MicroFn::Exec(mn, step) => exec_name(mn, step),
    }
}

} // verus!
