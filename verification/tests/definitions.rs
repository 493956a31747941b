use ckb_vm::bits::{rounddown, roundup};
use ckb_vm::definitions::instructions as insts;
use ckb_vm::instructions::{
    blank_instruction, instruction_opcode_name, is_basic_block_end_instruction, InstructionOpcode,
    MAXIMUM_BASIC_BLOCK_END_OPCODE, MAXIMUM_OPCODE, MINIMAL_BASIC_BLOCK_END_OPCODE, MINIMAL_OPCODE,
};
use ckb_vm::{DEFAULT_MEMORY_SIZE, RISCV_GENERAL_REGISTER_NUMBER, RISCV_PAGESIZE};

fn all_opcodes() -> Vec<InstructionOpcode> {
    vec![
        insts::OP_UNLOADED,
        insts::OP_ADD,
        insts::OP_ADDI,
        insts::OP_ADDIW,
        insts::OP_ADDW,
        insts::OP_AND,
        insts::OP_ANDI,
        insts::OP_DIV,
        insts::OP_DIVU,
        insts::OP_DIVUW,
        insts::OP_DIVW,
        insts::OP_LB_VERSION0,
        insts::OP_LB_VERSION1,
        insts::OP_LBU_VERSION0,
        insts::OP_LBU_VERSION1,
        insts::OP_LD_VERSION0,
        insts::OP_LD_VERSION1,
        insts::OP_LH_VERSION0,
        insts::OP_LH_VERSION1,
        insts::OP_LHU_VERSION0,
        insts::OP_LHU_VERSION1,
        insts::OP_LUI,
        insts::OP_LW_VERSION0,
        insts::OP_LW_VERSION1,
        insts::OP_LWU_VERSION0,
        insts::OP_LWU_VERSION1,
        insts::OP_MUL,
        insts::OP_MULH,
        insts::OP_MULHSU,
        insts::OP_MULHU,
        insts::OP_MULW,
        insts::OP_OR,
        insts::OP_ORI,
        insts::OP_REM,
        insts::OP_REMU,
        insts::OP_REMUW,
        insts::OP_REMW,
        insts::OP_SB,
        insts::OP_SD,
        insts::OP_SH,
        insts::OP_SLL,
        insts::OP_SLLI,
        insts::OP_SLLIW,
        insts::OP_SLLW,
        insts::OP_SLT,
        insts::OP_SLTI,
        insts::OP_SLTIU,
        insts::OP_SLTU,
        insts::OP_SRA,
        insts::OP_SRAI,
        insts::OP_SRAIW,
        insts::OP_SRAW,
        insts::OP_SRL,
        insts::OP_SRLI,
        insts::OP_SRLIW,
        insts::OP_SRLW,
        insts::OP_SUB,
        insts::OP_SUBW,
        insts::OP_SW,
        insts::OP_XOR,
        insts::OP_XORI,
        insts::OP_LR_W,
        insts::OP_SC_W,
        insts::OP_AMOSWAP_W,
        insts::OP_AMOADD_W,
        insts::OP_AMOXOR_W,
        insts::OP_AMOAND_W,
        insts::OP_AMOOR_W,
        insts::OP_AMOMIN_W,
        insts::OP_AMOMAX_W,
        insts::OP_AMOMINU_W,
        insts::OP_AMOMAXU_W,
        insts::OP_LR_D,
        insts::OP_SC_D,
        insts::OP_AMOSWAP_D,
        insts::OP_AMOADD_D,
        insts::OP_AMOXOR_D,
        insts::OP_AMOAND_D,
        insts::OP_AMOOR_D,
        insts::OP_AMOMIN_D,
        insts::OP_AMOMAX_D,
        insts::OP_AMOMINU_D,
        insts::OP_AMOMAXU_D,
        insts::OP_ADDUW,
        insts::OP_ANDN,
        insts::OP_BCLR,
        insts::OP_BCLRI,
        insts::OP_BEXT,
        insts::OP_BEXTI,
        insts::OP_BINV,
        insts::OP_BINVI,
        insts::OP_BSET,
        insts::OP_BSETI,
        insts::OP_CLMUL,
        insts::OP_CLMULH,
        insts::OP_CLMULR,
        insts::OP_CLZ,
        insts::OP_CLZW,
        insts::OP_CPOP,
        insts::OP_CPOPW,
        insts::OP_CTZ,
        insts::OP_CTZW,
        insts::OP_MAX,
        insts::OP_MAXU,
        insts::OP_MIN,
        insts::OP_MINU,
        insts::OP_ORCB,
        insts::OP_ORN,
        insts::OP_REV8,
        insts::OP_ROL,
        insts::OP_ROLW,
        insts::OP_ROR,
        insts::OP_RORI,
        insts::OP_RORIW,
        insts::OP_RORW,
        insts::OP_SEXTB,
        insts::OP_SEXTH,
        insts::OP_SH1ADD,
        insts::OP_SH1ADDUW,
        insts::OP_SH2ADD,
        insts::OP_SH2ADDUW,
        insts::OP_SH3ADD,
        insts::OP_SH3ADDUW,
        insts::OP_SLLIUW,
        insts::OP_XNOR,
        insts::OP_ZEXTH,
        insts::OP_WIDE_MUL,
        insts::OP_WIDE_MULU,
        insts::OP_WIDE_MULSU,
        insts::OP_WIDE_DIV,
        insts::OP_WIDE_DIVU,
        insts::OP_ADC,
        insts::OP_SBB,
        insts::OP_ADCS,
        insts::OP_SBBS,
        insts::OP_ADD3A,
        insts::OP_ADD3B,
        insts::OP_ADD3C,
        insts::OP_CUSTOM_LOAD_UIMM,
        insts::OP_CUSTOM_LOAD_IMM,
        insts::OP_AUIPC,
        insts::OP_BEQ,
        insts::OP_BGE,
        insts::OP_BGEU,
        insts::OP_BLT,
        insts::OP_BLTU,
        insts::OP_BNE,
        insts::OP_EBREAK,
        insts::OP_ECALL,
        insts::OP_FENCE,
        insts::OP_FENCEI,
        insts::OP_JAL,
        insts::OP_JALR_VERSION0,
        insts::OP_JALR_VERSION1,
        insts::OP_FAR_JUMP_REL,
        insts::OP_FAR_JUMP_ABS,
        insts::OP_CUSTOM_ASM_TRACE_JUMP,
        insts::OP_CUSTOM_TRACE_END,
    ]
}

#[test]
fn test_jit_constant_rules() {
    assert!(RISCV_GENERAL_REGISTER_NUMBER == 32);
}

#[test]
fn test_roundup() {
    assert_eq!(0, roundup(0, 16));
    assert_eq!(16, roundup(1, 16));
    assert_eq!(16, roundup(15, 16));
    assert_eq!(16, roundup(16, 16));
    assert_eq!(32, roundup(17, 16));
    assert_eq!(u64::MAX - 15, roundup(u64::MAX - 15, 16));
    assert_eq!(0, roundup(u64::MAX, 16));
}

#[test]
fn test_rounddown() {
    assert_eq!(0, rounddown(0, 16));
    assert_eq!(0, rounddown(1, 16));
    assert_eq!(0, rounddown(15, 16));
    assert_eq!(16, rounddown(16, 16));
    assert_eq!(16, rounddown(17, 16));
    assert_eq!(u64::MAX - 15, rounddown(u64::MAX, 16));
}

#[test]
fn test_instruction_op_should_fit_in_byte() {
    assert_eq!(2, std::mem::size_of::<InstructionOpcode>());
}

#[test]
fn test_minimal_opcode_is_minimal() {
    let mut o = MINIMAL_OPCODE;
    for code in all_opcodes() {
        o = std::cmp::min(code, o);
    }
    assert_eq!(MINIMAL_OPCODE, o);
}

#[test]
fn test_maximal_opcode_is_maximal() {
    let mut o = MAXIMUM_OPCODE;
    for code in all_opcodes() {
        o = std::cmp::max(code, o);
    }
    assert_eq!(MAXIMUM_OPCODE, o);
}

#[test]
fn test_basic_block_end_opcode_is_in_range() {
    for o in MINIMAL_OPCODE..=MAXIMUM_OPCODE {
        if is_basic_block_end_instruction(blank_instruction(o)) {
            assert!(
                o >= MINIMAL_BASIC_BLOCK_END_OPCODE,
                "Opcode {} ({}) is smaller than minimal basic block end opcode!",
                o,
                instruction_opcode_name(o)
            );
            assert!(
                o <= MAXIMUM_BASIC_BLOCK_END_OPCODE,
                "Opcode {} ({}) is bigger than maximum basic block end opcode!",
                o,
                instruction_opcode_name(o)
            );
        }
    }
}

#[test]
fn test_opcodes_are_defined_seqentially() {
    let mut last: i32 = MINIMAL_OPCODE as i32 - 1;
    for code in all_opcodes() {
        assert_eq!(last + 1, code as i32, "Opcode {} does not follow last opcode!", code);
        last = code as i32;
    }
    assert_eq!(last, MAXIMUM_OPCODE as i32);
}

#[test]
fn test_max_memory_must_be_multiple_of_pages() {
    assert_eq!(DEFAULT_MEMORY_SIZE % RISCV_PAGESIZE, 0);
}

#[test]
fn test_page_size_be_power_of_2() {
    assert!(RISCV_PAGESIZE.is_power_of_two());
}
