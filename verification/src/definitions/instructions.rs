//! Opcodes of the decoded instruction form used by the interpreter.
//!
//! For fast decoding and cache friendliness, a RISC-V instruction is decoded
//! into a 64 bit unsigned integer laid out as follows:
//!
//! ```text
//! +-----+-----+-----+-----+-----+-----+-----+-----+
//! |           | rs2 | rs1 | flg | op2 | rd  | op  | R-type
//! +-----+-----+-----+-----+-----+-----+-----+-----+
//! |     | rs3 | rs2 | rs1 | flg | op2 | rd  | op  | R4-type
//! +-----------+-----------------------------------+
//! | rs4 | rs3 | rs2 | rs1 | flg | op2 | rd  | op  | R5-type
//! +-----------+-----------------------------------+
//! |    immediate    | rs1 | flg | op2 | rd  | op  | I-type
//! +-----------------------------------------------+
//! |    immediate    | rs1 | flg | op2 | rs2 | op  | S-type/B-type
//! +-----------------+-----------------------------+
//! |       immediate       | flg | op2 | rd  | op  | U-type/J-type
//! +-----+-----+-----+-----+-----+-----+-----+-----+
//! ```
//!
//! `flg` holds the instruction length divided by two in its low 4 bits.
use vstd::prelude::*;

verus! {

/// A decoded instruction.
pub type Instruction = u64;

/// The opcode of a decoded instruction.
pub type InstructionOpcode = u16;

pub const OP_UNLOADED: InstructionOpcode = 0x00;
pub const OP_ADD: InstructionOpcode = 0x01;
pub const OP_ADDI: InstructionOpcode = 0x02;
pub const OP_ADDIW: InstructionOpcode = 0x03;
pub const OP_ADDW: InstructionOpcode = 0x04;
pub const OP_AND: InstructionOpcode = 0x05;
pub const OP_ANDI: InstructionOpcode = 0x06;
pub const OP_DIV: InstructionOpcode = 0x07;
pub const OP_DIVU: InstructionOpcode = 0x08;
pub const OP_DIVUW: InstructionOpcode = 0x09;
pub const OP_DIVW: InstructionOpcode = 0x0a;
pub const OP_LB_VERSION0: InstructionOpcode = 0x0b;
pub const OP_LB_VERSION1: InstructionOpcode = 0x0c;
pub const OP_LBU_VERSION0: InstructionOpcode = 0x0d;
pub const OP_LBU_VERSION1: InstructionOpcode = 0x0e;
pub const OP_LD_VERSION0: InstructionOpcode = 0x0f;
pub const OP_LD_VERSION1: InstructionOpcode = 0x10;
pub const OP_LH_VERSION0: InstructionOpcode = 0x11;
pub const OP_LH_VERSION1: InstructionOpcode = 0x12;
pub const OP_LHU_VERSION0: InstructionOpcode = 0x13;
pub const OP_LHU_VERSION1: InstructionOpcode = 0x14;
pub const OP_LUI: InstructionOpcode = 0x15;
pub const OP_LW_VERSION0: InstructionOpcode = 0x16;
pub const OP_LW_VERSION1: InstructionOpcode = 0x17;
pub const OP_LWU_VERSION0: InstructionOpcode = 0x18;
pub const OP_LWU_VERSION1: InstructionOpcode = 0x19;
pub const OP_MUL: InstructionOpcode = 0x1a;
pub const OP_MULH: InstructionOpcode = 0x1b;
pub const OP_MULHSU: InstructionOpcode = 0x1c;
pub const OP_MULHU: InstructionOpcode = 0x1d;
pub const OP_MULW: InstructionOpcode = 0x1e;
pub const OP_OR: InstructionOpcode = 0x1f;
pub const OP_ORI: InstructionOpcode = 0x20;
pub const OP_REM: InstructionOpcode = 0x21;
pub const OP_REMU: InstructionOpcode = 0x22;
pub const OP_REMUW: InstructionOpcode = 0x23;
pub const OP_REMW: InstructionOpcode = 0x24;
pub const OP_SB: InstructionOpcode = 0x25;
pub const OP_SD: InstructionOpcode = 0x26;
pub const OP_SH: InstructionOpcode = 0x27;
pub const OP_SLL: InstructionOpcode = 0x28;
pub const OP_SLLI: InstructionOpcode = 0x29;
pub const OP_SLLIW: InstructionOpcode = 0x2a;
pub const OP_SLLW: InstructionOpcode = 0x2b;
pub const OP_SLT: InstructionOpcode = 0x2c;
pub const OP_SLTI: InstructionOpcode = 0x2d;
pub const OP_SLTIU: InstructionOpcode = 0x2e;
pub const OP_SLTU: InstructionOpcode = 0x2f;
pub const OP_SRA: InstructionOpcode = 0x30;
pub const OP_SRAI: InstructionOpcode = 0x31;
pub const OP_SRAIW: InstructionOpcode = 0x32;
pub const OP_SRAW: InstructionOpcode = 0x33;
pub const OP_SRL: InstructionOpcode = 0x34;
pub const OP_SRLI: InstructionOpcode = 0x35;
pub const OP_SRLIW: InstructionOpcode = 0x36;
pub const OP_SRLW: InstructionOpcode = 0x37;
pub const OP_SUB: InstructionOpcode = 0x38;
pub const OP_SUBW: InstructionOpcode = 0x39;
pub const OP_SW: InstructionOpcode = 0x3a;
pub const OP_XOR: InstructionOpcode = 0x3b;
pub const OP_XORI: InstructionOpcode = 0x3c;
pub const OP_LR_W: InstructionOpcode = 0x3d;
pub const OP_SC_W: InstructionOpcode = 0x3e;
pub const OP_AMOSWAP_W: InstructionOpcode = 0x3f;
pub const OP_AMOADD_W: InstructionOpcode = 0x40;
pub const OP_AMOXOR_W: InstructionOpcode = 0x41;
pub const OP_AMOAND_W: InstructionOpcode = 0x42;
pub const OP_AMOOR_W: InstructionOpcode = 0x43;
pub const OP_AMOMIN_W: InstructionOpcode = 0x44;
pub const OP_AMOMAX_W: InstructionOpcode = 0x45;
pub const OP_AMOMINU_W: InstructionOpcode = 0x46;
pub const OP_AMOMAXU_W: InstructionOpcode = 0x47;
pub const OP_LR_D: InstructionOpcode = 0x48;
pub const OP_SC_D: InstructionOpcode = 0x49;
pub const OP_AMOSWAP_D: InstructionOpcode = 0x4a;
pub const OP_AMOADD_D: InstructionOpcode = 0x4b;
pub const OP_AMOXOR_D: InstructionOpcode = 0x4c;
pub const OP_AMOAND_D: InstructionOpcode = 0x4d;
pub const OP_AMOOR_D: InstructionOpcode = 0x4e;
pub const OP_AMOMIN_D: InstructionOpcode = 0x4f;
pub const OP_AMOMAX_D: InstructionOpcode = 0x50;
pub const OP_AMOMINU_D: InstructionOpcode = 0x51;
pub const OP_AMOMAXU_D: InstructionOpcode = 0x52;
pub const OP_ADDUW: InstructionOpcode = 0x53;
pub const OP_ANDN: InstructionOpcode = 0x54;
pub const OP_BCLR: InstructionOpcode = 0x55;
pub const OP_BCLRI: InstructionOpcode = 0x56;
pub const OP_BEXT: InstructionOpcode = 0x57;
pub const OP_BEXTI: InstructionOpcode = 0x58;
pub const OP_BINV: InstructionOpcode = 0x59;
pub const OP_BINVI: InstructionOpcode = 0x5a;
pub const OP_BSET: InstructionOpcode = 0x5b;
pub const OP_BSETI: InstructionOpcode = 0x5c;
pub const OP_CLMUL: InstructionOpcode = 0x5d;
pub const OP_CLMULH: InstructionOpcode = 0x5e;
pub const OP_CLMULR: InstructionOpcode = 0x5f;
pub const OP_CLZ: InstructionOpcode = 0x60;
pub const OP_CLZW: InstructionOpcode = 0x61;
pub const OP_CPOP: InstructionOpcode = 0x62;
pub const OP_CPOPW: InstructionOpcode = 0x63;
pub const OP_CTZ: InstructionOpcode = 0x64;
pub const OP_CTZW: InstructionOpcode = 0x65;
pub const OP_MAX: InstructionOpcode = 0x66;
pub const OP_MAXU: InstructionOpcode = 0x67;
pub const OP_MIN: InstructionOpcode = 0x68;
pub const OP_MINU: InstructionOpcode = 0x69;
pub const OP_ORCB: InstructionOpcode = 0x6a;
pub const OP_ORN: InstructionOpcode = 0x6b;
pub const OP_REV8: InstructionOpcode = 0x6c;
pub const OP_ROL: InstructionOpcode = 0x6d;
pub const OP_ROLW: InstructionOpcode = 0x6e;
pub const OP_ROR: InstructionOpcode = 0x6f;
pub const OP_RORI: InstructionOpcode = 0x70;
pub const OP_RORIW: InstructionOpcode = 0x71;
pub const OP_RORW: InstructionOpcode = 0x72;
pub const OP_SEXTB: InstructionOpcode = 0x73;
pub const OP_SEXTH: InstructionOpcode = 0x74;
pub const OP_SH1ADD: InstructionOpcode = 0x75;
pub const OP_SH1ADDUW: InstructionOpcode = 0x76;
pub const OP_SH2ADD: InstructionOpcode = 0x77;
pub const OP_SH2ADDUW: InstructionOpcode = 0x78;
pub const OP_SH3ADD: InstructionOpcode = 0x79;
pub const OP_SH3ADDUW: InstructionOpcode = 0x7a;
pub const OP_SLLIUW: InstructionOpcode = 0x7b;
pub const OP_XNOR: InstructionOpcode = 0x7c;
pub const OP_ZEXTH: InstructionOpcode = 0x7d;
pub const OP_WIDE_MUL: InstructionOpcode = 0x7e;
pub const OP_WIDE_MULU: InstructionOpcode = 0x7f;
pub const OP_WIDE_MULSU: InstructionOpcode = 0x80;
pub const OP_WIDE_DIV: InstructionOpcode = 0x81;
pub const OP_WIDE_DIVU: InstructionOpcode = 0x82;
pub const OP_ADC: InstructionOpcode = 0x83;
pub const OP_SBB: InstructionOpcode = 0x84;
pub const OP_ADCS: InstructionOpcode = 0x85;
pub const OP_SBBS: InstructionOpcode = 0x86;
pub const OP_ADD3A: InstructionOpcode = 0x87;
pub const OP_ADD3B: InstructionOpcode = 0x88;
pub const OP_ADD3C: InstructionOpcode = 0x89;
pub const OP_CUSTOM_LOAD_UIMM: InstructionOpcode = 0x8a;
pub const OP_CUSTOM_LOAD_IMM: InstructionOpcode = 0x8b;
pub const OP_AUIPC: InstructionOpcode = 0x8c;
pub const OP_BEQ: InstructionOpcode = 0x8d;
pub const OP_BGE: InstructionOpcode = 0x8e;
pub const OP_BGEU: InstructionOpcode = 0x8f;
pub const OP_BLT: InstructionOpcode = 0x90;
pub const OP_BLTU: InstructionOpcode = 0x91;
pub const OP_BNE: InstructionOpcode = 0x92;
pub const OP_EBREAK: InstructionOpcode = 0x93;
pub const OP_ECALL: InstructionOpcode = 0x94;
pub const OP_FENCE: InstructionOpcode = 0x95;
pub const OP_FENCEI: InstructionOpcode = 0x96;
pub const OP_JAL: InstructionOpcode = 0x97;
pub const OP_JALR_VERSION0: InstructionOpcode = 0x98;
pub const OP_JALR_VERSION1: InstructionOpcode = 0x99;
pub const OP_FAR_JUMP_REL: InstructionOpcode = 0x9a;
pub const OP_FAR_JUMP_ABS: InstructionOpcode = 0x9b;
pub const OP_CUSTOM_ASM_TRACE_JUMP: InstructionOpcode = 0x9c;
pub const OP_CUSTOM_TRACE_END: InstructionOpcode = 0x9d;

pub const MINIMAL_OPCODE: InstructionOpcode = OP_UNLOADED;

pub const MAXIMUM_OPCODE: InstructionOpcode = OP_CUSTOM_TRACE_END;

pub const MINIMAL_BASIC_BLOCK_END_OPCODE: InstructionOpcode = OP_AUIPC;

pub const MAXIMUM_BASIC_BLOCK_END_OPCODE: InstructionOpcode = OP_FAR_JUMP_ABS;

/// The name of each opcode, as it appears in the opcode table.
pub open spec fn spec_opcode_name(i: InstructionOpcode) -> &'static str {
    match i {
        0x00 => "UNLOADED",
        0x01 => "ADD",
        0x02 => "ADDI",
        0x03 => "ADDIW",
        0x04 => "ADDW",
        0x05 => "AND",
        0x06 => "ANDI",
        0x07 => "DIV",
        0x08 => "DIVU",
        0x09 => "DIVUW",
        0x0a => "DIVW",
        0x0b => "LB_VERSION0",
        0x0c => "LB_VERSION1",
        0x0d => "LBU_VERSION0",
        0x0e => "LBU_VERSION1",
        0x0f => "LD_VERSION0",
        0x10 => "LD_VERSION1",
        0x11 => "LH_VERSION0",
        0x12 => "LH_VERSION1",
        0x13 => "LHU_VERSION0",
        0x14 => "LHU_VERSION1",
        0x15 => "LUI",
        0x16 => "LW_VERSION0",
        0x17 => "LW_VERSION1",
        0x18 => "LWU_VERSION0",
        0x19 => "LWU_VERSION1",
        0x1a => "MUL",
        0x1b => "MULH",
        0x1c => "MULHSU",
        0x1d => "MULHU",
        0x1e => "MULW",
        0x1f => "OR",
        0x20 => "ORI",
        0x21 => "REM",
        0x22 => "REMU",
        0x23 => "REMUW",
        0x24 => "REMW",
        0x25 => "SB",
        0x26 => "SD",
        0x27 => "SH",
        0x28 => "SLL",
        0x29 => "SLLI",
        0x2a => "SLLIW",
        0x2b => "SLLW",
        0x2c => "SLT",
        0x2d => "SLTI",
        0x2e => "SLTIU",
        0x2f => "SLTU",
        0x30 => "SRA",
        0x31 => "SRAI",
        0x32 => "SRAIW",
        0x33 => "SRAW",
        0x34 => "SRL",
        0x35 => "SRLI",
        0x36 => "SRLIW",
        0x37 => "SRLW",
        0x38 => "SUB",
        0x39 => "SUBW",
        0x3a => "SW",
        0x3b => "XOR",
        0x3c => "XORI",
        0x3d => "LR_W",
        0x3e => "SC_W",
        0x3f => "AMOSWAP_W",
        0x40 => "AMOADD_W",
        0x41 => "AMOXOR_W",
        0x42 => "AMOAND_W",
        0x43 => "AMOOR_W",
        0x44 => "AMOMIN_W",
        0x45 => "AMOMAX_W",
        0x46 => "AMOMINU_W",
        0x47 => "AMOMAXU_W",
        0x48 => "LR_D",
        0x49 => "SC_D",
        0x4a => "AMOSWAP_D",
        0x4b => "AMOADD_D",
        0x4c => "AMOXOR_D",
        0x4d => "AMOAND_D",
        0x4e => "AMOOR_D",
        0x4f => "AMOMIN_D",
        0x50 => "AMOMAX_D",
        0x51 => "AMOMINU_D",
        0x52 => "AMOMAXU_D",
        0x53 => "ADDUW",
        0x54 => "ANDN",
        0x55 => "BCLR",
        0x56 => "BCLRI",
        0x57 => "BEXT",
        0x58 => "BEXTI",
        0x59 => "BINV",
        0x5a => "BINVI",
        0x5b => "BSET",
        0x5c => "BSETI",
        0x5d => "CLMUL",
        0x5e => "CLMULH",
        0x5f => "CLMULR",
        0x60 => "CLZ",
        0x61 => "CLZW",
        0x62 => "CPOP",
        0x63 => "CPOPW",
        0x64 => "CTZ",
        0x65 => "CTZW",
        0x66 => "MAX",
        0x67 => "MAXU",
        0x68 => "MIN",
        0x69 => "MINU",
        0x6a => "ORCB",
        0x6b => "ORN",
        0x6c => "REV8",
        0x6d => "ROL",
        0x6e => "ROLW",
        0x6f => "ROR",
        0x70 => "RORI",
        0x71 => "RORIW",
        0x72 => "RORW",
        0x73 => "SEXTB",
        0x74 => "SEXTH",
        0x75 => "SH1ADD",
        0x76 => "SH1ADDUW",
        0x77 => "SH2ADD",
        0x78 => "SH2ADDUW",
        0x79 => "SH3ADD",
        0x7a => "SH3ADDUW",
        0x7b => "SLLIUW",
        0x7c => "XNOR",
        0x7d => "ZEXTH",
        0x7e => "WIDE_MUL",
        0x7f => "WIDE_MULU",
        0x80 => "WIDE_MULSU",
        0x81 => "WIDE_DIV",
        0x82 => "WIDE_DIVU",
        0x83 => "ADC",
        0x84 => "SBB",
        0x85 => "ADCS",
        0x86 => "SBBS",
        0x87 => "ADD3A",
        0x88 => "ADD3B",
        0x89 => "ADD3C",
        0x8a => "CUSTOM_LOAD_UIMM",
        0x8b => "CUSTOM_LOAD_IMM",
        0x8c => "AUIPC",
        0x8d => "BEQ",
        0x8e => "BGE",
        0x8f => "BGEU",
        0x90 => "BLT",
        0x91 => "BLTU",
        0x92 => "BNE",
        0x93 => "EBREAK",
        0x94 => "ECALL",
        0x95 => "FENCE",
        0x96 => "FENCEI",
        0x97 => "JAL",
        0x98 => "JALR_VERSION0",
        0x99 => "JALR_VERSION1",
        0x9a => "FAR_JUMP_REL",
        0x9b => "FAR_JUMP_ABS",
        0x9c => "CUSTOM_ASM_TRACE_JUMP",
        0x9d => "CUSTOM_TRACE_END",
        _ => "UNKNOWN_INSTRUCTION!",
    }
}

/// Returns the name of an opcode, or `UNKNOWN_INSTRUCTION!` for a number
/// that is not an opcode.
pub fn instruction_opcode_name(i: InstructionOpcode) -> (r: &'static str)
    ensures
        r == spec_opcode_name(i),
{
    match i {
        0x00 => "UNLOADED",
        0x01 => "ADD",
        0x02 => "ADDI",
        0x03 => "ADDIW",
        0x04 => "ADDW",
        0x05 => "AND",
        0x06 => "ANDI",
        0x07 => "DIV",
        0x08 => "DIVU",
        0x09 => "DIVUW",
        0x0a => "DIVW",
        0x0b => "LB_VERSION0",
        0x0c => "LB_VERSION1",
        0x0d => "LBU_VERSION0",
        0x0e => "LBU_VERSION1",
        0x0f => "LD_VERSION0",
        0x10 => "LD_VERSION1",
        0x11 => "LH_VERSION0",
        0x12 => "LH_VERSION1",
        0x13 => "LHU_VERSION0",
        0x14 => "LHU_VERSION1",
        0x15 => "LUI",
        0x16 => "LW_VERSION0",
        0x17 => "LW_VERSION1",
        0x18 => "LWU_VERSION0",
        0x19 => "LWU_VERSION1",
        0x1a => "MUL",
        0x1b => "MULH",
        0x1c => "MULHSU",
        0x1d => "MULHU",
        0x1e => "MULW",
        0x1f => "OR",
        0x20 => "ORI",
        0x21 => "REM",
        0x22 => "REMU",
        0x23 => "REMUW",
        0x24 => "REMW",
        0x25 => "SB",
        0x26 => "SD",
        0x27 => "SH",
        0x28 => "SLL",
        0x29 => "SLLI",
        0x2a => "SLLIW",
        0x2b => "SLLW",
        0x2c => "SLT",
        0x2d => "SLTI",
        0x2e => "SLTIU",
        0x2f => "SLTU",
        0x30 => "SRA",
        0x31 => "SRAI",
        0x32 => "SRAIW",
        0x33 => "SRAW",
        0x34 => "SRL",
        0x35 => "SRLI",
        0x36 => "SRLIW",
        0x37 => "SRLW",
        0x38 => "SUB",
        0x39 => "SUBW",
        0x3a => "SW",
        0x3b => "XOR",
        0x3c => "XORI",
        0x3d => "LR_W",
        0x3e => "SC_W",
        0x3f => "AMOSWAP_W",
        0x40 => "AMOADD_W",
        0x41 => "AMOXOR_W",
        0x42 => "AMOAND_W",
        0x43 => "AMOOR_W",
        0x44 => "AMOMIN_W",
        0x45 => "AMOMAX_W",
        0x46 => "AMOMINU_W",
        0x47 => "AMOMAXU_W",
        0x48 => "LR_D",
        0x49 => "SC_D",
        0x4a => "AMOSWAP_D",
        0x4b => "AMOADD_D",
        0x4c => "AMOXOR_D",
        0x4d => "AMOAND_D",
        0x4e => "AMOOR_D",
        0x4f => "AMOMIN_D",
        0x50 => "AMOMAX_D",
        0x51 => "AMOMINU_D",
        0x52 => "AMOMAXU_D",
        0x53 => "ADDUW",
        0x54 => "ANDN",
        0x55 => "BCLR",
        0x56 => "BCLRI",
        0x57 => "BEXT",
        0x58 => "BEXTI",
        0x59 => "BINV",
        0x5a => "BINVI",
        0x5b => "BSET",
        0x5c => "BSETI",
        0x5d => "CLMUL",
        0x5e => "CLMULH",
        0x5f => "CLMULR",
        0x60 => "CLZ",
        0x61 => "CLZW",
        0x62 => "CPOP",
        0x63 => "CPOPW",
        0x64 => "CTZ",
        0x65 => "CTZW",
        0x66 => "MAX",
        0x67 => "MAXU",
        0x68 => "MIN",
        0x69 => "MINU",
        0x6a => "ORCB",
        0x6b => "ORN",
        0x6c => "REV8",
        0x6d => "ROL",
        0x6e => "ROLW",
        0x6f => "ROR",
        0x70 => "RORI",
        0x71 => "RORIW",
        0x72 => "RORW",
        0x73 => "SEXTB",
        0x74 => "SEXTH",
        0x75 => "SH1ADD",
        0x76 => "SH1ADDUW",
        0x77 => "SH2ADD",
        0x78 => "SH2ADDUW",
        0x79 => "SH3ADD",
        0x7a => "SH3ADDUW",
        0x7b => "SLLIUW",
        0x7c => "XNOR",
        0x7d => "ZEXTH",
        0x7e => "WIDE_MUL",
        0x7f => "WIDE_MULU",
        0x80 => "WIDE_MULSU",
        0x81 => "WIDE_DIV",
        0x82 => "WIDE_DIVU",
        0x83 => "ADC",
        0x84 => "SBB",
        0x85 => "ADCS",
        0x86 => "SBBS",
        0x87 => "ADD3A",
        0x88 => "ADD3B",
        0x89 => "ADD3C",
        0x8a => "CUSTOM_LOAD_UIMM",
        0x8b => "CUSTOM_LOAD_IMM",
        0x8c => "AUIPC",
        0x8d => "BEQ",
        0x8e => "BGE",
        0x8f => "BGEU",
        0x90 => "BLT",
        0x91 => "BLTU",
        0x92 => "BNE",
        0x93 => "EBREAK",
        0x94 => "ECALL",
        0x95 => "FENCE",
        0x96 => "FENCEI",
        0x97 => "JAL",
        0x98 => "JALR_VERSION0",
        0x99 => "JALR_VERSION1",
        0x9a => "FAR_JUMP_REL",
        0x9b => "FAR_JUMP_ABS",
        0x9c => "CUSTOM_ASM_TRACE_JUMP",
        0x9d => "CUSTOM_TRACE_END",
        _ => "UNKNOWN_INSTRUCTION!",
    }
}

} // verus!
