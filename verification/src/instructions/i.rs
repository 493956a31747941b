//! Decoder of the RV32I/RV64I base integer instructions.
use vstd::prelude::*;
use crate::definitions::instructions as insts;
use super::register::Register;
use super::utils::{
    btype_immediate, funct3, funct7, itype_immediate, jtype_immediate, opcode, rd, rs1, rs2,
    spec_btype_immediate, spec_funct3, spec_funct7, spec_itype_immediate, spec_jtype_immediate,
    spec_opcode, spec_rd, spec_rs1, spec_rs2, spec_stype_immediate, spec_utype_immediate,
    stype_immediate, utype_immediate,
};
use super::m::lemma_length_four;
use super::utils::lemma_fields;
use super::{
    lemma_itype_roundtrip, lemma_length_keeps_fields, lemma_rtype_roundtrip, lemma_stype_roundtrip,
    spec_byte_at, spec_extract_opcode, spec_instruction_length,
    blank_instruction, set_instruction_length_4, spec_itype_bits, spec_opcode_bits, spec_rtype_bits, spec_stype_bits,
    spec_utype_bits, Instruction, InstructionOpcode, Itype, Rtype, Stype, Utype,
};

verus! {

/// The FENCE instruction is used to order device I/O and memory accesses as
/// viewed by other RISC-V harts and external devices or coprocessors. Its
/// `fm`, `pred` and `succ` fields are kept in the register slots of an
/// R-type instruction.
#[derive(Debug, Clone, Copy)]
pub struct FenceType(pub Instruction);

impl FenceType {
    pub fn new(fm: u8, pred: u8, succ: u8) -> (r: Self)
        ensures
            r.0 == spec_rtype_bits(insts::OP_FENCE, fm as usize, pred as usize, succ as usize),
    {
        FenceType(Rtype::new(insts::OP_FENCE, fm as usize, pred as usize, succ as usize).0)
    }

    pub fn fm(self) -> (r: u8)
        ensures
            r == (self.0 >> 8u64) as u8,
    {
        Rtype(self.0).rd() as u8
    }

    pub fn pred(self) -> (r: u8)
        ensures
            r == (self.0 >> 32u64) as u8,
    {
        Rtype(self.0).rs1() as u8
    }

    pub fn succ(self) -> (r: u8)
        ensures
            r == (self.0 >> 40u64) as u8,
    {
        Rtype(self.0).rs2() as u8
    }
}

/// The canonical no-op, `addi x0, x0, 0`.
pub open spec fn spec_nop() -> Instruction {
    spec_itype_bits(insts::OP_ADDI, 0, 0, 0)
}

pub fn nop() -> (r: Instruction)
    ensures
        r == spec_nop(),
{
    Itype::new_u(insts::OP_ADDI, 0, 0, 0).0
}

/// R-type with the register fields of the raw instruction.
pub open spec fn spec_r(op: InstructionOpcode, b: u32) -> Instruction {
    spec_rtype_bits(op, spec_rd(b), spec_rs1(b), spec_rs2(b))
}

/// I-type with the register fields and a signed immediate.
pub open spec fn spec_i(op: InstructionOpcode, b: u32, imm: i32) -> Instruction {
    spec_itype_bits(op, spec_rd(b), spec_rs1(b), imm as u32)
}

/// S-type with the register fields and a signed immediate.
pub open spec fn spec_s(op: InstructionOpcode, b: u32, imm: i32) -> Instruction {
    spec_stype_bits(op, imm as u32, spec_rs1(b), spec_rs2(b))
}

/// U-type with the destination register and a signed immediate.
pub open spec fn spec_u(op: InstructionOpcode, b: u32, imm: i32) -> Instruction {
    spec_utype_bits(op, spec_rd(b), imm as u32)
}

/// The opcode of a load by `funct3`, where it is one.
pub open spec fn spec_load_opcode(f3: u32, rv64: bool, version: u32) -> Option<InstructionOpcode> {
    let v1: bool = version >= 1;
    if f3 == 0b000 {
        Some(if v1 { insts::OP_LB_VERSION1 } else { insts::OP_LB_VERSION0 })
    } else if f3 == 0b001 {
        Some(if v1 { insts::OP_LH_VERSION1 } else { insts::OP_LH_VERSION0 })
    } else if f3 == 0b010 {
        Some(if v1 { insts::OP_LW_VERSION1 } else { insts::OP_LW_VERSION0 })
    } else if f3 == 0b100 {
        Some(if v1 { insts::OP_LBU_VERSION1 } else { insts::OP_LBU_VERSION0 })
    } else if f3 == 0b101 {
        Some(if v1 { insts::OP_LHU_VERSION1 } else { insts::OP_LHU_VERSION0 })
    } else if f3 == 0b110 && rv64 {
        Some(if v1 { insts::OP_LWU_VERSION1 } else { insts::OP_LWU_VERSION0 })
    } else if f3 == 0b011 && rv64 {
        Some(if v1 { insts::OP_LD_VERSION1 } else { insts::OP_LD_VERSION0 })
    } else {
        None
    }
}

/// The opcode of an immediate ALU instruction by `funct3`, for the funct3
/// values that are not shifts.
pub open spec fn spec_alu_imm_opcode(f3: u32) -> Option<InstructionOpcode> {
    if f3 == 0b000 {
        Some(insts::OP_ADDI)
    } else if f3 == 0b010 {
        Some(insts::OP_SLTI)
    } else if f3 == 0b011 {
        Some(insts::OP_SLTIU)
    } else if f3 == 0b100 {
        Some(insts::OP_XORI)
    } else if f3 == 0b110 {
        Some(insts::OP_ORI)
    } else if f3 == 0b111 {
        Some(insts::OP_ANDI)
    } else {
        None
    }
}

pub open spec fn spec_shift_imm_opcode(f3: u32, top6: u32) -> Option<InstructionOpcode> {
    if f3 == 0b001 && top6 == 0b000000 {
        Some(insts::OP_SLLI)
    } else if f3 == 0b101 && top6 == 0b000000 {
        Some(insts::OP_SRLI)
    } else if f3 == 0b101 && top6 == 0b010000 {
        Some(insts::OP_SRAI)
    } else {
        None
    }
}

pub open spec fn spec_branch_opcode(f3: u32) -> Option<InstructionOpcode> {
    if f3 == 0b000 {
        Some(insts::OP_BEQ)
    } else if f3 == 0b001 {
        Some(insts::OP_BNE)
    } else if f3 == 0b100 {
        Some(insts::OP_BLT)
    } else if f3 == 0b101 {
        Some(insts::OP_BGE)
    } else if f3 == 0b110 {
        Some(insts::OP_BLTU)
    } else if f3 == 0b111 {
        Some(insts::OP_BGEU)
    } else {
        None
    }
}

pub open spec fn spec_store_opcode(f3: u32, rv64: bool) -> Option<InstructionOpcode> {
    if f3 == 0b000 {
        Some(insts::OP_SB)
    } else if f3 == 0b001 {
        Some(insts::OP_SH)
    } else if f3 == 0b010 {
        Some(insts::OP_SW)
    } else if f3 == 0b011 && rv64 {
        Some(insts::OP_SD)
    } else {
        None
    }
}

pub open spec fn spec_alu_reg_opcode(f3: u32, f7: u32) -> Option<InstructionOpcode> {
    if f3 == 0b000 && f7 == 0b0000000 {
        Some(insts::OP_ADD)
    } else if f3 == 0b000 && f7 == 0b0100000 {
        Some(insts::OP_SUB)
    } else if f3 == 0b001 && f7 == 0b0000000 {
        Some(insts::OP_SLL)
    } else if f3 == 0b010 && f7 == 0b0000000 {
        Some(insts::OP_SLT)
    } else if f3 == 0b011 && f7 == 0b0000000 {
        Some(insts::OP_SLTU)
    } else if f3 == 0b100 && f7 == 0b0000000 {
        Some(insts::OP_XOR)
    } else if f3 == 0b101 && f7 == 0b0000000 {
        Some(insts::OP_SRL)
    } else if f3 == 0b101 && f7 == 0b0100000 {
        Some(insts::OP_SRA)
    } else if f3 == 0b110 && f7 == 0b0000000 {
        Some(insts::OP_OR)
    } else if f3 == 0b111 && f7 == 0b0000000 {
        Some(insts::OP_AND)
    } else {
        None
    }
}

pub open spec fn spec_shift_imm_w_opcode(f3: u32, f7: u32) -> Option<InstructionOpcode> {
    if f3 == 0b001 && f7 == 0b0000000 {
        Some(insts::OP_SLLIW)
    } else if f3 == 0b101 && f7 == 0b0000000 {
        Some(insts::OP_SRLIW)
    } else if f3 == 0b101 && f7 == 0b0100000 {
        Some(insts::OP_SRAIW)
    } else {
        None
    }
}

pub open spec fn spec_alu_reg_w_opcode(f3: u32, f7: u32) -> Option<InstructionOpcode> {
    if f3 == 0b000 && f7 == 0b0000000 {
        Some(insts::OP_ADDW)
    } else if f3 == 0b000 && f7 == 0b0100000 {
        Some(insts::OP_SUBW)
    } else if f3 == 0b001 && f7 == 0b0000000 {
        Some(insts::OP_SLLW)
    } else if f3 == 0b101 && f7 == 0b0000000 {
        Some(insts::OP_SRLW)
    } else if f3 == 0b101 && f7 == 0b0100000 {
        Some(insts::OP_SRAW)
    } else {
        None
    }
}

/// The internal form of a base integer instruction on a machine of `bits`
/// bits, before its length is recorded.
pub open spec fn spec_i_expand(b: u32, bits: u8, shift_mask: u8, version: u32) -> Option<Instruction> {
    let rv64: bool = bits == 64;
    let op: u32 = spec_opcode(b);
    let f3: u32 = spec_funct3(b);
    let f7: u32 = spec_funct7(b);
    if bits != 32 && bits != 64 {
        None
    } else if op == 0b0110111 {
        Some(spec_u(insts::OP_LUI, b, spec_utype_immediate(b)))
    } else if op == 0b0010111 {
        Some(spec_u(insts::OP_AUIPC, b, spec_utype_immediate(b)))
    } else if op == 0b1101111 {
        Some(spec_u(insts::OP_JAL, b, spec_jtype_immediate(b)))
    } else if op == 0b1100111 {
        if f3 == 0b000 {
            Some(
                spec_i(
                    if version >= 1 { insts::OP_JALR_VERSION1 } else { insts::OP_JALR_VERSION0 },
                    b,
                    spec_itype_immediate(b),
                ),
            )
        } else {
            None
        }
    } else if op == 0b0000011 {
        match spec_load_opcode(f3, rv64, version) {
            Some(o) => Some(spec_i(o, b, spec_itype_immediate(b))),
            None => None,
        }
    } else if op == 0b0010011 {
        if f3 == 0b001 || f3 == 0b101 {
            match spec_shift_imm_opcode(f3, f7 >> 1u32) {
                Some(o) => Some(spec_i(o, b, spec_itype_immediate(b) & shift_mask as i32)),
                None => None,
            }
        } else {
            match spec_alu_imm_opcode(f3) {
                Some(o) => Some(spec_i(o, b, spec_itype_immediate(b))),
                None => None,
            }
        }
    } else if op == 0b1100011 {
        match spec_branch_opcode(f3) {
            Some(o) => Some(spec_s(o, b, spec_btype_immediate(b))),
            None => None,
        }
    } else if op == 0b0100011 {
        match spec_store_opcode(f3, rv64) {
            Some(o) => Some(spec_s(o, b, spec_stype_immediate(b))),
            None => None,
        }
    } else if op == 0b0110011 {
        match spec_alu_reg_opcode(f3, f7) {
            Some(o) => Some(spec_r(o, b)),
            None => None,
        }
    } else if op == 0b0001111 {
        if b == 0b0000_0000_0000_00000_001_00000_0001111 {
            Some(spec_opcode_bits(insts::OP_FENCEI))
        } else if b & 0x000_FFFFF == 0b00000_000_00000_0001111 {
            Some(
                spec_rtype_bits(
                    insts::OP_FENCE,
                    ((b & 0xF00_00000) >> 28u32) as u8 as usize,
                    ((b & 0x0F0_00000) >> 24u32) as u8 as usize,
                    ((b & 0x00F_00000) >> 20u32) as u8 as usize,
                ),
            )
        } else {
            None
        }
    } else if op == 0b1110011 {
        if b == 0b000000000000_00000_000_00000_1110011 {
            Some(spec_opcode_bits(insts::OP_ECALL))
        } else if b == 0b000000000001_00000_000_00000_1110011 {
            Some(spec_opcode_bits(insts::OP_EBREAK))
        } else {
            None
        }
    } else if op == 0b0011011 && rv64 {
        if f3 == 0b000 {
            Some(spec_i(insts::OP_ADDIW, b, spec_itype_immediate(b)))
        } else if f3 == 0b001 || f3 == 0b101 {
            match spec_shift_imm_w_opcode(f3, f7) {
                Some(o) => Some(spec_i(o, b, spec_itype_immediate(b) & 0x1F)),
                None => None,
            }
        } else {
            None
        }
    } else if op == 0b0111011 && rv64 {
        match spec_alu_reg_w_opcode(f3, f7) {
            Some(o) => Some(spec_r(o, b)),
            None => None,
        }
    } else {
        None
    }
}

/// The decoding of a base integer instruction on a machine of `bits` bits:
/// its internal form, with the length of 4 bytes recorded.
pub open spec fn spec_i_factory(b: u32, bits: u8, shift_mask: u8, version: u32) -> Option<Instruction> {
    match spec_i_expand(b, bits, shift_mask, version) {
        Some(i) => Some(i | 0x2000000),
        None => None,
    }
}

/// Decodes a base integer instruction, for a machine whose registers are
/// `R`; loads and JALR take their version 1 opcodes from `version` 1 on.
/// The result records its length of 4 bytes, which the interpreter steps
/// over.
pub fn factory<R: Register>(instruction_bits: u32, version: u32) -> (r: Option<Instruction>)
    ensures
        r == spec_i_factory(instruction_bits, R::BITS, R::SHIFT_MASK, version),
{
    match expand::<R>(instruction_bits, version) {
        Some(i) => Some(set_instruction_length_4(i)),
        None => None,
    }
}

/// The internal form of a base integer instruction, before its length is
/// recorded.
fn expand<R: Register>(instruction_bits: u32, version: u32) -> (r: Option<Instruction>)
    ensures
        r == spec_i_expand(instruction_bits, R::BITS, R::SHIFT_MASK, version),
{
    let bit_length: u8 = R::BITS;
    if bit_length != 32 && bit_length != 64 {
        return None;
    }
    let rv64: bool = bit_length == 64;
    let v1: bool = version >= 1;
    let b: u32 = instruction_bits;
    match opcode(instruction_bits) {
        0b_0110111 => Some(Utype::new_s(insts::OP_LUI, rd(b), utype_immediate(b)).0),
        0b_0010111 => Some(Utype::new_s(insts::OP_AUIPC, rd(b), utype_immediate(b)).0),
        0b_1101111 => Some(Utype::new_s(insts::OP_JAL, rd(b), jtype_immediate(b)).0),
        0b_1100111 => {
            // I-type jump instructions
            if funct3(b) == 0b_000 {
                let inst: InstructionOpcode = if v1 {
                    insts::OP_JALR_VERSION1
                } else {
                    insts::OP_JALR_VERSION0
                };
                Some(Itype::new_s(inst, rd(b), rs1(b), itype_immediate(b)).0)
            } else {
                None
            }
        },
        0b_0000011 => {
            // I-type load instructions
            let inst_opt: Option<InstructionOpcode> = match funct3(b) {
                0b_000 => Some(if v1 { insts::OP_LB_VERSION1 } else { insts::OP_LB_VERSION0 }),
                0b_001 => Some(if v1 { insts::OP_LH_VERSION1 } else { insts::OP_LH_VERSION0 }),
                0b_010 => Some(if v1 { insts::OP_LW_VERSION1 } else { insts::OP_LW_VERSION0 }),
                0b_100 => Some(if v1 { insts::OP_LBU_VERSION1 } else { insts::OP_LBU_VERSION0 }),
                0b_101 => Some(if v1 { insts::OP_LHU_VERSION1 } else { insts::OP_LHU_VERSION0 }),
                0b_110 if rv64 => Some(
                    if v1 {
                        insts::OP_LWU_VERSION1
                    } else {
                        insts::OP_LWU_VERSION0
                    },
                ),
                0b_011 if rv64 => Some(if v1 { insts::OP_LD_VERSION1 } else { insts::OP_LD_VERSION0 }),
                _ => None,
            };
            match inst_opt {
                Some(inst) => Some(Itype::new_s(inst, rd(b), rs1(b), itype_immediate(b)).0),
                None => None,
            }
        },
        0b_0010011 => {
            let funct3_value: u32 = funct3(b);
            if funct3_value == 0b_001 || funct3_value == 0b_101 {
                // I-type special ALU instructions
                let top6_value: u32 = funct7(b) >> 1;
                let inst_opt: Option<InstructionOpcode> = if funct3_value == 0b_001 && top6_value
                    == 0b_000000 {
                    Some(insts::OP_SLLI)
                } else if funct3_value == 0b_101 && top6_value == 0b_000000 {
                    Some(insts::OP_SRLI)
                } else if funct3_value == 0b_101 && top6_value == 0b_010000 {
                    Some(insts::OP_SRAI)
                } else {
                    None
                };
                match inst_opt {
                    Some(inst) => Some(
                        Itype::new_s(
                            inst,
                            rd(b),
                            rs1(b),
                            itype_immediate(b) & R::SHIFT_MASK as i32,
                        ).0,
                    ),
                    None => None,
                }
            } else {
                // I-type ALU instructions
                let inst_opt: Option<InstructionOpcode> = match funct3_value {
                    0b_000 => Some(insts::OP_ADDI),
                    0b_010 => Some(insts::OP_SLTI),
                    0b_011 => Some(insts::OP_SLTIU),
                    0b_100 => Some(insts::OP_XORI),
                    0b_110 => Some(insts::OP_ORI),
                    0b_111 => Some(insts::OP_ANDI),
                    _ => None,
                };
                match inst_opt {
                    Some(inst) => Some(Itype::new_s(inst, rd(b), rs1(b), itype_immediate(b)).0),
                    None => None,
                }
            }
        },
        0b_1100011 => {
            let inst_opt: Option<InstructionOpcode> = match funct3(b) {
                0b_000 => Some(insts::OP_BEQ),
                0b_001 => Some(insts::OP_BNE),
                0b_100 => Some(insts::OP_BLT),
                0b_101 => Some(insts::OP_BGE),
                0b_110 => Some(insts::OP_BLTU),
                0b_111 => Some(insts::OP_BGEU),
                _ => None,
            };
            match inst_opt {
                Some(inst) => Some(Stype::new_s(inst, btype_immediate(b), rs1(b), rs2(b)).0),
                None => None,
            }
        },
        0b_0100011 => {
            let inst_opt: Option<InstructionOpcode> = match funct3(b) {
                0b_000 => Some(insts::OP_SB),
                0b_001 => Some(insts::OP_SH),
                0b_010 => Some(insts::OP_SW),
                0b_011 if rv64 => Some(insts::OP_SD),
                _ => None,
            };
            match inst_opt {
                Some(inst) => Some(Stype::new_s(inst, stype_immediate(b), rs1(b), rs2(b)).0),
                None => None,
            }
        },
        0b_0110011 => {
            let f3: u32 = funct3(b);
            let f7: u32 = funct7(b);
            let inst_opt: Option<InstructionOpcode> = if f3 == 0b_000 && f7 == 0b_0000000 {
                Some(insts::OP_ADD)
            } else if f3 == 0b_000 && f7 == 0b_0100000 {
                Some(insts::OP_SUB)
            } else if f3 == 0b_001 && f7 == 0b_0000000 {
                Some(insts::OP_SLL)
            } else if f3 == 0b_010 && f7 == 0b_0000000 {
                Some(insts::OP_SLT)
            } else if f3 == 0b_011 && f7 == 0b_0000000 {
                Some(insts::OP_SLTU)
            } else if f3 == 0b_100 && f7 == 0b_0000000 {
                Some(insts::OP_XOR)
            } else if f3 == 0b_101 && f7 == 0b_0000000 {
                Some(insts::OP_SRL)
            } else if f3 == 0b_101 && f7 == 0b_0100000 {
                Some(insts::OP_SRA)
            } else if f3 == 0b_110 && f7 == 0b_0000000 {
                Some(insts::OP_OR)
            } else if f3 == 0b_111 && f7 == 0b_0000000 {
                Some(insts::OP_AND)
            } else {
                None
            };
            match inst_opt {
                Some(inst) => Some(Rtype::new(inst, rd(b), rs1(b), rs2(b)).0),
                None => None,
            }
        },
        0b_0001111 => {
            let fence_low_bits: u32 = 0b_00000_000_00000_0001111;
            let fencei_value: u32 = 0b_0000_0000_0000_00000_001_00000_0001111;
            if b == fencei_value {
                Some(blank_instruction(insts::OP_FENCEI))
            } else if b & 0x000_FFFFF == fence_low_bits {
                Some(
                    FenceType::new(
                        ((b & 0xF00_00000) >> 28) as u8,
                        ((b & 0x0F0_00000) >> 24) as u8,
                        ((b & 0x00F_00000) >> 20) as u8,
                    ).0,
                )
            } else {
                None
            }
        },
        0b_1110011 => {
            if b == 0b_000000000000_00000_000_00000_1110011 {
                Some(blank_instruction(insts::OP_ECALL))
            } else if b == 0b_000000000001_00000_000_00000_1110011 {
                Some(blank_instruction(insts::OP_EBREAK))
            } else {
                None
            }
        },
        0b_0011011 if rv64 => {
            let funct3_value: u32 = funct3(b);
            if funct3_value == 0b_000 {
                Some(Itype::new_s(insts::OP_ADDIW, rd(b), rs1(b), itype_immediate(b)).0)
            } else if funct3_value == 0b_001 || funct3_value == 0b_101 {
                let funct7_value: u32 = funct7(b);
                let inst_opt: Option<InstructionOpcode> = if funct3_value == 0b_001 && funct7_value
                    == 0b_0000000 {
                    Some(insts::OP_SLLIW)
                } else if funct3_value == 0b_101 && funct7_value == 0b_0000000 {
                    Some(insts::OP_SRLIW)
                } else if funct3_value == 0b_101 && funct7_value == 0b_0100000 {
                    Some(insts::OP_SRAIW)
                } else {
                    None
                };
                match inst_opt {
                    Some(inst) => Some(Itype::new_s(inst, rd(b), rs1(b), itype_immediate(b) & 0x1F).0),
                    None => None,
                }
            } else {
                None
            }
        },
        0b_0111011 if rv64 => {
            let f3: u32 = funct3(b);
            let f7: u32 = funct7(b);
            let inst_opt: Option<InstructionOpcode> = if f3 == 0b_000 && f7 == 0b_0000000 {
                Some(insts::OP_ADDW)
            } else if f3 == 0b_000 && f7 == 0b_0100000 {
                Some(insts::OP_SUBW)
            } else if f3 == 0b_001 && f7 == 0b_0000000 {
                Some(insts::OP_SLLW)
            } else if f3 == 0b_101 && f7 == 0b_0000000 {
                Some(insts::OP_SRLW)
            } else if f3 == 0b_101 && f7 == 0b_0100000 {
                Some(insts::OP_SRAW)
            } else {
                None
            };
            match inst_opt {
                Some(inst) => Some(Rtype::new(inst, rd(b), rs1(b), rs2(b)).0),
                None => None,
            }
        },
        _ => None,
    }
}


/// Part of the encoding table of the base set: register-register
/// operations (major opcode `0110011`) are, by `funct3`, ADD (SUB where
/// `funct7` is `0100000`), SLL, SLT, SLTU, XOR, SRL (SRA where `funct7` is
/// `0100000`), OR and AND; register-immediate ones (`0010011`, leaving out
/// the shifts) ADDI, SLTI, SLTIU, XORI, ORI and ANDI for `funct3` 0, 2, 3,
/// 4, 6 and 7; and branches (`1100011`) BEQ, BNE, BLT, BGE, BLTU and BGEU
/// for `funct3` 0, 1, 4, 5, 6 and 7; loads (`0000011`) LB, LH, LW, LD, LBU,
/// LHU and LWU for `funct3` 0 to 6 (LD and LWU on 64 bit machines only), in
/// their version 1 form from version 1 on; and stores (`0100011`) SB, SH, SW
/// and SD (64 bit machines only) for `funct3` 0 to 3. Each keeps the
/// register fields of its bits (for a branch or a store, the two sources)
/// and records a length of 4 bytes.
pub proof fn lemma_i_decoding(b: u32, bits: u8, shift_mask: u8, version: u32)
    requires
        bits == 32 || bits == 64,
    ensures
        ({
            let f3 = (b >> 12u32) & 7;
            let f7 = b >> 25u32;
            let rd = (b >> 7u32) & 0x1f;
            let rs1 = (b >> 15u32) & 0x1f;
            let rs2 = (b >> 20u32) & 0x1f;
            let decoded = spec_i_factory(b, bits, shift_mask, version);
            let plain = seq![
                insts::OP_ADD,
                insts::OP_SLL,
                insts::OP_SLT,
                insts::OP_SLTU,
                insts::OP_XOR,
                insts::OP_SRL,
                insts::OP_OR,
                insts::OP_AND,
            ];
            let immediate = seq![
                insts::OP_ADDI,
                0u16,
                insts::OP_SLTI,
                insts::OP_SLTIU,
                insts::OP_XORI,
                0u16,
                insts::OP_ORI,
                insts::OP_ANDI,
            ];
            let load0 = seq![
                insts::OP_LB_VERSION0,
                insts::OP_LH_VERSION0,
                insts::OP_LW_VERSION0,
                insts::OP_LD_VERSION0,
                insts::OP_LBU_VERSION0,
                insts::OP_LHU_VERSION0,
                insts::OP_LWU_VERSION0,
                0u16,
            ];
            let load1 = seq![
                insts::OP_LB_VERSION1,
                insts::OP_LH_VERSION1,
                insts::OP_LW_VERSION1,
                insts::OP_LD_VERSION1,
                insts::OP_LBU_VERSION1,
                insts::OP_LHU_VERSION1,
                insts::OP_LWU_VERSION1,
                0u16,
            ];
            let store = seq![insts::OP_SB, insts::OP_SH, insts::OP_SW, insts::OP_SD];
            let branch = seq![
                insts::OP_BEQ,
                insts::OP_BNE,
                0u16,
                0u16,
                insts::OP_BLT,
                insts::OP_BGE,
                insts::OP_BLTU,
                insts::OP_BGEU,
            ];
            &&& (b & 0x7f == 0b0110011 && f7 == 0) ==> (decoded matches Some(i) && spec_extract_opcode(i)
                == plain[f3 as int] && spec_byte_at(i, 8) == rd && spec_byte_at(i, 32) == rs1
                && spec_byte_at(i, 40) == rs2 && spec_instruction_length(i) == 4)
            &&& (b & 0x7f == 0b0110011 && f7 == 0b0100000) ==> (if f3 == 0 || f3 == 5 {
                decoded matches Some(i) && spec_extract_opcode(i) == (if f3 == 0 {
                    insts::OP_SUB
                } else {
                    insts::OP_SRA
                }) && spec_byte_at(i, 8) == rd && spec_byte_at(i, 32) == rs1 && spec_byte_at(i, 40)
                    == rs2 && spec_instruction_length(i) == 4
            } else {
                decoded is None
            })
            &&& (b & 0x7f == 0b0010011 && f3 != 1 && f3 != 5) ==> (decoded matches Some(i)
                && spec_extract_opcode(i) == immediate[f3 as int] && spec_byte_at(i, 8) == rd
                && spec_byte_at(i, 32) == rs1 && spec_instruction_length(i) == 4)
            &&& (b & 0x7f == 0b0000011) ==> (if f3 == 7 || (bits == 32 && (f3 == 3 || f3 == 6)) {
                decoded is None
            } else {
                decoded matches Some(i) && spec_extract_opcode(i) == (if version >= 1 {
                    load1[f3 as int]
                } else {
                    load0[f3 as int]
                }) && spec_byte_at(i, 8) == rd && spec_byte_at(i, 32) == rs1
                    && spec_instruction_length(i) == 4
            })
            &&& (b & 0x7f == 0b0100011) ==> (if f3 >= 4 || (bits == 32 && f3 == 3) {
                decoded is None
            } else {
                decoded matches Some(i) && spec_extract_opcode(i) == store[f3 as int]
                    && spec_byte_at(i, 32) == rs1 && spec_byte_at(i, 8) == rs2
                    && spec_instruction_length(i) == 4
            })
            &&& (b & 0x7f == 0b1100011) ==> (if f3 == 2 || f3 == 3 {
                decoded is None
            } else {
                decoded matches Some(i) && spec_extract_opcode(i) == branch[f3 as int]
                    && spec_byte_at(i, 32) == rs1 && spec_byte_at(i, 8) == rs2
                    && spec_instruction_length(i) == 4
            })
        }),
{
    lemma_fields(b);
    let rd = spec_rd(b);
    let rs1 = spec_rs1(b);
    let rs2 = spec_rs2(b);
    let f3 = (b >> 12u32) & 7;
    assert(f3 < 8);
    assert forall|o: u16|
        #![trigger spec_rtype_bits(o, rd, rs1, rs2)]
        spec_extract_opcode(spec_rtype_bits(o, rd, rs1, rs2) | 0x2000000) == o
            && spec_byte_at(spec_rtype_bits(o, rd, rs1, rs2) | 0x2000000, 8) == rd
            && spec_byte_at(spec_rtype_bits(o, rd, rs1, rs2) | 0x2000000, 32) == rs1
            && spec_byte_at(spec_rtype_bits(o, rd, rs1, rs2) | 0x2000000, 40) == rs2
            && spec_instruction_length(spec_rtype_bits(o, rd, rs1, rs2) | 0x2000000) == 4 by {
        lemma_rtype_roundtrip(o, rd, rs1, rs2);
        lemma_length_keeps_fields(spec_rtype_bits(o, rd, rs1, rs2), 4);
        lemma_length_four(spec_rtype_bits(o, rd, rs1, rs2));
    }
    assert forall|o: u16, imm: i32|
        #![trigger spec_itype_bits(o, rd, rs1, imm as u32)]
        spec_extract_opcode(spec_itype_bits(o, rd, rs1, imm as u32) | 0x2000000) == o
            && spec_byte_at(spec_itype_bits(o, rd, rs1, imm as u32) | 0x2000000, 8) == rd
            && spec_byte_at(spec_itype_bits(o, rd, rs1, imm as u32) | 0x2000000, 32) == rs1
            && spec_instruction_length(spec_itype_bits(o, rd, rs1, imm as u32) | 0x2000000) == 4 by {
        lemma_itype_roundtrip(o, rd, rs1, imm);
        lemma_length_keeps_fields(spec_itype_bits(o, rd, rs1, imm as u32), 4);
        lemma_length_four(spec_itype_bits(o, rd, rs1, imm as u32));
    }
    assert forall|o: u16, imm: i32|
        #![trigger spec_stype_bits(o, imm as u32, rs1, rs2)]
        spec_extract_opcode(spec_stype_bits(o, imm as u32, rs1, rs2) | 0x2000000) == o
            && spec_byte_at(spec_stype_bits(o, imm as u32, rs1, rs2) | 0x2000000, 8) == rs2
            && spec_byte_at(spec_stype_bits(o, imm as u32, rs1, rs2) | 0x2000000, 32) == rs1
            && spec_instruction_length(spec_stype_bits(o, imm as u32, rs1, rs2) | 0x2000000) == 4 by {
        lemma_stype_roundtrip(o, imm, rs1, rs2);
        lemma_length_keeps_fields(spec_stype_bits(o, imm as u32, rs1, rs2), 4);
        lemma_length_four(spec_stype_bits(o, imm as u32, rs1, rs2));
    }
    if f3 == 0 {
    } else if f3 == 1 {
    } else if f3 == 2 {
    } else if f3 == 3 {
    } else if f3 == 4 {
    } else if f3 == 5 {
    } else if f3 == 6 {
    } else {
    }
}

} // verus!
