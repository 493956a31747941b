//! Decoder of the bit manipulation extension (Zba, Zbb, Zbc and Zbs).
use vstd::prelude::*;
use crate::definitions::instructions as insts;
use super::i::spec_r;
use super::register::Register;
use super::utils::{
    funct3, funct7, opcode, rd, rs1, rs2, spec_funct3, spec_funct7, spec_opcode, spec_rd,
    spec_rs1, spec_rs2, spec_x, x,
};
use super::{
    set_instruction_length_4, spec_itype_bits, Instruction, InstructionOpcode, Itype, Rtype,
};

verus! {

/// Register-register word operations (major opcode 0b0111011).
pub open spec fn spec_b_op32(f3: u32, f7: u32, rv64: bool, rs2_zero: bool) -> Option<InstructionOpcode> {
    if f3 == 0b000 && f7 == 0b0000100 {
        Some(insts::OP_ADDUW)
    } else if f3 == 0b001 && f7 == 0b0110000 {
        Some(insts::OP_ROLW)
    } else if f3 == 0b010 && f7 == 0b0010000 {
        Some(insts::OP_SH1ADDUW)
    } else if f3 == 0b100 && f7 == 0b0000100 {
        if rv64 && rs2_zero { Some(insts::OP_ZEXTH) } else { None }
    } else if f3 == 0b100 && f7 == 0b0010000 {
        Some(insts::OP_SH2ADDUW)
    } else if f3 == 0b101 && f7 == 0b0110000 {
        Some(insts::OP_RORW)
    } else if f3 == 0b110 && f7 == 0b0010000 {
        Some(insts::OP_SH3ADDUW)
    } else {
        None
    }
}

/// Register-register operations (major opcode 0b0110011).
pub open spec fn spec_b_op(f3: u32, f7: u32) -> Option<InstructionOpcode> {
    if f3 == 0b111 && f7 == 0b0100000 {
        Some(insts::OP_ANDN)
    } else if f3 == 0b110 && f7 == 0b0100000 {
        Some(insts::OP_ORN)
    } else if f3 == 0b100 && f7 == 0b0100000 {
        Some(insts::OP_XNOR)
    } else if f3 == 0b001 && f7 == 0b0110000 {
        Some(insts::OP_ROL)
    } else if f3 == 0b101 && f7 == 0b0110000 {
        Some(insts::OP_ROR)
    } else if f3 == 0b001 && f7 == 0b0110100 {
        Some(insts::OP_BINV)
    } else if f3 == 0b001 && f7 == 0b0010100 {
        Some(insts::OP_BSET)
    } else if f3 == 0b001 && f7 == 0b0100100 {
        Some(insts::OP_BCLR)
    } else if f3 == 0b101 && f7 == 0b0100100 {
        Some(insts::OP_BEXT)
    } else if f3 == 0b010 && f7 == 0b0010000 {
        Some(insts::OP_SH1ADD)
    } else if f3 == 0b100 && f7 == 0b0010000 {
        Some(insts::OP_SH2ADD)
    } else if f3 == 0b110 && f7 == 0b0010000 {
        Some(insts::OP_SH3ADD)
    } else if f3 == 0b001 && f7 == 0b0000101 {
        Some(insts::OP_CLMUL)
    } else if f3 == 0b011 && f7 == 0b0000101 {
        Some(insts::OP_CLMULH)
    } else if f3 == 0b010 && f7 == 0b0000101 {
        Some(insts::OP_CLMULR)
    } else if f3 == 0b100 && f7 == 0b0000101 {
        Some(insts::OP_MIN)
    } else if f3 == 0b101 && f7 == 0b0000101 {
        Some(insts::OP_MINU)
    } else if f3 == 0b110 && f7 == 0b0000101 {
        Some(insts::OP_MAX)
    } else if f3 == 0b111 && f7 == 0b0000101 {
        Some(insts::OP_MAXU)
    } else {
        None
    }
}

/// Unary operations encoded in the immediate space (major opcode 0b0010011).
pub open spec fn spec_b_unary(f7: u32, f3: u32, rs2: usize) -> Option<InstructionOpcode> {
    if f7 == 0b0010100 && f3 == 0b101 && rs2 == 0b00111 {
        Some(insts::OP_ORCB)
    } else if f7 == 0b0110101 && f3 == 0b101 && rs2 == 0b11000 {
        Some(insts::OP_REV8)
    } else if f7 == 0b0110000 && f3 == 0b001 && rs2 == 0b00000 {
        Some(insts::OP_CLZ)
    } else if f7 == 0b0110000 && f3 == 0b001 && rs2 == 0b00010 {
        Some(insts::OP_CPOP)
    } else if f7 == 0b0110000 && f3 == 0b001 && rs2 == 0b00001 {
        Some(insts::OP_CTZ)
    } else if f7 == 0b0110000 && f3 == 0b001 && rs2 == 0b00100 {
        Some(insts::OP_SEXTB)
    } else if f7 == 0b0110000 && f3 == 0b001 && rs2 == 0b00101 {
        Some(insts::OP_SEXTH)
    } else {
        None
    }
}

/// Operations with a shift amount (major opcode 0b0010011), by the top 6
/// bits and `funct3`.
pub open spec fn spec_b_shift_imm(top6: u32, f3: u32) -> Option<InstructionOpcode> {
    if top6 == 0b010010 && f3 == 0b001 {
        Some(insts::OP_BCLRI)
    } else if top6 == 0b010010 && f3 == 0b101 {
        Some(insts::OP_BEXTI)
    } else if top6 == 0b011010 && f3 == 0b001 {
        Some(insts::OP_BINVI)
    } else if top6 == 0b001010 && f3 == 0b001 {
        Some(insts::OP_BSETI)
    } else if top6 == 0b011000 && f3 == 0b101 {
        Some(insts::OP_RORI)
    } else {
        None
    }
}

/// Word counting operations (major opcode 0b0011011, funct7 0b0110000,
/// funct3 0b001), by `rs2`.
pub open spec fn spec_b_count_w(rs2: usize) -> Option<InstructionOpcode> {
    if rs2 == 0b00000 {
        Some(insts::OP_CLZW)
    } else if rs2 == 0b00010 {
        Some(insts::OP_CPOPW)
    } else if rs2 == 0b00001 {
        Some(insts::OP_CTZW)
    } else {
        None
    }
}

/// The decoding of a bit manipulation instruction, before its length is
/// recorded.
pub open spec fn spec_b_decode(b: u32, rv64: bool) -> Option<Instruction> {
    let op: u32 = spec_opcode(b);
    let f3: u32 = spec_funct3(b);
    let f7: u32 = spec_funct7(b);
    let r2: usize = spec_rs2(b);
    if op == 0b0111011 {
        match spec_b_op32(f3, f7, rv64, r2 == 0) {
            Some(o) => Some(spec_r(o, b)),
            None => None,
        }
    } else if op == 0b0110011 {
        match spec_b_op(f3, f7) {
            Some(o) => Some(spec_r(o, b)),
            None => None,
        }
    } else if op == 0b0010011 {
        match spec_b_unary(f7, f3, r2) {
            Some(o) => Some(spec_r(o, b)),
            None => match spec_b_shift_imm(f7 >> 1u32, f3) {
                Some(o) => Some(spec_itype_bits(o, spec_rd(b), spec_rs1(b), spec_x(b, 20, 6, 0))),
                None => None,
            },
        }
    } else if op == 0b0011011 {
        if f7 == 0b0110000 {
            if f3 == 0b001 {
                match spec_b_count_w(r2) {
                    Some(o) => Some(spec_r(o, b)),
                    None => None,
                }
            } else if f3 == 0b101 {
                Some(spec_itype_bits(insts::OP_RORIW, spec_rd(b), spec_rs1(b), spec_x(b, 20, 5, 0)))
            } else {
                None
            }
        } else if f7 >> 1u32 == 0b000010 && f3 == 0b001 {
            Some(spec_itype_bits(insts::OP_SLLIUW, spec_rd(b), spec_rs1(b), spec_x(b, 20, 5, 0)))
        } else {
            None
        }
    } else {
        None
    }
}

/// The decoding of a bit manipulation instruction on a machine of `bits`
/// bits.
pub open spec fn spec_b_factory(b: u32, bits: u8) -> Option<Instruction> {
    if bits != 32 && bits != 64 {
        None
    } else {
        match spec_b_decode(b, bits == 64) {
            Some(i) => Some(i | 0x2000000),
            None => None,
        }
    }
}

fn b_op32(f3: u32, f7: u32, rv64: bool, rs2_zero: bool) -> (r: Option<InstructionOpcode>)
    ensures
        r == spec_b_op32(f3, f7, rv64, rs2_zero),
{
    if f3 == 0b_000 && f7 == 0b_0000100 {
        Some(insts::OP_ADDUW)
    } else if f3 == 0b_001 && f7 == 0b_0110000 {
        Some(insts::OP_ROLW)
    } else if f3 == 0b_010 && f7 == 0b_0010000 {
        Some(insts::OP_SH1ADDUW)
    } else if f3 == 0b_100 && f7 == 0b_0000100 {
        if rv64 && rs2_zero {
            Some(insts::OP_ZEXTH)
        } else {
            None
        }
    } else if f3 == 0b_100 && f7 == 0b_0010000 {
        Some(insts::OP_SH2ADDUW)
    } else if f3 == 0b_101 && f7 == 0b_0110000 {
        Some(insts::OP_RORW)
    } else if f3 == 0b_110 && f7 == 0b_0010000 {
        Some(insts::OP_SH3ADDUW)
    } else {
        None
    }
}

fn b_op(f3: u32, f7: u32) -> (r: Option<InstructionOpcode>)
    ensures
        r == spec_b_op(f3, f7),
{
    if f3 == 0b_111 && f7 == 0b_0100000 {
        Some(insts::OP_ANDN)
    } else if f3 == 0b_110 && f7 == 0b_0100000 {
        Some(insts::OP_ORN)
    } else if f3 == 0b_100 && f7 == 0b_0100000 {
        Some(insts::OP_XNOR)
    } else if f3 == 0b_001 && f7 == 0b_0110000 {
        Some(insts::OP_ROL)
    } else if f3 == 0b_101 && f7 == 0b_0110000 {
        Some(insts::OP_ROR)
    } else if f3 == 0b_001 && f7 == 0b_0110100 {
        Some(insts::OP_BINV)
    } else if f3 == 0b_001 && f7 == 0b_0010100 {
        Some(insts::OP_BSET)
    } else if f3 == 0b_001 && f7 == 0b_0100100 {
        Some(insts::OP_BCLR)
    } else if f3 == 0b_101 && f7 == 0b_0100100 {
        Some(insts::OP_BEXT)
    } else if f3 == 0b_010 && f7 == 0b_0010000 {
        Some(insts::OP_SH1ADD)
    } else if f3 == 0b_100 && f7 == 0b_0010000 {
        Some(insts::OP_SH2ADD)
    } else if f3 == 0b_110 && f7 == 0b_0010000 {
        Some(insts::OP_SH3ADD)
    } else if f3 == 0b_001 && f7 == 0b_0000101 {
        Some(insts::OP_CLMUL)
    } else if f3 == 0b_011 && f7 == 0b_0000101 {
        Some(insts::OP_CLMULH)
    } else if f3 == 0b_010 && f7 == 0b_0000101 {
        Some(insts::OP_CLMULR)
    } else if f3 == 0b_100 && f7 == 0b_0000101 {
        Some(insts::OP_MIN)
    } else if f3 == 0b_101 && f7 == 0b_0000101 {
        Some(insts::OP_MINU)
    } else if f3 == 0b_110 && f7 == 0b_0000101 {
        Some(insts::OP_MAX)
    } else if f3 == 0b_111 && f7 == 0b_0000101 {
        Some(insts::OP_MAXU)
    } else {
        None
    }
}

fn b_unary(f7: u32, f3: u32, rs2: usize) -> (r: Option<InstructionOpcode>)
    ensures
        r == spec_b_unary(f7, f3, rs2),
{
    if f7 == 0b_0010100 && f3 == 0b_101 && rs2 == 0b_00111 {
        Some(insts::OP_ORCB)
    } else if f7 == 0b_0110101 && f3 == 0b_101 && rs2 == 0b_11000 {
        Some(insts::OP_REV8)
    } else if f7 == 0b_0110000 && f3 == 0b_001 && rs2 == 0b_00000 {
        Some(insts::OP_CLZ)
    } else if f7 == 0b_0110000 && f3 == 0b_001 && rs2 == 0b_00010 {
        Some(insts::OP_CPOP)
    } else if f7 == 0b_0110000 && f3 == 0b_001 && rs2 == 0b_00001 {
        Some(insts::OP_CTZ)
    } else if f7 == 0b_0110000 && f3 == 0b_001 && rs2 == 0b_00100 {
        Some(insts::OP_SEXTB)
    } else if f7 == 0b_0110000 && f3 == 0b_001 && rs2 == 0b_00101 {
        Some(insts::OP_SEXTH)
    } else {
        None
    }
}

fn b_shift_imm(top6: u32, f3: u32) -> (r: Option<InstructionOpcode>)
    ensures
        r == spec_b_shift_imm(top6, f3),
{
    if top6 == 0b_010010 && f3 == 0b_001 {
        Some(insts::OP_BCLRI)
    } else if top6 == 0b_010010 && f3 == 0b_101 {
        Some(insts::OP_BEXTI)
    } else if top6 == 0b_011010 && f3 == 0b_001 {
        Some(insts::OP_BINVI)
    } else if top6 == 0b_001010 && f3 == 0b_001 {
        Some(insts::OP_BSETI)
    } else if top6 == 0b_011000 && f3 == 0b_101 {
        Some(insts::OP_RORI)
    } else {
        None
    }
}

fn b_count_w(rs2: usize) -> (r: Option<InstructionOpcode>)
    ensures
        r == spec_b_count_w(rs2),
{
    match rs2 {
        0b_00000 => Some(insts::OP_CLZW),
        0b_00010 => Some(insts::OP_CPOPW),
        0b_00001 => Some(insts::OP_CTZW),
        _ => None,
    }
}

/// Decodes a bit manipulation instruction, for a machine whose registers
/// are `R`; the result records a length of 4.
pub fn factory<R: Register>(instruction_bits: u32) -> (r: Option<Instruction>)
    ensures
        r == spec_b_factory(instruction_bits, R::BITS),
{
    let bit_length: u8 = R::BITS;
    if bit_length != 32 && bit_length != 64 {
        return None;
    }
    let rv64: bool = bit_length == 64;
    let b: u32 = instruction_bits;
    let inst: Option<Instruction> = match opcode(b) {
        0b_0111011 => {
            match b_op32(funct3(b), funct7(b), rv64, rs2(b) == 0) {
                Some(o) => Some(Rtype::new(o, rd(b), rs1(b), rs2(b)).0),
                None => None,
            }
        },
        0b_0110011 => {
            match b_op(funct3(b), funct7(b)) {
                Some(o) => Some(Rtype::new(o, rd(b), rs1(b), rs2(b)).0),
                None => None,
            }
        },
        0b_0010011 => {
            let funct3_value: u32 = funct3(b);
            let funct7_value: u32 = funct7(b);
            match b_unary(funct7_value, funct3_value, rs2(b)) {
                Some(o) => Some(Rtype::new(o, rd(b), rs1(b), rs2(b)).0),
                None => match b_shift_imm(funct7_value >> 1, funct3_value) {
                    Some(o) => Some(Itype::new_u(o, rd(b), rs1(b), x(b, 20, 6, 0)).0),
                    None => None,
                },
            }
        },
        0b_0011011 => {
            let funct3_value: u32 = funct3(b);
            let funct7_value: u32 = funct7(b);
            if funct7_value == 0b_0110000 {
                if funct3_value == 0b_001 {
                    match b_count_w(rs2(b)) {
                        Some(o) => Some(Rtype::new(o, rd(b), rs1(b), rs2(b)).0),
                        None => None,
                    }
                } else if funct3_value == 0b_101 {
                    Some(Itype::new_u(insts::OP_RORIW, rd(b), rs1(b), x(b, 20, 5, 0)).0)
                } else {
                    None
                }
            } else if funct7_value >> 1 == 0b_000010 && funct3_value == 0b_001 {
                Some(Itype::new_u(insts::OP_SLLIUW, rd(b), rs1(b), x(b, 20, 5, 0)).0)
            } else {
                None
            }
        },
        _ => None,
    };
    match inst {
        Some(i) => Some(set_instruction_length_4(i)),
        None => None,
    }
}

} // verus!
