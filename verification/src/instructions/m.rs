//! Decoder of the integer multiplication and division extension.
use vstd::prelude::*;
use crate::definitions::instructions as insts;
use super::i::spec_r;
use super::register::Register;
use super::utils::{
    funct3, funct7, lemma_fields, opcode, rd, rs1, rs2, spec_funct3, spec_funct7, spec_opcode, spec_rd,
    spec_rs1, spec_rs2,
};
use super::{
    lemma_length_keeps_fields, lemma_rtype_roundtrip, set_instruction_length_4, spec_byte_at,
    spec_extract_opcode, spec_instruction_length, spec_rtype_bits, Instruction, InstructionOpcode,
    Rtype,
};

verus! {

/// The internal form of an M extension instruction on a machine of `bits`
/// bits, before its length is recorded.
pub open spec fn spec_m_expand(b: u32, bits: u8) -> Option<Instruction> {
    let rv64: bool = bits == 64;
    let f3: u32 = spec_funct3(b);
    let op: Option<InstructionOpcode> = if bits != 32 && bits != 64 {
        None
    } else if spec_funct7(b) != 0b0000001 {
        None
    } else if spec_opcode(b) == 0b0110011 {
        if f3 == 0b000 {
            Some(insts::OP_MUL)
        } else if f3 == 0b001 {
            Some(insts::OP_MULH)
        } else if f3 == 0b010 {
            Some(insts::OP_MULHSU)
        } else if f3 == 0b011 {
            Some(insts::OP_MULHU)
        } else if f3 == 0b100 {
            Some(insts::OP_DIV)
        } else if f3 == 0b101 {
            Some(insts::OP_DIVU)
        } else if f3 == 0b110 {
            Some(insts::OP_REM)
        } else {
            Some(insts::OP_REMU)
        }
    } else if spec_opcode(b) == 0b0111011 && rv64 {
        if f3 == 0b000 {
            Some(insts::OP_MULW)
        } else if f3 == 0b100 {
            Some(insts::OP_DIVW)
        } else if f3 == 0b101 {
            Some(insts::OP_DIVUW)
        } else if f3 == 0b110 {
            Some(insts::OP_REMW)
        } else if f3 == 0b111 {
            Some(insts::OP_REMUW)
        } else {
            None
        }
    } else {
        None
    };
    match op {
        Some(o) => Some(spec_r(o, b)),
        None => None,
    }
}

/// The decoding of a multiplication or division instruction on a machine
/// of `bits` bits: its internal form, with the length of 4 bytes recorded.
pub open spec fn spec_m_factory(b: u32, bits: u8) -> Option<Instruction> {
    match spec_m_expand(b, bits) {
        Some(i) => Some(i | 0x2000000),
        None => None,
    }
}

/// Decodes a multiplication or division instruction. The result records
/// its length of 4 bytes, which the interpreter steps over.
pub fn factory<R: Register>(instruction_bits: u32, _version: u32) -> (r: Option<Instruction>)
    ensures
        r == spec_m_factory(instruction_bits, R::BITS),
{
    match expand::<R>(instruction_bits) {
        Some(i) => Some(set_instruction_length_4(i)),
        None => None,
    }
}

/// The internal form of a multiplication or division instruction, before
/// its length is recorded.
fn expand<R: Register>(instruction_bits: u32) -> (r: Option<Instruction>)
    ensures
        r == spec_m_expand(instruction_bits, R::BITS),
{
    let bit_length: u8 = R::BITS;
    if bit_length != 32 && bit_length != 64 {
        return None;
    }
    let rv64: bool = bit_length == 64;
    if funct7(instruction_bits) != 0b_0000001 {
        return None;
    }
    let inst_opt: Option<InstructionOpcode> = match opcode(instruction_bits) {
        0b_0110011 => match funct3(instruction_bits) {
            0b_000 => Some(insts::OP_MUL),
            0b_001 => Some(insts::OP_MULH),
            0b_010 => Some(insts::OP_MULHSU),
            0b_011 => Some(insts::OP_MULHU),
            0b_100 => Some(insts::OP_DIV),
            0b_101 => Some(insts::OP_DIVU),
            0b_110 => Some(insts::OP_REM),
            0b_111 => Some(insts::OP_REMU),
            _ => None,
        },
        0b_0111011 if rv64 => match funct3(instruction_bits) {
            0b_000 => Some(insts::OP_MULW),
            0b_100 => Some(insts::OP_DIVW),
            0b_101 => Some(insts::OP_DIVUW),
            0b_110 => Some(insts::OP_REMW),
            0b_111 => Some(insts::OP_REMUW),
            _ => None,
        },
        _ => None,
    };
    match inst_opt {
        Some(inst) => Some(
            Rtype::new(inst, rd(instruction_bits), rs1(instruction_bits), rs2(instruction_bits)).0,
        ),
        None => None,
    }
}


/// Recording a length of 4 (or 2) bytes in an encoding without a length.
pub(crate) proof fn lemma_length_four(x: u64)
    by (bit_vector)
    requires
        (x >> 24u64) & 0x0f == 0,
    ensures
        crate::instructions::spec_instruction_length(x | 0x2000000) == 4,
        crate::instructions::spec_instruction_length(x | 0x1000000) == 2,
{
}

/// The encoding table of the M extension: an instruction with major opcode
/// `0110011` and `funct7` `0000001` is, by its `funct3` from 0 to 7, MUL,
/// MULH, MULHSU, MULHU, DIV, DIVU, REM or REMU; with major opcode `0111011`
/// on a 64 bit machine it is MULW, DIVW, DIVUW, REMW or REMUW for `funct3`
/// 0, 4, 5, 6 and 7. The destination and the two sources are the register
/// fields at bits 7, 15 and 20, and the length is 4 bytes. Nothing else is
/// decoded.
pub proof fn lemma_m_decoding(b: u32, bits: u8)
    requires
        bits == 32 || bits == 64,
    ensures
        ({
            let f3 = (b >> 12u32) & 7;
            let word = seq![
                insts::OP_MUL,
                insts::OP_MULH,
                insts::OP_MULHSU,
                insts::OP_MULHU,
                insts::OP_DIV,
                insts::OP_DIVU,
                insts::OP_REM,
                insts::OP_REMU,
            ];
            let half = seq![
                insts::OP_MULW,
                0u16,
                0u16,
                0u16,
                insts::OP_DIVW,
                insts::OP_DIVUW,
                insts::OP_REMW,
                insts::OP_REMUW,
            ];
            let decoded = spec_m_factory(b, bits);
            if b >> 25u32 == 1 && b & 0x7f == 0b0110011 {
                decoded matches Some(i) && spec_extract_opcode(i) == word[f3 as int]
                    && spec_byte_at(i, 8) == (b >> 7u32) & 0x1f && spec_byte_at(i, 32) == (b
                    >> 15u32) & 0x1f && spec_byte_at(i, 40) == (b >> 20u32) & 0x1f
                    && spec_instruction_length(i) == 4
            } else if b >> 25u32 == 1 && b & 0x7f == 0b0111011 && bits == 64 && (f3 == 0 || f3
                >= 4) {
                decoded matches Some(i) && spec_extract_opcode(i) == half[f3 as int]
                    && spec_byte_at(i, 8) == (b >> 7u32) & 0x1f && spec_byte_at(i, 32) == (b
                    >> 15u32) & 0x1f && spec_byte_at(i, 40) == (b >> 20u32) & 0x1f
                    && spec_instruction_length(i) == 4
            } else {
                decoded is None
            }
        }),
{
    lemma_fields(b);
    let rd = spec_rd(b);
    let rs1 = spec_rs1(b);
    let rs2 = spec_rs2(b);
    let f3 = (b >> 12u32) & 7;
    assert(f3 < 8);
    assert forall|o: u16|
        #![trigger spec_rtype_bits(o, rd, rs1, rs2)]
        spec_extract_opcode(spec_rtype_bits(o, rd, rs1, rs2) | 0x2000000) == o
            && spec_byte_at(spec_rtype_bits(o, rd, rs1, rs2) | 0x2000000, 8) == rd
            && spec_byte_at(spec_rtype_bits(o, rd, rs1, rs2) | 0x2000000, 32) == rs1
            && spec_byte_at(spec_rtype_bits(o, rd, rs1, rs2) | 0x2000000, 40) == rs2
            && spec_instruction_length(spec_rtype_bits(o, rd, rs1, rs2) | 0x2000000) == 4 by {
        lemma_rtype_roundtrip(o, rd, rs1, rs2);
        lemma_length_keeps_fields(spec_rtype_bits(o, rd, rs1, rs2), 4);
        lemma_length_four(spec_rtype_bits(o, rd, rs1, rs2));
    }
    if f3 == 0 {
    } else if f3 == 1 {
    } else if f3 == 2 {
    } else if f3 == 3 {
    } else if f3 == 4 {
    } else if f3 == 5 {
    } else if f3 == 6 {
    } else {
    }
}

} // verus!
