//! Decoder of the atomic memory operation extension.
use vstd::prelude::*;
use crate::definitions::instructions as insts;
use super::i::spec_r;
use super::register::Register;
use super::utils::{
    funct3, funct7, opcode, rd, rs1, rs2, spec_funct3, spec_funct7, spec_opcode, spec_rs2,
};
use super::{set_instruction_length_4, Instruction, InstructionOpcode, Rtype};

verus! {

/// The opcode of a 32 bit (`funct3` 0b010) atomic operation by `funct5`.
pub open spec fn spec_amo_w(f3: u32, f5: u32, rs2_zero: bool) -> Option<InstructionOpcode> {
    if f3 != 0b010 {
        None
    } else if f5 == 0b00010 {
        if rs2_zero { Some(insts::OP_LR_W) } else { None }
    } else if f5 == 0b00011 {
        Some(insts::OP_SC_W)
    } else if f5 == 0b00001 {
        Some(insts::OP_AMOSWAP_W)
    } else if f5 == 0b00000 {
        Some(insts::OP_AMOADD_W)
    } else if f5 == 0b00100 {
        Some(insts::OP_AMOXOR_W)
    } else if f5 == 0b01100 {
        Some(insts::OP_AMOAND_W)
    } else if f5 == 0b01000 {
        Some(insts::OP_AMOOR_W)
    } else if f5 == 0b10000 {
        Some(insts::OP_AMOMIN_W)
    } else if f5 == 0b10100 {
        Some(insts::OP_AMOMAX_W)
    } else if f5 == 0b11000 {
        Some(insts::OP_AMOMINU_W)
    } else if f5 == 0b11100 {
        Some(insts::OP_AMOMAXU_W)
    } else {
        None
    }
}

/// The opcode of a 64 bit (`funct3` 0b011) atomic operation by `funct5`.
pub open spec fn spec_amo_d(f3: u32, f5: u32, rs2_zero: bool) -> Option<InstructionOpcode> {
    if f3 != 0b011 {
        None
    } else if f5 == 0b00010 {
        if rs2_zero { Some(insts::OP_LR_D) } else { None }
    } else if f5 == 0b00011 {
        Some(insts::OP_SC_D)
    } else if f5 == 0b00001 {
        Some(insts::OP_AMOSWAP_D)
    } else if f5 == 0b00000 {
        Some(insts::OP_AMOADD_D)
    } else if f5 == 0b00100 {
        Some(insts::OP_AMOXOR_D)
    } else if f5 == 0b01100 {
        Some(insts::OP_AMOAND_D)
    } else if f5 == 0b01000 {
        Some(insts::OP_AMOOR_D)
    } else if f5 == 0b10000 {
        Some(insts::OP_AMOMIN_D)
    } else if f5 == 0b10100 {
        Some(insts::OP_AMOMAX_D)
    } else if f5 == 0b11000 {
        Some(insts::OP_AMOMINU_D)
    } else if f5 == 0b11100 {
        Some(insts::OP_AMOMAXU_D)
    } else {
        None
    }
}

/// The decoding of an A extension instruction on a machine of `bits` bits;
/// the 64 bit forms exist on 64 bit machines only.
pub open spec fn spec_a_factory(b: u32, bits: u8) -> Option<Instruction> {
    let f3: u32 = spec_funct3(b);
    let f5: u32 = spec_funct7(b) >> 2u32;
    let z: bool = spec_rs2(b) == 0;
    let op: Option<InstructionOpcode> = if bits != 32 && bits != 64 {
        None
    } else if spec_opcode(b) != 0b0101111 {
        None
    } else if spec_amo_w(f3, f5, z) is Some {
        spec_amo_w(f3, f5, z)
    } else if bits == 64 {
        spec_amo_d(f3, f5, z)
    } else {
        None
    };
    match op {
        Some(o) => Some(spec_r(o, b) | 0x2000000),
        None => None,
    }
}

fn match_rv32(f3: u32, f5: u32, instruction_bits: u32) -> (r: Option<InstructionOpcode>)
    ensures
        r == spec_amo_w(f3, f5, spec_rs2(instruction_bits) == 0),
{
    if f3 != 0b010 {
        return None;
    }
    match f5 {
        0b00010 => {
            if rs2(instruction_bits) == 0 {
                Some(insts::OP_LR_W)
            } else {
                None
            }
        },
        0b00011 => Some(insts::OP_SC_W),
        0b00001 => Some(insts::OP_AMOSWAP_W),
        0b00000 => Some(insts::OP_AMOADD_W),
        0b00100 => Some(insts::OP_AMOXOR_W),
        0b01100 => Some(insts::OP_AMOAND_W),
        0b01000 => Some(insts::OP_AMOOR_W),
        0b10000 => Some(insts::OP_AMOMIN_W),
        0b10100 => Some(insts::OP_AMOMAX_W),
        0b11000 => Some(insts::OP_AMOMINU_W),
        0b11100 => Some(insts::OP_AMOMAXU_W),
        _ => None,
    }
}

fn match_rv64(f3: u32, f5: u32, instruction_bits: u32) -> (r: Option<InstructionOpcode>)
    ensures
        r == spec_amo_d(f3, f5, spec_rs2(instruction_bits) == 0),
{
    if f3 != 0b011 {
        return None;
    }
    match f5 {
        0b00010 => {
            if rs2(instruction_bits) == 0 {
                Some(insts::OP_LR_D)
            } else {
                None
            }
        },
        0b00011 => Some(insts::OP_SC_D),
        0b00001 => Some(insts::OP_AMOSWAP_D),
        0b00000 => Some(insts::OP_AMOADD_D),
        0b00100 => Some(insts::OP_AMOXOR_D),
        0b01100 => Some(insts::OP_AMOAND_D),
        0b01000 => Some(insts::OP_AMOOR_D),
        0b10000 => Some(insts::OP_AMOMIN_D),
        0b10100 => Some(insts::OP_AMOMAX_D),
        0b11000 => Some(insts::OP_AMOMINU_D),
        0b11100 => Some(insts::OP_AMOMAXU_D),
        _ => None,
    }
}

/// Decodes an atomic memory operation; the result records a length of 4.
pub fn factory<R: Register>(instruction_bits: u32, _version: u32) -> (r: Option<Instruction>)
    ensures
        r == spec_a_factory(instruction_bits, R::BITS),
{
    let bit_length: u8 = R::BITS;
    if bit_length != 32 && bit_length != 64 {
        return None;
    }
    let rv64: bool = bit_length == 64;
    if opcode(instruction_bits) != 0b_0101111 {
        return None;
    }
    let f7: u32 = funct7(instruction_bits);
    let f5: u32 = f7 >> 2;
    let f3: u32 = funct3(instruction_bits);
    let w: Option<InstructionOpcode> = match_rv32(f3, f5, instruction_bits);
    let inst_opt: Option<InstructionOpcode> = if rv64 {
        match w {
            Some(o) => Some(o),
            None => match_rv64(f3, f5, instruction_bits),
        }
    } else {
        w
    };
    match inst_opt {
        Some(inst) => Some(
            set_instruction_length_4(
                Rtype::new(inst, rd(instruction_bits), rs1(instruction_bits), rs2(instruction_bits)).0,
            ),
        ),
        None => None,
    }
}

} // verus!
