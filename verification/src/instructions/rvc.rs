//! Decoder of the 16 bit compressed (RVC) instructions. Each compressed
//! instruction expands to the internal form of its 32 bit equivalent, with
//! a recorded length of 2.
use vstd::prelude::*;
use crate::definitions::instructions as insts;
use crate::definitions::registers::SP;
use super::i::{nop, spec_nop};
use super::register::Register;
use super::utils::{rd, spec_rd, spec_x, spec_xs, x, xs};
use super::{
    blank_instruction, set_instruction_length_2, spec_itype_bits, spec_opcode_bits,
    spec_rtype_bits, spec_stype_bits, spec_utype_bits, Instruction, Itype, Rtype, Stype, Utype,
};

verus! {

/// The `rs2` field of the compressed formats: bits 2..7.
pub open spec fn spec_c_rs2(b: u32) -> usize {
    spec_x(b, 2, 5, 0) as usize
}

/// One of the registers x8..x15, named by the 3 bits at `least_bit`.
pub open spec fn spec_compact_register(b: u32, least_bit: usize) -> usize {
    (spec_x(b, least_bit, 3, 0) + 8) as usize
}

/// imm[5] from bit 12 (sign), imm[4:0] from bits 6..2.
pub open spec fn spec_c_immediate(b: u32) -> i32 {
    (spec_x(b, 2, 5, 0) | spec_xs(b, 12, 1, 5)) as i32
}

/// uimm[5] from bit 12, uimm[4:0] from bits 6..2.
pub open spec fn spec_c_uimmediate(b: u32) -> u32 {
    spec_x(b, 2, 5, 0) | spec_x(b, 12, 1, 5)
}

/// The jump offset of C.J and C.JAL.
pub open spec fn spec_c_j_immediate(b: u32) -> i32 {
    (spec_x(b, 3, 3, 1) | spec_x(b, 11, 1, 4) | spec_x(b, 2, 1, 5) | spec_x(b, 7, 1, 6) | spec_x(
        b,
        6,
        1,
        7,
    ) | spec_x(b, 9, 2, 8) | spec_x(b, 8, 1, 10) | spec_xs(b, 12, 1, 11)) as i32
}

/// The offset of C.LD and C.SD: uimm[5:3] from bits 12..10, uimm[7:6] from bits 6..5.
pub open spec fn spec_fld_uimmediate(b: u32) -> u32 {
    spec_x(b, 10, 3, 3) | spec_x(b, 5, 2, 6)
}

/// The offset of C.LW and C.SW.
pub open spec fn spec_sw_uimmediate(b: u32) -> u32 {
    spec_x(b, 6, 1, 2) | spec_x(b, 10, 3, 3) | spec_x(b, 5, 1, 6)
}

/// The offset of C.LWSP.
pub open spec fn spec_lwsp_uimmediate(b: u32) -> u32 {
    spec_x(b, 4, 3, 2) | spec_x(b, 12, 1, 5) | spec_x(b, 2, 2, 6)
}

/// The offset of C.LDSP.
pub open spec fn spec_fldsp_uimmediate(b: u32) -> u32 {
    spec_x(b, 5, 2, 3) | spec_x(b, 12, 1, 5) | spec_x(b, 2, 3, 6)
}

/// The offset of C.SDSP.
pub open spec fn spec_fsdsp_uimmediate(b: u32) -> u32 {
    spec_x(b, 10, 3, 3) | spec_x(b, 7, 3, 6)
}

/// The offset of C.SWSP.
pub open spec fn spec_swsp_uimmediate(b: u32) -> u32 {
    spec_x(b, 9, 4, 2) | spec_x(b, 7, 2, 6)
}

/// The branch offset of C.BEQZ and C.BNEZ.
pub open spec fn spec_c_b_immediate(b: u32) -> i32 {
    (spec_x(b, 3, 2, 1) | spec_x(b, 10, 2, 3) | spec_x(b, 2, 1, 5) | spec_x(b, 5, 2, 6) | spec_xs(
        b,
        12,
        1,
        8,
    )) as i32
}

/// The scaled, non-zero immediate of C.ADDI4SPN.
pub open spec fn spec_addi4spn_immediate(b: u32) -> u32 {
    spec_x(b, 6, 1, 2) | spec_x(b, 5, 1, 3) | spec_x(b, 11, 2, 4) | spec_x(b, 7, 4, 6)
}

/// The scaled immediate of C.ADDI16SP.
pub open spec fn spec_addi16sp_immediate(b: u32) -> i32 {
    (spec_x(b, 6, 1, 4) | spec_x(b, 2, 1, 5) | spec_x(b, 5, 1, 6) | spec_x(b, 3, 2, 7) | spec_xs(
        b,
        12,
        1,
        9,
    )) as i32
}

pub(crate) fn c_rs2(b: u32) -> (r: usize)
    ensures
        r == spec_c_rs2(b),
{
    x(b, 2, 5, 0) as usize
}

pub(crate) fn compact_register_number(b: u32, least_bit: usize) -> (r: usize)
    requires
        least_bit <= 13,
    ensures
        r == spec_compact_register(b, least_bit),
        8 <= r < 16,
{
    let v: u32 = x(b, least_bit, 3, 0);
    assert(spec_x(b, least_bit, 3, 0) < 8) by (bit_vector)
        requires
            least_bit <= 13,
    ;
    v as usize + 8
}

pub(crate) fn immediate(b: u32) -> (r: i32)
    ensures
        r == spec_c_immediate(b),
{
    (x(b, 2, 5, 0) | xs(b, 12, 1, 5)) as i32
}

pub(crate) fn uimmediate(b: u32) -> (r: u32)
    ensures
        r == spec_c_uimmediate(b),
{
    x(b, 2, 5, 0) | x(b, 12, 1, 5)
}

pub(crate) fn j_immediate(b: u32) -> (r: i32)
    ensures
        r == spec_c_j_immediate(b),
{
    (x(b, 3, 3, 1) | x(b, 11, 1, 4) | x(b, 2, 1, 5) | x(b, 7, 1, 6) | x(b, 6, 1, 7) | x(b, 9, 2, 8)
        | x(b, 8, 1, 10) | xs(b, 12, 1, 11)) as i32
}

fn fld_uimmediate(b: u32) -> (r: u32)
    ensures
        r == spec_fld_uimmediate(b),
{
    x(b, 10, 3, 3) | x(b, 5, 2, 6)
}

pub(crate) fn sw_uimmediate(b: u32) -> (r: u32)
    ensures
        r == spec_sw_uimmediate(b),
{
    x(b, 6, 1, 2) | x(b, 10, 3, 3) | x(b, 5, 1, 6)
}

pub(crate) fn lwsp_uimmediate(b: u32) -> (r: u32)
    ensures
        r == spec_lwsp_uimmediate(b),
{
    x(b, 4, 3, 2) | x(b, 12, 1, 5) | x(b, 2, 2, 6)
}

fn fldsp_uimmediate(b: u32) -> (r: u32)
    ensures
        r == spec_fldsp_uimmediate(b),
{
    x(b, 5, 2, 3) | x(b, 12, 1, 5) | x(b, 2, 3, 6)
}

fn fsdsp_uimmediate(b: u32) -> (r: u32)
    ensures
        r == spec_fsdsp_uimmediate(b),
{
    x(b, 10, 3, 3) | x(b, 7, 3, 6)
}

fn swsp_uimmediate(b: u32) -> (r: u32)
    ensures
        r == spec_swsp_uimmediate(b),
{
    x(b, 9, 4, 2) | x(b, 7, 2, 6)
}

pub(crate) fn b_immediate(b: u32) -> (r: i32)
    ensures
        r == spec_c_b_immediate(b),
{
    (x(b, 3, 2, 1) | x(b, 10, 2, 3) | x(b, 2, 1, 5) | x(b, 5, 2, 6) | xs(b, 12, 1, 8)) as i32
}

fn addi4spn_immediate(b: u32) -> (r: u32)
    ensures
        r == spec_addi4spn_immediate(b),
{
    x(b, 6, 1, 2) | x(b, 5, 1, 3) | x(b, 11, 2, 4) | x(b, 7, 4, 6)
}

fn addi16sp_immediate(b: u32) -> (r: i32)
    ensures
        r == spec_addi16sp_immediate(b),
{
    (x(b, 6, 1, 4) | x(b, 2, 1, 5) | x(b, 5, 1, 6) | x(b, 3, 2, 7) | xs(b, 12, 1, 9)) as i32
}

/// What a hint decodes to: a no-op from version 1 on, nothing before.
pub open spec fn spec_hint(version: u32) -> Option<Instruction> {
    if version >= 1 { Some(spec_nop()) } else { None }
}

fn hint(version: u32) -> (r: Option<Instruction>)
    ensures
        r == spec_hint(version),
{
    if version >= 1 { Some(nop()) } else { None }
}

/// Quadrant 0 (low bits 0b00): stack-relative add and the register-based
/// loads and stores.
pub open spec fn spec_quadrant0(b: u32, rv64: bool, version: u32) -> Option<Instruction> {
    let f: u32 = b & 0b111_00000000000_11;
    let v1: bool = version >= 1;
    if f == 0b000_00000000000_00 {
        if spec_addi4spn_immediate(b) != 0 {
            Some(
                spec_itype_bits(
                    insts::OP_ADDI,
                    spec_compact_register(b, 2),
                    SP,
                    spec_addi4spn_immediate(b),
                ),
            )
        } else {
            None
        }
    } else if f == 0b010_00000000000_00 {
        Some(
            spec_itype_bits(
                if v1 { insts::OP_LW_VERSION1 } else { insts::OP_LW_VERSION0 },
                spec_compact_register(b, 2),
                spec_compact_register(b, 7),
                spec_sw_uimmediate(b),
            ),
        )
    } else if f == 0b011_00000000000_00 {
        if rv64 {
            Some(
                spec_itype_bits(
                    if v1 { insts::OP_LD_VERSION1 } else { insts::OP_LD_VERSION0 },
                    spec_compact_register(b, 2),
                    spec_compact_register(b, 7),
                    spec_fld_uimmediate(b),
                ),
            )
        } else {
            None
        }
    } else if f == 0b110_00000000000_00 {
        Some(
            spec_stype_bits(
                insts::OP_SW,
                spec_sw_uimmediate(b),
                spec_compact_register(b, 7),
                spec_compact_register(b, 2),
            ),
        )
    } else if f == 0b111_00000000000_00 {
        if rv64 {
            Some(
                spec_stype_bits(
                    insts::OP_SD,
                    spec_fld_uimmediate(b),
                    spec_compact_register(b, 7),
                    spec_compact_register(b, 2),
                ),
            )
        } else {
            None
        }
    } else {
        None
    }
}

fn quadrant0(b: u32, rv64: bool, version: u32) -> (r: Option<Instruction>)
    ensures
        r == spec_quadrant0(b, rv64, version),
{
    let v1: bool = version >= 1;
    match b & 0b_111_00000000000_11 {
        0b_000_00000000000_00 => {
            let nzuimm: u32 = addi4spn_immediate(b);
            if nzuimm != 0 {
                // C.ADDI4SPN
                Some(Itype::new_u(insts::OP_ADDI, compact_register_number(b, 2), SP, nzuimm).0)
            } else {
                // Illegal instruction
                None
            }
        },
        // C.LW
        0b_010_00000000000_00 => Some(
            Itype::new_u(
                if v1 { insts::OP_LW_VERSION1 } else { insts::OP_LW_VERSION0 },
                compact_register_number(b, 2),
                compact_register_number(b, 7),
                sw_uimmediate(b),
            ).0,
        ),
        0b_011_00000000000_00 => {
            if !rv64 {
                None
            } else {
                // C.LD
                Some(
                    Itype::new_u(
                        if v1 { insts::OP_LD_VERSION1 } else { insts::OP_LD_VERSION0 },
                        compact_register_number(b, 2),
                        compact_register_number(b, 7),
                        fld_uimmediate(b),
                    ).0,
                )
            }
        },
        // C.SW
        0b_110_00000000000_00 => Some(
            Stype::new_u(
                insts::OP_SW,
                sw_uimmediate(b),
                compact_register_number(b, 7),
                compact_register_number(b, 2),
            ).0,
        ),
        0b_111_00000000000_00 => {
            if !rv64 {
                None
            } else {
                // C.SD
                Some(
                    Stype::new_u(
                        insts::OP_SD,
                        fld_uimmediate(b),
                        compact_register_number(b, 7),
                        compact_register_number(b, 2),
                    ).0,
                )
            }
        },
        // Reserved
        _ => None,
    }
}

/// The arithmetic group of quadrant 1 (funct3 0b100), on the register
/// `rd` among x8..x15.
pub open spec fn spec_quadrant1_alu(b: u32, rv64: bool, shift_mask: u8) -> Option<Instruction> {
    let rd: usize = spec_compact_register(b, 7);
    let rs2: usize = spec_compact_register(b, 2);
    let m: u32 = b & 0b1_11_000_11000_00;
    let low_zero: bool = b & 0b111_00 == 0;
    if m == 0b0_00_000_00000_00 && low_zero {
        Some(spec_nop())
    } else if m == 0b0_01_000_00000_00 && low_zero {
        Some(spec_nop())
    } else if m == 0b0_11_000_00000_00 {
        Some(spec_rtype_bits(insts::OP_SUB, rd, rd, rs2))
    } else if m == 0b0_11_000_01000_00 {
        Some(spec_rtype_bits(insts::OP_XOR, rd, rd, rs2))
    } else if m == 0b0_11_000_10000_00 {
        Some(spec_rtype_bits(insts::OP_OR, rd, rd, rs2))
    } else if m == 0b0_11_000_11000_00 {
        Some(spec_rtype_bits(insts::OP_AND, rd, rd, rs2))
    } else if m == 0b1_11_000_00000_00 && rv64 {
        Some(spec_rtype_bits(insts::OP_SUBW, rd, rd, rs2))
    } else if m == 0b1_11_000_01000_00 && rv64 {
        Some(spec_rtype_bits(insts::OP_ADDW, rd, rd, rs2))
    } else if m == 0b1_11_000_10000_00 || m == 0b1_11_000_11000_00 {
        None
    } else {
        let uimm: u32 = spec_c_uimmediate(b);
        let g: u32 = b & 0b11_000_00000_00;
        if g == 0b00_000_00000_00 {
            if uimm == 0 {
                None
            } else {
                Some(spec_itype_bits(insts::OP_SRLI, rd, rd, uimm & (shift_mask as u32)))
            }
        } else if g == 0b01_000_00000_00 {
            if uimm == 0 {
                None
            } else {
                Some(spec_itype_bits(insts::OP_SRAI, rd, rd, uimm & (shift_mask as u32)))
            }
        } else if g == 0b10_000_00000_00 {
            Some(spec_itype_bits(insts::OP_ANDI, rd, rd, spec_c_immediate(b) as u32))
        } else {
            None
        }
    }
}

fn quadrant1_alu(b: u32, rv64: bool, shift_mask: u8) -> (r: Option<Instruction>)
    ensures
        r == spec_quadrant1_alu(b, rv64, shift_mask),
{
    let rd: usize = compact_register_number(b, 7);
    let m: u32 = b & 0b_1_11_000_11000_00;
    let low_zero: bool = b & 0b_111_00 == 0;
    if m == 0b_0_00_000_00000_00 && low_zero {
        // C.SRLI64
        Some(nop())
    } else if m == 0b_0_01_000_00000_00 && low_zero {
        // C.SRAI64
        Some(nop())
    } else if m == 0b_0_11_000_00000_00 {
        // C.SUB
        Some(Rtype::new(insts::OP_SUB, rd, rd, compact_register_number(b, 2)).0)
    } else if m == 0b_0_11_000_01000_00 {
        // C.XOR
        Some(Rtype::new(insts::OP_XOR, rd, rd, compact_register_number(b, 2)).0)
    } else if m == 0b_0_11_000_10000_00 {
        // C.OR
        Some(Rtype::new(insts::OP_OR, rd, rd, compact_register_number(b, 2)).0)
    } else if m == 0b_0_11_000_11000_00 {
        // C.AND
        Some(Rtype::new(insts::OP_AND, rd, rd, compact_register_number(b, 2)).0)
    } else if m == 0b_1_11_000_00000_00 && rv64 {
        // C.SUBW
        Some(Rtype::new(insts::OP_SUBW, rd, rd, compact_register_number(b, 2)).0)
    } else if m == 0b_1_11_000_01000_00 && rv64 {
        // C.ADDW
        Some(Rtype::new(insts::OP_ADDW, rd, rd, compact_register_number(b, 2)).0)
    } else if m == 0b_1_11_000_10000_00 || m == 0b_1_11_000_11000_00 {
        // Reserved
        None
    } else {
        let uimm: u32 = uimmediate(b);
        let g: u32 = b & 0b_11_000_00000_00;
        if g == 0b_00_000_00000_00 {
            if uimm == 0 {
                // Invalid instruction
                None
            } else {
                // C.SRLI
                Some(Itype::new_u(insts::OP_SRLI, rd, rd, uimm & (shift_mask as u32)).0)
            }
        } else if g == 0b_01_000_00000_00 {
            if uimm == 0 {
                // Invalid instruction
                None
            } else {
                // C.SRAI
                Some(Itype::new_u(insts::OP_SRAI, rd, rd, uimm & (shift_mask as u32)).0)
            }
        } else if g == 0b_10_000_00000_00 {
            // C.ANDI
            Some(Itype::new_s(insts::OP_ANDI, rd, rd, immediate(b)).0)
        } else {
            None
        }
    }
}

/// Quadrant 1 (low bits 0b01): immediates, arithmetic, jumps and branches.
pub open spec fn spec_quadrant1(b: u32, rv64: bool, shift_mask: u8, version: u32) -> Option<
    Instruction,
> {
    let f: u32 = b & 0b111_00000000000_11;
    let rd: usize = spec_rd(b);
    if f == 0b000_00000000000_01 {
        let nzimm: i32 = spec_c_immediate(b);
        if rd != 0 {
            if nzimm != 0 {
                Some(spec_itype_bits(insts::OP_ADDI, rd, rd, nzimm as u32))
            } else {
                spec_hint(version)
            }
        } else if nzimm == 0 {
            Some(spec_nop())
        } else {
            spec_hint(version)
        }
    } else if f == 0b001_00000000000_01 {
        if !rv64 {
            Some(spec_utype_bits(insts::OP_JAL, 1, spec_c_j_immediate(b) as u32))
        } else if rd != 0 {
            Some(spec_itype_bits(insts::OP_ADDIW, rd, rd, spec_c_immediate(b) as u32))
        } else {
            None
        }
    } else if f == 0b010_00000000000_01 {
        if rd != 0 {
            Some(spec_itype_bits(insts::OP_ADDI, rd, 0, spec_c_immediate(b) as u32))
        } else {
            spec_hint(version)
        }
    } else if f == 0b011_00000000000_01 {
        let imm: i32 = spec_c_immediate(b) << 12u32;
        if imm == 0 {
            None
        } else if rd == SP {
            Some(spec_itype_bits(insts::OP_ADDI, SP, SP, spec_addi16sp_immediate(b) as u32))
        } else if rd != 0 {
            Some(spec_utype_bits(insts::OP_LUI, rd, imm as u32))
        } else {
            spec_hint(version)
        }
    } else if f == 0b100_00000000000_01 {
        spec_quadrant1_alu(b, rv64, shift_mask)
    } else if f == 0b101_00000000000_01 {
        Some(spec_utype_bits(insts::OP_JAL, 0, spec_c_j_immediate(b) as u32))
    } else if f == 0b110_00000000000_01 {
        Some(spec_stype_bits(insts::OP_BEQ, spec_c_b_immediate(b) as u32, spec_compact_register(b, 7), 0))
    } else if f == 0b111_00000000000_01 {
        Some(spec_stype_bits(insts::OP_BNE, spec_c_b_immediate(b) as u32, spec_compact_register(b, 7), 0))
    } else {
        None
    }
}

fn quadrant1(b: u32, rv64: bool, shift_mask: u8, version: u32) -> (r: Option<Instruction>)
    ensures
        r == spec_quadrant1(b, rv64, shift_mask, version),
{
    match b & 0b_111_00000000000_11 {
        0b_000_00000000000_01 => {
            let nzimm: i32 = immediate(b);
            let rd: usize = rd(b);
            if rd != 0 {
                // C.ADDI
                if nzimm != 0 {
                    Some(Itype::new_s(insts::OP_ADDI, rd, rd, nzimm).0)
                } else {
                    // HINTs
                    hint(version)
                }
            } else if nzimm == 0 {
                // C.NOP
                Some(nop())
            } else {
                // HINTs
                hint(version)
            }
        },
        0b_001_00000000000_01 => {
            if !rv64 {
                // C.JAL
                Some(Utype::new_s(insts::OP_JAL, 1, j_immediate(b)).0)
            } else {
                let rd: usize = rd(b);
                if rd != 0 {
                    // C.ADDIW
                    Some(Itype::new_s(insts::OP_ADDIW, rd, rd, immediate(b)).0)
                } else {
                    None
                }
            }
        },
        0b_010_00000000000_01 => {
            let rd: usize = rd(b);
            if rd != 0 {
                // C.LI
                Some(Itype::new_s(insts::OP_ADDI, rd, 0, immediate(b)).0)
            } else {
                // HINTs
                hint(version)
            }
        },
        0b_011_00000000000_01 => {
            let base: i32 = immediate(b);
            assert(-32 <= spec_c_immediate(b) < 32) by (bit_vector);
            let imm: i32 = base << 12u32;
            if imm == 0 {
                None
            } else {
                let rd: usize = rd(b);
                if rd == SP {
                    // C.ADDI16SP
                    Some(Itype::new_s(insts::OP_ADDI, SP, SP, addi16sp_immediate(b)).0)
                } else if rd != 0 {
                    // C.LUI
                    Some(Utype::new_s(insts::OP_LUI, rd, imm).0)
                } else {
                    // HINTs
                    hint(version)
                }
            }
        },
        0b_100_00000000000_01 => quadrant1_alu(b, rv64, shift_mask),
        // C.J
        0b_101_00000000000_01 => Some(Utype::new_s(insts::OP_JAL, 0, j_immediate(b)).0),
        // C.BEQZ
        0b_110_00000000000_01 => Some(
            Stype::new_s(insts::OP_BEQ, b_immediate(b), compact_register_number(b, 7), 0).0,
        ),
        // C.BNEZ
        0b_111_00000000000_01 => Some(
            Stype::new_s(insts::OP_BNE, b_immediate(b), compact_register_number(b, 7), 0).0,
        ),
        _ => None,
    }
}

/// The jump, move, add and break group of quadrant 2 (funct3 0b100).
pub open spec fn spec_quadrant2_jr(b: u32, version: u32) -> Option<Instruction> {
    let rd: usize = spec_rd(b);
    let rs2: usize = spec_c_rs2(b);
    let jalr = if version >= 1 { insts::OP_JALR_VERSION1 } else { insts::OP_JALR_VERSION0 };
    if b & 0b1_00000_00000_00 == 0 {
        if rs2 == 0 {
            if rd != 0 {
                Some(spec_itype_bits(jalr, 0, rd, 0))
            } else {
                None
            }
        } else if rd != 0 {
            Some(spec_rtype_bits(insts::OP_ADD, rd, 0, rs2))
        } else {
            spec_hint(version)
        }
    } else if rd == 0 && rs2 == 0 {
        Some(spec_opcode_bits(insts::OP_EBREAK))
    } else if rs2 == 0 {
        Some(spec_itype_bits(jalr, 1, rd, 0))
    } else if rd != 0 {
        Some(spec_rtype_bits(insts::OP_ADD, rd, rd, rs2))
    } else {
        spec_hint(version)
    }
}

fn quadrant2_jr(b: u32, version: u32) -> (r: Option<Instruction>)
    ensures
        r == spec_quadrant2_jr(b, version),
{
    let rd: usize = rd(b);
    let rs2: usize = c_rs2(b);
    let jalr = if version >= 1 { insts::OP_JALR_VERSION1 } else { insts::OP_JALR_VERSION0 };
    if b & 0b_1_00000_00000_00 == 0 {
        if rs2 == 0 {
            if rd != 0 {
                // C.JR
                Some(Itype::new_s(jalr, 0, rd, 0).0)
            } else {
                // Reserved
                None
            }
        } else if rd != 0 {
            // C.MV
            Some(Rtype::new(insts::OP_ADD, rd, 0, rs2).0)
        } else {
            // HINTs
            hint(version)
        }
    } else if rd == 0 && rs2 == 0 {
        // C.EBREAK
        Some(blank_instruction(insts::OP_EBREAK))
    } else if rs2 == 0 {
        // C.JALR
        Some(Itype::new_s(jalr, 1, rd, 0).0)
    } else if rd != 0 {
        // C.ADD
        Some(Rtype::new(insts::OP_ADD, rd, rd, rs2).0)
    } else {
        // HINTs
        hint(version)
    }
}

/// Quadrant 2 (low bits 0b10): shifts, stack-relative loads and stores,
/// register jumps, moves and adds.
pub open spec fn spec_quadrant2(b: u32, rv64: bool, shift_mask: u8, version: u32) -> Option<
    Instruction,
> {
    let f: u32 = b & 0b111_00000000000_11;
    let rd: usize = spec_rd(b);
    let v1: bool = version >= 1;
    if f == 0b000_00000000000_10 {
        let uimm: u32 = spec_c_uimmediate(b);
        if rd != 0 && uimm != 0 {
            Some(spec_itype_bits(insts::OP_SLLI, rd, rd, uimm & (shift_mask as u32)))
        } else {
            spec_hint(version)
        }
    } else if f == 0b010_00000000000_10 {
        if rd != 0 {
            Some(
                spec_itype_bits(
                    if v1 { insts::OP_LW_VERSION1 } else { insts::OP_LW_VERSION0 },
                    rd,
                    SP,
                    spec_lwsp_uimmediate(b),
                ),
            )
        } else {
            None
        }
    } else if f == 0b011_00000000000_10 {
        if rv64 && rd != 0 {
            Some(
                spec_itype_bits(
                    if v1 { insts::OP_LD_VERSION1 } else { insts::OP_LD_VERSION0 },
                    rd,
                    SP,
                    spec_fldsp_uimmediate(b),
                ),
            )
        } else {
            None
        }
    } else if f == 0b100_00000000000_10 {
        spec_quadrant2_jr(b, version)
    } else if f == 0b110_00000000000_10 {
        Some(spec_stype_bits(insts::OP_SW, spec_swsp_uimmediate(b), SP, spec_c_rs2(b)))
    } else if f == 0b111_00000000000_10 {
        if rv64 {
            Some(spec_stype_bits(insts::OP_SD, spec_fsdsp_uimmediate(b), SP, spec_c_rs2(b)))
        } else {
            None
        }
    } else {
        None
    }
}

fn quadrant2(b: u32, rv64: bool, shift_mask: u8, version: u32) -> (r: Option<Instruction>)
    ensures
        r == spec_quadrant2(b, rv64, shift_mask, version),
{
    let v1: bool = version >= 1;
    match b & 0b_111_00000000000_11 {
        0b_000_00000000000_10 => {
            let uimm: u32 = uimmediate(b);
            let rd: usize = rd(b);
            if rd != 0 && uimm != 0 {
                // C.SLLI
                Some(Itype::new_u(insts::OP_SLLI, rd, rd, uimm & (shift_mask as u32)).0)
            } else {
                // HINTs
                hint(version)
            }
        },
        0b_010_00000000000_10 => {
            let rd: usize = rd(b);
            if rd != 0 {
                // C.LWSP
                Some(
                    Itype::new_u(
                        if v1 { insts::OP_LW_VERSION1 } else { insts::OP_LW_VERSION0 },
                        rd,
                        SP,
                        lwsp_uimmediate(b),
                    ).0,
                )
            } else {
                // Reserved
                None
            }
        },
        0b_011_00000000000_10 => {
            let rd: usize = rd(b);
            if rv64 && rd != 0 {
                // C.LDSP
                Some(
                    Itype::new_u(
                        if v1 { insts::OP_LD_VERSION1 } else { insts::OP_LD_VERSION0 },
                        rd,
                        SP,
                        fldsp_uimmediate(b),
                    ).0,
                )
            } else {
                // Reserved, or not on 32 bit machines
                None
            }
        },
        0b_100_00000000000_10 => quadrant2_jr(b, version),
        // C.SWSP
        0b_110_00000000000_10 => Some(
            Stype::new_u(insts::OP_SW, swsp_uimmediate(b), SP, c_rs2(b)).0,
        ),
        0b_111_00000000000_10 => {
            if !rv64 {
                None
            } else {
                // C.SDSP
                Some(Stype::new_u(insts::OP_SD, fsdsp_uimmediate(b), SP, c_rs2(b)).0)
            }
        },
        _ => None,
    }
}

/// The expansion of a compressed instruction, before its length is recorded.
pub open spec fn spec_rvc_expand(b: u32, rv64: bool, shift_mask: u8, version: u32) -> Option<
    Instruction,
> {
    let q: u32 = b & 0b11;
    if q == 0b00 {
        spec_quadrant0(b, rv64, version)
    } else if q == 0b01 {
        spec_quadrant1(b, rv64, shift_mask, version)
    } else if q == 0b10 {
        spec_quadrant2(b, rv64, shift_mask, version)
    } else {
        None
    }
}

/// The decoding of a compressed instruction on a machine of `bits` bits.
pub open spec fn spec_rvc_factory(b: u32, bits: u8, shift_mask: u8, version: u32) -> Option<
    Instruction,
> {
    if bits != 32 && bits != 64 {
        None
    } else {
        match spec_rvc_expand(b, bits == 64, shift_mask, version) {
            Some(i) => Some(i | 0x1000000),
            None => None,
        }
    }
}

/// Decodes a compressed instruction, for a machine whose registers are
/// `R`. Hints decode to a no-op from version 1 on; before it they are
/// refused. The opcode table has no unversioned load or JALR, only a
/// version 0 and a version 1 form of each, so compressed loads and register
/// jumps take the form of the machine's version, as the base decoder's do:
/// the version 1 form from version 1 on (`lemma_rvc_version` states all that
/// the version changes). The result records a length of 2.
pub fn factory<R: Register>(instruction_bits: u32, version: u32) -> (r: Option<Instruction>)
    ensures
        r == spec_rvc_factory(instruction_bits, R::BITS, R::SHIFT_MASK, version),
{
    let bit_length: u8 = R::BITS;
    if bit_length != 32 && bit_length != 64 {
        return None;
    }
    let rv64: bool = bit_length == 64;
    let b: u32 = instruction_bits;
    let q: u32 = b & 0b11;
    let expanded: Option<Instruction> = if q == 0b00 {
        quadrant0(b, rv64, version)
    } else if q == 0b01 {
        quadrant1(b, rv64, R::SHIFT_MASK, version)
    } else if q == 0b10 {
        quadrant2(b, rv64, R::SHIFT_MASK, version)
    } else {
        None
    };
    match expanded {
        Some(i) => Some(set_instruction_length_2(i)),
        None => None,
    }
}


/// The opcodes that a compressed instruction decodes to in a form that
/// depends on the version: the loads and the register jump. Their version 1
/// opcode is the next number.
pub open spec fn spec_versioned_opcode(op: u16) -> bool {
    op == insts::OP_LW_VERSION0 || op == insts::OP_LD_VERSION0 || op == insts::OP_JALR_VERSION0
}

/// Moving the opcode of a compressed load or register jump to its version 1
/// form adds one to its encoding and keeps every other field.
proof fn lemma_next_opcode(op: u16, rd: usize, rs1: usize, u: u32)
    by (bit_vector)
    requires
        op < 0xff,
    ensures
        spec_itype_bits((op + 1) as u16, rd, rs1, u) | 0x1000000 == ((spec_itype_bits(op, rd, rs1, u)
            | 0x1000000) + 1) as u64,
        crate::instructions::spec_extract_opcode(spec_itype_bits(op, rd, rs1, u) | 0x1000000) == op,
{
}

/// The version changes compressed decoding in two ways only: from version 1
/// on, a hint that version 0 refuses decodes to a no-op, and a load or
/// register jump decodes to its version 1 opcode. Every version from 1 on
/// decodes alike.
pub proof fn lemma_rvc_version(b: u32, bits: u8, shift_mask: u8, version: u32)
    requires
        version >= 1,
    ensures
        spec_rvc_factory(b, bits, shift_mask, version) == spec_rvc_factory(b, bits, shift_mask, 1),
        ({
            let old_form = spec_rvc_factory(b, bits, shift_mask, 0);
            let new_form = spec_rvc_factory(b, bits, shift_mask, 1);
            ||| new_form == old_form
            ||| (old_form is None && new_form == Some(spec_nop() | 0x1000000))
            ||| (old_form matches Some(i) && spec_versioned_opcode(
                crate::instructions::spec_extract_opcode(i),
            ) && new_form == Some((i + 1) as u64))
        }),
{
    let c2 = spec_compact_register(b, 2);
    let c7 = spec_compact_register(b, 7);
    let rd = spec_rd(b);
    lemma_next_opcode(insts::OP_LW_VERSION0, c2, c7, spec_sw_uimmediate(b));
    lemma_next_opcode(insts::OP_LD_VERSION0, c2, c7, spec_fld_uimmediate(b));
    lemma_next_opcode(insts::OP_LW_VERSION0, rd, SP, spec_lwsp_uimmediate(b));
    lemma_next_opcode(insts::OP_LD_VERSION0, rd, SP, spec_fldsp_uimmediate(b));
    lemma_next_opcode(insts::OP_JALR_VERSION0, 0, rd, 0);
    lemma_next_opcode(insts::OP_JALR_VERSION0, 1, rd, 0);
}


/// Where the fields of the compressed formats that `lemma_rvc_decoding`
/// speaks of lie.
proof fn lemma_rvc_bits(b: u32)
    by (bit_vector)
    ensures
        b & 0xfc03 == 0x8c01 ==> b & 0xe003 == 0x8001,
        b & 0xfc03 == 0x9c01 ==> b & 0xe003 == 0x8001,
        (b >> 5u32) & 3 < 4,
        b & 0xfc03 == 0x8c01 && (b >> 5u32) & 3 == 0 ==> b & 0x1c60 == 0x0c00,
        b & 0xfc03 == 0x8c01 && (b >> 5u32) & 3 == 1 ==> b & 0x1c60 == 0x0c20,
        b & 0xfc03 == 0x8c01 && (b >> 5u32) & 3 == 2 ==> b & 0x1c60 == 0x0c40,
        b & 0xfc03 == 0x8c01 && (b >> 5u32) & 3 == 3 ==> b & 0x1c60 == 0x0c60,
        b & 0xfc03 == 0x9c01 && (b >> 5u32) & 3 == 0 ==> b & 0x1c60 == 0x1c00,
        b & 0xfc03 == 0x9c01 && (b >> 5u32) & 3 == 1 ==> b & 0x1c60 == 0x1c20,
        b & 0xfc03 == 0x9c01 && (b >> 5u32) & 3 == 2 ==> b & 0x1c60 == 0x1c40,
        b & 0xfc03 == 0x9c01 && (b >> 5u32) & 3 == 3 ==> b & 0x1c60 == 0x1c60,
        b & 0xe003 == 0x8001 ==> b & 3 == 1,
        b & 0xe003 == 0x8002 ==> b & 3 == 2,
        b & 0xf003 == 0x8002 || b & 0xf003 == 0x9002 ==> b & 0xe003 == 0x8002,
        b & 0xf003 == 0x8002 ==> b & 0x1000 == 0,
        b & 0xf003 == 0x9002 ==> b & 0x1000 != 0,
{
}

/// Part of the compressed encoding table. In quadrant 1 with `funct6`
/// `100011`, bits 6..5 choose C.SUB, C.XOR, C.OR and C.AND, and with
/// `funct6` `100111` on a 64 bit machine C.SUBW and C.ADDW: each works on
/// the register named by bits 9..7 (x8 to x15) and the one named by bits
/// 4..2. In quadrant 2 with `funct3` `100`: C.JR jumps through `rd` without
/// linking, C.MV copies `rs2` into `rd`, C.EBREAK breaks, C.JALR jumps
/// through `rd` linking in `ra`, and C.ADD adds `rs2` to `rd`. Each decodes
/// with a length of 2 bytes.
pub proof fn lemma_rvc_decoding(b: u32, bits: u8, shift_mask: u8, version: u32)
    requires
        bits == 32 || bits == 64,
    ensures
        ({
            let r = spec_rvc_factory(b, bits, shift_mask, version);
            let c1 = spec_compact_register(b, 7);
            let c2 = spec_compact_register(b, 2);
            let rd = spec_rd(b);
            let rs2 = spec_c_rs2(b);
            let f2 = (b >> 5u32) & 3;
            let jalr = if version >= 1 { insts::OP_JALR_VERSION1 } else { insts::OP_JALR_VERSION0 };
            let arith = seq![insts::OP_SUB, insts::OP_XOR, insts::OP_OR, insts::OP_AND];
            let word = seq![insts::OP_SUBW, insts::OP_ADDW];
            &&& (b & 0xfc03 == 0x8c01) ==> r == Some(
                spec_rtype_bits(arith[f2 as int], c1, c1, c2) | 0x1000000,
            )
            &&& (b & 0xfc03 == 0x9c01 && bits == 64 && f2 < 2) ==> r == Some(
                spec_rtype_bits(word[f2 as int], c1, c1, c2) | 0x1000000,
            )
            &&& (b & 0xf003 == 0x8002 && rs2 == 0 && rd != 0) ==> r
                == Some(spec_itype_bits(jalr, 0, rd, 0) | 0x1000000)
            &&& (b & 0xf003 == 0x8002 && rs2 != 0 && rd != 0) ==> r
                == Some(spec_rtype_bits(insts::OP_ADD, rd, 0, rs2) | 0x1000000)
            &&& (b & 0xf003 == 0x9002 && rs2 == 0 && rd == 0) ==> r
                == Some(spec_opcode_bits(insts::OP_EBREAK) | 0x1000000)
            &&& (b & 0xf003 == 0x9002 && rs2 == 0 && rd != 0) ==> r
                == Some(spec_itype_bits(jalr, 1, rd, 0) | 0x1000000)
            &&& (b & 0xf003 == 0x9002 && rs2 != 0 && rd != 0) ==> r
                == Some(spec_rtype_bits(insts::OP_ADD, rd, rd, rs2) | 0x1000000)
        }),
{
    lemma_rvc_bits(b);
    let f2 = (b >> 5u32) & 3;
    if f2 == 0 {
    } else if f2 == 1 {
    } else if f2 == 2 {
    } else {
    }
}

} // verus!
