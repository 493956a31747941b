//! Field extraction from raw RISC-V instruction bits.
use vstd::prelude::*;
use crate::machine::{only_registers_changed, spec_write_register, CoreMachine, Machine};

verus! {

/// Bits `lower .. lower + length` of `instruction_bits`, moved to start at
/// bit `shifts`.
pub open spec fn spec_x(instruction_bits: u32, lower: usize, length: usize, shifts: usize) -> u32 {
    ((instruction_bits >> lower) & (((1u32 << length) - 1) as u32)) << shifts
}

/// Bits `lower .. lower + length` of `instruction_bits`, sign-extended from
/// the top bit of the field, moved to start at bit `shifts`.
pub open spec fn spec_xs(instruction_bits: u32, lower: usize, length: usize, shifts: usize) -> u32 {
    ((((instruction_bits as i32) << ((32 - lower - length) as usize)) >> ((32 - length) as usize))
        << shifts) as u32
}

/// Extracts the unsigned bit field of `length` bits at `lower`, placed at
/// bit `shifts` of the result.
pub fn x(instruction_bits: u32, lower: usize, length: usize, shifts: usize) -> (r: u32)
    requires
        lower < 32,
        length < 32,
        shifts < 32,
    ensures
        r == spec_x(instruction_bits, lower, length, shifts),
{
    assert(1u32 << length >= 1) by (bit_vector)
        requires
            length < 32,
    ;
    ((instruction_bits >> lower) & ((1u32 << length) - 1)) << shifts
}

/// Extracts the signed bit field of `length` bits at `lower`, placed at bit
/// `shifts` of the result.
pub fn xs(instruction_bits: u32, lower: usize, length: usize, shifts: usize) -> (r: u32)
    requires
        1 <= length,
        lower + length <= 32,
        shifts < 32,
    ensures
        r == spec_xs(instruction_bits, lower, length, shifts),
{
    (((instruction_bits as i32) << (32 - lower - length)) >> (32 - length) << shifts) as u32
}

pub open spec fn spec_opcode(instruction_bits: u32) -> u32 {
    instruction_bits & 0x7f
}

pub open spec fn spec_funct3(instruction_bits: u32) -> u32 {
    (instruction_bits >> 12u32) & 0x7
}

pub open spec fn spec_funct7(instruction_bits: u32) -> u32 {
    instruction_bits >> 25u32
}

pub open spec fn spec_rd(instruction_bits: u32) -> usize {
    ((instruction_bits >> 7u32) & 0x1f) as usize
}

pub open spec fn spec_rs1(instruction_bits: u32) -> usize {
    ((instruction_bits >> 15u32) & 0x1f) as usize
}

pub open spec fn spec_rs2(instruction_bits: u32) -> usize {
    ((instruction_bits >> 20u32) & 0x1f) as usize
}

pub open spec fn spec_rs3(instruction_bits: u32) -> usize {
    ((instruction_bits >> 27u32) & 0x1f) as usize
}

/// The fixed fields of a 32 bit instruction: where each lies and how wide
/// it is.
pub(crate) proof fn lemma_fields(instruction_bits: u32)
    by (bit_vector)
    ensures
        spec_x(instruction_bits, 0, 7, 0) == instruction_bits & 0x7f,
        instruction_bits & 0x7f < 128,
        spec_x(instruction_bits, 25, 7, 0) == instruction_bits >> 25u32,
        instruction_bits >> 25u32 < 128,
        spec_x(instruction_bits, 12, 3, 0) == (instruction_bits >> 12u32) & 0x7,
        (instruction_bits >> 12u32) & 0x7 < 8,
        spec_x(instruction_bits, 7, 5, 0) == (instruction_bits >> 7u32) & 0x1f,
        (instruction_bits >> 7u32) & 0x1f < 32,
        spec_x(instruction_bits, 15, 5, 0) == (instruction_bits >> 15u32) & 0x1f,
        (instruction_bits >> 15u32) & 0x1f < 32,
        spec_x(instruction_bits, 20, 5, 0) == (instruction_bits >> 20u32) & 0x1f,
        (instruction_bits >> 20u32) & 0x1f < 32,
        spec_x(instruction_bits, 27, 5, 0) == (instruction_bits >> 27u32) & 0x1f,
        (instruction_bits >> 27u32) & 0x1f < 32,
{
}

/// Bits 0..7: the major opcode.
pub fn opcode(instruction_bits: u32) -> (r: u32)
    ensures
        r == spec_opcode(instruction_bits),
        r < 128,
{
    let r: u32 = x(instruction_bits, 0, 7, 0);
    proof {
        lemma_fields(instruction_bits);
    }
    r
}

/// Bits 12..15.
pub fn funct3(instruction_bits: u32) -> (r: u32)
    ensures
        r == spec_funct3(instruction_bits),
        r < 8,
{
    let r: u32 = x(instruction_bits, 12, 3, 0);
    proof {
        lemma_fields(instruction_bits);
    }
    r
}

/// Bits 25..32.
pub fn funct7(instruction_bits: u32) -> (r: u32)
    ensures
        r == spec_funct7(instruction_bits),
        r < 128,
{
    let r: u32 = x(instruction_bits, 25, 7, 0);
    proof {
        lemma_fields(instruction_bits);
    }
    r
}

/// Bits 7..12: the destination register.
pub fn rd(instruction_bits: u32) -> (r: usize)
    ensures
        r == spec_rd(instruction_bits),
        r < 32,
{
    let v: u32 = x(instruction_bits, 7, 5, 0);
    proof {
        lemma_fields(instruction_bits);
    }
    v as usize
}

/// Bits 15..20: the first source register.
pub fn rs1(instruction_bits: u32) -> (r: usize)
    ensures
        r == spec_rs1(instruction_bits),
        r < 32,
{
    let v: u32 = x(instruction_bits, 15, 5, 0);
    proof {
        lemma_fields(instruction_bits);
    }
    v as usize
}

/// Bits 20..25: the second source register.
pub fn rs2(instruction_bits: u32) -> (r: usize)
    ensures
        r == spec_rs2(instruction_bits),
        r < 32,
{
    let v: u32 = x(instruction_bits, 20, 5, 0);
    proof {
        lemma_fields(instruction_bits);
    }
    v as usize
}

/// Bits 27..32: the third source register.
pub fn rs3(instruction_bits: u32) -> (r: usize)
    ensures
        r == spec_rs3(instruction_bits),
        r < 32,
{
    let v: u32 = x(instruction_bits, 27, 5, 0);
    proof {
        lemma_fields(instruction_bits);
    }
    v as usize
}

/// The B-type immediate: imm[12|10:5] in bits 31..25, imm[4:1|11] in bits
/// 11..7.
pub open spec fn spec_btype_immediate(b: u32) -> i32 {
    (spec_x(b, 8, 4, 1) | spec_x(b, 25, 6, 5) | spec_x(b, 7, 1, 11) | spec_xs(b, 31, 1, 12)) as i32
}

/// The J-type immediate: imm[20|10:1|11|19:12] in bits 31..12.
pub open spec fn spec_jtype_immediate(b: u32) -> i32 {
    (spec_x(b, 21, 10, 1) | spec_x(b, 20, 1, 11) | spec_x(b, 12, 8, 12) | spec_xs(b, 31, 1, 20)) as i32
}

/// The I-type immediate: bits 31..20, sign-extended.
pub open spec fn spec_itype_immediate(b: u32) -> i32 {
    spec_xs(b, 20, 12, 0) as i32
}

/// The S-type immediate: imm[11:5] in bits 31..25, imm[4:0] in bits 11..7.
pub open spec fn spec_stype_immediate(b: u32) -> i32 {
    (spec_x(b, 7, 5, 0) | spec_xs(b, 25, 7, 5)) as i32
}

/// The U-type immediate: bits 31..12 in place, low 12 bits zero.
pub open spec fn spec_utype_immediate(b: u32) -> i32 {
    spec_xs(b, 12, 20, 12) as i32
}

pub fn btype_immediate(instruction_bits: u32) -> (r: i32)
    ensures
        r == spec_btype_immediate(instruction_bits),
        -4096 <= r < 4096,
        r % 2 == 0,
{
    let r: i32 = (x(instruction_bits, 8, 4, 1) | x(instruction_bits, 25, 6, 5) | x(
        instruction_bits,
        7,
        1,
        11,
    ) | xs(instruction_bits, 31, 1, 12)) as i32;
    let b: u32 = instruction_bits;
    assert(-4096 <= spec_btype_immediate(b) < 4096 && spec_btype_immediate(b) % 2 == 0)
        by (bit_vector);
    r
}

pub fn jtype_immediate(instruction_bits: u32) -> (r: i32)
    ensures
        r == spec_jtype_immediate(instruction_bits),
        -0x10_0000 <= r < 0x10_0000,
        r % 2 == 0,
{
    let r: i32 = (x(instruction_bits, 21, 10, 1) | x(instruction_bits, 20, 1, 11) | x(
        instruction_bits,
        12,
        8,
        12,
    ) | xs(instruction_bits, 31, 1, 20)) as i32;
    let b: u32 = instruction_bits;
    assert(-0x10_0000 <= spec_jtype_immediate(b) < 0x10_0000 && spec_jtype_immediate(b) % 2 == 0)
        by (bit_vector);
    r
}

pub fn itype_immediate(instruction_bits: u32) -> (r: i32)
    ensures
        r == spec_itype_immediate(instruction_bits),
        -2048 <= r < 2048,
{
    let r: i32 = xs(instruction_bits, 20, 12, 0) as i32;
    let b: u32 = instruction_bits;
    assert(-2048 <= spec_itype_immediate(b) < 2048) by (bit_vector);
    r
}

pub fn stype_immediate(instruction_bits: u32) -> (r: i32)
    ensures
        r == spec_stype_immediate(instruction_bits),
        -2048 <= r < 2048,
{
    let r: i32 = (x(instruction_bits, 7, 5, 0) | xs(instruction_bits, 25, 7, 5)) as i32;
    let b: u32 = instruction_bits;
    assert(-2048 <= spec_stype_immediate(b) < 2048) by (bit_vector);
    r
}

pub fn utype_immediate(instruction_bits: u32) -> (r: i32)
    ensures
        r == spec_utype_immediate(instruction_bits),
        r & 0xfff == 0,
        r as u32 == instruction_bits & 0xffff_f000,
{
    let r: i32 = xs(instruction_bits, 12, 20, 12) as i32;
    let b: u32 = instruction_bits;
    assert((spec_utype_immediate(b) & 0xfff == 0) && (spec_utype_immediate(b) as u32 == b & 0xffff_f000)) by (bit_vector);
    r
}

/// Writes `value` to register `register_index` modulo 32. In RISC-V, x0 is
/// a special zero register: writes to it are silently dropped, so that it
/// always reads zero.
pub fn update_register<M: Machine>(machine: &mut M, register_index: usize, value: M::REG)
    ensures
        final(machine).spec_registers() == spec_write_register(
            old(machine).spec_registers(),
            register_index as int,
            value,
        ),
        only_registers_changed(*old(machine), *final(machine)),
{
    let register_index: usize = register_index % 32;
    if register_index > 0 {
        machine.set_register(register_index, value);
    }
}

} // verus!
