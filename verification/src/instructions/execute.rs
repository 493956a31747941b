//! The execution of each decoded instruction on a machine, and the
//! dispatch by opcode.
use vstd::prelude::*;
use crate::definitions::instructions as insts;
use crate::definitions::registers::RA;
use crate::error::Error;
use crate::machine::{
    only_registers_changed, reg_of, same_machine_data, spec_write_register, wrote_register,
    CoreMachine, Machine,
};
use crate::memory::Memory;
use super::common::{spec_effective_address, spec_load_effect, spec_store_effect};
use super::register::{lemma_and_63, lemma_u64_bits, lemma_u64_extend_word, signed64, Register};
use vstd::math::abs;
use super::utils::update_register;
use super::{
    extract_opcode, instruction_length, spec_byte_at, spec_extract_opcode, spec_immediate_at_32,
    spec_immediate_at_40, spec_instruction_length, Instruction, InstructionOpcode, Itype, R4type,
    R5type, RegisterIndex, Rtype, SImmediate, Stype, Utype,
};

verus! {

/// The destination register of the R, I, U, R4 and R5 formats.
pub open spec fn field_rd(inst: Instruction) -> RegisterIndex {
    spec_byte_at(inst, 8)
}

/// The second source register of the S format, kept where the others keep
/// the destination.
pub open spec fn field_s_rs2(inst: Instruction) -> RegisterIndex {
    spec_byte_at(inst, 8)
}

pub open spec fn field_rs1(inst: Instruction) -> RegisterIndex {
    spec_byte_at(inst, 32)
}

pub open spec fn field_rs2(inst: Instruction) -> RegisterIndex {
    spec_byte_at(inst, 40)
}

pub open spec fn field_rs3(inst: Instruction) -> RegisterIndex {
    spec_byte_at(inst, 48)
}

pub open spec fn field_rs4(inst: Instruction) -> RegisterIndex {
    spec_byte_at(inst, 56)
}

/// The immediate of the I and S formats.
pub open spec fn field_imm40(inst: Instruction) -> SImmediate {
    spec_immediate_at_40(inst)
}

/// The immediate of the U format.
pub open spec fn field_imm32(inst: Instruction) -> SImmediate {
    spec_immediate_at_32(inst)
}

/// `b` is `a` with `next` as the address of the next instruction, and
/// nothing else changed.
pub open spec fn jumped<M: CoreMachine>(a: M, b: M, next: M::REG) -> bool {
    &&& b.spec_next_pc() == next
    &&& b.spec_pc() == a.spec_pc()
    &&& b.spec_registers() == a.spec_registers()
    &&& b.spec_memory() == a.spec_memory()
    &&& b.spec_version() == a.spec_version()
    &&& b.spec_isa() == a.spec_isa()
}

/// `b` is `a` with `link` written to `rd` and `next` as the address of the
/// next instruction.
pub open spec fn linked_jump<M: CoreMachine>(a: M, b: M, rd: RegisterIndex, link: M::REG, next: M::REG) -> bool {
    &&& b.spec_registers() == spec_write_register(a.spec_registers(), rd as int, link)
    &&& b.spec_next_pc() == next
    &&& b.spec_pc() == a.spec_pc()
    &&& b.spec_memory() == a.spec_memory()
    &&& b.spec_version() == a.spec_version()
    &&& b.spec_isa() == a.spec_isa()
}

/// `b` is `a` with `x` written to `rx` and then `y` to `ry`.
pub open spec fn wrote_two_registers<M: CoreMachine>(
    a: M,
    b: M,
    rx: RegisterIndex,
    x: M::REG,
    ry: RegisterIndex,
    y: M::REG,
) -> bool {
    &&& b.spec_registers() == spec_write_register(
        spec_write_register(a.spec_registers(), rx as int, x),
        ry as int,
        y,
    )
    &&& only_registers_changed(a, b)
}

/// `b` is `a` with `value` written to `rd` and its memory replaced by `m`.
pub open spec fn wrote_register_and_memory<M: CoreMachine>(
    a: M,
    b: M,
    rd: RegisterIndex,
    value: M::REG,
    m: M::MEM,
) -> bool {
    &&& b.spec_registers() == spec_write_register(a.spec_registers(), rd as int, value)
    &&& b.spec_memory() == m
    &&& b.spec_pc() == a.spec_pc()
    &&& b.spec_next_pc() == a.spec_next_pc()
    &&& b.spec_version() == a.spec_version()
    &&& b.spec_isa() == a.spec_isa()
}

/// What executing an instruction with no handler does: nothing, and the
/// opcode is reported.
pub open spec fn spec_handle_invalid_op<M: CoreMachine>(a: M, b: M, inst: Instruction, r: Result<(), Error>) -> bool {
    r == Err::<(), Error>(Error::InvalidOp(spec_extract_opcode(inst))) && same_machine_data(a, b)
}

/// Refuses the instruction.
pub fn handle_invalid_op<Mac: Machine>(machine: &mut Mac, inst: Instruction) -> (r: Result<(), Error>)
    ensures
        spec_handle_invalid_op(*old(machine), *final(machine), inst, r),
{
    Err(Error::InvalidOp(extract_opcode(inst)))
}
/// `rd = rs1 - rs2`.
pub open spec fn spec_handle_sub<M: CoreMachine>(a: M, b: M, inst: Instruction, r: Result<(), Error>) -> bool {
    r is Ok && wrote_register(a, b, field_rd(inst), M::REG::spec_overflowing_sub(reg_of(a, field_rs1(inst)), reg_of(a, field_rs2(inst))))
}

pub fn handle_sub<Mac: Machine>(machine: &mut Mac, inst: Instruction) -> (r: Result<(), Error>)
    requires
        field_rs1(inst) < 32,
        field_rs2(inst) < 32,
    ensures
        spec_handle_sub(*old(machine), *final(machine), inst, r),
{
    let i = Rtype(inst);
    crate::instructions::common::sub(machine, i.rd(), i.rs1(), i.rs2());
    Ok(())
}

/// `rd = rs1 - rs2` on 32 bits.
pub open spec fn spec_handle_subw<M: CoreMachine>(a: M, b: M, inst: Instruction, r: Result<(), Error>) -> bool {
    r is Ok && wrote_register(a, b, field_rd(inst), M::REG::spec_sign_extend(M::REG::spec_overflowing_sub(reg_of(a, field_rs1(inst)), reg_of(a, field_rs2(inst))), M::REG::spec_from_u8(32)))
}

pub fn handle_subw<Mac: Machine>(machine: &mut Mac, inst: Instruction) -> (r: Result<(), Error>)
    requires
        field_rs1(inst) < 32,
        field_rs2(inst) < 32,
    ensures
        spec_handle_subw(*old(machine), *final(machine), inst, r),
{
    let i = Rtype(inst);
    crate::instructions::common::subw(machine, i.rd(), i.rs1(), i.rs2());
    Ok(())
}

/// `rd = rs1 + rs2`.
pub open spec fn spec_handle_add<M: CoreMachine>(a: M, b: M, inst: Instruction, r: Result<(), Error>) -> bool {
    r is Ok && wrote_register(a, b, field_rd(inst), M::REG::spec_overflowing_add(reg_of(a, field_rs1(inst)), reg_of(a, field_rs2(inst))))
}

pub fn handle_add<Mac: Machine>(machine: &mut Mac, inst: Instruction) -> (r: Result<(), Error>)
    requires
        field_rs1(inst) < 32,
        field_rs2(inst) < 32,
    ensures
        spec_handle_add(*old(machine), *final(machine), inst, r),
{
    let i = Rtype(inst);
    crate::instructions::common::add(machine, i.rd(), i.rs1(), i.rs2());
    Ok(())
}

/// `rd = rs1 + rs2` on 32 bits.
pub open spec fn spec_handle_addw<M: CoreMachine>(a: M, b: M, inst: Instruction, r: Result<(), Error>) -> bool {
    r is Ok && wrote_register(a, b, field_rd(inst), M::REG::spec_sign_extend(M::REG::spec_overflowing_add(reg_of(a, field_rs1(inst)), reg_of(a, field_rs2(inst))), M::REG::spec_from_u8(32)))
}

pub fn handle_addw<Mac: Machine>(machine: &mut Mac, inst: Instruction) -> (r: Result<(), Error>)
    requires
        field_rs1(inst) < 32,
        field_rs2(inst) < 32,
    ensures
        spec_handle_addw(*old(machine), *final(machine), inst, r),
{
    let i = Rtype(inst);
    crate::instructions::common::addw(machine, i.rd(), i.rs1(), i.rs2());
    Ok(())
}

/// `rd = rs1 ^ rs2`.
pub open spec fn spec_handle_xor<M: CoreMachine>(a: M, b: M, inst: Instruction, r: Result<(), Error>) -> bool {
    r is Ok && wrote_register(a, b, field_rd(inst), M::REG::spec_bitxor(reg_of(a, field_rs1(inst)), reg_of(a, field_rs2(inst))))
}

pub fn handle_xor<Mac: Machine>(machine: &mut Mac, inst: Instruction) -> (r: Result<(), Error>)
    requires
        field_rs1(inst) < 32,
        field_rs2(inst) < 32,
    ensures
        spec_handle_xor(*old(machine), *final(machine), inst, r),
{
    let i = Rtype(inst);
    crate::instructions::common::xor(machine, i.rd(), i.rs1(), i.rs2());
    Ok(())
}

/// `rd = rs1 | rs2`.
pub open spec fn spec_handle_or<M: CoreMachine>(a: M, b: M, inst: Instruction, r: Result<(), Error>) -> bool {
    r is Ok && wrote_register(a, b, field_rd(inst), M::REG::spec_bitor(reg_of(a, field_rs1(inst)), reg_of(a, field_rs2(inst))))
}

pub fn handle_or<Mac: Machine>(machine: &mut Mac, inst: Instruction) -> (r: Result<(), Error>)
    requires
        field_rs1(inst) < 32,
        field_rs2(inst) < 32,
    ensures
        spec_handle_or(*old(machine), *final(machine), inst, r),
{
    let i = Rtype(inst);
    crate::instructions::common::or(machine, i.rd(), i.rs1(), i.rs2());
    Ok(())
}

/// `rd = rs1 & rs2`.
pub open spec fn spec_handle_and<M: CoreMachine>(a: M, b: M, inst: Instruction, r: Result<(), Error>) -> bool {
    r is Ok && wrote_register(a, b, field_rd(inst), M::REG::spec_bitand(reg_of(a, field_rs1(inst)), reg_of(a, field_rs2(inst))))
}

pub fn handle_and<Mac: Machine>(machine: &mut Mac, inst: Instruction) -> (r: Result<(), Error>)
    requires
        field_rs1(inst) < 32,
        field_rs2(inst) < 32,
    ensures
        spec_handle_and(*old(machine), *final(machine), inst, r),
{
    let i = Rtype(inst);
    crate::instructions::common::and(machine, i.rd(), i.rs1(), i.rs2());
    Ok(())
}

/// `rd = rs1 << rs2`, the amount masked to the register width.
pub open spec fn spec_handle_sll<M: CoreMachine>(a: M, b: M, inst: Instruction, r: Result<(), Error>) -> bool {
    r is Ok && wrote_register(a, b, field_rd(inst), M::REG::spec_shl(reg_of(a, field_rs1(inst)), M::REG::spec_bitand(reg_of(a, field_rs2(inst)), M::REG::spec_from_u8(M::REG::SHIFT_MASK))))
}

pub fn handle_sll<Mac: Machine>(machine: &mut Mac, inst: Instruction) -> (r: Result<(), Error>)
    requires
        field_rs1(inst) < 32,
        field_rs2(inst) < 32,
    ensures
        spec_handle_sll(*old(machine), *final(machine), inst, r),
{
    let i = Rtype(inst);
    let value: Mac::REG = machine.registers()[i.rs1()].shl(&machine.registers()[i.rs2()].bitand(&Mac::REG::from_u8(Mac::REG::SHIFT_MASK)));
    update_register(machine, i.rd(), value);
    Ok(())
}

/// `rd = rs1 << rs2` on 32 bits.
pub open spec fn spec_handle_sllw<M: CoreMachine>(a: M, b: M, inst: Instruction, r: Result<(), Error>) -> bool {
    r is Ok && wrote_register(a, b, field_rd(inst), M::REG::spec_sign_extend(M::REG::spec_shl(reg_of(a, field_rs1(inst)), M::REG::spec_bitand(reg_of(a, field_rs2(inst)), M::REG::spec_from_u8(0x1F))), M::REG::spec_from_u8(32)))
}

pub fn handle_sllw<Mac: Machine>(machine: &mut Mac, inst: Instruction) -> (r: Result<(), Error>)
    requires
        field_rs1(inst) < 32,
        field_rs2(inst) < 32,
    ensures
        spec_handle_sllw(*old(machine), *final(machine), inst, r),
{
    let i = Rtype(inst);
    let value: Mac::REG = machine.registers()[i.rs1()].shl(&machine.registers()[i.rs2()].bitand(&Mac::REG::from_u8(0x1F))).sign_extend(&Mac::REG::from_u8(32));
    update_register(machine, i.rd(), value);
    Ok(())
}

/// `rd = rs1 >> rs2`, logical.
pub open spec fn spec_handle_srl<M: CoreMachine>(a: M, b: M, inst: Instruction, r: Result<(), Error>) -> bool {
    r is Ok && wrote_register(a, b, field_rd(inst), M::REG::spec_shr(reg_of(a, field_rs1(inst)), M::REG::spec_bitand(reg_of(a, field_rs2(inst)), M::REG::spec_from_u8(M::REG::SHIFT_MASK))))
}

pub fn handle_srl<Mac: Machine>(machine: &mut Mac, inst: Instruction) -> (r: Result<(), Error>)
    requires
        field_rs1(inst) < 32,
        field_rs2(inst) < 32,
    ensures
        spec_handle_srl(*old(machine), *final(machine), inst, r),
{
    let i = Rtype(inst);
    let value: Mac::REG = machine.registers()[i.rs1()].shr(&machine.registers()[i.rs2()].bitand(&Mac::REG::from_u8(Mac::REG::SHIFT_MASK)));
    update_register(machine, i.rd(), value);
    Ok(())
}

/// `rd = rs1 >> rs2`, logical, on 32 bits.
pub open spec fn spec_handle_srlw<M: CoreMachine>(a: M, b: M, inst: Instruction, r: Result<(), Error>) -> bool {
    r is Ok && wrote_register(a, b, field_rd(inst), M::REG::spec_sign_extend(M::REG::spec_shr(M::REG::spec_zero_extend(reg_of(a, field_rs1(inst)), M::REG::spec_from_u8(32)), M::REG::spec_bitand(reg_of(a, field_rs2(inst)), M::REG::spec_from_u8(0x1F))), M::REG::spec_from_u8(32)))
}

pub fn handle_srlw<Mac: Machine>(machine: &mut Mac, inst: Instruction) -> (r: Result<(), Error>)
    requires
        field_rs1(inst) < 32,
        field_rs2(inst) < 32,
    ensures
        spec_handle_srlw(*old(machine), *final(machine), inst, r),
{
    let i = Rtype(inst);
    let value: Mac::REG = machine.registers()[i.rs1()].zero_extend(&Mac::REG::from_u8(32)).shr(&machine.registers()[i.rs2()].bitand(&Mac::REG::from_u8(0x1F))).sign_extend(&Mac::REG::from_u8(32));
    update_register(machine, i.rd(), value);
    Ok(())
}

/// `rd = rs1 >> rs2`, arithmetic.
pub open spec fn spec_handle_sra<M: CoreMachine>(a: M, b: M, inst: Instruction, r: Result<(), Error>) -> bool {
    r is Ok && wrote_register(a, b, field_rd(inst), M::REG::spec_signed_shr(reg_of(a, field_rs1(inst)), M::REG::spec_bitand(reg_of(a, field_rs2(inst)), M::REG::spec_from_u8(M::REG::SHIFT_MASK))))
}

pub fn handle_sra<Mac: Machine>(machine: &mut Mac, inst: Instruction) -> (r: Result<(), Error>)
    requires
        field_rs1(inst) < 32,
        field_rs2(inst) < 32,
    ensures
        spec_handle_sra(*old(machine), *final(machine), inst, r),
{
    let i = Rtype(inst);
    let value: Mac::REG = machine.registers()[i.rs1()].signed_shr(&machine.registers()[i.rs2()].bitand(&Mac::REG::from_u8(Mac::REG::SHIFT_MASK)));
    update_register(machine, i.rd(), value);
    Ok(())
}

/// `rd = rs1 >> rs2`, arithmetic, on 32 bits.
pub open spec fn spec_handle_sraw<M: CoreMachine>(a: M, b: M, inst: Instruction, r: Result<(), Error>) -> bool {
    r is Ok && wrote_register(a, b, field_rd(inst), M::REG::spec_sign_extend(M::REG::spec_signed_shr(M::REG::spec_sign_extend(reg_of(a, field_rs1(inst)), M::REG::spec_from_u8(32)), M::REG::spec_bitand(reg_of(a, field_rs2(inst)), M::REG::spec_from_u8(0x1F))), M::REG::spec_from_u8(32)))
}

pub fn handle_sraw<Mac: Machine>(machine: &mut Mac, inst: Instruction) -> (r: Result<(), Error>)
    requires
        field_rs1(inst) < 32,
        field_rs2(inst) < 32,
    ensures
        spec_handle_sraw(*old(machine), *final(machine), inst, r),
{
    let i = Rtype(inst);
    let value: Mac::REG = machine.registers()[i.rs1()].sign_extend(&Mac::REG::from_u8(32)).signed_shr(&machine.registers()[i.rs2()].bitand(&Mac::REG::from_u8(0x1F))).sign_extend(&Mac::REG::from_u8(32));
    update_register(machine, i.rd(), value);
    Ok(())
}

/// `rd = rs1 < rs2`, signed.
pub open spec fn spec_handle_slt<M: CoreMachine>(a: M, b: M, inst: Instruction, r: Result<(), Error>) -> bool {
    r is Ok && wrote_register(a, b, field_rd(inst), M::REG::spec_lt_s(reg_of(a, field_rs1(inst)), reg_of(a, field_rs2(inst))))
}

pub fn handle_slt<Mac: Machine>(machine: &mut Mac, inst: Instruction) -> (r: Result<(), Error>)
    requires
        field_rs1(inst) < 32,
        field_rs2(inst) < 32,
    ensures
        spec_handle_slt(*old(machine), *final(machine), inst, r),
{
    let i = Rtype(inst);
    let value: Mac::REG = machine.registers()[i.rs1()].lt_s(&machine.registers()[i.rs2()]);
    update_register(machine, i.rd(), value);
    Ok(())
}

/// `rd = rs1 < rs2`, unsigned.
pub open spec fn spec_handle_sltu<M: CoreMachine>(a: M, b: M, inst: Instruction, r: Result<(), Error>) -> bool {
    r is Ok && wrote_register(a, b, field_rd(inst), M::REG::spec_lt(reg_of(a, field_rs1(inst)), reg_of(a, field_rs2(inst))))
}

pub fn handle_sltu<Mac: Machine>(machine: &mut Mac, inst: Instruction) -> (r: Result<(), Error>)
    requires
        field_rs1(inst) < 32,
        field_rs2(inst) < 32,
    ensures
        spec_handle_sltu(*old(machine), *final(machine), inst, r),
{
    let i = Rtype(inst);
    let value: Mac::REG = machine.registers()[i.rs1()].lt(&machine.registers()[i.rs2()]);
    update_register(machine, i.rd(), value);
    Ok(())
}

/// `lb`, with the boundary check of version 0 on.
pub open spec fn spec_handle_lb_version0<M: CoreMachine>(a: M, b: M, inst: Instruction, r: Result<(), Error>) -> bool {
    spec_load_effect(a, b, r, field_rd(inst), field_rs1(inst), field_imm40(inst), true, 1, true)
}

pub fn handle_lb_version0<Mac: Machine>(machine: &mut Mac, inst: Instruction) -> (r: Result<(), Error>)
    requires
        field_rs1(inst) < 32,
    ensures
        spec_handle_lb_version0(*old(machine), *final(machine), inst, r),
{
    let i = Itype(inst);
    crate::instructions::common::lb(machine, i.rd(), i.rs1(), i.immediate_s(), true)
}

/// `lb`, with the boundary check of version 0 off.
pub open spec fn spec_handle_lb_version1<M: CoreMachine>(a: M, b: M, inst: Instruction, r: Result<(), Error>) -> bool {
    spec_load_effect(a, b, r, field_rd(inst), field_rs1(inst), field_imm40(inst), false, 1, true)
}

pub fn handle_lb_version1<Mac: Machine>(machine: &mut Mac, inst: Instruction) -> (r: Result<(), Error>)
    requires
        field_rs1(inst) < 32,
    ensures
        spec_handle_lb_version1(*old(machine), *final(machine), inst, r),
{
    let i = Itype(inst);
    crate::instructions::common::lb(machine, i.rd(), i.rs1(), i.immediate_s(), false)
}

/// `lh`, with the boundary check of version 0 on.
pub open spec fn spec_handle_lh_version0<M: CoreMachine>(a: M, b: M, inst: Instruction, r: Result<(), Error>) -> bool {
    spec_load_effect(a, b, r, field_rd(inst), field_rs1(inst), field_imm40(inst), true, 2, true)
}

pub fn handle_lh_version0<Mac: Machine>(machine: &mut Mac, inst: Instruction) -> (r: Result<(), Error>)
    requires
        field_rs1(inst) < 32,
    ensures
        spec_handle_lh_version0(*old(machine), *final(machine), inst, r),
{
    let i = Itype(inst);
    crate::instructions::common::lh(machine, i.rd(), i.rs1(), i.immediate_s(), true)
}

/// `lh`, with the boundary check of version 0 off.
pub open spec fn spec_handle_lh_version1<M: CoreMachine>(a: M, b: M, inst: Instruction, r: Result<(), Error>) -> bool {
    spec_load_effect(a, b, r, field_rd(inst), field_rs1(inst), field_imm40(inst), false, 2, true)
}

pub fn handle_lh_version1<Mac: Machine>(machine: &mut Mac, inst: Instruction) -> (r: Result<(), Error>)
    requires
        field_rs1(inst) < 32,
    ensures
        spec_handle_lh_version1(*old(machine), *final(machine), inst, r),
{
    let i = Itype(inst);
    crate::instructions::common::lh(machine, i.rd(), i.rs1(), i.immediate_s(), false)
}

/// `lw`, with the boundary check of version 0 on.
pub open spec fn spec_handle_lw_version0<M: CoreMachine>(a: M, b: M, inst: Instruction, r: Result<(), Error>) -> bool {
    spec_load_effect(a, b, r, field_rd(inst), field_rs1(inst), field_imm40(inst), true, 4, true)
}

pub fn handle_lw_version0<Mac: Machine>(machine: &mut Mac, inst: Instruction) -> (r: Result<(), Error>)
    requires
        field_rs1(inst) < 32,
    ensures
        spec_handle_lw_version0(*old(machine), *final(machine), inst, r),
{
    let i = Itype(inst);
    crate::instructions::common::lw(machine, i.rd(), i.rs1(), i.immediate_s(), true)
}

/// `lw`, with the boundary check of version 0 off.
pub open spec fn spec_handle_lw_version1<M: CoreMachine>(a: M, b: M, inst: Instruction, r: Result<(), Error>) -> bool {
    spec_load_effect(a, b, r, field_rd(inst), field_rs1(inst), field_imm40(inst), false, 4, true)
}

pub fn handle_lw_version1<Mac: Machine>(machine: &mut Mac, inst: Instruction) -> (r: Result<(), Error>)
    requires
        field_rs1(inst) < 32,
    ensures
        spec_handle_lw_version1(*old(machine), *final(machine), inst, r),
{
    let i = Itype(inst);
    crate::instructions::common::lw(machine, i.rd(), i.rs1(), i.immediate_s(), false)
}

/// `ld`, with the boundary check of version 0 on.
pub open spec fn spec_handle_ld_version0<M: CoreMachine>(a: M, b: M, inst: Instruction, r: Result<(), Error>) -> bool {
    spec_load_effect(a, b, r, field_rd(inst), field_rs1(inst), field_imm40(inst), true, 8, true)
}

pub fn handle_ld_version0<Mac: Machine>(machine: &mut Mac, inst: Instruction) -> (r: Result<(), Error>)
    requires
        field_rs1(inst) < 32,
    ensures
        spec_handle_ld_version0(*old(machine), *final(machine), inst, r),
{
    let i = Itype(inst);
    crate::instructions::common::ld(machine, i.rd(), i.rs1(), i.immediate_s(), true)
}

/// `ld`, with the boundary check of version 0 off.
pub open spec fn spec_handle_ld_version1<M: CoreMachine>(a: M, b: M, inst: Instruction, r: Result<(), Error>) -> bool {
    spec_load_effect(a, b, r, field_rd(inst), field_rs1(inst), field_imm40(inst), false, 8, true)
}

pub fn handle_ld_version1<Mac: Machine>(machine: &mut Mac, inst: Instruction) -> (r: Result<(), Error>)
    requires
        field_rs1(inst) < 32,
    ensures
        spec_handle_ld_version1(*old(machine), *final(machine), inst, r),
{
    let i = Itype(inst);
    crate::instructions::common::ld(machine, i.rd(), i.rs1(), i.immediate_s(), false)
}

/// `lbu`, with the boundary check of version 0 on.
pub open spec fn spec_handle_lbu_version0<M: CoreMachine>(a: M, b: M, inst: Instruction, r: Result<(), Error>) -> bool {
    spec_load_effect(a, b, r, field_rd(inst), field_rs1(inst), field_imm40(inst), true, 1, false)
}

pub fn handle_lbu_version0<Mac: Machine>(machine: &mut Mac, inst: Instruction) -> (r: Result<(), Error>)
    requires
        field_rs1(inst) < 32,
    ensures
        spec_handle_lbu_version0(*old(machine), *final(machine), inst, r),
{
    let i = Itype(inst);
    crate::instructions::common::lbu(machine, i.rd(), i.rs1(), i.immediate_s(), true)
}

/// `lbu`, with the boundary check of version 0 off.
pub open spec fn spec_handle_lbu_version1<M: CoreMachine>(a: M, b: M, inst: Instruction, r: Result<(), Error>) -> bool {
    spec_load_effect(a, b, r, field_rd(inst), field_rs1(inst), field_imm40(inst), false, 1, false)
}

pub fn handle_lbu_version1<Mac: Machine>(machine: &mut Mac, inst: Instruction) -> (r: Result<(), Error>)
    requires
        field_rs1(inst) < 32,
    ensures
        spec_handle_lbu_version1(*old(machine), *final(machine), inst, r),
{
    let i = Itype(inst);
    crate::instructions::common::lbu(machine, i.rd(), i.rs1(), i.immediate_s(), false)
}

/// `lhu`, with the boundary check of version 0 on.
pub open spec fn spec_handle_lhu_version0<M: CoreMachine>(a: M, b: M, inst: Instruction, r: Result<(), Error>) -> bool {
    spec_load_effect(a, b, r, field_rd(inst), field_rs1(inst), field_imm40(inst), true, 2, false)
}

pub fn handle_lhu_version0<Mac: Machine>(machine: &mut Mac, inst: Instruction) -> (r: Result<(), Error>)
    requires
        field_rs1(inst) < 32,
    ensures
        spec_handle_lhu_version0(*old(machine), *final(machine), inst, r),
{
    let i = Itype(inst);
    crate::instructions::common::lhu(machine, i.rd(), i.rs1(), i.immediate_s(), true)
}

/// `lhu`, with the boundary check of version 0 off.
pub open spec fn spec_handle_lhu_version1<M: CoreMachine>(a: M, b: M, inst: Instruction, r: Result<(), Error>) -> bool {
    spec_load_effect(a, b, r, field_rd(inst), field_rs1(inst), field_imm40(inst), false, 2, false)
}

pub fn handle_lhu_version1<Mac: Machine>(machine: &mut Mac, inst: Instruction) -> (r: Result<(), Error>)
    requires
        field_rs1(inst) < 32,
    ensures
        spec_handle_lhu_version1(*old(machine), *final(machine), inst, r),
{
    let i = Itype(inst);
    crate::instructions::common::lhu(machine, i.rd(), i.rs1(), i.immediate_s(), false)
}

/// `lwu`, with the boundary check of version 0 on.
pub open spec fn spec_handle_lwu_version0<M: CoreMachine>(a: M, b: M, inst: Instruction, r: Result<(), Error>) -> bool {
    spec_load_effect(a, b, r, field_rd(inst), field_rs1(inst), field_imm40(inst), true, 4, false)
}

pub fn handle_lwu_version0<Mac: Machine>(machine: &mut Mac, inst: Instruction) -> (r: Result<(), Error>)
    requires
        field_rs1(inst) < 32,
    ensures
        spec_handle_lwu_version0(*old(machine), *final(machine), inst, r),
{
    let i = Itype(inst);
    crate::instructions::common::lwu(machine, i.rd(), i.rs1(), i.immediate_s(), true)
}

/// `lwu`, with the boundary check of version 0 off.
pub open spec fn spec_handle_lwu_version1<M: CoreMachine>(a: M, b: M, inst: Instruction, r: Result<(), Error>) -> bool {
    spec_load_effect(a, b, r, field_rd(inst), field_rs1(inst), field_imm40(inst), false, 4, false)
}

pub fn handle_lwu_version1<Mac: Machine>(machine: &mut Mac, inst: Instruction) -> (r: Result<(), Error>)
    requires
        field_rs1(inst) < 32,
    ensures
        spec_handle_lwu_version1(*old(machine), *final(machine), inst, r),
{
    let i = Itype(inst);
    crate::instructions::common::lwu(machine, i.rd(), i.rs1(), i.immediate_s(), false)
}

/// `rd = rs1 + imm`.
pub open spec fn spec_handle_addi<M: CoreMachine>(a: M, b: M, inst: Instruction, r: Result<(), Error>) -> bool {
    r is Ok && wrote_register(a, b, field_rd(inst), M::REG::spec_overflowing_add(reg_of(a, field_rs1(inst)), M::REG::spec_from_i32(field_imm40(inst))))
}

pub fn handle_addi<Mac: Machine>(machine: &mut Mac, inst: Instruction) -> (r: Result<(), Error>)
    requires
        field_rs1(inst) < 32,
    ensures
        spec_handle_addi(*old(machine), *final(machine), inst, r),
{
    let i = Itype(inst);
    crate::instructions::common::addi(machine, i.rd(), i.rs1(), i.immediate_s());
    Ok(())
}

/// `rd = rs1 + imm` on 32 bits.
pub open spec fn spec_handle_addiw<M: CoreMachine>(a: M, b: M, inst: Instruction, r: Result<(), Error>) -> bool {
    r is Ok && wrote_register(a, b, field_rd(inst), M::REG::spec_sign_extend(M::REG::spec_overflowing_add(reg_of(a, field_rs1(inst)), M::REG::spec_from_i32(field_imm40(inst))), M::REG::spec_from_u8(32)))
}

pub fn handle_addiw<Mac: Machine>(machine: &mut Mac, inst: Instruction) -> (r: Result<(), Error>)
    requires
        field_rs1(inst) < 32,
    ensures
        spec_handle_addiw(*old(machine), *final(machine), inst, r),
{
    let i = Itype(inst);
    crate::instructions::common::addiw(machine, i.rd(), i.rs1(), i.immediate_s());
    Ok(())
}

/// `rd = rs1 ^ imm`.
pub open spec fn spec_handle_xori<M: CoreMachine>(a: M, b: M, inst: Instruction, r: Result<(), Error>) -> bool {
    r is Ok && wrote_register(a, b, field_rd(inst), M::REG::spec_bitxor(reg_of(a, field_rs1(inst)), M::REG::spec_from_i32(field_imm40(inst))))
}

pub fn handle_xori<Mac: Machine>(machine: &mut Mac, inst: Instruction) -> (r: Result<(), Error>)
    requires
        field_rs1(inst) < 32,
    ensures
        spec_handle_xori(*old(machine), *final(machine), inst, r),
{
    let i = Itype(inst);
    crate::instructions::common::xori(machine, i.rd(), i.rs1(), i.immediate_s());
    Ok(())
}

/// Load-reserved of 32 bits: loads into `rd` and reserves the address.
pub open spec fn spec_handle_lr_w<M: CoreMachine>(a: M, b: M, inst: Instruction, r: Result<(), Error>) -> bool {
    let addr = reg_of(a, field_rs1(inst));
    match a.spec_memory().spec_load(addr, 4) {
        Err(e) => r == Err::<(), Error>(e) && same_machine_data(a, b),
        Ok(v) => r is Ok && wrote_register_and_memory(
            a,
            b,
            field_rd(inst),
            M::REG::spec_sign_extend(v, M::REG::spec_from_u8(32)),
            a.spec_memory().spec_with_lr(addr),
        ),
    }
}

pub fn handle_lr_w<Mac: Machine>(machine: &mut Mac, inst: Instruction) -> (r: Result<(), Error>)
    requires
        field_rs1(inst) < 32,
    ensures
        spec_handle_lr_w(*old(machine), *final(machine), inst, r),
{
    let i = Rtype(inst);
    let address: Mac::REG = machine.registers()[i.rs1()];
    let value: Mac::REG = match machine.memory_mut().load32(&address) {
        Ok(v) => v,
        Err(e) => {
            return Err(e);
        },
    };
    update_register(machine, i.rd(), value.sign_extend(&Mac::REG::from_u8(32)));
    machine.memory_mut().set_lr(&address);
    Ok(())
}

/// Store-conditional of 32 bits: stores `rs2` where the address is the reserved one, writes 0 to `rd` on success and 1 otherwise, and drops the reservation.
pub open spec fn spec_handle_sc_w<M: CoreMachine>(a: M, b: M, inst: Instruction, r: Result<(), Error>) -> bool {
    let addr = reg_of(a, field_rs1(inst));
    let hit = M::REG::spec_eq(addr, a.spec_memory().spec_lr());
    match a.spec_memory().spec_load(addr, 4) {
        Err(e) => r == Err::<(), Error>(e) && same_machine_data(a, b),
        Ok(v) => match a.spec_memory().spec_store(addr, 4, M::REG::spec_cond(hit, reg_of(a, field_rs2(inst)), v)) {
            Err(e) => r == Err::<(), Error>(e) && same_machine_data(a, b),
            Ok(m) => r is Ok && wrote_register_and_memory(
                a,
                b,
                field_rd(inst),
                M::REG::spec_cond(hit, M::REG::spec_from_u8(0), M::REG::spec_from_u8(1)),
                m.spec_with_lr(M::REG::spec_from_u64(u64::MAX)),
            ),
        },
    }
}

pub fn handle_sc_w<Mac: Machine>(machine: &mut Mac, inst: Instruction) -> (r: Result<(), Error>)
    requires
        field_rs1(inst) < 32,
        field_rs2(inst) < 32,
    ensures
        spec_handle_sc_w(*old(machine), *final(machine), inst, r),
{
    let i = Rtype(inst);
    let address: Mac::REG = machine.registers()[i.rs1()];
    let condition: Mac::REG = address.eq(machine.memory().lr());
    let rs2_value: Mac::REG = machine.registers()[i.rs2()];
    let loaded: Mac::REG = match machine.memory_mut().load32(&address) {
        Ok(v) => v,
        Err(e) => {
            return Err(e);
        },
    };
    let mem_value: Mac::REG = condition.cond(&rs2_value, &loaded);
    let rd_value: Mac::REG = condition.cond(&Mac::REG::from_u8(0), &Mac::REG::from_u8(1));
    if let Err(e) = machine.memory_mut().store32(&address, &mem_value) {
        return Err(e);
    }
    update_register(machine, i.rd(), rd_value);
    machine.memory_mut().set_lr(&Mac::REG::from_u64(u64::MAX));
    Ok(())
}

/// Atomic `swap` of 32 bits: `rd` gets the old memory value sign extended, memory gets the combination with `rs2`.
pub open spec fn spec_handle_amoswap_w<M: CoreMachine>(a: M, b: M, inst: Instruction, r: Result<(), Error>) -> bool {
    let addr = reg_of(a, field_rs1(inst));
    let rs2v = reg_of(a, field_rs2(inst));
    match a.spec_memory().spec_load(addr, 4) {
        Err(e) => r == Err::<(), Error>(e) && same_machine_data(a, b),
        Ok(v) => {
            let loaded = M::REG::spec_sign_extend(v, M::REG::spec_from_u8(32));
            match a.spec_memory().spec_store(addr, 4, rs2v) {
                Err(e) => r == Err::<(), Error>(e) && wrote_register(a, b, field_rd(inst), loaded),
                Ok(m) => r is Ok && wrote_register_and_memory(a, b, field_rd(inst), loaded, m),
            }
        },
    }
}

pub fn handle_amoswap_w<Mac: Machine>(machine: &mut Mac, inst: Instruction) -> (r: Result<(), Error>)
    requires
        field_rs1(inst) < 32,
        field_rs2(inst) < 32,
    ensures
        spec_handle_amoswap_w(*old(machine), *final(machine), inst, r),
{
    let i = Rtype(inst);
    let rs1_value: Mac::REG = machine.registers()[i.rs1()];
    let rs2_value: Mac::REG = machine.registers()[i.rs2()];
    let mem_value: Mac::REG = match machine.memory_mut().load32(&rs1_value) {
        Ok(v) => v,
        Err(e) => {
            return Err(e);
        },
    };
    let loaded: Mac::REG = mem_value.sign_extend(&Mac::REG::from_u8(32));
    update_register(machine, i.rd(), loaded);
    let stored: Mac::REG = rs2_value;
    machine.memory_mut().store32(&rs1_value, &stored)
}

/// Atomic `add` of 32 bits: `rd` gets the old memory value sign extended, memory gets the combination with `rs2`.
pub open spec fn spec_handle_amoadd_w<M: CoreMachine>(a: M, b: M, inst: Instruction, r: Result<(), Error>) -> bool {
    let addr = reg_of(a, field_rs1(inst));
    let rs2v = reg_of(a, field_rs2(inst));
    match a.spec_memory().spec_load(addr, 4) {
        Err(e) => r == Err::<(), Error>(e) && same_machine_data(a, b),
        Ok(v) => {
            let loaded = M::REG::spec_sign_extend(v, M::REG::spec_from_u8(32));
            match a.spec_memory().spec_store(addr, 4, M::REG::spec_overflowing_add(rs2v, loaded)) {
                Err(e) => r == Err::<(), Error>(e) && wrote_register(a, b, field_rd(inst), loaded),
                Ok(m) => r is Ok && wrote_register_and_memory(a, b, field_rd(inst), loaded, m),
            }
        },
    }
}

pub fn handle_amoadd_w<Mac: Machine>(machine: &mut Mac, inst: Instruction) -> (r: Result<(), Error>)
    requires
        field_rs1(inst) < 32,
        field_rs2(inst) < 32,
    ensures
        spec_handle_amoadd_w(*old(machine), *final(machine), inst, r),
{
    let i = Rtype(inst);
    let rs1_value: Mac::REG = machine.registers()[i.rs1()];
    let rs2_value: Mac::REG = machine.registers()[i.rs2()];
    let mem_value: Mac::REG = match machine.memory_mut().load32(&rs1_value) {
        Ok(v) => v,
        Err(e) => {
            return Err(e);
        },
    };
    let loaded: Mac::REG = mem_value.sign_extend(&Mac::REG::from_u8(32));
    update_register(machine, i.rd(), loaded);
    let stored: Mac::REG = rs2_value.overflowing_add(&loaded);
    machine.memory_mut().store32(&rs1_value, &stored)
}

/// Atomic `xor` of 32 bits: `rd` gets the old memory value sign extended, memory gets the combination with `rs2`.
pub open spec fn spec_handle_amoxor_w<M: CoreMachine>(a: M, b: M, inst: Instruction, r: Result<(), Error>) -> bool {
    let addr = reg_of(a, field_rs1(inst));
    let rs2v = reg_of(a, field_rs2(inst));
    match a.spec_memory().spec_load(addr, 4) {
        Err(e) => r == Err::<(), Error>(e) && same_machine_data(a, b),
        Ok(v) => {
            let loaded = M::REG::spec_sign_extend(v, M::REG::spec_from_u8(32));
            match a.spec_memory().spec_store(addr, 4, M::REG::spec_bitxor(rs2v, loaded)) {
                Err(e) => r == Err::<(), Error>(e) && wrote_register(a, b, field_rd(inst), loaded),
                Ok(m) => r is Ok && wrote_register_and_memory(a, b, field_rd(inst), loaded, m),
            }
        },
    }
}

pub fn handle_amoxor_w<Mac: Machine>(machine: &mut Mac, inst: Instruction) -> (r: Result<(), Error>)
    requires
        field_rs1(inst) < 32,
        field_rs2(inst) < 32,
    ensures
        spec_handle_amoxor_w(*old(machine), *final(machine), inst, r),
{
    let i = Rtype(inst);
    let rs1_value: Mac::REG = machine.registers()[i.rs1()];
    let rs2_value: Mac::REG = machine.registers()[i.rs2()];
    let mem_value: Mac::REG = match machine.memory_mut().load32(&rs1_value) {
        Ok(v) => v,
        Err(e) => {
            return Err(e);
        },
    };
    let loaded: Mac::REG = mem_value.sign_extend(&Mac::REG::from_u8(32));
    update_register(machine, i.rd(), loaded);
    let stored: Mac::REG = rs2_value.bitxor(&loaded);
    machine.memory_mut().store32(&rs1_value, &stored)
}

/// Atomic `and` of 32 bits: `rd` gets the old memory value sign extended, memory gets the combination with `rs2`.
pub open spec fn spec_handle_amoand_w<M: CoreMachine>(a: M, b: M, inst: Instruction, r: Result<(), Error>) -> bool {
    let addr = reg_of(a, field_rs1(inst));
    let rs2v = reg_of(a, field_rs2(inst));
    match a.spec_memory().spec_load(addr, 4) {
        Err(e) => r == Err::<(), Error>(e) && same_machine_data(a, b),
        Ok(v) => {
            let loaded = M::REG::spec_sign_extend(v, M::REG::spec_from_u8(32));
            match a.spec_memory().spec_store(addr, 4, M::REG::spec_bitand(rs2v, loaded)) {
                Err(e) => r == Err::<(), Error>(e) && wrote_register(a, b, field_rd(inst), loaded),
                Ok(m) => r is Ok && wrote_register_and_memory(a, b, field_rd(inst), loaded, m),
            }
        },
    }
}

pub fn handle_amoand_w<Mac: Machine>(machine: &mut Mac, inst: Instruction) -> (r: Result<(), Error>)
    requires
        field_rs1(inst) < 32,
        field_rs2(inst) < 32,
    ensures
        spec_handle_amoand_w(*old(machine), *final(machine), inst, r),
{
    let i = Rtype(inst);
    let rs1_value: Mac::REG = machine.registers()[i.rs1()];
    let rs2_value: Mac::REG = machine.registers()[i.rs2()];
    let mem_value: Mac::REG = match machine.memory_mut().load32(&rs1_value) {
        Ok(v) => v,
        Err(e) => {
            return Err(e);
        },
    };
    let loaded: Mac::REG = mem_value.sign_extend(&Mac::REG::from_u8(32));
    update_register(machine, i.rd(), loaded);
    let stored: Mac::REG = rs2_value.bitand(&loaded);
    machine.memory_mut().store32(&rs1_value, &stored)
}

/// Atomic `or` of 32 bits: `rd` gets the old memory value sign extended, memory gets the combination with `rs2`.
pub open spec fn spec_handle_amoor_w<M: CoreMachine>(a: M, b: M, inst: Instruction, r: Result<(), Error>) -> bool {
    let addr = reg_of(a, field_rs1(inst));
    let rs2v = reg_of(a, field_rs2(inst));
    match a.spec_memory().spec_load(addr, 4) {
        Err(e) => r == Err::<(), Error>(e) && same_machine_data(a, b),
        Ok(v) => {
            let loaded = M::REG::spec_sign_extend(v, M::REG::spec_from_u8(32));
            match a.spec_memory().spec_store(addr, 4, M::REG::spec_bitor(rs2v, loaded)) {
                Err(e) => r == Err::<(), Error>(e) && wrote_register(a, b, field_rd(inst), loaded),
                Ok(m) => r is Ok && wrote_register_and_memory(a, b, field_rd(inst), loaded, m),
            }
        },
    }
}

pub fn handle_amoor_w<Mac: Machine>(machine: &mut Mac, inst: Instruction) -> (r: Result<(), Error>)
    requires
        field_rs1(inst) < 32,
        field_rs2(inst) < 32,
    ensures
        spec_handle_amoor_w(*old(machine), *final(machine), inst, r),
{
    let i = Rtype(inst);
    let rs1_value: Mac::REG = machine.registers()[i.rs1()];
    let rs2_value: Mac::REG = machine.registers()[i.rs2()];
    let mem_value: Mac::REG = match machine.memory_mut().load32(&rs1_value) {
        Ok(v) => v,
        Err(e) => {
            return Err(e);
        },
    };
    let loaded: Mac::REG = mem_value.sign_extend(&Mac::REG::from_u8(32));
    update_register(machine, i.rd(), loaded);
    let stored: Mac::REG = rs2_value.bitor(&loaded);
    machine.memory_mut().store32(&rs1_value, &stored)
}

/// Atomic `min` of 32 bits: `rd` gets the old memory value sign extended, memory gets the combination with `rs2`.
pub open spec fn spec_handle_amomin_w<M: CoreMachine>(a: M, b: M, inst: Instruction, r: Result<(), Error>) -> bool {
    let addr = reg_of(a, field_rs1(inst));
    let rs2v = M::REG::spec_sign_extend(reg_of(a, field_rs2(inst)), M::REG::spec_from_u8(32));
    match a.spec_memory().spec_load(addr, 4) {
        Err(e) => r == Err::<(), Error>(e) && same_machine_data(a, b),
        Ok(v) => {
            let loaded = M::REG::spec_sign_extend(v, M::REG::spec_from_u8(32));
            match a.spec_memory().spec_store(addr, 4, M::REG::spec_cond(M::REG::spec_lt_s(rs2v, loaded), rs2v, loaded)) {
                Err(e) => r == Err::<(), Error>(e) && wrote_register(a, b, field_rd(inst), loaded),
                Ok(m) => r is Ok && wrote_register_and_memory(a, b, field_rd(inst), loaded, m),
            }
        },
    }
}

pub fn handle_amomin_w<Mac: Machine>(machine: &mut Mac, inst: Instruction) -> (r: Result<(), Error>)
    requires
        field_rs1(inst) < 32,
        field_rs2(inst) < 32,
    ensures
        spec_handle_amomin_w(*old(machine), *final(machine), inst, r),
{
    let i = Rtype(inst);
    let rs1_value: Mac::REG = machine.registers()[i.rs1()];
    let rs2_value: Mac::REG = machine.registers()[i.rs2()].sign_extend(&Mac::REG::from_u8(32));
    let mem_value: Mac::REG = match machine.memory_mut().load32(&rs1_value) {
        Ok(v) => v,
        Err(e) => {
            return Err(e);
        },
    };
    let loaded: Mac::REG = mem_value.sign_extend(&Mac::REG::from_u8(32));
    update_register(machine, i.rd(), loaded);
    let stored: Mac::REG = rs2_value.lt_s(&loaded).cond(&rs2_value, &loaded);
    machine.memory_mut().store32(&rs1_value, &stored)
}

/// Atomic `max` of 32 bits: `rd` gets the old memory value sign extended, memory gets the combination with `rs2`.
pub open spec fn spec_handle_amomax_w<M: CoreMachine>(a: M, b: M, inst: Instruction, r: Result<(), Error>) -> bool {
    let addr = reg_of(a, field_rs1(inst));
    let rs2v = M::REG::spec_sign_extend(reg_of(a, field_rs2(inst)), M::REG::spec_from_u8(32));
    match a.spec_memory().spec_load(addr, 4) {
        Err(e) => r == Err::<(), Error>(e) && same_machine_data(a, b),
        Ok(v) => {
            let loaded = M::REG::spec_sign_extend(v, M::REG::spec_from_u8(32));
            match a.spec_memory().spec_store(addr, 4, M::REG::spec_cond(M::REG::spec_logical_not(M::REG::spec_lt_s(rs2v, loaded)), rs2v, loaded)) {
                Err(e) => r == Err::<(), Error>(e) && wrote_register(a, b, field_rd(inst), loaded),
                Ok(m) => r is Ok && wrote_register_and_memory(a, b, field_rd(inst), loaded, m),
            }
        },
    }
}

pub fn handle_amomax_w<Mac: Machine>(machine: &mut Mac, inst: Instruction) -> (r: Result<(), Error>)
    requires
        field_rs1(inst) < 32,
        field_rs2(inst) < 32,
    ensures
        spec_handle_amomax_w(*old(machine), *final(machine), inst, r),
{
    let i = Rtype(inst);
    let rs1_value: Mac::REG = machine.registers()[i.rs1()];
    let rs2_value: Mac::REG = machine.registers()[i.rs2()].sign_extend(&Mac::REG::from_u8(32));
    let mem_value: Mac::REG = match machine.memory_mut().load32(&rs1_value) {
        Ok(v) => v,
        Err(e) => {
            return Err(e);
        },
    };
    let loaded: Mac::REG = mem_value.sign_extend(&Mac::REG::from_u8(32));
    update_register(machine, i.rd(), loaded);
    let stored: Mac::REG = rs2_value.ge_s(&loaded).cond(&rs2_value, &loaded);
    machine.memory_mut().store32(&rs1_value, &stored)
}

/// Atomic `minu` of 32 bits: `rd` gets the old memory value sign extended, memory gets the combination with `rs2`.
pub open spec fn spec_handle_amominu_w<M: CoreMachine>(a: M, b: M, inst: Instruction, r: Result<(), Error>) -> bool {
    let addr = reg_of(a, field_rs1(inst));
    let rs2v = M::REG::spec_zero_extend(reg_of(a, field_rs2(inst)), M::REG::spec_from_u8(32));
    match a.spec_memory().spec_load(addr, 4) {
        Err(e) => r == Err::<(), Error>(e) && same_machine_data(a, b),
        Ok(v) => {
            let loaded = M::REG::spec_sign_extend(v, M::REG::spec_from_u8(32));
            match a.spec_memory().spec_store(addr, 4, M::REG::spec_cond(M::REG::spec_lt(rs2v, v), rs2v, v)) {
                Err(e) => r == Err::<(), Error>(e) && wrote_register(a, b, field_rd(inst), loaded),
                Ok(m) => r is Ok && wrote_register_and_memory(a, b, field_rd(inst), loaded, m),
            }
        },
    }
}

pub fn handle_amominu_w<Mac: Machine>(machine: &mut Mac, inst: Instruction) -> (r: Result<(), Error>)
    requires
        field_rs1(inst) < 32,
        field_rs2(inst) < 32,
    ensures
        spec_handle_amominu_w(*old(machine), *final(machine), inst, r),
{
    let i = Rtype(inst);
    let rs1_value: Mac::REG = machine.registers()[i.rs1()];
    let rs2_value: Mac::REG = machine.registers()[i.rs2()].zero_extend(&Mac::REG::from_u8(32));
    let mem_value: Mac::REG = match machine.memory_mut().load32(&rs1_value) {
        Ok(v) => v,
        Err(e) => {
            return Err(e);
        },
    };
    let loaded: Mac::REG = mem_value.sign_extend(&Mac::REG::from_u8(32));
    update_register(machine, i.rd(), loaded);
    let stored: Mac::REG = rs2_value.lt(&mem_value).cond(&rs2_value, &mem_value);
    machine.memory_mut().store32(&rs1_value, &stored)
}

/// Atomic `maxu` of 32 bits: `rd` gets the old memory value sign extended, memory gets the combination with `rs2`.
pub open spec fn spec_handle_amomaxu_w<M: CoreMachine>(a: M, b: M, inst: Instruction, r: Result<(), Error>) -> bool {
    let addr = reg_of(a, field_rs1(inst));
    let rs2v = M::REG::spec_zero_extend(reg_of(a, field_rs2(inst)), M::REG::spec_from_u8(32));
    match a.spec_memory().spec_load(addr, 4) {
        Err(e) => r == Err::<(), Error>(e) && same_machine_data(a, b),
        Ok(v) => {
            let loaded = M::REG::spec_sign_extend(v, M::REG::spec_from_u8(32));
            match a.spec_memory().spec_store(addr, 4, M::REG::spec_cond(M::REG::spec_logical_not(M::REG::spec_lt(rs2v, v)), rs2v, v)) {
                Err(e) => r == Err::<(), Error>(e) && wrote_register(a, b, field_rd(inst), loaded),
                Ok(m) => r is Ok && wrote_register_and_memory(a, b, field_rd(inst), loaded, m),
            }
        },
    }
}

pub fn handle_amomaxu_w<Mac: Machine>(machine: &mut Mac, inst: Instruction) -> (r: Result<(), Error>)
    requires
        field_rs1(inst) < 32,
        field_rs2(inst) < 32,
    ensures
        spec_handle_amomaxu_w(*old(machine), *final(machine), inst, r),
{
    let i = Rtype(inst);
    let rs1_value: Mac::REG = machine.registers()[i.rs1()];
    let rs2_value: Mac::REG = machine.registers()[i.rs2()].zero_extend(&Mac::REG::from_u8(32));
    let mem_value: Mac::REG = match machine.memory_mut().load32(&rs1_value) {
        Ok(v) => v,
        Err(e) => {
            return Err(e);
        },
    };
    let loaded: Mac::REG = mem_value.sign_extend(&Mac::REG::from_u8(32));
    update_register(machine, i.rd(), loaded);
    let stored: Mac::REG = rs2_value.ge(&mem_value).cond(&rs2_value, &mem_value);
    machine.memory_mut().store32(&rs1_value, &stored)
}

/// Load-reserved of 64 bits: loads into `rd` and reserves the address.
pub open spec fn spec_handle_lr_d<M: CoreMachine>(a: M, b: M, inst: Instruction, r: Result<(), Error>) -> bool {
    let addr = reg_of(a, field_rs1(inst));
    match a.spec_memory().spec_load(addr, 8) {
        Err(e) => r == Err::<(), Error>(e) && same_machine_data(a, b),
        Ok(v) => r is Ok && wrote_register_and_memory(
            a,
            b,
            field_rd(inst),
            v,
            a.spec_memory().spec_with_lr(addr),
        ),
    }
}

pub fn handle_lr_d<Mac: Machine>(machine: &mut Mac, inst: Instruction) -> (r: Result<(), Error>)
    requires
        field_rs1(inst) < 32,
    ensures
        spec_handle_lr_d(*old(machine), *final(machine), inst, r),
{
    let i = Rtype(inst);
    let address: Mac::REG = machine.registers()[i.rs1()];
    let value: Mac::REG = match machine.memory_mut().load64(&address) {
        Ok(v) => v,
        Err(e) => {
            return Err(e);
        },
    };
    update_register(machine, i.rd(), value);
    machine.memory_mut().set_lr(&address);
    Ok(())
}

/// Store-conditional of 64 bits: stores `rs2` where the address is the reserved one, writes 0 to `rd` on success and 1 otherwise, and drops the reservation.
pub open spec fn spec_handle_sc_d<M: CoreMachine>(a: M, b: M, inst: Instruction, r: Result<(), Error>) -> bool {
    let addr = reg_of(a, field_rs1(inst));
    let hit = M::REG::spec_eq(addr, a.spec_memory().spec_lr());
    match a.spec_memory().spec_load(addr, 8) {
        Err(e) => r == Err::<(), Error>(e) && same_machine_data(a, b),
        Ok(v) => match a.spec_memory().spec_store(addr, 8, M::REG::spec_cond(hit, reg_of(a, field_rs2(inst)), v)) {
            Err(e) => r == Err::<(), Error>(e) && same_machine_data(a, b),
            Ok(m) => r is Ok && wrote_register_and_memory(
                a,
                b,
                field_rd(inst),
                M::REG::spec_cond(hit, M::REG::spec_from_u8(0), M::REG::spec_from_u8(1)),
                m.spec_with_lr(M::REG::spec_from_u64(u64::MAX)),
            ),
        },
    }
}

pub fn handle_sc_d<Mac: Machine>(machine: &mut Mac, inst: Instruction) -> (r: Result<(), Error>)
    requires
        field_rs1(inst) < 32,
        field_rs2(inst) < 32,
    ensures
        spec_handle_sc_d(*old(machine), *final(machine), inst, r),
{
    let i = Rtype(inst);
    let address: Mac::REG = machine.registers()[i.rs1()];
    let condition: Mac::REG = address.eq(machine.memory().lr());
    let rs2_value: Mac::REG = machine.registers()[i.rs2()];
    let loaded: Mac::REG = match machine.memory_mut().load64(&address) {
        Ok(v) => v,
        Err(e) => {
            return Err(e);
        },
    };
    let mem_value: Mac::REG = condition.cond(&rs2_value, &loaded);
    let rd_value: Mac::REG = condition.cond(&Mac::REG::from_u8(0), &Mac::REG::from_u8(1));
    if let Err(e) = machine.memory_mut().store64(&address, &mem_value) {
        return Err(e);
    }
    update_register(machine, i.rd(), rd_value);
    machine.memory_mut().set_lr(&Mac::REG::from_u64(u64::MAX));
    Ok(())
}

/// Atomic `swap` of 64 bits: `rd` gets the old memory value, memory gets the combination with `rs2`.
pub open spec fn spec_handle_amoswap_d<M: CoreMachine>(a: M, b: M, inst: Instruction, r: Result<(), Error>) -> bool {
    let addr = reg_of(a, field_rs1(inst));
    let rs2v = reg_of(a, field_rs2(inst));
    match a.spec_memory().spec_load(addr, 8) {
        Err(e) => r == Err::<(), Error>(e) && same_machine_data(a, b),
        Ok(v) => {
            let loaded = v;
            match a.spec_memory().spec_store(addr, 8, rs2v) {
                Err(e) => r == Err::<(), Error>(e) && wrote_register(a, b, field_rd(inst), loaded),
                Ok(m) => r is Ok && wrote_register_and_memory(a, b, field_rd(inst), loaded, m),
            }
        },
    }
}

pub fn handle_amoswap_d<Mac: Machine>(machine: &mut Mac, inst: Instruction) -> (r: Result<(), Error>)
    requires
        field_rs1(inst) < 32,
        field_rs2(inst) < 32,
    ensures
        spec_handle_amoswap_d(*old(machine), *final(machine), inst, r),
{
    let i = Rtype(inst);
    let rs1_value: Mac::REG = machine.registers()[i.rs1()];
    let rs2_value: Mac::REG = machine.registers()[i.rs2()];
    let mem_value: Mac::REG = match machine.memory_mut().load64(&rs1_value) {
        Ok(v) => v,
        Err(e) => {
            return Err(e);
        },
    };
    let loaded: Mac::REG = mem_value;
    update_register(machine, i.rd(), loaded);
    let stored: Mac::REG = rs2_value;
    machine.memory_mut().store64(&rs1_value, &stored)
}

/// Atomic `add` of 64 bits: `rd` gets the old memory value, memory gets the combination with `rs2`.
pub open spec fn spec_handle_amoadd_d<M: CoreMachine>(a: M, b: M, inst: Instruction, r: Result<(), Error>) -> bool {
    let addr = reg_of(a, field_rs1(inst));
    let rs2v = reg_of(a, field_rs2(inst));
    match a.spec_memory().spec_load(addr, 8) {
        Err(e) => r == Err::<(), Error>(e) && same_machine_data(a, b),
        Ok(v) => {
            let loaded = v;
            match a.spec_memory().spec_store(addr, 8, M::REG::spec_overflowing_add(rs2v, loaded)) {
                Err(e) => r == Err::<(), Error>(e) && wrote_register(a, b, field_rd(inst), loaded),
                Ok(m) => r is Ok && wrote_register_and_memory(a, b, field_rd(inst), loaded, m),
            }
        },
    }
}

pub fn handle_amoadd_d<Mac: Machine>(machine: &mut Mac, inst: Instruction) -> (r: Result<(), Error>)
    requires
        field_rs1(inst) < 32,
        field_rs2(inst) < 32,
    ensures
        spec_handle_amoadd_d(*old(machine), *final(machine), inst, r),
{
    let i = Rtype(inst);
    let rs1_value: Mac::REG = machine.registers()[i.rs1()];
    let rs2_value: Mac::REG = machine.registers()[i.rs2()];
    let mem_value: Mac::REG = match machine.memory_mut().load64(&rs1_value) {
        Ok(v) => v,
        Err(e) => {
            return Err(e);
        },
    };
    let loaded: Mac::REG = mem_value;
    update_register(machine, i.rd(), loaded);
    let stored: Mac::REG = rs2_value.overflowing_add(&loaded);
    machine.memory_mut().store64(&rs1_value, &stored)
}

/// Atomic `xor` of 64 bits: `rd` gets the old memory value, memory gets the combination with `rs2`.
pub open spec fn spec_handle_amoxor_d<M: CoreMachine>(a: M, b: M, inst: Instruction, r: Result<(), Error>) -> bool {
    let addr = reg_of(a, field_rs1(inst));
    let rs2v = reg_of(a, field_rs2(inst));
    match a.spec_memory().spec_load(addr, 8) {
        Err(e) => r == Err::<(), Error>(e) && same_machine_data(a, b),
        Ok(v) => {
            let loaded = v;
            match a.spec_memory().spec_store(addr, 8, M::REG::spec_bitxor(rs2v, loaded)) {
                Err(e) => r == Err::<(), Error>(e) && wrote_register(a, b, field_rd(inst), loaded),
                Ok(m) => r is Ok && wrote_register_and_memory(a, b, field_rd(inst), loaded, m),
            }
        },
    }
}

pub fn handle_amoxor_d<Mac: Machine>(machine: &mut Mac, inst: Instruction) -> (r: Result<(), Error>)
    requires
        field_rs1(inst) < 32,
        field_rs2(inst) < 32,
    ensures
        spec_handle_amoxor_d(*old(machine), *final(machine), inst, r),
{
    let i = Rtype(inst);
    let rs1_value: Mac::REG = machine.registers()[i.rs1()];
    let rs2_value: Mac::REG = machine.registers()[i.rs2()];
    let mem_value: Mac::REG = match machine.memory_mut().load64(&rs1_value) {
        Ok(v) => v,
        Err(e) => {
            return Err(e);
        },
    };
    let loaded: Mac::REG = mem_value;
    update_register(machine, i.rd(), loaded);
    let stored: Mac::REG = rs2_value.bitxor(&loaded);
    machine.memory_mut().store64(&rs1_value, &stored)
}

/// Atomic `and` of 64 bits: `rd` gets the old memory value, memory gets the combination with `rs2`.
pub open spec fn spec_handle_amoand_d<M: CoreMachine>(a: M, b: M, inst: Instruction, r: Result<(), Error>) -> bool {
    let addr = reg_of(a, field_rs1(inst));
    let rs2v = reg_of(a, field_rs2(inst));
    match a.spec_memory().spec_load(addr, 8) {
        Err(e) => r == Err::<(), Error>(e) && same_machine_data(a, b),
        Ok(v) => {
            let loaded = v;
            match a.spec_memory().spec_store(addr, 8, M::REG::spec_bitand(rs2v, loaded)) {
                Err(e) => r == Err::<(), Error>(e) && wrote_register(a, b, field_rd(inst), loaded),
                Ok(m) => r is Ok && wrote_register_and_memory(a, b, field_rd(inst), loaded, m),
            }
        },
    }
}

pub fn handle_amoand_d<Mac: Machine>(machine: &mut Mac, inst: Instruction) -> (r: Result<(), Error>)
    requires
        field_rs1(inst) < 32,
        field_rs2(inst) < 32,
    ensures
        spec_handle_amoand_d(*old(machine), *final(machine), inst, r),
{
    let i = Rtype(inst);
    let rs1_value: Mac::REG = machine.registers()[i.rs1()];
    let rs2_value: Mac::REG = machine.registers()[i.rs2()];
    let mem_value: Mac::REG = match machine.memory_mut().load64(&rs1_value) {
        Ok(v) => v,
        Err(e) => {
            return Err(e);
        },
    };
    let loaded: Mac::REG = mem_value;
    update_register(machine, i.rd(), loaded);
    let stored: Mac::REG = rs2_value.bitand(&loaded);
    machine.memory_mut().store64(&rs1_value, &stored)
}

/// Atomic `or` of 64 bits: `rd` gets the old memory value, memory gets the combination with `rs2`.
pub open spec fn spec_handle_amoor_d<M: CoreMachine>(a: M, b: M, inst: Instruction, r: Result<(), Error>) -> bool {
    let addr = reg_of(a, field_rs1(inst));
    let rs2v = reg_of(a, field_rs2(inst));
    match a.spec_memory().spec_load(addr, 8) {
        Err(e) => r == Err::<(), Error>(e) && same_machine_data(a, b),
        Ok(v) => {
            let loaded = v;
            match a.spec_memory().spec_store(addr, 8, M::REG::spec_bitor(rs2v, loaded)) {
                Err(e) => r == Err::<(), Error>(e) && wrote_register(a, b, field_rd(inst), loaded),
                Ok(m) => r is Ok && wrote_register_and_memory(a, b, field_rd(inst), loaded, m),
            }
        },
    }
}

pub fn handle_amoor_d<Mac: Machine>(machine: &mut Mac, inst: Instruction) -> (r: Result<(), Error>)
    requires
        field_rs1(inst) < 32,
        field_rs2(inst) < 32,
    ensures
        spec_handle_amoor_d(*old(machine), *final(machine), inst, r),
{
    let i = Rtype(inst);
    let rs1_value: Mac::REG = machine.registers()[i.rs1()];
    let rs2_value: Mac::REG = machine.registers()[i.rs2()];
    let mem_value: Mac::REG = match machine.memory_mut().load64(&rs1_value) {
        Ok(v) => v,
        Err(e) => {
            return Err(e);
        },
    };
    let loaded: Mac::REG = mem_value;
    update_register(machine, i.rd(), loaded);
    let stored: Mac::REG = rs2_value.bitor(&loaded);
    machine.memory_mut().store64(&rs1_value, &stored)
}

/// Atomic `min` of 64 bits: `rd` gets the old memory value, memory gets the combination with `rs2`.
pub open spec fn spec_handle_amomin_d<M: CoreMachine>(a: M, b: M, inst: Instruction, r: Result<(), Error>) -> bool {
    let addr = reg_of(a, field_rs1(inst));
    let rs2v = reg_of(a, field_rs2(inst));
    match a.spec_memory().spec_load(addr, 8) {
        Err(e) => r == Err::<(), Error>(e) && same_machine_data(a, b),
        Ok(v) => {
            let loaded = v;
            match a.spec_memory().spec_store(addr, 8, M::REG::spec_cond(M::REG::spec_lt_s(rs2v, loaded), rs2v, loaded)) {
                Err(e) => r == Err::<(), Error>(e) && wrote_register(a, b, field_rd(inst), loaded),
                Ok(m) => r is Ok && wrote_register_and_memory(a, b, field_rd(inst), loaded, m),
            }
        },
    }
}

pub fn handle_amomin_d<Mac: Machine>(machine: &mut Mac, inst: Instruction) -> (r: Result<(), Error>)
    requires
        field_rs1(inst) < 32,
        field_rs2(inst) < 32,
    ensures
        spec_handle_amomin_d(*old(machine), *final(machine), inst, r),
{
    let i = Rtype(inst);
    let rs1_value: Mac::REG = machine.registers()[i.rs1()];
    let rs2_value: Mac::REG = machine.registers()[i.rs2()];
    let mem_value: Mac::REG = match machine.memory_mut().load64(&rs1_value) {
        Ok(v) => v,
        Err(e) => {
            return Err(e);
        },
    };
    let loaded: Mac::REG = mem_value;
    update_register(machine, i.rd(), loaded);
    let stored: Mac::REG = rs2_value.lt_s(&loaded).cond(&rs2_value, &loaded);
    machine.memory_mut().store64(&rs1_value, &stored)
}

/// Atomic `max` of 64 bits: `rd` gets the old memory value, memory gets the combination with `rs2`.
pub open spec fn spec_handle_amomax_d<M: CoreMachine>(a: M, b: M, inst: Instruction, r: Result<(), Error>) -> bool {
    let addr = reg_of(a, field_rs1(inst));
    let rs2v = reg_of(a, field_rs2(inst));
    match a.spec_memory().spec_load(addr, 8) {
        Err(e) => r == Err::<(), Error>(e) && same_machine_data(a, b),
        Ok(v) => {
            let loaded = v;
            match a.spec_memory().spec_store(addr, 8, M::REG::spec_cond(M::REG::spec_logical_not(M::REG::spec_lt_s(rs2v, loaded)), rs2v, loaded)) {
                Err(e) => r == Err::<(), Error>(e) && wrote_register(a, b, field_rd(inst), loaded),
                Ok(m) => r is Ok && wrote_register_and_memory(a, b, field_rd(inst), loaded, m),
            }
        },
    }
}

pub fn handle_amomax_d<Mac: Machine>(machine: &mut Mac, inst: Instruction) -> (r: Result<(), Error>)
    requires
        field_rs1(inst) < 32,
        field_rs2(inst) < 32,
    ensures
        spec_handle_amomax_d(*old(machine), *final(machine), inst, r),
{
    let i = Rtype(inst);
    let rs1_value: Mac::REG = machine.registers()[i.rs1()];
    let rs2_value: Mac::REG = machine.registers()[i.rs2()];
    let mem_value: Mac::REG = match machine.memory_mut().load64(&rs1_value) {
        Ok(v) => v,
        Err(e) => {
            return Err(e);
        },
    };
    let loaded: Mac::REG = mem_value;
    update_register(machine, i.rd(), loaded);
    let stored: Mac::REG = rs2_value.ge_s(&loaded).cond(&rs2_value, &loaded);
    machine.memory_mut().store64(&rs1_value, &stored)
}

/// Atomic `minu` of 64 bits: `rd` gets the old memory value, memory gets the combination with `rs2`.
pub open spec fn spec_handle_amominu_d<M: CoreMachine>(a: M, b: M, inst: Instruction, r: Result<(), Error>) -> bool {
    let addr = reg_of(a, field_rs1(inst));
    let rs2v = reg_of(a, field_rs2(inst));
    match a.spec_memory().spec_load(addr, 8) {
        Err(e) => r == Err::<(), Error>(e) && same_machine_data(a, b),
        Ok(v) => {
            let loaded = v;
            match a.spec_memory().spec_store(addr, 8, M::REG::spec_cond(M::REG::spec_lt(rs2v, loaded), rs2v, loaded)) {
                Err(e) => r == Err::<(), Error>(e) && wrote_register(a, b, field_rd(inst), loaded),
                Ok(m) => r is Ok && wrote_register_and_memory(a, b, field_rd(inst), loaded, m),
            }
        },
    }
}

pub fn handle_amominu_d<Mac: Machine>(machine: &mut Mac, inst: Instruction) -> (r: Result<(), Error>)
    requires
        field_rs1(inst) < 32,
        field_rs2(inst) < 32,
    ensures
        spec_handle_amominu_d(*old(machine), *final(machine), inst, r),
{
    let i = Rtype(inst);
    let rs1_value: Mac::REG = machine.registers()[i.rs1()];
    let rs2_value: Mac::REG = machine.registers()[i.rs2()];
    let mem_value: Mac::REG = match machine.memory_mut().load64(&rs1_value) {
        Ok(v) => v,
        Err(e) => {
            return Err(e);
        },
    };
    let loaded: Mac::REG = mem_value;
    update_register(machine, i.rd(), loaded);
    let stored: Mac::REG = rs2_value.lt(&loaded).cond(&rs2_value, &loaded);
    machine.memory_mut().store64(&rs1_value, &stored)
}

/// Atomic `maxu` of 64 bits: `rd` gets the old memory value, memory gets the combination with `rs2`.
pub open spec fn spec_handle_amomaxu_d<M: CoreMachine>(a: M, b: M, inst: Instruction, r: Result<(), Error>) -> bool {
    let addr = reg_of(a, field_rs1(inst));
    let rs2v = reg_of(a, field_rs2(inst));
    match a.spec_memory().spec_load(addr, 8) {
        Err(e) => r == Err::<(), Error>(e) && same_machine_data(a, b),
        Ok(v) => {
            let loaded = v;
            match a.spec_memory().spec_store(addr, 8, M::REG::spec_cond(M::REG::spec_logical_not(M::REG::spec_lt(rs2v, loaded)), rs2v, loaded)) {
                Err(e) => r == Err::<(), Error>(e) && wrote_register(a, b, field_rd(inst), loaded),
                Ok(m) => r is Ok && wrote_register_and_memory(a, b, field_rd(inst), loaded, m),
            }
        },
    }
}

pub fn handle_amomaxu_d<Mac: Machine>(machine: &mut Mac, inst: Instruction) -> (r: Result<(), Error>)
    requires
        field_rs1(inst) < 32,
        field_rs2(inst) < 32,
    ensures
        spec_handle_amomaxu_d(*old(machine), *final(machine), inst, r),
{
    let i = Rtype(inst);
    let rs1_value: Mac::REG = machine.registers()[i.rs1()];
    let rs2_value: Mac::REG = machine.registers()[i.rs2()];
    let mem_value: Mac::REG = match machine.memory_mut().load64(&rs1_value) {
        Ok(v) => v,
        Err(e) => {
            return Err(e);
        },
    };
    let loaded: Mac::REG = mem_value;
    update_register(machine, i.rd(), loaded);
    let stored: Mac::REG = rs2_value.ge(&loaded).cond(&rs2_value, &loaded);
    machine.memory_mut().store64(&rs1_value, &stored)
}

/// `rd = rs1 | imm`.
pub open spec fn spec_handle_ori<M: CoreMachine>(a: M, b: M, inst: Instruction, r: Result<(), Error>) -> bool {
    r is Ok && wrote_register(a, b, field_rd(inst), M::REG::spec_bitor(reg_of(a, field_rs1(inst)), M::REG::spec_from_i32(field_imm40(inst))))
}

pub fn handle_ori<Mac: Machine>(machine: &mut Mac, inst: Instruction) -> (r: Result<(), Error>)
    requires
        field_rs1(inst) < 32,
    ensures
        spec_handle_ori(*old(machine), *final(machine), inst, r),
{
    let i = Itype(inst);
    crate::instructions::common::ori(machine, i.rd(), i.rs1(), i.immediate_s());
    Ok(())
}

/// `rd = rs1 & imm`.
pub open spec fn spec_handle_andi<M: CoreMachine>(a: M, b: M, inst: Instruction, r: Result<(), Error>) -> bool {
    r is Ok && wrote_register(a, b, field_rd(inst), M::REG::spec_bitand(reg_of(a, field_rs1(inst)), M::REG::spec_from_i32(field_imm40(inst))))
}

pub fn handle_andi<Mac: Machine>(machine: &mut Mac, inst: Instruction) -> (r: Result<(), Error>)
    requires
        field_rs1(inst) < 32,
    ensures
        spec_handle_andi(*old(machine), *final(machine), inst, r),
{
    let i = Itype(inst);
    crate::instructions::common::andi(machine, i.rd(), i.rs1(), i.immediate_s());
    Ok(())
}

/// `rd = rs1 < imm`, signed.
pub open spec fn spec_handle_slti<M: CoreMachine>(a: M, b: M, inst: Instruction, r: Result<(), Error>) -> bool {
    r is Ok && wrote_register(a, b, field_rd(inst), M::REG::spec_lt_s(reg_of(a, field_rs1(inst)), M::REG::spec_from_i32(field_imm40(inst))))
}

pub fn handle_slti<Mac: Machine>(machine: &mut Mac, inst: Instruction) -> (r: Result<(), Error>)
    requires
        field_rs1(inst) < 32,
    ensures
        spec_handle_slti(*old(machine), *final(machine), inst, r),
{
    let i = Itype(inst);
    let value: Mac::REG = machine.registers()[i.rs1()].lt_s(&Mac::REG::from_i32(i.immediate_s()));
    update_register(machine, i.rd(), value);
    Ok(())
}

/// `rd = rs1 < imm`, unsigned.
pub open spec fn spec_handle_sltiu<M: CoreMachine>(a: M, b: M, inst: Instruction, r: Result<(), Error>) -> bool {
    r is Ok && wrote_register(a, b, field_rd(inst), M::REG::spec_lt(reg_of(a, field_rs1(inst)), M::REG::spec_from_i32(field_imm40(inst))))
}

pub fn handle_sltiu<Mac: Machine>(machine: &mut Mac, inst: Instruction) -> (r: Result<(), Error>)
    requires
        field_rs1(inst) < 32,
    ensures
        spec_handle_sltiu(*old(machine), *final(machine), inst, r),
{
    let i = Itype(inst);
    let value: Mac::REG = machine.registers()[i.rs1()].lt(&Mac::REG::from_i32(i.immediate_s()));
    update_register(machine, i.rd(), value);
    Ok(())
}

/// Jumps to `(rs1 + imm) & !1`, linking `pc + length` in `rd`; `rs1` is read after the link is written.
pub open spec fn spec_handle_jalr_version0<M: CoreMachine>(a: M, b: M, inst: Instruction, r: Result<(), Error>) -> bool {
    let link = M::REG::spec_overflowing_add(a.spec_pc(), M::REG::spec_from_u8(spec_instruction_length(inst)));
    let regs = spec_write_register(a.spec_registers(), field_rd(inst) as int, link);
    r is Ok && linked_jump(a, b, field_rd(inst), link, M::REG::spec_bitand(M::REG::spec_overflowing_add(regs[field_rs1(inst) as int], M::REG::spec_from_i32(field_imm40(inst))), M::REG::spec_not(M::REG::spec_one())))
}

pub fn handle_jalr_version0<Mac: Machine>(machine: &mut Mac, inst: Instruction) -> (r: Result<(), Error>)
    requires
        field_rs1(inst) < 32,
    ensures
        spec_handle_jalr_version0(*old(machine), *final(machine), inst, r),
{
    let i = Itype(inst);
    let size: u8 = instruction_length(inst);
    let link: Mac::REG = machine.pc().overflowing_add(&Mac::REG::from_u8(size));
    update_register(machine, i.rd(), link);
    let next_pc: Mac::REG = machine.registers()[i.rs1()].overflowing_add(&Mac::REG::from_i32(i.immediate_s())).bitand(&Mac::REG::one().not());
    machine.update_pc(next_pc);
    Ok(())
}

/// Jumps to `(rs1 + imm) & !1`, linking `pc + length` in `rd`; `rs1` is read before the link is written.
pub open spec fn spec_handle_jalr_version1<M: CoreMachine>(a: M, b: M, inst: Instruction, r: Result<(), Error>) -> bool {
    r is Ok && linked_jump(a, b, field_rd(inst), M::REG::spec_overflowing_add(a.spec_pc(), M::REG::spec_from_u8(spec_instruction_length(inst))), M::REG::spec_bitand(M::REG::spec_overflowing_add(reg_of(a, field_rs1(inst)), M::REG::spec_from_i32(field_imm40(inst))), M::REG::spec_not(M::REG::spec_one())))
}

pub fn handle_jalr_version1<Mac: Machine>(machine: &mut Mac, inst: Instruction) -> (r: Result<(), Error>)
    requires
        field_rs1(inst) < 32,
    ensures
        spec_handle_jalr_version1(*old(machine), *final(machine), inst, r),
{
    let i = Itype(inst);
    let size: u8 = instruction_length(inst);
    let link: Mac::REG = machine.pc().overflowing_add(&Mac::REG::from_u8(size));
    let next_pc: Mac::REG = machine.registers()[i.rs1()].overflowing_add(&Mac::REG::from_i32(i.immediate_s())).bitand(&Mac::REG::one().not());
    update_register(machine, i.rd(), link);
    machine.update_pc(next_pc);
    Ok(())
}

/// `rd = rs1 << shamt`.
pub open spec fn spec_handle_slli<M: CoreMachine>(a: M, b: M, inst: Instruction, r: Result<(), Error>) -> bool {
    r is Ok && wrote_register(a, b, field_rd(inst), M::REG::spec_shl(reg_of(a, field_rs1(inst)), M::REG::spec_from_u32((field_imm40(inst) as u32))))
}

pub fn handle_slli<Mac: Machine>(machine: &mut Mac, inst: Instruction) -> (r: Result<(), Error>)
    requires
        field_rs1(inst) < 32,
    ensures
        spec_handle_slli(*old(machine), *final(machine), inst, r),
{
    let i = Itype(inst);
    crate::instructions::common::slli(machine, i.rd(), i.rs1(), i.immediate_u());
    Ok(())
}

/// `rd = rs1 >> shamt`, logical.
pub open spec fn spec_handle_srli<M: CoreMachine>(a: M, b: M, inst: Instruction, r: Result<(), Error>) -> bool {
    r is Ok && wrote_register(a, b, field_rd(inst), M::REG::spec_shr(reg_of(a, field_rs1(inst)), M::REG::spec_from_u32((field_imm40(inst) as u32))))
}

pub fn handle_srli<Mac: Machine>(machine: &mut Mac, inst: Instruction) -> (r: Result<(), Error>)
    requires
        field_rs1(inst) < 32,
    ensures
        spec_handle_srli(*old(machine), *final(machine), inst, r),
{
    let i = Itype(inst);
    crate::instructions::common::srli(machine, i.rd(), i.rs1(), i.immediate_u());
    Ok(())
}

/// `rd = rs1 >> shamt`, arithmetic.
pub open spec fn spec_handle_srai<M: CoreMachine>(a: M, b: M, inst: Instruction, r: Result<(), Error>) -> bool {
    r is Ok && wrote_register(a, b, field_rd(inst), M::REG::spec_signed_shr(reg_of(a, field_rs1(inst)), M::REG::spec_from_u32((field_imm40(inst) as u32))))
}

pub fn handle_srai<Mac: Machine>(machine: &mut Mac, inst: Instruction) -> (r: Result<(), Error>)
    requires
        field_rs1(inst) < 32,
    ensures
        spec_handle_srai(*old(machine), *final(machine), inst, r),
{
    let i = Itype(inst);
    crate::instructions::common::srai(machine, i.rd(), i.rs1(), i.immediate_u());
    Ok(())
}

/// `rd = rs1 << shamt` on 32 bits.
pub open spec fn spec_handle_slliw<M: CoreMachine>(a: M, b: M, inst: Instruction, r: Result<(), Error>) -> bool {
    r is Ok && wrote_register(a, b, field_rd(inst), M::REG::spec_sign_extend(M::REG::spec_shl(reg_of(a, field_rs1(inst)), M::REG::spec_from_u32((field_imm40(inst) as u32))), M::REG::spec_from_u8(32)))
}

pub fn handle_slliw<Mac: Machine>(machine: &mut Mac, inst: Instruction) -> (r: Result<(), Error>)
    requires
        field_rs1(inst) < 32,
    ensures
        spec_handle_slliw(*old(machine), *final(machine), inst, r),
{
    let i = Itype(inst);
    crate::instructions::common::slliw(machine, i.rd(), i.rs1(), i.immediate_u());
    Ok(())
}

/// `rd = rs1 >> shamt`, logical, on 32 bits.
pub open spec fn spec_handle_srliw<M: CoreMachine>(a: M, b: M, inst: Instruction, r: Result<(), Error>) -> bool {
    r is Ok && wrote_register(a, b, field_rd(inst), M::REG::spec_sign_extend(M::REG::spec_shr(M::REG::spec_zero_extend(reg_of(a, field_rs1(inst)), M::REG::spec_from_u8(32)), M::REG::spec_from_u32((field_imm40(inst) as u32))), M::REG::spec_from_u8(32)))
}

pub fn handle_srliw<Mac: Machine>(machine: &mut Mac, inst: Instruction) -> (r: Result<(), Error>)
    requires
        field_rs1(inst) < 32,
    ensures
        spec_handle_srliw(*old(machine), *final(machine), inst, r),
{
    let i = Itype(inst);
    crate::instructions::common::srliw(machine, i.rd(), i.rs1(), i.immediate_u());
    Ok(())
}

/// `rd = rs1 >> shamt`, arithmetic, on 32 bits.
pub open spec fn spec_handle_sraiw<M: CoreMachine>(a: M, b: M, inst: Instruction, r: Result<(), Error>) -> bool {
    r is Ok && wrote_register(a, b, field_rd(inst), M::REG::spec_sign_extend(M::REG::spec_signed_shr(M::REG::spec_sign_extend(reg_of(a, field_rs1(inst)), M::REG::spec_from_u8(32)), M::REG::spec_from_u32((field_imm40(inst) as u32))), M::REG::spec_from_u8(32)))
}

pub fn handle_sraiw<Mac: Machine>(machine: &mut Mac, inst: Instruction) -> (r: Result<(), Error>)
    requires
        field_rs1(inst) < 32,
    ensures
        spec_handle_sraiw(*old(machine), *final(machine), inst, r),
{
    let i = Itype(inst);
    crate::instructions::common::sraiw(machine, i.rd(), i.rs1(), i.immediate_u());
    Ok(())
}

/// Stores the low 1 byte of `rs2` at `rs1 + imm`.
pub open spec fn spec_handle_sb<M: CoreMachine>(a: M, b: M, inst: Instruction, r: Result<(), Error>) -> bool {
    spec_store_effect(a, b, r, field_rs1(inst), field_s_rs2(inst), field_imm40(inst), 1)
}

pub fn handle_sb<Mac: Machine>(machine: &mut Mac, inst: Instruction) -> (r: Result<(), Error>)
    requires
        field_rs1(inst) < 32,
        field_s_rs2(inst) < 32,
    ensures
        spec_handle_sb(*old(machine), *final(machine), inst, r),
{
    let i = Stype(inst);
    crate::instructions::common::sb(machine, i.rs1(), i.rs2(), i.immediate_s())
}

/// Stores the low 2 bytes of `rs2` at `rs1 + imm`.
pub open spec fn spec_handle_sh<M: CoreMachine>(a: M, b: M, inst: Instruction, r: Result<(), Error>) -> bool {
    spec_store_effect(a, b, r, field_rs1(inst), field_s_rs2(inst), field_imm40(inst), 2)
}

pub fn handle_sh<Mac: Machine>(machine: &mut Mac, inst: Instruction) -> (r: Result<(), Error>)
    requires
        field_rs1(inst) < 32,
        field_s_rs2(inst) < 32,
    ensures
        spec_handle_sh(*old(machine), *final(machine), inst, r),
{
    let i = Stype(inst);
    crate::instructions::common::sh(machine, i.rs1(), i.rs2(), i.immediate_s())
}

/// Stores the low 4 bytes of `rs2` at `rs1 + imm`.
pub open spec fn spec_handle_sw<M: CoreMachine>(a: M, b: M, inst: Instruction, r: Result<(), Error>) -> bool {
    spec_store_effect(a, b, r, field_rs1(inst), field_s_rs2(inst), field_imm40(inst), 4)
}

pub fn handle_sw<Mac: Machine>(machine: &mut Mac, inst: Instruction) -> (r: Result<(), Error>)
    requires
        field_rs1(inst) < 32,
        field_s_rs2(inst) < 32,
    ensures
        spec_handle_sw(*old(machine), *final(machine), inst, r),
{
    let i = Stype(inst);
    crate::instructions::common::sw(machine, i.rs1(), i.rs2(), i.immediate_s())
}

/// Stores the low 8 bytes of `rs2` at `rs1 + imm`.
pub open spec fn spec_handle_sd<M: CoreMachine>(a: M, b: M, inst: Instruction, r: Result<(), Error>) -> bool {
    spec_store_effect(a, b, r, field_rs1(inst), field_s_rs2(inst), field_imm40(inst), 8)
}

pub fn handle_sd<Mac: Machine>(machine: &mut Mac, inst: Instruction) -> (r: Result<(), Error>)
    requires
        field_rs1(inst) < 32,
        field_s_rs2(inst) < 32,
    ensures
        spec_handle_sd(*old(machine), *final(machine), inst, r),
{
    let i = Stype(inst);
    crate::instructions::common::sd(machine, i.rs1(), i.rs2(), i.immediate_s())
}

/// Branches to `pc + imm` where `rs1 == rs2`.
pub open spec fn spec_handle_beq<M: CoreMachine>(a: M, b: M, inst: Instruction, r: Result<(), Error>) -> bool {
    r is Ok && jumped(
        a,
        b,
        M::REG::spec_cond(
            M::REG::spec_eq(reg_of(a, field_rs1(inst)), reg_of(a, field_s_rs2(inst))),
            M::REG::spec_overflowing_add(M::REG::spec_from_i32(field_imm40(inst)), a.spec_pc()),
            M::REG::spec_overflowing_add(M::REG::spec_from_u8(spec_instruction_length(inst)), a.spec_pc()),
        ),
    )
}

pub fn handle_beq<Mac: Machine>(machine: &mut Mac, inst: Instruction) -> (r: Result<(), Error>)
    requires
        field_rs1(inst) < 32,
        field_s_rs2(inst) < 32,
    ensures
        spec_handle_beq(*old(machine), *final(machine), inst, r),
{
    let i = Stype(inst);
    let pc: Mac::REG = *machine.pc();
    let rs1_value: Mac::REG = machine.registers()[i.rs1()];
    let rs2_value: Mac::REG = machine.registers()[i.rs2()];
    let condition: Mac::REG = rs1_value.eq(&rs2_value);
    let new_pc: Mac::REG = condition.cond(
        &Mac::REG::from_i32(i.immediate_s()).overflowing_add(&pc),
        &Mac::REG::from_u8(instruction_length(inst)).overflowing_add(&pc),
    );
    machine.update_pc(new_pc);
    Ok(())
}

/// Branches to `pc + imm` where `rs1 != rs2`.
pub open spec fn spec_handle_bne<M: CoreMachine>(a: M, b: M, inst: Instruction, r: Result<(), Error>) -> bool {
    r is Ok && jumped(
        a,
        b,
        M::REG::spec_cond(
            M::REG::spec_logical_not(M::REG::spec_eq(reg_of(a, field_rs1(inst)), reg_of(a, field_s_rs2(inst)))),
            M::REG::spec_overflowing_add(M::REG::spec_from_i32(field_imm40(inst)), a.spec_pc()),
            M::REG::spec_overflowing_add(M::REG::spec_from_u8(spec_instruction_length(inst)), a.spec_pc()),
        ),
    )
}

pub fn handle_bne<Mac: Machine>(machine: &mut Mac, inst: Instruction) -> (r: Result<(), Error>)
    requires
        field_rs1(inst) < 32,
        field_s_rs2(inst) < 32,
    ensures
        spec_handle_bne(*old(machine), *final(machine), inst, r),
{
    let i = Stype(inst);
    let pc: Mac::REG = *machine.pc();
    let rs1_value: Mac::REG = machine.registers()[i.rs1()];
    let rs2_value: Mac::REG = machine.registers()[i.rs2()];
    let condition: Mac::REG = rs1_value.ne(&rs2_value);
    let new_pc: Mac::REG = condition.cond(
        &Mac::REG::from_i32(i.immediate_s()).overflowing_add(&pc),
        &Mac::REG::from_u8(instruction_length(inst)).overflowing_add(&pc),
    );
    machine.update_pc(new_pc);
    Ok(())
}

/// Branches to `pc + imm` where `rs1 < rs2`, signed.
pub open spec fn spec_handle_blt<M: CoreMachine>(a: M, b: M, inst: Instruction, r: Result<(), Error>) -> bool {
    r is Ok && jumped(
        a,
        b,
        M::REG::spec_cond(
            M::REG::spec_lt_s(reg_of(a, field_rs1(inst)), reg_of(a, field_s_rs2(inst))),
            M::REG::spec_overflowing_add(M::REG::spec_from_i32(field_imm40(inst)), a.spec_pc()),
            M::REG::spec_overflowing_add(M::REG::spec_from_u8(spec_instruction_length(inst)), a.spec_pc()),
        ),
    )
}

pub fn handle_blt<Mac: Machine>(machine: &mut Mac, inst: Instruction) -> (r: Result<(), Error>)
    requires
        field_rs1(inst) < 32,
        field_s_rs2(inst) < 32,
    ensures
        spec_handle_blt(*old(machine), *final(machine), inst, r),
{
    let i = Stype(inst);
    let pc: Mac::REG = *machine.pc();
    let rs1_value: Mac::REG = machine.registers()[i.rs1()];
    let rs2_value: Mac::REG = machine.registers()[i.rs2()];
    let condition: Mac::REG = rs1_value.lt_s(&rs2_value);
    let new_pc: Mac::REG = condition.cond(
        &Mac::REG::from_i32(i.immediate_s()).overflowing_add(&pc),
        &Mac::REG::from_u8(instruction_length(inst)).overflowing_add(&pc),
    );
    machine.update_pc(new_pc);
    Ok(())
}

/// Branches to `pc + imm` where `rs1 >= rs2`, signed.
pub open spec fn spec_handle_bge<M: CoreMachine>(a: M, b: M, inst: Instruction, r: Result<(), Error>) -> bool {
    r is Ok && jumped(
        a,
        b,
        M::REG::spec_cond(
            M::REG::spec_logical_not(M::REG::spec_lt_s(reg_of(a, field_rs1(inst)), reg_of(a, field_s_rs2(inst)))),
            M::REG::spec_overflowing_add(M::REG::spec_from_i32(field_imm40(inst)), a.spec_pc()),
            M::REG::spec_overflowing_add(M::REG::spec_from_u8(spec_instruction_length(inst)), a.spec_pc()),
        ),
    )
}

pub fn handle_bge<Mac: Machine>(machine: &mut Mac, inst: Instruction) -> (r: Result<(), Error>)
    requires
        field_rs1(inst) < 32,
        field_s_rs2(inst) < 32,
    ensures
        spec_handle_bge(*old(machine), *final(machine), inst, r),
{
    let i = Stype(inst);
    let pc: Mac::REG = *machine.pc();
    let rs1_value: Mac::REG = machine.registers()[i.rs1()];
    let rs2_value: Mac::REG = machine.registers()[i.rs2()];
    let condition: Mac::REG = rs1_value.ge_s(&rs2_value);
    let new_pc: Mac::REG = condition.cond(
        &Mac::REG::from_i32(i.immediate_s()).overflowing_add(&pc),
        &Mac::REG::from_u8(instruction_length(inst)).overflowing_add(&pc),
    );
    machine.update_pc(new_pc);
    Ok(())
}

/// Branches to `pc + imm` where `rs1 < rs2`, unsigned.
pub open spec fn spec_handle_bltu<M: CoreMachine>(a: M, b: M, inst: Instruction, r: Result<(), Error>) -> bool {
    r is Ok && jumped(
        a,
        b,
        M::REG::spec_cond(
            M::REG::spec_lt(reg_of(a, field_rs1(inst)), reg_of(a, field_s_rs2(inst))),
            M::REG::spec_overflowing_add(M::REG::spec_from_i32(field_imm40(inst)), a.spec_pc()),
            M::REG::spec_overflowing_add(M::REG::spec_from_u8(spec_instruction_length(inst)), a.spec_pc()),
        ),
    )
}

pub fn handle_bltu<Mac: Machine>(machine: &mut Mac, inst: Instruction) -> (r: Result<(), Error>)
    requires
        field_rs1(inst) < 32,
        field_s_rs2(inst) < 32,
    ensures
        spec_handle_bltu(*old(machine), *final(machine), inst, r),
{
    let i = Stype(inst);
    let pc: Mac::REG = *machine.pc();
    let rs1_value: Mac::REG = machine.registers()[i.rs1()];
    let rs2_value: Mac::REG = machine.registers()[i.rs2()];
    let condition: Mac::REG = rs1_value.lt(&rs2_value);
    let new_pc: Mac::REG = condition.cond(
        &Mac::REG::from_i32(i.immediate_s()).overflowing_add(&pc),
        &Mac::REG::from_u8(instruction_length(inst)).overflowing_add(&pc),
    );
    machine.update_pc(new_pc);
    Ok(())
}

/// Branches to `pc + imm` where `rs1 >= rs2`, unsigned.
pub open spec fn spec_handle_bgeu<M: CoreMachine>(a: M, b: M, inst: Instruction, r: Result<(), Error>) -> bool {
    r is Ok && jumped(
        a,
        b,
        M::REG::spec_cond(
            M::REG::spec_logical_not(M::REG::spec_lt(reg_of(a, field_rs1(inst)), reg_of(a, field_s_rs2(inst)))),
            M::REG::spec_overflowing_add(M::REG::spec_from_i32(field_imm40(inst)), a.spec_pc()),
            M::REG::spec_overflowing_add(M::REG::spec_from_u8(spec_instruction_length(inst)), a.spec_pc()),
        ),
    )
}

pub fn handle_bgeu<Mac: Machine>(machine: &mut Mac, inst: Instruction) -> (r: Result<(), Error>)
    requires
        field_rs1(inst) < 32,
        field_s_rs2(inst) < 32,
    ensures
        spec_handle_bgeu(*old(machine), *final(machine), inst, r),
{
    let i = Stype(inst);
    let pc: Mac::REG = *machine.pc();
    let rs1_value: Mac::REG = machine.registers()[i.rs1()];
    let rs2_value: Mac::REG = machine.registers()[i.rs2()];
    let condition: Mac::REG = rs1_value.ge(&rs2_value);
    let new_pc: Mac::REG = condition.cond(
        &Mac::REG::from_i32(i.immediate_s()).overflowing_add(&pc),
        &Mac::REG::from_u8(instruction_length(inst)).overflowing_add(&pc),
    );
    machine.update_pc(new_pc);
    Ok(())
}

/// `rd = imm`, the upper immediate.
pub open spec fn spec_handle_lui<M: CoreMachine>(a: M, b: M, inst: Instruction, r: Result<(), Error>) -> bool {
    r is Ok && wrote_register(a, b, field_rd(inst), M::REG::spec_from_i32(field_imm32(inst)))
}

pub fn handle_lui<Mac: Machine>(machine: &mut Mac, inst: Instruction) -> (r: Result<(), Error>)
    ensures
        spec_handle_lui(*old(machine), *final(machine), inst, r),
{
    let i = Utype(inst);
    let value: Mac::REG = Mac::REG::from_i32(i.immediate_s());
    update_register(machine, i.rd(), value);
    Ok(())
}

/// `rd = pc + imm`, the upper immediate.
pub open spec fn spec_handle_auipc<M: CoreMachine>(a: M, b: M, inst: Instruction, r: Result<(), Error>) -> bool {
    r is Ok && wrote_register(a, b, field_rd(inst), M::REG::spec_overflowing_add(a.spec_pc(), M::REG::spec_from_i32(field_imm32(inst))))
}

pub fn handle_auipc<Mac: Machine>(machine: &mut Mac, inst: Instruction) -> (r: Result<(), Error>)
    ensures
        spec_handle_auipc(*old(machine), *final(machine), inst, r),
{
    let i = Utype(inst);
    let value: Mac::REG = (*machine.pc()).overflowing_add(&Mac::REG::from_i32(i.immediate_s()));
    update_register(machine, i.rd(), value);
    Ok(())
}

/// Hands the system call to the machine: what it does is the machine's own
/// outcome of a system call.
pub open spec fn spec_handle_ecall<M: CoreMachine>(a: M, b: M, inst: Instruction, r: Result<(), Error>) -> bool {
    a.spec_ecall_outcome(r, &b)
}

pub fn handle_ecall<Mac: Machine>(machine: &mut Mac, inst: Instruction) -> (r: Result<(), Error>)
    ensures
        spec_handle_ecall(*old(machine), *final(machine), inst, r),
{
    machine.ecall()
}

/// Hands the breakpoint to the machine: what it does is the machine's own
/// outcome of a breakpoint.
pub open spec fn spec_handle_ebreak<M: CoreMachine>(a: M, b: M, inst: Instruction, r: Result<(), Error>) -> bool {
    a.spec_ebreak_outcome(r, &b)
}

pub fn handle_ebreak<Mac: Machine>(machine: &mut Mac, inst: Instruction) -> (r: Result<(), Error>)
    ensures
        spec_handle_ebreak(*old(machine), *final(machine), inst, r),
{
    machine.ebreak()
}

/// Nothing to order on a single hart.
pub open spec fn spec_handle_fencei<M: CoreMachine>(a: M, b: M, inst: Instruction, r: Result<(), Error>) -> bool {
    r is Ok && same_machine_data(a, b)
}

pub fn handle_fencei<Mac: Machine>(machine: &mut Mac, inst: Instruction) -> (r: Result<(), Error>)
    ensures
        spec_handle_fencei(*old(machine), *final(machine), inst, r),
{
    Ok(())
}

/// Nothing to order on a single hart.
pub open spec fn spec_handle_fence<M: CoreMachine>(a: M, b: M, inst: Instruction, r: Result<(), Error>) -> bool {
    r is Ok && same_machine_data(a, b)
}

pub fn handle_fence<Mac: Machine>(machine: &mut Mac, inst: Instruction) -> (r: Result<(), Error>)
    ensures
        spec_handle_fence(*old(machine), *final(machine), inst, r),
{
    Ok(())
}

/// Jumps to `pc + imm`, linking `pc + length` in `rd`.
pub open spec fn spec_handle_jal<M: CoreMachine>(a: M, b: M, inst: Instruction, r: Result<(), Error>) -> bool {
    r is Ok && linked_jump(a, b, field_rd(inst), M::REG::spec_overflowing_add(a.spec_pc(), M::REG::spec_from_u8(spec_instruction_length(inst))), M::REG::spec_overflowing_add(a.spec_pc(), M::REG::spec_from_i32(field_imm32(inst))))
}

pub fn handle_jal<Mac: Machine>(machine: &mut Mac, inst: Instruction) -> (r: Result<(), Error>)
    ensures
        spec_handle_jal(*old(machine), *final(machine), inst, r),
{
    let i = Utype(inst);
    crate::instructions::common::jal(machine, i.rd(), i.immediate_s(), instruction_length(inst));
    Ok(())
}

/// `rd = rs1 * rs2`, the low half.
pub open spec fn spec_handle_mul<M: CoreMachine>(a: M, b: M, inst: Instruction, r: Result<(), Error>) -> bool {
    r is Ok && wrote_register(a, b, field_rd(inst), M::REG::spec_overflowing_mul(reg_of(a, field_rs1(inst)), reg_of(a, field_rs2(inst))))
}

pub fn handle_mul<Mac: Machine>(machine: &mut Mac, inst: Instruction) -> (r: Result<(), Error>)
    requires
        field_rs1(inst) < 32,
        field_rs2(inst) < 32,
    ensures
        spec_handle_mul(*old(machine), *final(machine), inst, r),
{
    let i = Rtype(inst);
    let value: Mac::REG = machine.registers()[i.rs1()].overflowing_mul(&machine.registers()[i.rs2()]);
    update_register(machine, i.rd(), value);
    Ok(())
}

/// `rd = rs1 * rs2` on 32 bits.
pub open spec fn spec_handle_mulw<M: CoreMachine>(a: M, b: M, inst: Instruction, r: Result<(), Error>) -> bool {
    r is Ok && wrote_register(a, b, field_rd(inst), M::REG::spec_sign_extend(M::REG::spec_overflowing_mul(M::REG::spec_zero_extend(reg_of(a, field_rs1(inst)), M::REG::spec_from_u8(32)), M::REG::spec_zero_extend(reg_of(a, field_rs2(inst)), M::REG::spec_from_u8(32))), M::REG::spec_from_u8(32)))
}

pub fn handle_mulw<Mac: Machine>(machine: &mut Mac, inst: Instruction) -> (r: Result<(), Error>)
    requires
        field_rs1(inst) < 32,
        field_rs2(inst) < 32,
    ensures
        spec_handle_mulw(*old(machine), *final(machine), inst, r),
{
    let i = Rtype(inst);
    let value: Mac::REG = machine.registers()[i.rs1()].zero_extend(&Mac::REG::from_u8(32)).overflowing_mul(&machine.registers()[i.rs2()].zero_extend(&Mac::REG::from_u8(32))).sign_extend(&Mac::REG::from_u8(32));
    update_register(machine, i.rd(), value);
    Ok(())
}

/// The high half of the signed product.
pub open spec fn spec_handle_mulh<M: CoreMachine>(a: M, b: M, inst: Instruction, r: Result<(), Error>) -> bool {
    r is Ok && wrote_register(a, b, field_rd(inst), M::REG::spec_overflowing_mul_high_signed(reg_of(a, field_rs1(inst)), reg_of(a, field_rs2(inst))))
}

pub fn handle_mulh<Mac: Machine>(machine: &mut Mac, inst: Instruction) -> (r: Result<(), Error>)
    requires
        field_rs1(inst) < 32,
        field_rs2(inst) < 32,
    ensures
        spec_handle_mulh(*old(machine), *final(machine), inst, r),
{
    let i = Rtype(inst);
    let value: Mac::REG = machine.registers()[i.rs1()].overflowing_mul_high_signed(&machine.registers()[i.rs2()]);
    update_register(machine, i.rd(), value);
    Ok(())
}

/// The high half of the product of signed `rs1` and unsigned `rs2`.
pub open spec fn spec_handle_mulhsu<M: CoreMachine>(a: M, b: M, inst: Instruction, r: Result<(), Error>) -> bool {
    r is Ok && wrote_register(a, b, field_rd(inst), M::REG::spec_overflowing_mul_high_signed_unsigned(reg_of(a, field_rs1(inst)), reg_of(a, field_rs2(inst))))
}

pub fn handle_mulhsu<Mac: Machine>(machine: &mut Mac, inst: Instruction) -> (r: Result<(), Error>)
    requires
        field_rs1(inst) < 32,
        field_rs2(inst) < 32,
    ensures
        spec_handle_mulhsu(*old(machine), *final(machine), inst, r),
{
    let i = Rtype(inst);
    let value: Mac::REG = machine.registers()[i.rs1()].overflowing_mul_high_signed_unsigned(&machine.registers()[i.rs2()]);
    update_register(machine, i.rd(), value);
    Ok(())
}

/// The high half of the unsigned product.
pub open spec fn spec_handle_mulhu<M: CoreMachine>(a: M, b: M, inst: Instruction, r: Result<(), Error>) -> bool {
    r is Ok && wrote_register(a, b, field_rd(inst), M::REG::spec_overflowing_mul_high_unsigned(reg_of(a, field_rs1(inst)), reg_of(a, field_rs2(inst))))
}

pub fn handle_mulhu<Mac: Machine>(machine: &mut Mac, inst: Instruction) -> (r: Result<(), Error>)
    requires
        field_rs1(inst) < 32,
        field_rs2(inst) < 32,
    ensures
        spec_handle_mulhu(*old(machine), *final(machine), inst, r),
{
    let i = Rtype(inst);
    let value: Mac::REG = machine.registers()[i.rs1()].overflowing_mul_high_unsigned(&machine.registers()[i.rs2()]);
    update_register(machine, i.rd(), value);
    Ok(())
}

/// Signed division, with the RISC-V results for a zero divisor and overflow.
pub open spec fn spec_handle_div<M: CoreMachine>(a: M, b: M, inst: Instruction, r: Result<(), Error>) -> bool {
    r is Ok && wrote_register(a, b, field_rd(inst), M::REG::spec_overflowing_div_signed(reg_of(a, field_rs1(inst)), reg_of(a, field_rs2(inst))))
}

pub fn handle_div<Mac: Machine>(machine: &mut Mac, inst: Instruction) -> (r: Result<(), Error>)
    requires
        field_rs1(inst) < 32,
        field_rs2(inst) < 32,
    ensures
        spec_handle_div(*old(machine), *final(machine), inst, r),
{
    let i = Rtype(inst);
    let value: Mac::REG = machine.registers()[i.rs1()].overflowing_div_signed(&machine.registers()[i.rs2()]);
    update_register(machine, i.rd(), value);
    Ok(())
}

/// Signed division on 32 bits.
pub open spec fn spec_handle_divw<M: CoreMachine>(a: M, b: M, inst: Instruction, r: Result<(), Error>) -> bool {
    r is Ok && wrote_register(a, b, field_rd(inst), M::REG::spec_sign_extend(M::REG::spec_overflowing_div_signed(M::REG::spec_sign_extend(reg_of(a, field_rs1(inst)), M::REG::spec_from_u8(32)), M::REG::spec_sign_extend(reg_of(a, field_rs2(inst)), M::REG::spec_from_u8(32))), M::REG::spec_from_u8(32)))
}

pub fn handle_divw<Mac: Machine>(machine: &mut Mac, inst: Instruction) -> (r: Result<(), Error>)
    requires
        field_rs1(inst) < 32,
        field_rs2(inst) < 32,
    ensures
        spec_handle_divw(*old(machine), *final(machine), inst, r),
{
    let i = Rtype(inst);
    let value: Mac::REG = machine.registers()[i.rs1()].sign_extend(&Mac::REG::from_u8(32)).overflowing_div_signed(&machine.registers()[i.rs2()].sign_extend(&Mac::REG::from_u8(32))).sign_extend(&Mac::REG::from_u8(32));
    update_register(machine, i.rd(), value);
    Ok(())
}

/// Unsigned division.
pub open spec fn spec_handle_divu<M: CoreMachine>(a: M, b: M, inst: Instruction, r: Result<(), Error>) -> bool {
    r is Ok && wrote_register(a, b, field_rd(inst), M::REG::spec_overflowing_div(reg_of(a, field_rs1(inst)), reg_of(a, field_rs2(inst))))
}

pub fn handle_divu<Mac: Machine>(machine: &mut Mac, inst: Instruction) -> (r: Result<(), Error>)
    requires
        field_rs1(inst) < 32,
        field_rs2(inst) < 32,
    ensures
        spec_handle_divu(*old(machine), *final(machine), inst, r),
{
    let i = Rtype(inst);
    let value: Mac::REG = machine.registers()[i.rs1()].overflowing_div(&machine.registers()[i.rs2()]);
    update_register(machine, i.rd(), value);
    Ok(())
}

/// Unsigned division on 32 bits.
pub open spec fn spec_handle_divuw<M: CoreMachine>(a: M, b: M, inst: Instruction, r: Result<(), Error>) -> bool {
    r is Ok && wrote_register(a, b, field_rd(inst), M::REG::spec_sign_extend(M::REG::spec_overflowing_div(M::REG::spec_zero_extend(reg_of(a, field_rs1(inst)), M::REG::spec_from_u8(32)), M::REG::spec_zero_extend(reg_of(a, field_rs2(inst)), M::REG::spec_from_u8(32))), M::REG::spec_from_u8(32)))
}

pub fn handle_divuw<Mac: Machine>(machine: &mut Mac, inst: Instruction) -> (r: Result<(), Error>)
    requires
        field_rs1(inst) < 32,
        field_rs2(inst) < 32,
    ensures
        spec_handle_divuw(*old(machine), *final(machine), inst, r),
{
    let i = Rtype(inst);
    let value: Mac::REG = machine.registers()[i.rs1()].zero_extend(&Mac::REG::from_u8(32)).overflowing_div(&machine.registers()[i.rs2()].zero_extend(&Mac::REG::from_u8(32))).sign_extend(&Mac::REG::from_u8(32));
    update_register(machine, i.rd(), value);
    Ok(())
}

/// Signed remainder.
pub open spec fn spec_handle_rem<M: CoreMachine>(a: M, b: M, inst: Instruction, r: Result<(), Error>) -> bool {
    r is Ok && wrote_register(a, b, field_rd(inst), M::REG::spec_overflowing_rem_signed(reg_of(a, field_rs1(inst)), reg_of(a, field_rs2(inst))))
}

pub fn handle_rem<Mac: Machine>(machine: &mut Mac, inst: Instruction) -> (r: Result<(), Error>)
    requires
        field_rs1(inst) < 32,
        field_rs2(inst) < 32,
    ensures
        spec_handle_rem(*old(machine), *final(machine), inst, r),
{
    let i = Rtype(inst);
    let value: Mac::REG = machine.registers()[i.rs1()].overflowing_rem_signed(&machine.registers()[i.rs2()]);
    update_register(machine, i.rd(), value);
    Ok(())
}

/// Signed remainder on 32 bits.
pub open spec fn spec_handle_remw<M: CoreMachine>(a: M, b: M, inst: Instruction, r: Result<(), Error>) -> bool {
    r is Ok && wrote_register(a, b, field_rd(inst), M::REG::spec_sign_extend(M::REG::spec_overflowing_rem_signed(M::REG::spec_sign_extend(reg_of(a, field_rs1(inst)), M::REG::spec_from_u8(32)), M::REG::spec_sign_extend(reg_of(a, field_rs2(inst)), M::REG::spec_from_u8(32))), M::REG::spec_from_u8(32)))
}

pub fn handle_remw<Mac: Machine>(machine: &mut Mac, inst: Instruction) -> (r: Result<(), Error>)
    requires
        field_rs1(inst) < 32,
        field_rs2(inst) < 32,
    ensures
        spec_handle_remw(*old(machine), *final(machine), inst, r),
{
    let i = Rtype(inst);
    let value: Mac::REG = machine.registers()[i.rs1()].sign_extend(&Mac::REG::from_u8(32)).overflowing_rem_signed(&machine.registers()[i.rs2()].sign_extend(&Mac::REG::from_u8(32))).sign_extend(&Mac::REG::from_u8(32));
    update_register(machine, i.rd(), value);
    Ok(())
}

/// Unsigned remainder.
pub open spec fn spec_handle_remu<M: CoreMachine>(a: M, b: M, inst: Instruction, r: Result<(), Error>) -> bool {
    r is Ok && wrote_register(a, b, field_rd(inst), M::REG::spec_overflowing_rem(reg_of(a, field_rs1(inst)), reg_of(a, field_rs2(inst))))
}

pub fn handle_remu<Mac: Machine>(machine: &mut Mac, inst: Instruction) -> (r: Result<(), Error>)
    requires
        field_rs1(inst) < 32,
        field_rs2(inst) < 32,
    ensures
        spec_handle_remu(*old(machine), *final(machine), inst, r),
{
    let i = Rtype(inst);
    let value: Mac::REG = machine.registers()[i.rs1()].overflowing_rem(&machine.registers()[i.rs2()]);
    update_register(machine, i.rd(), value);
    Ok(())
}

/// Unsigned remainder on 32 bits.
pub open spec fn spec_handle_remuw<M: CoreMachine>(a: M, b: M, inst: Instruction, r: Result<(), Error>) -> bool {
    r is Ok && wrote_register(a, b, field_rd(inst), M::REG::spec_sign_extend(M::REG::spec_overflowing_rem(M::REG::spec_zero_extend(reg_of(a, field_rs1(inst)), M::REG::spec_from_u8(32)), M::REG::spec_zero_extend(reg_of(a, field_rs2(inst)), M::REG::spec_from_u8(32))), M::REG::spec_from_u8(32)))
}

pub fn handle_remuw<Mac: Machine>(machine: &mut Mac, inst: Instruction) -> (r: Result<(), Error>)
    requires
        field_rs1(inst) < 32,
        field_rs2(inst) < 32,
    ensures
        spec_handle_remuw(*old(machine), *final(machine), inst, r),
{
    let i = Rtype(inst);
    let value: Mac::REG = machine.registers()[i.rs1()].zero_extend(&Mac::REG::from_u8(32)).overflowing_rem(&machine.registers()[i.rs2()].zero_extend(&Mac::REG::from_u8(32))).sign_extend(&Mac::REG::from_u8(32));
    update_register(machine, i.rd(), value);
    Ok(())
}

/// `rd = rs2 + zext32(rs1)`.
pub open spec fn spec_handle_adduw<M: CoreMachine>(a: M, b: M, inst: Instruction, r: Result<(), Error>) -> bool {
    r is Ok && wrote_register(a, b, field_rd(inst), M::REG::spec_overflowing_add(reg_of(a, field_rs2(inst)), M::REG::spec_zero_extend(reg_of(a, field_rs1(inst)), M::REG::spec_from_u8(32))))
}

pub fn handle_adduw<Mac: Machine>(machine: &mut Mac, inst: Instruction) -> (r: Result<(), Error>)
    requires
        field_rs1(inst) < 32,
        field_rs2(inst) < 32,
    ensures
        spec_handle_adduw(*old(machine), *final(machine), inst, r),
{
    let i = Rtype(inst);
    let value: Mac::REG = machine.registers()[i.rs2()].overflowing_add(&machine.registers()[i.rs1()].zero_extend(&Mac::REG::from_u8(32)));
    update_register(machine, i.rd(), value);
    Ok(())
}

/// `rd = rs1 & !rs2`.
pub open spec fn spec_handle_andn<M: CoreMachine>(a: M, b: M, inst: Instruction, r: Result<(), Error>) -> bool {
    r is Ok && wrote_register(a, b, field_rd(inst), M::REG::spec_bitand(reg_of(a, field_rs1(inst)), M::REG::spec_not(reg_of(a, field_rs2(inst)))))
}

pub fn handle_andn<Mac: Machine>(machine: &mut Mac, inst: Instruction) -> (r: Result<(), Error>)
    requires
        field_rs1(inst) < 32,
        field_rs2(inst) < 32,
    ensures
        spec_handle_andn(*old(machine), *final(machine), inst, r),
{
    let i = Rtype(inst);
    let value: Mac::REG = machine.registers()[i.rs1()].bitand(&machine.registers()[i.rs2()].not());
    update_register(machine, i.rd(), value);
    Ok(())
}

/// Clears bit `rs2` of `rs1`.
pub open spec fn spec_handle_bclr<M: CoreMachine>(a: M, b: M, inst: Instruction, r: Result<(), Error>) -> bool {
    r is Ok && wrote_register(a, b, field_rd(inst), M::REG::spec_bitand(reg_of(a, field_rs1(inst)), M::REG::spec_not(M::REG::spec_shl(M::REG::spec_one(), M::REG::spec_bitand(reg_of(a, field_rs2(inst)), M::REG::spec_from_u8(M::REG::SHIFT_MASK))))))
}

pub fn handle_bclr<Mac: Machine>(machine: &mut Mac, inst: Instruction) -> (r: Result<(), Error>)
    requires
        field_rs1(inst) < 32,
        field_rs2(inst) < 32,
    ensures
        spec_handle_bclr(*old(machine), *final(machine), inst, r),
{
    let i = Rtype(inst);
    let value: Mac::REG = machine.registers()[i.rs1()].bitand(&Mac::REG::one().shl(&machine.registers()[i.rs2()].bitand(&Mac::REG::from_u8(Mac::REG::SHIFT_MASK))).not());
    update_register(machine, i.rd(), value);
    Ok(())
}

/// Clears bit `imm` of `rs1`.
pub open spec fn spec_handle_bclri<M: CoreMachine>(a: M, b: M, inst: Instruction, r: Result<(), Error>) -> bool {
    r is Ok && wrote_register(a, b, field_rd(inst), M::REG::spec_bitand(reg_of(a, field_rs1(inst)), M::REG::spec_not(M::REG::spec_shl(M::REG::spec_one(), M::REG::spec_bitand(M::REG::spec_from_u32((field_imm40(inst) as u32)), M::REG::spec_from_u8(M::REG::SHIFT_MASK))))))
}

pub fn handle_bclri<Mac: Machine>(machine: &mut Mac, inst: Instruction) -> (r: Result<(), Error>)
    requires
        field_rs1(inst) < 32,
    ensures
        spec_handle_bclri(*old(machine), *final(machine), inst, r),
{
    let i = Itype(inst);
    let value: Mac::REG = machine.registers()[i.rs1()].bitand(&Mac::REG::one().shl(&Mac::REG::from_u32(i.immediate_u()).bitand(&Mac::REG::from_u8(Mac::REG::SHIFT_MASK))).not());
    update_register(machine, i.rd(), value);
    Ok(())
}

/// Bit `rs2` of `rs1`.
pub open spec fn spec_handle_bext<M: CoreMachine>(a: M, b: M, inst: Instruction, r: Result<(), Error>) -> bool {
    r is Ok && wrote_register(a, b, field_rd(inst), M::REG::spec_bitand(M::REG::spec_one(), M::REG::spec_shr(reg_of(a, field_rs1(inst)), M::REG::spec_bitand(reg_of(a, field_rs2(inst)), M::REG::spec_from_u8(M::REG::SHIFT_MASK)))))
}

pub fn handle_bext<Mac: Machine>(machine: &mut Mac, inst: Instruction) -> (r: Result<(), Error>)
    requires
        field_rs1(inst) < 32,
        field_rs2(inst) < 32,
    ensures
        spec_handle_bext(*old(machine), *final(machine), inst, r),
{
    let i = Rtype(inst);
    let value: Mac::REG = Mac::REG::one().bitand(&machine.registers()[i.rs1()].shr(&machine.registers()[i.rs2()].bitand(&Mac::REG::from_u8(Mac::REG::SHIFT_MASK))));
    update_register(machine, i.rd(), value);
    Ok(())
}

/// Bit `imm` of `rs1`.
pub open spec fn spec_handle_bexti<M: CoreMachine>(a: M, b: M, inst: Instruction, r: Result<(), Error>) -> bool {
    r is Ok && wrote_register(a, b, field_rd(inst), M::REG::spec_bitand(M::REG::spec_one(), M::REG::spec_shr(reg_of(a, field_rs1(inst)), M::REG::spec_bitand(M::REG::spec_from_u32((field_imm40(inst) as u32)), M::REG::spec_from_u8(M::REG::SHIFT_MASK)))))
}

pub fn handle_bexti<Mac: Machine>(machine: &mut Mac, inst: Instruction) -> (r: Result<(), Error>)
    requires
        field_rs1(inst) < 32,
    ensures
        spec_handle_bexti(*old(machine), *final(machine), inst, r),
{
    let i = Itype(inst);
    let value: Mac::REG = Mac::REG::one().bitand(&machine.registers()[i.rs1()].shr(&Mac::REG::from_u32(i.immediate_u()).bitand(&Mac::REG::from_u8(Mac::REG::SHIFT_MASK))));
    update_register(machine, i.rd(), value);
    Ok(())
}

/// Inverts bit `rs2` of `rs1`.
pub open spec fn spec_handle_binv<M: CoreMachine>(a: M, b: M, inst: Instruction, r: Result<(), Error>) -> bool {
    r is Ok && wrote_register(a, b, field_rd(inst), M::REG::spec_bitxor(reg_of(a, field_rs1(inst)), M::REG::spec_shl(M::REG::spec_one(), M::REG::spec_bitand(reg_of(a, field_rs2(inst)), M::REG::spec_from_u8(M::REG::SHIFT_MASK)))))
}

pub fn handle_binv<Mac: Machine>(machine: &mut Mac, inst: Instruction) -> (r: Result<(), Error>)
    requires
        field_rs1(inst) < 32,
        field_rs2(inst) < 32,
    ensures
        spec_handle_binv(*old(machine), *final(machine), inst, r),
{
    let i = Rtype(inst);
    let value: Mac::REG = machine.registers()[i.rs1()].bitxor(&Mac::REG::one().shl(&machine.registers()[i.rs2()].bitand(&Mac::REG::from_u8(Mac::REG::SHIFT_MASK))));
    update_register(machine, i.rd(), value);
    Ok(())
}

/// Inverts bit `imm` of `rs1`.
pub open spec fn spec_handle_binvi<M: CoreMachine>(a: M, b: M, inst: Instruction, r: Result<(), Error>) -> bool {
    r is Ok && wrote_register(a, b, field_rd(inst), M::REG::spec_bitxor(reg_of(a, field_rs1(inst)), M::REG::spec_shl(M::REG::spec_one(), M::REG::spec_bitand(M::REG::spec_from_u32((field_imm40(inst) as u32)), M::REG::spec_from_u8(M::REG::SHIFT_MASK)))))
}

pub fn handle_binvi<Mac: Machine>(machine: &mut Mac, inst: Instruction) -> (r: Result<(), Error>)
    requires
        field_rs1(inst) < 32,
    ensures
        spec_handle_binvi(*old(machine), *final(machine), inst, r),
{
    let i = Itype(inst);
    let value: Mac::REG = machine.registers()[i.rs1()].bitxor(&Mac::REG::one().shl(&Mac::REG::from_u32(i.immediate_u()).bitand(&Mac::REG::from_u8(Mac::REG::SHIFT_MASK))));
    update_register(machine, i.rd(), value);
    Ok(())
}

/// Sets bit `rs2` of `rs1`.
pub open spec fn spec_handle_bset<M: CoreMachine>(a: M, b: M, inst: Instruction, r: Result<(), Error>) -> bool {
    r is Ok && wrote_register(a, b, field_rd(inst), M::REG::spec_bitor(reg_of(a, field_rs1(inst)), M::REG::spec_shl(M::REG::spec_one(), M::REG::spec_bitand(reg_of(a, field_rs2(inst)), M::REG::spec_from_u8(M::REG::SHIFT_MASK)))))
}

pub fn handle_bset<Mac: Machine>(machine: &mut Mac, inst: Instruction) -> (r: Result<(), Error>)
    requires
        field_rs1(inst) < 32,
        field_rs2(inst) < 32,
    ensures
        spec_handle_bset(*old(machine), *final(machine), inst, r),
{
    let i = Rtype(inst);
    let value: Mac::REG = machine.registers()[i.rs1()].bitor(&Mac::REG::one().shl(&machine.registers()[i.rs2()].bitand(&Mac::REG::from_u8(Mac::REG::SHIFT_MASK))));
    update_register(machine, i.rd(), value);
    Ok(())
}

/// Sets bit `imm` of `rs1`.
pub open spec fn spec_handle_bseti<M: CoreMachine>(a: M, b: M, inst: Instruction, r: Result<(), Error>) -> bool {
    r is Ok && wrote_register(a, b, field_rd(inst), M::REG::spec_bitor(reg_of(a, field_rs1(inst)), M::REG::spec_shl(M::REG::spec_one(), M::REG::spec_bitand(M::REG::spec_from_u32((field_imm40(inst) as u32)), M::REG::spec_from_u8(M::REG::SHIFT_MASK)))))
}

pub fn handle_bseti<Mac: Machine>(machine: &mut Mac, inst: Instruction) -> (r: Result<(), Error>)
    requires
        field_rs1(inst) < 32,
    ensures
        spec_handle_bseti(*old(machine), *final(machine), inst, r),
{
    let i = Itype(inst);
    let value: Mac::REG = machine.registers()[i.rs1()].bitor(&Mac::REG::one().shl(&Mac::REG::from_u32(i.immediate_u()).bitand(&Mac::REG::from_u8(Mac::REG::SHIFT_MASK))));
    update_register(machine, i.rd(), value);
    Ok(())
}

/// Carry-less product, low half.
pub open spec fn spec_handle_clmul<M: CoreMachine>(a: M, b: M, inst: Instruction, r: Result<(), Error>) -> bool {
    r is Ok && wrote_register(a, b, field_rd(inst), M::REG::spec_clmul(reg_of(a, field_rs1(inst)), reg_of(a, field_rs2(inst))))
}

pub fn handle_clmul<Mac: Machine>(machine: &mut Mac, inst: Instruction) -> (r: Result<(), Error>)
    requires
        field_rs1(inst) < 32,
        field_rs2(inst) < 32,
    ensures
        spec_handle_clmul(*old(machine), *final(machine), inst, r),
{
    let i = Rtype(inst);
    let value: Mac::REG = machine.registers()[i.rs1()].clmul(&machine.registers()[i.rs2()]);
    update_register(machine, i.rd(), value);
    Ok(())
}

/// Carry-less product, high half.
pub open spec fn spec_handle_clmulh<M: CoreMachine>(a: M, b: M, inst: Instruction, r: Result<(), Error>) -> bool {
    r is Ok && wrote_register(a, b, field_rd(inst), M::REG::spec_clmulh(reg_of(a, field_rs1(inst)), reg_of(a, field_rs2(inst))))
}

pub fn handle_clmulh<Mac: Machine>(machine: &mut Mac, inst: Instruction) -> (r: Result<(), Error>)
    requires
        field_rs1(inst) < 32,
        field_rs2(inst) < 32,
    ensures
        spec_handle_clmulh(*old(machine), *final(machine), inst, r),
{
    let i = Rtype(inst);
    let value: Mac::REG = machine.registers()[i.rs1()].clmulh(&machine.registers()[i.rs2()]);
    update_register(machine, i.rd(), value);
    Ok(())
}

/// Carry-less product, reversed.
pub open spec fn spec_handle_clmulr<M: CoreMachine>(a: M, b: M, inst: Instruction, r: Result<(), Error>) -> bool {
    r is Ok && wrote_register(a, b, field_rd(inst), M::REG::spec_clmulr(reg_of(a, field_rs1(inst)), reg_of(a, field_rs2(inst))))
}

pub fn handle_clmulr<Mac: Machine>(machine: &mut Mac, inst: Instruction) -> (r: Result<(), Error>)
    requires
        field_rs1(inst) < 32,
        field_rs2(inst) < 32,
    ensures
        spec_handle_clmulr(*old(machine), *final(machine), inst, r),
{
    let i = Rtype(inst);
    let value: Mac::REG = machine.registers()[i.rs1()].clmulr(&machine.registers()[i.rs2()]);
    update_register(machine, i.rd(), value);
    Ok(())
}

/// Count of leading zero bits.
pub open spec fn spec_handle_clz<M: CoreMachine>(a: M, b: M, inst: Instruction, r: Result<(), Error>) -> bool {
    r is Ok && wrote_register(a, b, field_rd(inst), M::REG::spec_clz(reg_of(a, field_rs1(inst))))
}

pub fn handle_clz<Mac: Machine>(machine: &mut Mac, inst: Instruction) -> (r: Result<(), Error>)
    requires
        field_rs1(inst) < 32,
    ensures
        spec_handle_clz(*old(machine), *final(machine), inst, r),
{
    let i = Rtype(inst);
    let value: Mac::REG = machine.registers()[i.rs1()].clz();
    update_register(machine, i.rd(), value);
    Ok(())
}

/// Count of leading zero bits of the low word.
pub open spec fn spec_handle_clzw<M: CoreMachine>(a: M, b: M, inst: Instruction, r: Result<(), Error>) -> bool {
    r is Ok && wrote_register(a, b, field_rd(inst), M::REG::spec_overflowing_sub(M::REG::spec_clz(M::REG::spec_zero_extend(reg_of(a, field_rs1(inst)), M::REG::spec_from_u8(32))), M::REG::spec_from_u8(32)))
}

pub fn handle_clzw<Mac: Machine>(machine: &mut Mac, inst: Instruction) -> (r: Result<(), Error>)
    requires
        field_rs1(inst) < 32,
    ensures
        spec_handle_clzw(*old(machine), *final(machine), inst, r),
{
    let i = Rtype(inst);
    let value: Mac::REG = machine.registers()[i.rs1()].zero_extend(&Mac::REG::from_u8(32)).clz().overflowing_sub(&Mac::REG::from_u8(32));
    update_register(machine, i.rd(), value);
    Ok(())
}

/// Count of set bits.
pub open spec fn spec_handle_cpop<M: CoreMachine>(a: M, b: M, inst: Instruction, r: Result<(), Error>) -> bool {
    r is Ok && wrote_register(a, b, field_rd(inst), M::REG::spec_cpop(reg_of(a, field_rs1(inst))))
}

pub fn handle_cpop<Mac: Machine>(machine: &mut Mac, inst: Instruction) -> (r: Result<(), Error>)
    requires
        field_rs1(inst) < 32,
    ensures
        spec_handle_cpop(*old(machine), *final(machine), inst, r),
{
    let i = Rtype(inst);
    let value: Mac::REG = machine.registers()[i.rs1()].cpop();
    update_register(machine, i.rd(), value);
    Ok(())
}

/// Count of set bits of the low word.
pub open spec fn spec_handle_cpopw<M: CoreMachine>(a: M, b: M, inst: Instruction, r: Result<(), Error>) -> bool {
    r is Ok && wrote_register(a, b, field_rd(inst), M::REG::spec_cpop(M::REG::spec_zero_extend(reg_of(a, field_rs1(inst)), M::REG::spec_from_u8(32))))
}

pub fn handle_cpopw<Mac: Machine>(machine: &mut Mac, inst: Instruction) -> (r: Result<(), Error>)
    requires
        field_rs1(inst) < 32,
    ensures
        spec_handle_cpopw(*old(machine), *final(machine), inst, r),
{
    let i = Rtype(inst);
    let value: Mac::REG = machine.registers()[i.rs1()].zero_extend(&Mac::REG::from_u8(32)).cpop();
    update_register(machine, i.rd(), value);
    Ok(())
}

/// Count of trailing zero bits.
pub open spec fn spec_handle_ctz<M: CoreMachine>(a: M, b: M, inst: Instruction, r: Result<(), Error>) -> bool {
    r is Ok && wrote_register(a, b, field_rd(inst), M::REG::spec_ctz(reg_of(a, field_rs1(inst))))
}

pub fn handle_ctz<Mac: Machine>(machine: &mut Mac, inst: Instruction) -> (r: Result<(), Error>)
    requires
        field_rs1(inst) < 32,
    ensures
        spec_handle_ctz(*old(machine), *final(machine), inst, r),
{
    let i = Rtype(inst);
    let value: Mac::REG = machine.registers()[i.rs1()].ctz();
    update_register(machine, i.rd(), value);
    Ok(())
}

/// Count of trailing zero bits of the low word.
pub open spec fn spec_handle_ctzw<M: CoreMachine>(a: M, b: M, inst: Instruction, r: Result<(), Error>) -> bool {
    r is Ok && wrote_register(a, b, field_rd(inst), M::REG::spec_ctz(M::REG::spec_bitor(reg_of(a, field_rs1(inst)), M::REG::spec_from_u64(0xffff_ffff_0000_0000))))
}

pub fn handle_ctzw<Mac: Machine>(machine: &mut Mac, inst: Instruction) -> (r: Result<(), Error>)
    requires
        field_rs1(inst) < 32,
    ensures
        spec_handle_ctzw(*old(machine), *final(machine), inst, r),
{
    let i = Rtype(inst);
    let value: Mac::REG = machine.registers()[i.rs1()].bitor(&Mac::REG::from_u64(0xffff_ffff_0000_0000)).ctz();
    update_register(machine, i.rd(), value);
    Ok(())
}

/// The larger, signed.
pub open spec fn spec_handle_max<M: CoreMachine>(a: M, b: M, inst: Instruction, r: Result<(), Error>) -> bool {
    r is Ok && wrote_register(a, b, field_rd(inst), M::REG::spec_cond(M::REG::spec_logical_not(M::REG::spec_lt_s(reg_of(a, field_rs1(inst)), reg_of(a, field_rs2(inst)))), reg_of(a, field_rs1(inst)), reg_of(a, field_rs2(inst))))
}

pub fn handle_max<Mac: Machine>(machine: &mut Mac, inst: Instruction) -> (r: Result<(), Error>)
    requires
        field_rs1(inst) < 32,
        field_rs2(inst) < 32,
    ensures
        spec_handle_max(*old(machine), *final(machine), inst, r),
{
    let i = Rtype(inst);
    let value: Mac::REG = machine.registers()[i.rs1()].ge_s(&machine.registers()[i.rs2()]).cond(&machine.registers()[i.rs1()], &machine.registers()[i.rs2()]);
    update_register(machine, i.rd(), value);
    Ok(())
}

/// The larger, unsigned.
pub open spec fn spec_handle_maxu<M: CoreMachine>(a: M, b: M, inst: Instruction, r: Result<(), Error>) -> bool {
    r is Ok && wrote_register(a, b, field_rd(inst), M::REG::spec_cond(M::REG::spec_logical_not(M::REG::spec_lt(reg_of(a, field_rs1(inst)), reg_of(a, field_rs2(inst)))), reg_of(a, field_rs1(inst)), reg_of(a, field_rs2(inst))))
}

pub fn handle_maxu<Mac: Machine>(machine: &mut Mac, inst: Instruction) -> (r: Result<(), Error>)
    requires
        field_rs1(inst) < 32,
        field_rs2(inst) < 32,
    ensures
        spec_handle_maxu(*old(machine), *final(machine), inst, r),
{
    let i = Rtype(inst);
    let value: Mac::REG = machine.registers()[i.rs1()].ge(&machine.registers()[i.rs2()]).cond(&machine.registers()[i.rs1()], &machine.registers()[i.rs2()]);
    update_register(machine, i.rd(), value);
    Ok(())
}

/// The smaller, signed.
pub open spec fn spec_handle_min<M: CoreMachine>(a: M, b: M, inst: Instruction, r: Result<(), Error>) -> bool {
    r is Ok && wrote_register(a, b, field_rd(inst), M::REG::spec_cond(M::REG::spec_lt_s(reg_of(a, field_rs1(inst)), reg_of(a, field_rs2(inst))), reg_of(a, field_rs1(inst)), reg_of(a, field_rs2(inst))))
}

pub fn handle_min<Mac: Machine>(machine: &mut Mac, inst: Instruction) -> (r: Result<(), Error>)
    requires
        field_rs1(inst) < 32,
        field_rs2(inst) < 32,
    ensures
        spec_handle_min(*old(machine), *final(machine), inst, r),
{
    let i = Rtype(inst);
    let value: Mac::REG = machine.registers()[i.rs1()].lt_s(&machine.registers()[i.rs2()]).cond(&machine.registers()[i.rs1()], &machine.registers()[i.rs2()]);
    update_register(machine, i.rd(), value);
    Ok(())
}

/// The smaller, unsigned.
pub open spec fn spec_handle_minu<M: CoreMachine>(a: M, b: M, inst: Instruction, r: Result<(), Error>) -> bool {
    r is Ok && wrote_register(a, b, field_rd(inst), M::REG::spec_cond(M::REG::spec_lt(reg_of(a, field_rs1(inst)), reg_of(a, field_rs2(inst))), reg_of(a, field_rs1(inst)), reg_of(a, field_rs2(inst))))
}

pub fn handle_minu<Mac: Machine>(machine: &mut Mac, inst: Instruction) -> (r: Result<(), Error>)
    requires
        field_rs1(inst) < 32,
        field_rs2(inst) < 32,
    ensures
        spec_handle_minu(*old(machine), *final(machine), inst, r),
{
    let i = Rtype(inst);
    let value: Mac::REG = machine.registers()[i.rs1()].lt(&machine.registers()[i.rs2()]).cond(&machine.registers()[i.rs1()], &machine.registers()[i.rs2()]);
    update_register(machine, i.rd(), value);
    Ok(())
}

/// Each byte set to all ones where it is not zero.
pub open spec fn spec_handle_orcb<M: CoreMachine>(a: M, b: M, inst: Instruction, r: Result<(), Error>) -> bool {
    r is Ok && wrote_register(a, b, field_rd(inst), M::REG::spec_orcb(reg_of(a, field_rs1(inst))))
}

pub fn handle_orcb<Mac: Machine>(machine: &mut Mac, inst: Instruction) -> (r: Result<(), Error>)
    requires
        field_rs1(inst) < 32,
    ensures
        spec_handle_orcb(*old(machine), *final(machine), inst, r),
{
    let i = Rtype(inst);
    let value: Mac::REG = machine.registers()[i.rs1()].orcb();
    update_register(machine, i.rd(), value);
    Ok(())
}

/// `rd = rs1 | !rs2`.
pub open spec fn spec_handle_orn<M: CoreMachine>(a: M, b: M, inst: Instruction, r: Result<(), Error>) -> bool {
    r is Ok && wrote_register(a, b, field_rd(inst), M::REG::spec_bitor(reg_of(a, field_rs1(inst)), M::REG::spec_not(reg_of(a, field_rs2(inst)))))
}

pub fn handle_orn<Mac: Machine>(machine: &mut Mac, inst: Instruction) -> (r: Result<(), Error>)
    requires
        field_rs1(inst) < 32,
        field_rs2(inst) < 32,
    ensures
        spec_handle_orn(*old(machine), *final(machine), inst, r),
{
    let i = Rtype(inst);
    let value: Mac::REG = machine.registers()[i.rs1()].bitor(&machine.registers()[i.rs2()].not());
    update_register(machine, i.rd(), value);
    Ok(())
}

/// Bytes in reverse order.
pub open spec fn spec_handle_rev8<M: CoreMachine>(a: M, b: M, inst: Instruction, r: Result<(), Error>) -> bool {
    r is Ok && wrote_register(a, b, field_rd(inst), M::REG::spec_rev8(reg_of(a, field_rs1(inst))))
}

pub fn handle_rev8<Mac: Machine>(machine: &mut Mac, inst: Instruction) -> (r: Result<(), Error>)
    requires
        field_rs1(inst) < 32,
    ensures
        spec_handle_rev8(*old(machine), *final(machine), inst, r),
{
    let i = Rtype(inst);
    let value: Mac::REG = machine.registers()[i.rs1()].rev8();
    update_register(machine, i.rd(), value);
    Ok(())
}

/// Rotate left by `rs2`.
pub open spec fn spec_handle_rol<M: CoreMachine>(a: M, b: M, inst: Instruction, r: Result<(), Error>) -> bool {
    r is Ok && wrote_register(a, b, field_rd(inst), M::REG::spec_rol(reg_of(a, field_rs1(inst)), M::REG::spec_bitand(reg_of(a, field_rs2(inst)), M::REG::spec_from_u8(M::REG::SHIFT_MASK))))
}

pub fn handle_rol<Mac: Machine>(machine: &mut Mac, inst: Instruction) -> (r: Result<(), Error>)
    requires
        field_rs1(inst) < 32,
        field_rs2(inst) < 32,
    ensures
        spec_handle_rol(*old(machine), *final(machine), inst, r),
{
    let i = Rtype(inst);
    let value: Mac::REG = machine.registers()[i.rs1()].rol(&machine.registers()[i.rs2()].bitand(&Mac::REG::from_u8(Mac::REG::SHIFT_MASK)));
    update_register(machine, i.rd(), value);
    Ok(())
}

/// Rotate the low word left by `rs2`.
pub open spec fn spec_handle_rolw<M: CoreMachine>(a: M, b: M, inst: Instruction, r: Result<(), Error>) -> bool {
    r is Ok && wrote_register(a, b, field_rd(inst), M::REG::spec_sign_extend(M::REG::spec_rol(M::REG::spec_overflowing_mul(M::REG::spec_zero_extend(reg_of(a, field_rs1(inst)), M::REG::spec_from_u8(32)), M::REG::spec_from_u64(0x_0000_0001_0000_0001)), M::REG::spec_bitand(reg_of(a, field_rs2(inst)), M::REG::spec_from_u8(31))), M::REG::spec_from_u8(32)))
}

pub fn handle_rolw<Mac: Machine>(machine: &mut Mac, inst: Instruction) -> (r: Result<(), Error>)
    requires
        field_rs1(inst) < 32,
        field_rs2(inst) < 32,
    ensures
        spec_handle_rolw(*old(machine), *final(machine), inst, r),
{
    let i = Rtype(inst);
    let value: Mac::REG = machine.registers()[i.rs1()].zero_extend(&Mac::REG::from_u8(32)).overflowing_mul(&Mac::REG::from_u64(0x_0000_0001_0000_0001)).rol(&machine.registers()[i.rs2()].bitand(&Mac::REG::from_u8(31))).sign_extend(&Mac::REG::from_u8(32));
    update_register(machine, i.rd(), value);
    Ok(())
}

/// Rotate right by `rs2`.
pub open spec fn spec_handle_ror<M: CoreMachine>(a: M, b: M, inst: Instruction, r: Result<(), Error>) -> bool {
    r is Ok && wrote_register(a, b, field_rd(inst), M::REG::spec_ror(reg_of(a, field_rs1(inst)), M::REG::spec_bitand(reg_of(a, field_rs2(inst)), M::REG::spec_from_u8(M::REG::SHIFT_MASK))))
}

pub fn handle_ror<Mac: Machine>(machine: &mut Mac, inst: Instruction) -> (r: Result<(), Error>)
    requires
        field_rs1(inst) < 32,
        field_rs2(inst) < 32,
    ensures
        spec_handle_ror(*old(machine), *final(machine), inst, r),
{
    let i = Rtype(inst);
    let value: Mac::REG = machine.registers()[i.rs1()].ror(&machine.registers()[i.rs2()].bitand(&Mac::REG::from_u8(Mac::REG::SHIFT_MASK)));
    update_register(machine, i.rd(), value);
    Ok(())
}

/// Rotate right by `imm`.
pub open spec fn spec_handle_rori<M: CoreMachine>(a: M, b: M, inst: Instruction, r: Result<(), Error>) -> bool {
    r is Ok && wrote_register(a, b, field_rd(inst), M::REG::spec_ror(reg_of(a, field_rs1(inst)), M::REG::spec_bitand(M::REG::spec_from_u32((field_imm40(inst) as u32)), M::REG::spec_from_u8(M::REG::SHIFT_MASK))))
}

pub fn handle_rori<Mac: Machine>(machine: &mut Mac, inst: Instruction) -> (r: Result<(), Error>)
    requires
        field_rs1(inst) < 32,
    ensures
        spec_handle_rori(*old(machine), *final(machine), inst, r),
{
    let i = Itype(inst);
    let value: Mac::REG = machine.registers()[i.rs1()].ror(&Mac::REG::from_u32(i.immediate_u()).bitand(&Mac::REG::from_u8(Mac::REG::SHIFT_MASK)));
    update_register(machine, i.rd(), value);
    Ok(())
}

/// Rotate the low word right by `imm`.
pub open spec fn spec_handle_roriw<M: CoreMachine>(a: M, b: M, inst: Instruction, r: Result<(), Error>) -> bool {
    r is Ok && wrote_register(a, b, field_rd(inst), M::REG::spec_sign_extend(M::REG::spec_ror(M::REG::spec_overflowing_mul(M::REG::spec_zero_extend(reg_of(a, field_rs1(inst)), M::REG::spec_from_u8(32)), M::REG::spec_from_u64(0x_0000_0001_0000_0001)), M::REG::spec_bitand(M::REG::spec_from_u32((field_imm40(inst) as u32)), M::REG::spec_from_u8(31))), M::REG::spec_from_u8(32)))
}

pub fn handle_roriw<Mac: Machine>(machine: &mut Mac, inst: Instruction) -> (r: Result<(), Error>)
    requires
        field_rs1(inst) < 32,
    ensures
        spec_handle_roriw(*old(machine), *final(machine), inst, r),
{
    let i = Itype(inst);
    let value: Mac::REG = machine.registers()[i.rs1()].zero_extend(&Mac::REG::from_u8(32)).overflowing_mul(&Mac::REG::from_u64(0x_0000_0001_0000_0001)).ror(&Mac::REG::from_u32(i.immediate_u()).bitand(&Mac::REG::from_u8(31))).sign_extend(&Mac::REG::from_u8(32));
    update_register(machine, i.rd(), value);
    Ok(())
}

/// Rotate the low word right by `rs2`.
pub open spec fn spec_handle_rorw<M: CoreMachine>(a: M, b: M, inst: Instruction, r: Result<(), Error>) -> bool {
    r is Ok && wrote_register(a, b, field_rd(inst), M::REG::spec_sign_extend(M::REG::spec_ror(M::REG::spec_overflowing_mul(M::REG::spec_zero_extend(reg_of(a, field_rs1(inst)), M::REG::spec_from_u8(32)), M::REG::spec_from_u64(0x_0000_0001_0000_0001)), M::REG::spec_bitand(reg_of(a, field_rs2(inst)), M::REG::spec_from_u8(31))), M::REG::spec_from_u8(32)))
}

pub fn handle_rorw<Mac: Machine>(machine: &mut Mac, inst: Instruction) -> (r: Result<(), Error>)
    requires
        field_rs1(inst) < 32,
        field_rs2(inst) < 32,
    ensures
        spec_handle_rorw(*old(machine), *final(machine), inst, r),
{
    let i = Rtype(inst);
    let value: Mac::REG = machine.registers()[i.rs1()].zero_extend(&Mac::REG::from_u8(32)).overflowing_mul(&Mac::REG::from_u64(0x_0000_0001_0000_0001)).ror(&machine.registers()[i.rs2()].bitand(&Mac::REG::from_u8(31))).sign_extend(&Mac::REG::from_u8(32));
    update_register(machine, i.rd(), value);
    Ok(())
}

/// The low byte, sign extended.
pub open spec fn spec_handle_sextb<M: CoreMachine>(a: M, b: M, inst: Instruction, r: Result<(), Error>) -> bool {
    r is Ok && wrote_register(a, b, field_rd(inst), M::REG::spec_signed_shr(M::REG::spec_signed_shl(reg_of(a, field_rs1(inst)), M::REG::spec_from_u8((M::REG::BITS - 8) as u8)), M::REG::spec_from_u8((M::REG::BITS - 8) as u8)))
}

pub fn handle_sextb<Mac: Machine>(machine: &mut Mac, inst: Instruction) -> (r: Result<(), Error>)
    requires
        field_rs1(inst) < 32,
    ensures
        spec_handle_sextb(*old(machine), *final(machine), inst, r),
{
    proof {
        Mac::REG::lemma_bits();
    }
    let i = Rtype(inst);
    let value: Mac::REG = machine.registers()[i.rs1()].signed_shl(&Mac::REG::from_u8(Mac::REG::BITS - 8)).signed_shr(&Mac::REG::from_u8(Mac::REG::BITS - 8));
    update_register(machine, i.rd(), value);
    Ok(())
}

/// The low half word, sign extended.
pub open spec fn spec_handle_sexth<M: CoreMachine>(a: M, b: M, inst: Instruction, r: Result<(), Error>) -> bool {
    r is Ok && wrote_register(a, b, field_rd(inst), M::REG::spec_signed_shr(M::REG::spec_signed_shl(reg_of(a, field_rs1(inst)), M::REG::spec_from_u8((M::REG::BITS - 16) as u8)), M::REG::spec_from_u8((M::REG::BITS - 16) as u8)))
}

pub fn handle_sexth<Mac: Machine>(machine: &mut Mac, inst: Instruction) -> (r: Result<(), Error>)
    requires
        field_rs1(inst) < 32,
    ensures
        spec_handle_sexth(*old(machine), *final(machine), inst, r),
{
    proof {
        Mac::REG::lemma_bits();
    }
    let i = Rtype(inst);
    let value: Mac::REG = machine.registers()[i.rs1()].signed_shl(&Mac::REG::from_u8(Mac::REG::BITS - 16)).signed_shr(&Mac::REG::from_u8(Mac::REG::BITS - 16));
    update_register(machine, i.rd(), value);
    Ok(())
}

/// `rd = (rs1 << 1) + rs2`.
pub open spec fn spec_handle_sh1add<M: CoreMachine>(a: M, b: M, inst: Instruction, r: Result<(), Error>) -> bool {
    r is Ok && wrote_register(a, b, field_rd(inst), M::REG::spec_overflowing_add(M::REG::spec_shl(reg_of(a, field_rs1(inst)), M::REG::spec_from_u32(1)), reg_of(a, field_rs2(inst))))
}

pub fn handle_sh1add<Mac: Machine>(machine: &mut Mac, inst: Instruction) -> (r: Result<(), Error>)
    requires
        field_rs1(inst) < 32,
        field_rs2(inst) < 32,
    ensures
        spec_handle_sh1add(*old(machine), *final(machine), inst, r),
{
    let i = Rtype(inst);
    let value: Mac::REG = machine.registers()[i.rs1()].shl(&Mac::REG::from_u32(1)).overflowing_add(&machine.registers()[i.rs2()]);
    update_register(machine, i.rd(), value);
    Ok(())
}

/// `rd = (zext32(rs1) << 1) + rs2`.
pub open spec fn spec_handle_sh1adduw<M: CoreMachine>(a: M, b: M, inst: Instruction, r: Result<(), Error>) -> bool {
    r is Ok && wrote_register(a, b, field_rd(inst), M::REG::spec_overflowing_add(M::REG::spec_shl(M::REG::spec_zero_extend(reg_of(a, field_rs1(inst)), M::REG::spec_from_u8(32)), M::REG::spec_from_u32(1)), reg_of(a, field_rs2(inst))))
}

pub fn handle_sh1adduw<Mac: Machine>(machine: &mut Mac, inst: Instruction) -> (r: Result<(), Error>)
    requires
        field_rs1(inst) < 32,
        field_rs2(inst) < 32,
    ensures
        spec_handle_sh1adduw(*old(machine), *final(machine), inst, r),
{
    let i = Rtype(inst);
    let value: Mac::REG = machine.registers()[i.rs1()].zero_extend(&Mac::REG::from_u8(32)).shl(&Mac::REG::from_u32(1)).overflowing_add(&machine.registers()[i.rs2()]);
    update_register(machine, i.rd(), value);
    Ok(())
}

/// `rd = (rs1 << 2) + rs2`.
pub open spec fn spec_handle_sh2add<M: CoreMachine>(a: M, b: M, inst: Instruction, r: Result<(), Error>) -> bool {
    r is Ok && wrote_register(a, b, field_rd(inst), M::REG::spec_overflowing_add(M::REG::spec_shl(reg_of(a, field_rs1(inst)), M::REG::spec_from_u32(2)), reg_of(a, field_rs2(inst))))
}

pub fn handle_sh2add<Mac: Machine>(machine: &mut Mac, inst: Instruction) -> (r: Result<(), Error>)
    requires
        field_rs1(inst) < 32,
        field_rs2(inst) < 32,
    ensures
        spec_handle_sh2add(*old(machine), *final(machine), inst, r),
{
    let i = Rtype(inst);
    let value: Mac::REG = machine.registers()[i.rs1()].shl(&Mac::REG::from_u32(2)).overflowing_add(&machine.registers()[i.rs2()]);
    update_register(machine, i.rd(), value);
    Ok(())
}

/// `rd = (zext32(rs1) << 2) + rs2`.
pub open spec fn spec_handle_sh2adduw<M: CoreMachine>(a: M, b: M, inst: Instruction, r: Result<(), Error>) -> bool {
    r is Ok && wrote_register(a, b, field_rd(inst), M::REG::spec_overflowing_add(M::REG::spec_shl(M::REG::spec_zero_extend(reg_of(a, field_rs1(inst)), M::REG::spec_from_u8(32)), M::REG::spec_from_u32(2)), reg_of(a, field_rs2(inst))))
}

pub fn handle_sh2adduw<Mac: Machine>(machine: &mut Mac, inst: Instruction) -> (r: Result<(), Error>)
    requires
        field_rs1(inst) < 32,
        field_rs2(inst) < 32,
    ensures
        spec_handle_sh2adduw(*old(machine), *final(machine), inst, r),
{
    let i = Rtype(inst);
    let value: Mac::REG = machine.registers()[i.rs1()].zero_extend(&Mac::REG::from_u8(32)).shl(&Mac::REG::from_u32(2)).overflowing_add(&machine.registers()[i.rs2()]);
    update_register(machine, i.rd(), value);
    Ok(())
}

/// `rd = (rs1 << 3) + rs2`.
pub open spec fn spec_handle_sh3add<M: CoreMachine>(a: M, b: M, inst: Instruction, r: Result<(), Error>) -> bool {
    r is Ok && wrote_register(a, b, field_rd(inst), M::REG::spec_overflowing_add(M::REG::spec_shl(reg_of(a, field_rs1(inst)), M::REG::spec_from_u32(3)), reg_of(a, field_rs2(inst))))
}

pub fn handle_sh3add<Mac: Machine>(machine: &mut Mac, inst: Instruction) -> (r: Result<(), Error>)
    requires
        field_rs1(inst) < 32,
        field_rs2(inst) < 32,
    ensures
        spec_handle_sh3add(*old(machine), *final(machine), inst, r),
{
    let i = Rtype(inst);
    let value: Mac::REG = machine.registers()[i.rs1()].shl(&Mac::REG::from_u32(3)).overflowing_add(&machine.registers()[i.rs2()]);
    update_register(machine, i.rd(), value);
    Ok(())
}

/// `rd = (zext32(rs1) << 3) + rs2`.
pub open spec fn spec_handle_sh3adduw<M: CoreMachine>(a: M, b: M, inst: Instruction, r: Result<(), Error>) -> bool {
    r is Ok && wrote_register(a, b, field_rd(inst), M::REG::spec_overflowing_add(M::REG::spec_shl(M::REG::spec_zero_extend(reg_of(a, field_rs1(inst)), M::REG::spec_from_u8(32)), M::REG::spec_from_u32(3)), reg_of(a, field_rs2(inst))))
}

pub fn handle_sh3adduw<Mac: Machine>(machine: &mut Mac, inst: Instruction) -> (r: Result<(), Error>)
    requires
        field_rs1(inst) < 32,
        field_rs2(inst) < 32,
    ensures
        spec_handle_sh3adduw(*old(machine), *final(machine), inst, r),
{
    let i = Rtype(inst);
    let value: Mac::REG = machine.registers()[i.rs1()].zero_extend(&Mac::REG::from_u8(32)).shl(&Mac::REG::from_u32(3)).overflowing_add(&machine.registers()[i.rs2()]);
    update_register(machine, i.rd(), value);
    Ok(())
}

/// `rd = zext32(rs1) << imm`.
pub open spec fn spec_handle_slliuw<M: CoreMachine>(a: M, b: M, inst: Instruction, r: Result<(), Error>) -> bool {
    r is Ok && wrote_register(a, b, field_rd(inst), M::REG::spec_shl(M::REG::spec_zero_extend(reg_of(a, field_rs1(inst)), M::REG::spec_from_u8(32)), M::REG::spec_bitand(M::REG::spec_from_u32((field_imm40(inst) as u32)), M::REG::spec_from_u8(M::REG::SHIFT_MASK))))
}

pub fn handle_slliuw<Mac: Machine>(machine: &mut Mac, inst: Instruction) -> (r: Result<(), Error>)
    requires
        field_rs1(inst) < 32,
    ensures
        spec_handle_slliuw(*old(machine), *final(machine), inst, r),
{
    let i = Itype(inst);
    let value: Mac::REG = machine.registers()[i.rs1()].zero_extend(&Mac::REG::from_u8(32)).shl(&Mac::REG::from_u32(i.immediate_u()).bitand(&Mac::REG::from_u8(Mac::REG::SHIFT_MASK)));
    update_register(machine, i.rd(), value);
    Ok(())
}

/// `rd = rs1 ^ !rs2`.
pub open spec fn spec_handle_xnor<M: CoreMachine>(a: M, b: M, inst: Instruction, r: Result<(), Error>) -> bool {
    r is Ok && wrote_register(a, b, field_rd(inst), M::REG::spec_bitxor(reg_of(a, field_rs1(inst)), M::REG::spec_not(reg_of(a, field_rs2(inst)))))
}

pub fn handle_xnor<Mac: Machine>(machine: &mut Mac, inst: Instruction) -> (r: Result<(), Error>)
    requires
        field_rs1(inst) < 32,
        field_rs2(inst) < 32,
    ensures
        spec_handle_xnor(*old(machine), *final(machine), inst, r),
{
    let i = Rtype(inst);
    let value: Mac::REG = machine.registers()[i.rs1()].bitxor(&machine.registers()[i.rs2()].not());
    update_register(machine, i.rd(), value);
    Ok(())
}

/// The low half word, zero extended.
pub open spec fn spec_handle_zexth<M: CoreMachine>(a: M, b: M, inst: Instruction, r: Result<(), Error>) -> bool {
    r is Ok && wrote_register(a, b, field_rd(inst), M::REG::spec_zero_extend(reg_of(a, field_rs1(inst)), M::REG::spec_from_u8(16)))
}

pub fn handle_zexth<Mac: Machine>(machine: &mut Mac, inst: Instruction) -> (r: Result<(), Error>)
    requires
        field_rs1(inst) < 32,
    ensures
        spec_handle_zexth(*old(machine), *final(machine), inst, r),
{
    let i = Rtype(inst);
    let value: Mac::REG = machine.registers()[i.rs1()].zero_extend(&Mac::REG::from_u8(16));
    update_register(machine, i.rd(), value);
    Ok(())
}

/// The full signed product: high half to `rd`, low half to `rs3`.
pub open spec fn spec_handle_wide_mul<M: CoreMachine>(a: M, b: M, inst: Instruction, r: Result<(), Error>) -> bool {
    r is Ok && wrote_two_registers(
        a,
        b,
        field_rd(inst),
        M::REG::spec_overflowing_mul_high_signed(reg_of(a, field_rs1(inst)), reg_of(a, field_rs2(inst))),
        field_rs3(inst),
        M::REG::spec_overflowing_mul(reg_of(a, field_rs1(inst)), reg_of(a, field_rs2(inst))),
    )
}

pub fn handle_wide_mul<Mac: Machine>(machine: &mut Mac, inst: Instruction) -> (r: Result<(), Error>)
    requires
        field_rs1(inst) < 32,
        field_rs2(inst) < 32,
    ensures
        spec_handle_wide_mul(*old(machine), *final(machine), inst, r),
{
    let i = R4type(inst);
    let rs1_value: Mac::REG = machine.registers()[i.rs1()];
    let rs2_value: Mac::REG = machine.registers()[i.rs2()];
    let value_h: Mac::REG = rs1_value.overflowing_mul_high_signed(&rs2_value);
    let value_l: Mac::REG = rs1_value.overflowing_mul(&rs2_value);
    update_register(machine, i.rd(), value_h);
    update_register(machine, i.rs3(), value_l);
    Ok(())
}

/// The full unsigned product: high half to `rd`, low half to `rs3`.
pub open spec fn spec_handle_wide_mulu<M: CoreMachine>(a: M, b: M, inst: Instruction, r: Result<(), Error>) -> bool {
    r is Ok && wrote_two_registers(
        a,
        b,
        field_rd(inst),
        M::REG::spec_overflowing_mul_high_unsigned(reg_of(a, field_rs1(inst)), reg_of(a, field_rs2(inst))),
        field_rs3(inst),
        M::REG::spec_overflowing_mul(reg_of(a, field_rs1(inst)), reg_of(a, field_rs2(inst))),
    )
}

pub fn handle_wide_mulu<Mac: Machine>(machine: &mut Mac, inst: Instruction) -> (r: Result<(), Error>)
    requires
        field_rs1(inst) < 32,
        field_rs2(inst) < 32,
    ensures
        spec_handle_wide_mulu(*old(machine), *final(machine), inst, r),
{
    let i = R4type(inst);
    let rs1_value: Mac::REG = machine.registers()[i.rs1()];
    let rs2_value: Mac::REG = machine.registers()[i.rs2()];
    let value_h: Mac::REG = rs1_value.overflowing_mul_high_unsigned(&rs2_value);
    let value_l: Mac::REG = rs1_value.overflowing_mul(&rs2_value);
    update_register(machine, i.rd(), value_h);
    update_register(machine, i.rs3(), value_l);
    Ok(())
}

/// The full signed-unsigned product: high half to `rd`, low half to `rs3`.
pub open spec fn spec_handle_wide_mulsu<M: CoreMachine>(a: M, b: M, inst: Instruction, r: Result<(), Error>) -> bool {
    r is Ok && wrote_two_registers(
        a,
        b,
        field_rd(inst),
        M::REG::spec_overflowing_mul_high_signed_unsigned(reg_of(a, field_rs1(inst)), reg_of(a, field_rs2(inst))),
        field_rs3(inst),
        M::REG::spec_overflowing_mul(reg_of(a, field_rs1(inst)), reg_of(a, field_rs2(inst))),
    )
}

pub fn handle_wide_mulsu<Mac: Machine>(machine: &mut Mac, inst: Instruction) -> (r: Result<(), Error>)
    requires
        field_rs1(inst) < 32,
        field_rs2(inst) < 32,
    ensures
        spec_handle_wide_mulsu(*old(machine), *final(machine), inst, r),
{
    let i = R4type(inst);
    let rs1_value: Mac::REG = machine.registers()[i.rs1()];
    let rs2_value: Mac::REG = machine.registers()[i.rs2()];
    let value_h: Mac::REG = rs1_value.overflowing_mul_high_signed_unsigned(&rs2_value);
    let value_l: Mac::REG = rs1_value.overflowing_mul(&rs2_value);
    update_register(machine, i.rd(), value_h);
    update_register(machine, i.rs3(), value_l);
    Ok(())
}

/// Signed quotient to `rd` and remainder to `rs3`.
pub open spec fn spec_handle_wide_div<M: CoreMachine>(a: M, b: M, inst: Instruction, r: Result<(), Error>) -> bool {
    r is Ok && wrote_two_registers(
        a,
        b,
        field_rd(inst),
        M::REG::spec_overflowing_div_signed(reg_of(a, field_rs1(inst)), reg_of(a, field_rs2(inst))),
        field_rs3(inst),
        M::REG::spec_overflowing_rem_signed(reg_of(a, field_rs1(inst)), reg_of(a, field_rs2(inst))),
    )
}

pub fn handle_wide_div<Mac: Machine>(machine: &mut Mac, inst: Instruction) -> (r: Result<(), Error>)
    requires
        field_rs1(inst) < 32,
        field_rs2(inst) < 32,
    ensures
        spec_handle_wide_div(*old(machine), *final(machine), inst, r),
{
    let i = R4type(inst);
    let rs1_value: Mac::REG = machine.registers()[i.rs1()];
    let rs2_value: Mac::REG = machine.registers()[i.rs2()];
    let value_h: Mac::REG = rs1_value.overflowing_div_signed(&rs2_value);
    let value_l: Mac::REG = rs1_value.overflowing_rem_signed(&rs2_value);
    update_register(machine, i.rd(), value_h);
    update_register(machine, i.rs3(), value_l);
    Ok(())
}

/// Unsigned quotient to `rd` and remainder to `rs3`.
pub open spec fn spec_handle_wide_divu<M: CoreMachine>(a: M, b: M, inst: Instruction, r: Result<(), Error>) -> bool {
    r is Ok && wrote_two_registers(
        a,
        b,
        field_rd(inst),
        M::REG::spec_overflowing_div(reg_of(a, field_rs1(inst)), reg_of(a, field_rs2(inst))),
        field_rs3(inst),
        M::REG::spec_overflowing_rem(reg_of(a, field_rs1(inst)), reg_of(a, field_rs2(inst))),
    )
}

pub fn handle_wide_divu<Mac: Machine>(machine: &mut Mac, inst: Instruction) -> (r: Result<(), Error>)
    requires
        field_rs1(inst) < 32,
        field_rs2(inst) < 32,
    ensures
        spec_handle_wide_divu(*old(machine), *final(machine), inst, r),
{
    let i = R4type(inst);
    let rs1_value: Mac::REG = machine.registers()[i.rs1()];
    let rs2_value: Mac::REG = machine.registers()[i.rs2()];
    let value_h: Mac::REG = rs1_value.overflowing_div(&rs2_value);
    let value_l: Mac::REG = rs1_value.overflowing_rem(&rs2_value);
    update_register(machine, i.rd(), value_h);
    update_register(machine, i.rs3(), value_l);
    Ok(())
}

/// Jumps to `(pc + imm) & !1`, linking `pc + length` in `ra`.
pub open spec fn spec_handle_far_jump_rel<M: CoreMachine>(a: M, b: M, inst: Instruction, r: Result<(), Error>) -> bool {
    r is Ok && linked_jump(a, b, RA, M::REG::spec_overflowing_add(a.spec_pc(), M::REG::spec_from_u8(spec_instruction_length(inst))), M::REG::spec_bitand(M::REG::spec_overflowing_add(a.spec_pc(), M::REG::spec_from_i32(field_imm32(inst))), M::REG::spec_not(M::REG::spec_one())))
}

pub fn handle_far_jump_rel<Mac: Machine>(machine: &mut Mac, inst: Instruction) -> (r: Result<(), Error>)
    ensures
        spec_handle_far_jump_rel(*old(machine), *final(machine), inst, r),
{
    let i = Utype(inst);
    let size: u8 = instruction_length(inst);
    let link: Mac::REG = machine.pc().overflowing_add(&Mac::REG::from_u8(size));
    let next_pc: Mac::REG = machine.pc().overflowing_add(&Mac::REG::from_i32(i.immediate_s())).bitand(&Mac::REG::one().not());
    update_register(machine, RA, link);
    machine.update_pc(next_pc);
    Ok(())
}

/// Jumps to `imm & !1`, linking `pc + length` in `ra`.
pub open spec fn spec_handle_far_jump_abs<M: CoreMachine>(a: M, b: M, inst: Instruction, r: Result<(), Error>) -> bool {
    r is Ok && linked_jump(a, b, RA, M::REG::spec_overflowing_add(a.spec_pc(), M::REG::spec_from_u8(spec_instruction_length(inst))), M::REG::spec_bitand(M::REG::spec_from_i32(field_imm32(inst)), M::REG::spec_not(M::REG::spec_one())))
}

pub fn handle_far_jump_abs<Mac: Machine>(machine: &mut Mac, inst: Instruction) -> (r: Result<(), Error>)
    ensures
        spec_handle_far_jump_abs(*old(machine), *final(machine), inst, r),
{
    let i = Utype(inst);
    let size: u8 = instruction_length(inst);
    let link: Mac::REG = machine.pc().overflowing_add(&Mac::REG::from_u8(size));
    let next_pc: Mac::REG = Mac::REG::from_i32(i.immediate_s()).bitand(&Mac::REG::one().not());
    update_register(machine, RA, link);
    machine.update_pc(next_pc);
    Ok(())
}

/// Add with carry: `rd += rs1`, the carry to `rs1`, `rd += rs2`, that carry to `rs2`, and both carries or-ed into `rs1`.
pub open spec fn spec_handle_adc<M: CoreMachine>(a: M, b: M, inst: Instruction, r: Result<(), Error>) -> bool {
    let g0 = a.spec_registers();
    let g1 = spec_write_register(g0, field_rd(inst) as int, M::REG::spec_overflowing_add(g0[field_rd(inst) as int], g0[field_rs1(inst) as int]));
    let g2 = spec_write_register(g1, field_rs1(inst) as int, M::REG::spec_lt(g1[field_rd(inst) as int], g1[field_rs1(inst) as int]));
    let g3 = spec_write_register(g2, field_rd(inst) as int, M::REG::spec_overflowing_add(g2[field_rd(inst) as int], g2[field_rs2(inst) as int]));
    let g4 = spec_write_register(g3, field_rs2(inst) as int, M::REG::spec_lt(g3[field_rd(inst) as int], g3[field_rs2(inst) as int]));
    let g5 = spec_write_register(g4, field_rs1(inst) as int, M::REG::spec_bitor(g4[field_rs1(inst) as int], g4[field_rs2(inst) as int]));
    r is Ok && b.spec_registers() == g5 && only_registers_changed(a, b)
}

pub fn handle_adc<Mac: Machine>(machine: &mut Mac, inst: Instruction) -> (r: Result<(), Error>)
    requires
        field_rd(inst) < 32,
        field_rs1(inst) < 32,
        field_rs2(inst) < 32,
    ensures
        spec_handle_adc(*old(machine), *final(machine), inst, r),
{
    let i = Rtype(inst);
    let value: Mac::REG = machine.registers()[i.rd()].overflowing_add(&machine.registers()[i.rs1()]);
    update_register(machine, i.rd(), value);
    let value: Mac::REG = machine.registers()[i.rd()].lt(&machine.registers()[i.rs1()]);
    update_register(machine, i.rs1(), value);
    let value: Mac::REG = machine.registers()[i.rd()].overflowing_add(&machine.registers()[i.rs2()]);
    update_register(machine, i.rd(), value);
    let value: Mac::REG = machine.registers()[i.rd()].lt(&machine.registers()[i.rs2()]);
    update_register(machine, i.rs2(), value);
    let value: Mac::REG = machine.registers()[i.rs1()].bitor(&machine.registers()[i.rs2()]);
    update_register(machine, i.rs1(), value);
    Ok(())
}

/// Subtract with borrow, over `rd`, `rs1`, `rs2` and `rs3` in turn.
pub open spec fn spec_handle_sbb<M: CoreMachine>(a: M, b: M, inst: Instruction, r: Result<(), Error>) -> bool {
    let g0 = a.spec_registers();
    let g1 = spec_write_register(g0, field_rs1(inst) as int, M::REG::spec_overflowing_sub(g0[field_rd(inst) as int], g0[field_rs1(inst) as int]));
    let g2 = spec_write_register(g1, field_rs3(inst) as int, M::REG::spec_lt(g1[field_rd(inst) as int], g1[field_rs1(inst) as int]));
    let g3 = spec_write_register(g2, field_rd(inst) as int, M::REG::spec_overflowing_sub(g2[field_rs1(inst) as int], g2[field_rs2(inst) as int]));
    let g4 = spec_write_register(g3, field_rs2(inst) as int, M::REG::spec_lt(g3[field_rs1(inst) as int], g3[field_rd(inst) as int]));
    let g5 = spec_write_register(g4, field_rs1(inst) as int, M::REG::spec_bitor(g4[field_rs2(inst) as int], g4[field_rs3(inst) as int]));
    r is Ok && b.spec_registers() == g5 && only_registers_changed(a, b)
}

pub fn handle_sbb<Mac: Machine>(machine: &mut Mac, inst: Instruction) -> (r: Result<(), Error>)
    requires
        field_rd(inst) < 32,
        field_rs1(inst) < 32,
        field_rs2(inst) < 32,
        field_rs3(inst) < 32,
    ensures
        spec_handle_sbb(*old(machine), *final(machine), inst, r),
{
    let i = R4type(inst);
    let value: Mac::REG = machine.registers()[i.rd()].overflowing_sub(&machine.registers()[i.rs1()]);
    update_register(machine, i.rs1(), value);
    let value: Mac::REG = machine.registers()[i.rd()].lt(&machine.registers()[i.rs1()]);
    update_register(machine, i.rs3(), value);
    let value: Mac::REG = machine.registers()[i.rs1()].overflowing_sub(&machine.registers()[i.rs2()]);
    update_register(machine, i.rd(), value);
    let value: Mac::REG = machine.registers()[i.rs1()].lt(&machine.registers()[i.rd()]);
    update_register(machine, i.rs2(), value);
    let value: Mac::REG = machine.registers()[i.rs2()].bitor(&machine.registers()[i.rs3()]);
    update_register(machine, i.rs1(), value);
    Ok(())
}

/// `rd = rs1 + rs2`, and the carry out to `rs3`.
pub open spec fn spec_handle_adcs<M: CoreMachine>(a: M, b: M, inst: Instruction, r: Result<(), Error>) -> bool {
    let x = reg_of(a, field_rs1(inst));
    let s = M::REG::spec_overflowing_add(x, reg_of(a, field_rs2(inst)));
    r is Ok && wrote_two_registers(a, b, field_rd(inst), s, field_rs3(inst), M::REG::spec_lt(s, x))
}

pub fn handle_adcs<Mac: Machine>(machine: &mut Mac, inst: Instruction) -> (r: Result<(), Error>)
    requires
        field_rs1(inst) < 32,
        field_rs2(inst) < 32,
    ensures
        spec_handle_adcs(*old(machine), *final(machine), inst, r),
{
    let i = R4type(inst);
    let rs1_value: Mac::REG = machine.registers()[i.rs1()];
    let rs2_value: Mac::REG = machine.registers()[i.rs2()];
    let r: Mac::REG = rs1_value.overflowing_add(&rs2_value);
    update_register(machine, i.rd(), r);
    let carry: Mac::REG = r.lt(&rs1_value);
    update_register(machine, i.rs3(), carry);
    Ok(())
}

/// `rd = rs1 - rs2`, and the borrow out to `rs3`.
pub open spec fn spec_handle_sbbs<M: CoreMachine>(a: M, b: M, inst: Instruction, r: Result<(), Error>) -> bool {
    let x = reg_of(a, field_rs1(inst));
    let y = reg_of(a, field_rs2(inst));
    r is Ok && wrote_two_registers(a, b, field_rd(inst), M::REG::spec_overflowing_sub(x, y), field_rs3(inst), M::REG::spec_lt(x, y))
}

pub fn handle_sbbs<Mac: Machine>(machine: &mut Mac, inst: Instruction) -> (r: Result<(), Error>)
    requires
        field_rs1(inst) < 32,
        field_rs2(inst) < 32,
    ensures
        spec_handle_sbbs(*old(machine), *final(machine), inst, r),
{
    let i = R4type(inst);
    let rs1_value: Mac::REG = machine.registers()[i.rs1()];
    let rs2_value: Mac::REG = machine.registers()[i.rs2()];
    let r: Mac::REG = rs1_value.overflowing_sub(&rs2_value);
    update_register(machine, i.rd(), r);
    let borrow: Mac::REG = rs1_value.lt(&rs2_value);
    update_register(machine, i.rs3(), borrow);
    Ok(())
}

/// Three-way add, first form: `rd += rs1`, the carry to `rs2`, and `rs3 = rs2 + rs4`.
pub open spec fn spec_handle_add3a<M: CoreMachine>(a: M, b: M, inst: Instruction, r: Result<(), Error>) -> bool {
    let g0 = a.spec_registers();
    let g1 = spec_write_register(g0, field_rd(inst) as int, M::REG::spec_overflowing_add(g0[field_rd(inst) as int], g0[field_rs1(inst) as int]));
    let g2 = spec_write_register(g1, field_rs2(inst) as int, M::REG::spec_lt(g1[field_rd(inst) as int], g1[field_rs1(inst) as int]));
    let g3 = spec_write_register(g2, field_rs3(inst) as int, M::REG::spec_overflowing_add(g2[field_rs2(inst) as int], g2[field_rs4(inst) as int]));
    r is Ok && b.spec_registers() == g3 && only_registers_changed(a, b)
}

pub fn handle_add3a<Mac: Machine>(machine: &mut Mac, inst: Instruction) -> (r: Result<(), Error>)
    requires
        field_rd(inst) < 32,
        field_rs1(inst) < 32,
        field_rs2(inst) < 32,
        field_rs4(inst) < 32,
    ensures
        spec_handle_add3a(*old(machine), *final(machine), inst, r),
{
    let i = R5type(inst);
    let value: Mac::REG = machine.registers()[i.rd()].overflowing_add(&machine.registers()[i.rs1()]);
    update_register(machine, i.rd(), value);
    let value: Mac::REG = machine.registers()[i.rd()].lt(&machine.registers()[i.rs1()]);
    update_register(machine, i.rs2(), value);
    let value: Mac::REG = machine.registers()[i.rs2()].overflowing_add(&machine.registers()[i.rs4()]);
    update_register(machine, i.rs3(), value);
    Ok(())
}

/// Three-way add, second form: `rd = rs1 + rs2`, the carry to `rs1`, and `rs3 = rs1 + rs4`.
pub open spec fn spec_handle_add3b<M: CoreMachine>(a: M, b: M, inst: Instruction, r: Result<(), Error>) -> bool {
    let g0 = a.spec_registers();
    let g1 = spec_write_register(g0, field_rd(inst) as int, M::REG::spec_overflowing_add(g0[field_rs1(inst) as int], g0[field_rs2(inst) as int]));
    let g2 = spec_write_register(g1, field_rs1(inst) as int, M::REG::spec_lt(g1[field_rd(inst) as int], g1[field_rs1(inst) as int]));
    let g3 = spec_write_register(g2, field_rs3(inst) as int, M::REG::spec_overflowing_add(g2[field_rs1(inst) as int], g2[field_rs4(inst) as int]));
    r is Ok && b.spec_registers() == g3 && only_registers_changed(a, b)
}

pub fn handle_add3b<Mac: Machine>(machine: &mut Mac, inst: Instruction) -> (r: Result<(), Error>)
    requires
        field_rd(inst) < 32,
        field_rs1(inst) < 32,
        field_rs2(inst) < 32,
        field_rs4(inst) < 32,
    ensures
        spec_handle_add3b(*old(machine), *final(machine), inst, r),
{
    let i = R5type(inst);
    let value: Mac::REG = machine.registers()[i.rs1()].overflowing_add(&machine.registers()[i.rs2()]);
    update_register(machine, i.rd(), value);
    let value: Mac::REG = machine.registers()[i.rd()].lt(&machine.registers()[i.rs1()]);
    update_register(machine, i.rs1(), value);
    let value: Mac::REG = machine.registers()[i.rs1()].overflowing_add(&machine.registers()[i.rs4()]);
    update_register(machine, i.rs3(), value);
    Ok(())
}

/// Three-way add, third form: `rd = rs1 + rs2`, and `rs3` = the carry plus `rs4`.
pub open spec fn spec_handle_add3c<M: CoreMachine>(a: M, b: M, inst: Instruction, r: Result<(), Error>) -> bool {
    let g0 = a.spec_registers();
    let g1 = spec_write_register(g0, field_rd(inst) as int, M::REG::spec_overflowing_add(g0[field_rs1(inst) as int], g0[field_rs2(inst) as int]));
    let g2 = spec_write_register(g1, field_rs3(inst) as int, M::REG::spec_overflowing_add(M::REG::spec_lt(g1[field_rd(inst) as int], g1[field_rs1(inst) as int]), g1[field_rs4(inst) as int]));
    r is Ok && b.spec_registers() == g2 && only_registers_changed(a, b)
}

pub fn handle_add3c<Mac: Machine>(machine: &mut Mac, inst: Instruction) -> (r: Result<(), Error>)
    requires
        field_rd(inst) < 32,
        field_rs1(inst) < 32,
        field_rs2(inst) < 32,
        field_rs4(inst) < 32,
    ensures
        spec_handle_add3c(*old(machine), *final(machine), inst, r),
{
    let i = R5type(inst);
    let value: Mac::REG = machine.registers()[i.rs1()].overflowing_add(&machine.registers()[i.rs2()]);
    update_register(machine, i.rd(), value);
    let value: Mac::REG = machine.registers()[i.rd()].lt(&machine.registers()[i.rs1()]).overflowing_add(&machine.registers()[i.rs4()]);
    update_register(machine, i.rs3(), value);
    Ok(())
}

/// `rd` = the unsigned immediate.
pub open spec fn spec_handle_custom_load_uimm<M: CoreMachine>(a: M, b: M, inst: Instruction, r: Result<(), Error>) -> bool {
    r is Ok && wrote_register(a, b, field_rd(inst), M::REG::spec_from_u32((field_imm32(inst) as u32)))
}

pub fn handle_custom_load_uimm<Mac: Machine>(machine: &mut Mac, inst: Instruction) -> (r: Result<(), Error>)
    ensures
        spec_handle_custom_load_uimm(*old(machine), *final(machine), inst, r),
{
    let i = Utype(inst);
    let value: Mac::REG = Mac::REG::from_u32(i.immediate_u());
    update_register(machine, i.rd(), value);
    Ok(())
}

/// `rd` = the signed immediate.
pub open spec fn spec_handle_custom_load_imm<M: CoreMachine>(a: M, b: M, inst: Instruction, r: Result<(), Error>) -> bool {
    r is Ok && wrote_register(a, b, field_rd(inst), M::REG::spec_from_i32(field_imm32(inst)))
}

pub fn handle_custom_load_imm<Mac: Machine>(machine: &mut Mac, inst: Instruction) -> (r: Result<(), Error>)
    ensures
        spec_handle_custom_load_imm(*old(machine), *final(machine), inst, r),
{
    let i = Utype(inst);
    let value: Mac::REG = Mac::REG::from_i32(i.immediate_s());
    update_register(machine, i.rd(), value);
    Ok(())
}

/// An instruction slot that holds nothing: refused.
pub open spec fn spec_handle_unloaded<M: CoreMachine>(a: M, b: M, inst: Instruction, r: Result<(), Error>) -> bool {
    r == Err::<(), Error>(Error::InvalidOp(spec_extract_opcode(inst))) && same_machine_data(a, b)
}

pub fn handle_unloaded<Mac: Machine>(machine: &mut Mac, inst: Instruction) -> (r: Result<(), Error>)
    ensures
        spec_handle_unloaded(*old(machine), *final(machine), inst, r),
{
    handle_invalid_op(machine, inst)
}

/// A trace marker, not executable: refused.
pub open spec fn spec_handle_custom_trace_end<M: CoreMachine>(a: M, b: M, inst: Instruction, r: Result<(), Error>) -> bool {
    r == Err::<(), Error>(Error::InvalidOp(spec_extract_opcode(inst))) && same_machine_data(a, b)
}

pub fn handle_custom_trace_end<Mac: Machine>(machine: &mut Mac, inst: Instruction) -> (r: Result<(), Error>)
    ensures
        spec_handle_custom_trace_end(*old(machine), *final(machine), inst, r),
{
    handle_invalid_op(machine, inst)
}

/// A trace marker, not executable: refused.
pub open spec fn spec_handle_custom_asm_trace_jump<M: CoreMachine>(a: M, b: M, inst: Instruction, r: Result<(), Error>) -> bool {
    r == Err::<(), Error>(Error::InvalidOp(spec_extract_opcode(inst))) && same_machine_data(a, b)
}

pub fn handle_custom_asm_trace_jump<Mac: Machine>(machine: &mut Mac, inst: Instruction) -> (r: Result<(), Error>)
    ensures
        spec_handle_custom_asm_trace_jump(*old(machine), *final(machine), inst, r),
{
    handle_invalid_op(machine, inst)
}

/// The register fields that the handler of `inst`'s opcode reads are
/// register indices, below 32.
pub open spec fn spec_operands_valid(inst: Instruction) -> bool {
    let op: InstructionOpcode = spec_extract_opcode(inst);
    if op == insts::OP_SUB {
        field_rs1(inst) < 32 && field_rs2(inst) < 32
    } else if op == insts::OP_SUBW {
        field_rs1(inst) < 32 && field_rs2(inst) < 32
    } else if op == insts::OP_ADD {
        field_rs1(inst) < 32 && field_rs2(inst) < 32
    } else if op == insts::OP_ADDW {
        field_rs1(inst) < 32 && field_rs2(inst) < 32
    } else if op == insts::OP_XOR {
        field_rs1(inst) < 32 && field_rs2(inst) < 32
    } else if op == insts::OP_OR {
        field_rs1(inst) < 32 && field_rs2(inst) < 32
    } else if op == insts::OP_AND {
        field_rs1(inst) < 32 && field_rs2(inst) < 32
    } else if op == insts::OP_SLL {
        field_rs1(inst) < 32 && field_rs2(inst) < 32
    } else if op == insts::OP_SLLW {
        field_rs1(inst) < 32 && field_rs2(inst) < 32
    } else if op == insts::OP_SRL {
        field_rs1(inst) < 32 && field_rs2(inst) < 32
    } else if op == insts::OP_SRLW {
        field_rs1(inst) < 32 && field_rs2(inst) < 32
    } else if op == insts::OP_SRA {
        field_rs1(inst) < 32 && field_rs2(inst) < 32
    } else if op == insts::OP_SRAW {
        field_rs1(inst) < 32 && field_rs2(inst) < 32
    } else if op == insts::OP_SLT {
        field_rs1(inst) < 32 && field_rs2(inst) < 32
    } else if op == insts::OP_SLTU {
        field_rs1(inst) < 32 && field_rs2(inst) < 32
    } else if op == insts::OP_LB_VERSION0 {
        field_rs1(inst) < 32
    } else if op == insts::OP_LB_VERSION1 {
        field_rs1(inst) < 32
    } else if op == insts::OP_LH_VERSION0 {
        field_rs1(inst) < 32
    } else if op == insts::OP_LH_VERSION1 {
        field_rs1(inst) < 32
    } else if op == insts::OP_LW_VERSION0 {
        field_rs1(inst) < 32
    } else if op == insts::OP_LW_VERSION1 {
        field_rs1(inst) < 32
    } else if op == insts::OP_LD_VERSION0 {
        field_rs1(inst) < 32
    } else if op == insts::OP_LD_VERSION1 {
        field_rs1(inst) < 32
    } else if op == insts::OP_LBU_VERSION0 {
        field_rs1(inst) < 32
    } else if op == insts::OP_LBU_VERSION1 {
        field_rs1(inst) < 32
    } else if op == insts::OP_LHU_VERSION0 {
        field_rs1(inst) < 32
    } else if op == insts::OP_LHU_VERSION1 {
        field_rs1(inst) < 32
    } else if op == insts::OP_LWU_VERSION0 {
        field_rs1(inst) < 32
    } else if op == insts::OP_LWU_VERSION1 {
        field_rs1(inst) < 32
    } else if op == insts::OP_ADDI {
        field_rs1(inst) < 32
    } else if op == insts::OP_ADDIW {
        field_rs1(inst) < 32
    } else if op == insts::OP_XORI {
        field_rs1(inst) < 32
    } else if op == insts::OP_LR_W {
        field_rs1(inst) < 32
    } else if op == insts::OP_SC_W {
        field_rs1(inst) < 32 && field_rs2(inst) < 32
    } else if op == insts::OP_AMOSWAP_W {
        field_rs1(inst) < 32 && field_rs2(inst) < 32
    } else if op == insts::OP_AMOADD_W {
        field_rs1(inst) < 32 && field_rs2(inst) < 32
    } else if op == insts::OP_AMOXOR_W {
        field_rs1(inst) < 32 && field_rs2(inst) < 32
    } else if op == insts::OP_AMOAND_W {
        field_rs1(inst) < 32 && field_rs2(inst) < 32
    } else if op == insts::OP_AMOOR_W {
        field_rs1(inst) < 32 && field_rs2(inst) < 32
    } else if op == insts::OP_AMOMIN_W {
        field_rs1(inst) < 32 && field_rs2(inst) < 32
    } else if op == insts::OP_AMOMAX_W {
        field_rs1(inst) < 32 && field_rs2(inst) < 32
    } else if op == insts::OP_AMOMINU_W {
        field_rs1(inst) < 32 && field_rs2(inst) < 32
    } else if op == insts::OP_AMOMAXU_W {
        field_rs1(inst) < 32 && field_rs2(inst) < 32
    } else if op == insts::OP_LR_D {
        field_rs1(inst) < 32
    } else if op == insts::OP_SC_D {
        field_rs1(inst) < 32 && field_rs2(inst) < 32
    } else if op == insts::OP_AMOSWAP_D {
        field_rs1(inst) < 32 && field_rs2(inst) < 32
    } else if op == insts::OP_AMOADD_D {
        field_rs1(inst) < 32 && field_rs2(inst) < 32
    } else if op == insts::OP_AMOXOR_D {
        field_rs1(inst) < 32 && field_rs2(inst) < 32
    } else if op == insts::OP_AMOAND_D {
        field_rs1(inst) < 32 && field_rs2(inst) < 32
    } else if op == insts::OP_AMOOR_D {
        field_rs1(inst) < 32 && field_rs2(inst) < 32
    } else if op == insts::OP_AMOMIN_D {
        field_rs1(inst) < 32 && field_rs2(inst) < 32
    } else if op == insts::OP_AMOMAX_D {
        field_rs1(inst) < 32 && field_rs2(inst) < 32
    } else if op == insts::OP_AMOMINU_D {
        field_rs1(inst) < 32 && field_rs2(inst) < 32
    } else if op == insts::OP_AMOMAXU_D {
        field_rs1(inst) < 32 && field_rs2(inst) < 32
    } else if op == insts::OP_ORI {
        field_rs1(inst) < 32
    } else if op == insts::OP_ANDI {
        field_rs1(inst) < 32
    } else if op == insts::OP_SLTI {
        field_rs1(inst) < 32
    } else if op == insts::OP_SLTIU {
        field_rs1(inst) < 32
    } else if op == insts::OP_JALR_VERSION0 {
        field_rs1(inst) < 32
    } else if op == insts::OP_JALR_VERSION1 {
        field_rs1(inst) < 32
    } else if op == insts::OP_SLLI {
        field_rs1(inst) < 32
    } else if op == insts::OP_SRLI {
        field_rs1(inst) < 32
    } else if op == insts::OP_SRAI {
        field_rs1(inst) < 32
    } else if op == insts::OP_SLLIW {
        field_rs1(inst) < 32
    } else if op == insts::OP_SRLIW {
        field_rs1(inst) < 32
    } else if op == insts::OP_SRAIW {
        field_rs1(inst) < 32
    } else if op == insts::OP_SB {
        field_rs1(inst) < 32 && field_s_rs2(inst) < 32
    } else if op == insts::OP_SH {
        field_rs1(inst) < 32 && field_s_rs2(inst) < 32
    } else if op == insts::OP_SW {
        field_rs1(inst) < 32 && field_s_rs2(inst) < 32
    } else if op == insts::OP_SD {
        field_rs1(inst) < 32 && field_s_rs2(inst) < 32
    } else if op == insts::OP_BEQ {
        field_rs1(inst) < 32 && field_s_rs2(inst) < 32
    } else if op == insts::OP_BNE {
        field_rs1(inst) < 32 && field_s_rs2(inst) < 32
    } else if op == insts::OP_BLT {
        field_rs1(inst) < 32 && field_s_rs2(inst) < 32
    } else if op == insts::OP_BGE {
        field_rs1(inst) < 32 && field_s_rs2(inst) < 32
    } else if op == insts::OP_BLTU {
        field_rs1(inst) < 32 && field_s_rs2(inst) < 32
    } else if op == insts::OP_BGEU {
        field_rs1(inst) < 32 && field_s_rs2(inst) < 32
    } else if op == insts::OP_MUL {
        field_rs1(inst) < 32 && field_rs2(inst) < 32
    } else if op == insts::OP_MULW {
        field_rs1(inst) < 32 && field_rs2(inst) < 32
    } else if op == insts::OP_MULH {
        field_rs1(inst) < 32 && field_rs2(inst) < 32
    } else if op == insts::OP_MULHSU {
        field_rs1(inst) < 32 && field_rs2(inst) < 32
    } else if op == insts::OP_MULHU {
        field_rs1(inst) < 32 && field_rs2(inst) < 32
    } else if op == insts::OP_DIV {
        field_rs1(inst) < 32 && field_rs2(inst) < 32
    } else if op == insts::OP_DIVW {
        field_rs1(inst) < 32 && field_rs2(inst) < 32
    } else if op == insts::OP_DIVU {
        field_rs1(inst) < 32 && field_rs2(inst) < 32
    } else if op == insts::OP_DIVUW {
        field_rs1(inst) < 32 && field_rs2(inst) < 32
    } else if op == insts::OP_REM {
        field_rs1(inst) < 32 && field_rs2(inst) < 32
    } else if op == insts::OP_REMW {
        field_rs1(inst) < 32 && field_rs2(inst) < 32
    } else if op == insts::OP_REMU {
        field_rs1(inst) < 32 && field_rs2(inst) < 32
    } else if op == insts::OP_REMUW {
        field_rs1(inst) < 32 && field_rs2(inst) < 32
    } else if op == insts::OP_ADDUW {
        field_rs1(inst) < 32 && field_rs2(inst) < 32
    } else if op == insts::OP_ANDN {
        field_rs1(inst) < 32 && field_rs2(inst) < 32
    } else if op == insts::OP_BCLR {
        field_rs1(inst) < 32 && field_rs2(inst) < 32
    } else if op == insts::OP_BCLRI {
        field_rs1(inst) < 32
    } else if op == insts::OP_BEXT {
        field_rs1(inst) < 32 && field_rs2(inst) < 32
    } else if op == insts::OP_BEXTI {
        field_rs1(inst) < 32
    } else if op == insts::OP_BINV {
        field_rs1(inst) < 32 && field_rs2(inst) < 32
    } else if op == insts::OP_BINVI {
        field_rs1(inst) < 32
    } else if op == insts::OP_BSET {
        field_rs1(inst) < 32 && field_rs2(inst) < 32
    } else if op == insts::OP_BSETI {
        field_rs1(inst) < 32
    } else if op == insts::OP_CLMUL {
        field_rs1(inst) < 32 && field_rs2(inst) < 32
    } else if op == insts::OP_CLMULH {
        field_rs1(inst) < 32 && field_rs2(inst) < 32
    } else if op == insts::OP_CLMULR {
        field_rs1(inst) < 32 && field_rs2(inst) < 32
    } else if op == insts::OP_CLZ {
        field_rs1(inst) < 32
    } else if op == insts::OP_CLZW {
        field_rs1(inst) < 32
    } else if op == insts::OP_CPOP {
        field_rs1(inst) < 32
    } else if op == insts::OP_CPOPW {
        field_rs1(inst) < 32
    } else if op == insts::OP_CTZ {
        field_rs1(inst) < 32
    } else if op == insts::OP_CTZW {
        field_rs1(inst) < 32
    } else if op == insts::OP_MAX {
        field_rs1(inst) < 32 && field_rs2(inst) < 32
    } else if op == insts::OP_MAXU {
        field_rs1(inst) < 32 && field_rs2(inst) < 32
    } else if op == insts::OP_MIN {
        field_rs1(inst) < 32 && field_rs2(inst) < 32
    } else if op == insts::OP_MINU {
        field_rs1(inst) < 32 && field_rs2(inst) < 32
    } else if op == insts::OP_ORCB {
        field_rs1(inst) < 32
    } else if op == insts::OP_ORN {
        field_rs1(inst) < 32 && field_rs2(inst) < 32
    } else if op == insts::OP_REV8 {
        field_rs1(inst) < 32
    } else if op == insts::OP_ROL {
        field_rs1(inst) < 32 && field_rs2(inst) < 32
    } else if op == insts::OP_ROLW {
        field_rs1(inst) < 32 && field_rs2(inst) < 32
    } else if op == insts::OP_ROR {
        field_rs1(inst) < 32 && field_rs2(inst) < 32
    } else if op == insts::OP_RORI {
        field_rs1(inst) < 32
    } else if op == insts::OP_RORIW {
        field_rs1(inst) < 32
    } else if op == insts::OP_RORW {
        field_rs1(inst) < 32 && field_rs2(inst) < 32
    } else if op == insts::OP_SEXTB {
        field_rs1(inst) < 32
    } else if op == insts::OP_SEXTH {
        field_rs1(inst) < 32
    } else if op == insts::OP_SH1ADD {
        field_rs1(inst) < 32 && field_rs2(inst) < 32
    } else if op == insts::OP_SH1ADDUW {
        field_rs1(inst) < 32 && field_rs2(inst) < 32
    } else if op == insts::OP_SH2ADD {
        field_rs1(inst) < 32 && field_rs2(inst) < 32
    } else if op == insts::OP_SH2ADDUW {
        field_rs1(inst) < 32 && field_rs2(inst) < 32
    } else if op == insts::OP_SH3ADD {
        field_rs1(inst) < 32 && field_rs2(inst) < 32
    } else if op == insts::OP_SH3ADDUW {
        field_rs1(inst) < 32 && field_rs2(inst) < 32
    } else if op == insts::OP_SLLIUW {
        field_rs1(inst) < 32
    } else if op == insts::OP_XNOR {
        field_rs1(inst) < 32 && field_rs2(inst) < 32
    } else if op == insts::OP_ZEXTH {
        field_rs1(inst) < 32
    } else if op == insts::OP_WIDE_MUL {
        field_rs1(inst) < 32 && field_rs2(inst) < 32
    } else if op == insts::OP_WIDE_MULU {
        field_rs1(inst) < 32 && field_rs2(inst) < 32
    } else if op == insts::OP_WIDE_MULSU {
        field_rs1(inst) < 32 && field_rs2(inst) < 32
    } else if op == insts::OP_WIDE_DIV {
        field_rs1(inst) < 32 && field_rs2(inst) < 32
    } else if op == insts::OP_WIDE_DIVU {
        field_rs1(inst) < 32 && field_rs2(inst) < 32
    } else if op == insts::OP_ADC {
        field_rd(inst) < 32 && field_rs1(inst) < 32 && field_rs2(inst) < 32
    } else if op == insts::OP_SBB {
        field_rd(inst) < 32 && field_rs1(inst) < 32 && field_rs2(inst) < 32 && field_rs3(inst) < 32
    } else if op == insts::OP_ADCS {
        field_rs1(inst) < 32 && field_rs2(inst) < 32
    } else if op == insts::OP_SBBS {
        field_rs1(inst) < 32 && field_rs2(inst) < 32
    } else if op == insts::OP_ADD3A {
        field_rd(inst) < 32 && field_rs1(inst) < 32 && field_rs2(inst) < 32 && field_rs4(inst) < 32
    } else if op == insts::OP_ADD3B {
        field_rd(inst) < 32 && field_rs1(inst) < 32 && field_rs2(inst) < 32 && field_rs4(inst) < 32
    } else if op == insts::OP_ADD3C {
        field_rd(inst) < 32 && field_rs1(inst) < 32 && field_rs2(inst) < 32 && field_rs4(inst) < 32
    } else {
        true
    }
}
/// What executing `inst` does to machine `a`, giving `b` and the result `r`:
/// the effect of the handler of its opcode.
pub open spec fn spec_execute_instruction<M: CoreMachine>(a: M, b: M, inst: Instruction, r: Result<(), Error>) -> bool {
    let op: InstructionOpcode = spec_extract_opcode(inst);
    if op == insts::OP_SUB {
        spec_handle_sub(a, b, inst, r)
    } else if op == insts::OP_SUBW {
        spec_handle_subw(a, b, inst, r)
    } else if op == insts::OP_ADD {
        spec_handle_add(a, b, inst, r)
    } else if op == insts::OP_ADDW {
        spec_handle_addw(a, b, inst, r)
    } else if op == insts::OP_XOR {
        spec_handle_xor(a, b, inst, r)
    } else if op == insts::OP_OR {
        spec_handle_or(a, b, inst, r)
    } else if op == insts::OP_AND {
        spec_handle_and(a, b, inst, r)
    } else if op == insts::OP_SLL {
        spec_handle_sll(a, b, inst, r)
    } else if op == insts::OP_SLLW {
        spec_handle_sllw(a, b, inst, r)
    } else if op == insts::OP_SRL {
        spec_handle_srl(a, b, inst, r)
    } else if op == insts::OP_SRLW {
        spec_handle_srlw(a, b, inst, r)
    } else if op == insts::OP_SRA {
        spec_handle_sra(a, b, inst, r)
    } else if op == insts::OP_SRAW {
        spec_handle_sraw(a, b, inst, r)
    } else if op == insts::OP_SLT {
        spec_handle_slt(a, b, inst, r)
    } else if op == insts::OP_SLTU {
        spec_handle_sltu(a, b, inst, r)
    } else if op == insts::OP_LB_VERSION0 {
        spec_handle_lb_version0(a, b, inst, r)
    } else if op == insts::OP_LB_VERSION1 {
        spec_handle_lb_version1(a, b, inst, r)
    } else if op == insts::OP_LH_VERSION0 {
        spec_handle_lh_version0(a, b, inst, r)
    } else if op == insts::OP_LH_VERSION1 {
        spec_handle_lh_version1(a, b, inst, r)
    } else if op == insts::OP_LW_VERSION0 {
        spec_handle_lw_version0(a, b, inst, r)
    } else if op == insts::OP_LW_VERSION1 {
        spec_handle_lw_version1(a, b, inst, r)
    } else if op == insts::OP_LD_VERSION0 {
        spec_handle_ld_version0(a, b, inst, r)
    } else if op == insts::OP_LD_VERSION1 {
        spec_handle_ld_version1(a, b, inst, r)
    } else if op == insts::OP_LBU_VERSION0 {
        spec_handle_lbu_version0(a, b, inst, r)
    } else if op == insts::OP_LBU_VERSION1 {
        spec_handle_lbu_version1(a, b, inst, r)
    } else if op == insts::OP_LHU_VERSION0 {
        spec_handle_lhu_version0(a, b, inst, r)
    } else if op == insts::OP_LHU_VERSION1 {
        spec_handle_lhu_version1(a, b, inst, r)
    } else if op == insts::OP_LWU_VERSION0 {
        spec_handle_lwu_version0(a, b, inst, r)
    } else if op == insts::OP_LWU_VERSION1 {
        spec_handle_lwu_version1(a, b, inst, r)
    } else if op == insts::OP_ADDI {
        spec_handle_addi(a, b, inst, r)
    } else if op == insts::OP_ADDIW {
        spec_handle_addiw(a, b, inst, r)
    } else if op == insts::OP_XORI {
        spec_handle_xori(a, b, inst, r)
    } else if op == insts::OP_LR_W {
        spec_handle_lr_w(a, b, inst, r)
    } else if op == insts::OP_SC_W {
        spec_handle_sc_w(a, b, inst, r)
    } else if op == insts::OP_AMOSWAP_W {
        spec_handle_amoswap_w(a, b, inst, r)
    } else if op == insts::OP_AMOADD_W {
        spec_handle_amoadd_w(a, b, inst, r)
    } else if op == insts::OP_AMOXOR_W {
        spec_handle_amoxor_w(a, b, inst, r)
    } else if op == insts::OP_AMOAND_W {
        spec_handle_amoand_w(a, b, inst, r)
    } else if op == insts::OP_AMOOR_W {
        spec_handle_amoor_w(a, b, inst, r)
    } else if op == insts::OP_AMOMIN_W {
        spec_handle_amomin_w(a, b, inst, r)
    } else if op == insts::OP_AMOMAX_W {
        spec_handle_amomax_w(a, b, inst, r)
    } else if op == insts::OP_AMOMINU_W {
        spec_handle_amominu_w(a, b, inst, r)
    } else if op == insts::OP_AMOMAXU_W {
        spec_handle_amomaxu_w(a, b, inst, r)
    } else if op == insts::OP_LR_D {
        spec_handle_lr_d(a, b, inst, r)
    } else if op == insts::OP_SC_D {
        spec_handle_sc_d(a, b, inst, r)
    } else if op == insts::OP_AMOSWAP_D {
        spec_handle_amoswap_d(a, b, inst, r)
    } else if op == insts::OP_AMOADD_D {
        spec_handle_amoadd_d(a, b, inst, r)
    } else if op == insts::OP_AMOXOR_D {
        spec_handle_amoxor_d(a, b, inst, r)
    } else if op == insts::OP_AMOAND_D {
        spec_handle_amoand_d(a, b, inst, r)
    } else if op == insts::OP_AMOOR_D {
        spec_handle_amoor_d(a, b, inst, r)
    } else if op == insts::OP_AMOMIN_D {
        spec_handle_amomin_d(a, b, inst, r)
    } else if op == insts::OP_AMOMAX_D {
        spec_handle_amomax_d(a, b, inst, r)
    } else if op == insts::OP_AMOMINU_D {
        spec_handle_amominu_d(a, b, inst, r)
    } else if op == insts::OP_AMOMAXU_D {
        spec_handle_amomaxu_d(a, b, inst, r)
    } else if op == insts::OP_ORI {
        spec_handle_ori(a, b, inst, r)
    } else if op == insts::OP_ANDI {
        spec_handle_andi(a, b, inst, r)
    } else if op == insts::OP_SLTI {
        spec_handle_slti(a, b, inst, r)
    } else if op == insts::OP_SLTIU {
        spec_handle_sltiu(a, b, inst, r)
    } else if op == insts::OP_JALR_VERSION0 {
        spec_handle_jalr_version0(a, b, inst, r)
    } else if op == insts::OP_JALR_VERSION1 {
        spec_handle_jalr_version1(a, b, inst, r)
    } else if op == insts::OP_SLLI {
        spec_handle_slli(a, b, inst, r)
    } else if op == insts::OP_SRLI {
        spec_handle_srli(a, b, inst, r)
    } else if op == insts::OP_SRAI {
        spec_handle_srai(a, b, inst, r)
    } else if op == insts::OP_SLLIW {
        spec_handle_slliw(a, b, inst, r)
    } else if op == insts::OP_SRLIW {
        spec_handle_srliw(a, b, inst, r)
    } else if op == insts::OP_SRAIW {
        spec_handle_sraiw(a, b, inst, r)
    } else if op == insts::OP_SB {
        spec_handle_sb(a, b, inst, r)
    } else if op == insts::OP_SH {
        spec_handle_sh(a, b, inst, r)
    } else if op == insts::OP_SW {
        spec_handle_sw(a, b, inst, r)
    } else if op == insts::OP_SD {
        spec_handle_sd(a, b, inst, r)
    } else if op == insts::OP_BEQ {
        spec_handle_beq(a, b, inst, r)
    } else if op == insts::OP_BNE {
        spec_handle_bne(a, b, inst, r)
    } else if op == insts::OP_BLT {
        spec_handle_blt(a, b, inst, r)
    } else if op == insts::OP_BGE {
        spec_handle_bge(a, b, inst, r)
    } else if op == insts::OP_BLTU {
        spec_handle_bltu(a, b, inst, r)
    } else if op == insts::OP_BGEU {
        spec_handle_bgeu(a, b, inst, r)
    } else if op == insts::OP_LUI {
        spec_handle_lui(a, b, inst, r)
    } else if op == insts::OP_AUIPC {
        spec_handle_auipc(a, b, inst, r)
    } else if op == insts::OP_ECALL {
        spec_handle_ecall(a, b, inst, r)
    } else if op == insts::OP_EBREAK {
        spec_handle_ebreak(a, b, inst, r)
    } else if op == insts::OP_FENCEI {
        spec_handle_fencei(a, b, inst, r)
    } else if op == insts::OP_FENCE {
        spec_handle_fence(a, b, inst, r)
    } else if op == insts::OP_JAL {
        spec_handle_jal(a, b, inst, r)
    } else if op == insts::OP_MUL {
        spec_handle_mul(a, b, inst, r)
    } else if op == insts::OP_MULW {
        spec_handle_mulw(a, b, inst, r)
    } else if op == insts::OP_MULH {
        spec_handle_mulh(a, b, inst, r)
    } else if op == insts::OP_MULHSU {
        spec_handle_mulhsu(a, b, inst, r)
    } else if op == insts::OP_MULHU {
        spec_handle_mulhu(a, b, inst, r)
    } else if op == insts::OP_DIV {
        spec_handle_div(a, b, inst, r)
    } else if op == insts::OP_DIVW {
        spec_handle_divw(a, b, inst, r)
    } else if op == insts::OP_DIVU {
        spec_handle_divu(a, b, inst, r)
    } else if op == insts::OP_DIVUW {
        spec_handle_divuw(a, b, inst, r)
    } else if op == insts::OP_REM {
        spec_handle_rem(a, b, inst, r)
    } else if op == insts::OP_REMW {
        spec_handle_remw(a, b, inst, r)
    } else if op == insts::OP_REMU {
        spec_handle_remu(a, b, inst, r)
    } else if op == insts::OP_REMUW {
        spec_handle_remuw(a, b, inst, r)
    } else if op == insts::OP_ADDUW {
        spec_handle_adduw(a, b, inst, r)
    } else if op == insts::OP_ANDN {
        spec_handle_andn(a, b, inst, r)
    } else if op == insts::OP_BCLR {
        spec_handle_bclr(a, b, inst, r)
    } else if op == insts::OP_BCLRI {
        spec_handle_bclri(a, b, inst, r)
    } else if op == insts::OP_BEXT {
        spec_handle_bext(a, b, inst, r)
    } else if op == insts::OP_BEXTI {
        spec_handle_bexti(a, b, inst, r)
    } else if op == insts::OP_BINV {
        spec_handle_binv(a, b, inst, r)
    } else if op == insts::OP_BINVI {
        spec_handle_binvi(a, b, inst, r)
    } else if op == insts::OP_BSET {
        spec_handle_bset(a, b, inst, r)
    } else if op == insts::OP_BSETI {
        spec_handle_bseti(a, b, inst, r)
    } else if op == insts::OP_CLMUL {
        spec_handle_clmul(a, b, inst, r)
    } else if op == insts::OP_CLMULH {
        spec_handle_clmulh(a, b, inst, r)
    } else if op == insts::OP_CLMULR {
        spec_handle_clmulr(a, b, inst, r)
    } else if op == insts::OP_CLZ {
        spec_handle_clz(a, b, inst, r)
    } else if op == insts::OP_CLZW {
        spec_handle_clzw(a, b, inst, r)
    } else if op == insts::OP_CPOP {
        spec_handle_cpop(a, b, inst, r)
    } else if op == insts::OP_CPOPW {
        spec_handle_cpopw(a, b, inst, r)
    } else if op == insts::OP_CTZ {
        spec_handle_ctz(a, b, inst, r)
    } else if op == insts::OP_CTZW {
        spec_handle_ctzw(a, b, inst, r)
    } else if op == insts::OP_MAX {
        spec_handle_max(a, b, inst, r)
    } else if op == insts::OP_MAXU {
        spec_handle_maxu(a, b, inst, r)
    } else if op == insts::OP_MIN {
        spec_handle_min(a, b, inst, r)
    } else if op == insts::OP_MINU {
        spec_handle_minu(a, b, inst, r)
    } else if op == insts::OP_ORCB {
        spec_handle_orcb(a, b, inst, r)
    } else if op == insts::OP_ORN {
        spec_handle_orn(a, b, inst, r)
    } else if op == insts::OP_REV8 {
        spec_handle_rev8(a, b, inst, r)
    } else if op == insts::OP_ROL {
        spec_handle_rol(a, b, inst, r)
    } else if op == insts::OP_ROLW {
        spec_handle_rolw(a, b, inst, r)
    } else if op == insts::OP_ROR {
        spec_handle_ror(a, b, inst, r)
    } else if op == insts::OP_RORI {
        spec_handle_rori(a, b, inst, r)
    } else if op == insts::OP_RORIW {
        spec_handle_roriw(a, b, inst, r)
    } else if op == insts::OP_RORW {
        spec_handle_rorw(a, b, inst, r)
    } else if op == insts::OP_SEXTB {
        spec_handle_sextb(a, b, inst, r)
    } else if op == insts::OP_SEXTH {
        spec_handle_sexth(a, b, inst, r)
    } else if op == insts::OP_SH1ADD {
        spec_handle_sh1add(a, b, inst, r)
    } else if op == insts::OP_SH1ADDUW {
        spec_handle_sh1adduw(a, b, inst, r)
    } else if op == insts::OP_SH2ADD {
        spec_handle_sh2add(a, b, inst, r)
    } else if op == insts::OP_SH2ADDUW {
        spec_handle_sh2adduw(a, b, inst, r)
    } else if op == insts::OP_SH3ADD {
        spec_handle_sh3add(a, b, inst, r)
    } else if op == insts::OP_SH3ADDUW {
        spec_handle_sh3adduw(a, b, inst, r)
    } else if op == insts::OP_SLLIUW {
        spec_handle_slliuw(a, b, inst, r)
    } else if op == insts::OP_XNOR {
        spec_handle_xnor(a, b, inst, r)
    } else if op == insts::OP_ZEXTH {
        spec_handle_zexth(a, b, inst, r)
    } else if op == insts::OP_WIDE_MUL {
        spec_handle_wide_mul(a, b, inst, r)
    } else if op == insts::OP_WIDE_MULU {
        spec_handle_wide_mulu(a, b, inst, r)
    } else if op == insts::OP_WIDE_MULSU {
        spec_handle_wide_mulsu(a, b, inst, r)
    } else if op == insts::OP_WIDE_DIV {
        spec_handle_wide_div(a, b, inst, r)
    } else if op == insts::OP_WIDE_DIVU {
        spec_handle_wide_divu(a, b, inst, r)
    } else if op == insts::OP_FAR_JUMP_REL {
        spec_handle_far_jump_rel(a, b, inst, r)
    } else if op == insts::OP_FAR_JUMP_ABS {
        spec_handle_far_jump_abs(a, b, inst, r)
    } else if op == insts::OP_ADC {
        spec_handle_adc(a, b, inst, r)
    } else if op == insts::OP_SBB {
        spec_handle_sbb(a, b, inst, r)
    } else if op == insts::OP_ADCS {
        spec_handle_adcs(a, b, inst, r)
    } else if op == insts::OP_SBBS {
        spec_handle_sbbs(a, b, inst, r)
    } else if op == insts::OP_ADD3A {
        spec_handle_add3a(a, b, inst, r)
    } else if op == insts::OP_ADD3B {
        spec_handle_add3b(a, b, inst, r)
    } else if op == insts::OP_ADD3C {
        spec_handle_add3c(a, b, inst, r)
    } else if op == insts::OP_CUSTOM_LOAD_UIMM {
        spec_handle_custom_load_uimm(a, b, inst, r)
    } else if op == insts::OP_CUSTOM_LOAD_IMM {
        spec_handle_custom_load_imm(a, b, inst, r)
    } else if op == insts::OP_UNLOADED {
        spec_handle_unloaded(a, b, inst, r)
    } else if op == insts::OP_CUSTOM_TRACE_END {
        spec_handle_custom_trace_end(a, b, inst, r)
    } else if op == insts::OP_CUSTOM_ASM_TRACE_JUMP {
        spec_handle_custom_asm_trace_jump(a, b, inst, r)
    } else {
        spec_handle_invalid_op(a, b, inst, r)
    }
}
/// Runs the handler of `inst`'s opcode.
pub fn execute_instruction<Mac: Machine>(inst: Instruction, machine: &mut Mac) -> (r: Result<(), Error>)
    requires
        spec_operands_valid(inst),
    ensures
        spec_execute_instruction(*old(machine), *final(machine), inst, r),
{
    let op: InstructionOpcode = extract_opcode(inst);
    if op == insts::OP_SUB {
        handle_sub(machine, inst)
    } else if op == insts::OP_SUBW {
        handle_subw(machine, inst)
    } else if op == insts::OP_ADD {
        handle_add(machine, inst)
    } else if op == insts::OP_ADDW {
        handle_addw(machine, inst)
    } else if op == insts::OP_XOR {
        handle_xor(machine, inst)
    } else if op == insts::OP_OR {
        handle_or(machine, inst)
    } else if op == insts::OP_AND {
        handle_and(machine, inst)
    } else if op == insts::OP_SLL {
        handle_sll(machine, inst)
    } else if op == insts::OP_SLLW {
        handle_sllw(machine, inst)
    } else if op == insts::OP_SRL {
        handle_srl(machine, inst)
    } else if op == insts::OP_SRLW {
        handle_srlw(machine, inst)
    } else if op == insts::OP_SRA {
        handle_sra(machine, inst)
    } else if op == insts::OP_SRAW {
        handle_sraw(machine, inst)
    } else if op == insts::OP_SLT {
        handle_slt(machine, inst)
    } else if op == insts::OP_SLTU {
        handle_sltu(machine, inst)
    } else if op == insts::OP_LB_VERSION0 {
        handle_lb_version0(machine, inst)
    } else if op == insts::OP_LB_VERSION1 {
        handle_lb_version1(machine, inst)
    } else if op == insts::OP_LH_VERSION0 {
        handle_lh_version0(machine, inst)
    } else if op == insts::OP_LH_VERSION1 {
        handle_lh_version1(machine, inst)
    } else if op == insts::OP_LW_VERSION0 {
        handle_lw_version0(machine, inst)
    } else if op == insts::OP_LW_VERSION1 {
        handle_lw_version1(machine, inst)
    } else if op == insts::OP_LD_VERSION0 {
        handle_ld_version0(machine, inst)
    } else if op == insts::OP_LD_VERSION1 {
        handle_ld_version1(machine, inst)
    } else if op == insts::OP_LBU_VERSION0 {
        handle_lbu_version0(machine, inst)
    } else if op == insts::OP_LBU_VERSION1 {
        handle_lbu_version1(machine, inst)
    } else if op == insts::OP_LHU_VERSION0 {
        handle_lhu_version0(machine, inst)
    } else if op == insts::OP_LHU_VERSION1 {
        handle_lhu_version1(machine, inst)
    } else if op == insts::OP_LWU_VERSION0 {
        handle_lwu_version0(machine, inst)
    } else if op == insts::OP_LWU_VERSION1 {
        handle_lwu_version1(machine, inst)
    } else if op == insts::OP_ADDI {
        handle_addi(machine, inst)
    } else if op == insts::OP_ADDIW {
        handle_addiw(machine, inst)
    } else if op == insts::OP_XORI {
        handle_xori(machine, inst)
    } else if op == insts::OP_LR_W {
        handle_lr_w(machine, inst)
    } else if op == insts::OP_SC_W {
        handle_sc_w(machine, inst)
    } else if op == insts::OP_AMOSWAP_W {
        handle_amoswap_w(machine, inst)
    } else if op == insts::OP_AMOADD_W {
        handle_amoadd_w(machine, inst)
    } else if op == insts::OP_AMOXOR_W {
        handle_amoxor_w(machine, inst)
    } else if op == insts::OP_AMOAND_W {
        handle_amoand_w(machine, inst)
    } else if op == insts::OP_AMOOR_W {
        handle_amoor_w(machine, inst)
    } else if op == insts::OP_AMOMIN_W {
        handle_amomin_w(machine, inst)
    } else if op == insts::OP_AMOMAX_W {
        handle_amomax_w(machine, inst)
    } else if op == insts::OP_AMOMINU_W {
        handle_amominu_w(machine, inst)
    } else if op == insts::OP_AMOMAXU_W {
        handle_amomaxu_w(machine, inst)
    } else if op == insts::OP_LR_D {
        handle_lr_d(machine, inst)
    } else if op == insts::OP_SC_D {
        handle_sc_d(machine, inst)
    } else if op == insts::OP_AMOSWAP_D {
        handle_amoswap_d(machine, inst)
    } else if op == insts::OP_AMOADD_D {
        handle_amoadd_d(machine, inst)
    } else if op == insts::OP_AMOXOR_D {
        handle_amoxor_d(machine, inst)
    } else if op == insts::OP_AMOAND_D {
        handle_amoand_d(machine, inst)
    } else if op == insts::OP_AMOOR_D {
        handle_amoor_d(machine, inst)
    } else if op == insts::OP_AMOMIN_D {
        handle_amomin_d(machine, inst)
    } else if op == insts::OP_AMOMAX_D {
        handle_amomax_d(machine, inst)
    } else if op == insts::OP_AMOMINU_D {
        handle_amominu_d(machine, inst)
    } else if op == insts::OP_AMOMAXU_D {
        handle_amomaxu_d(machine, inst)
    } else if op == insts::OP_ORI {
        handle_ori(machine, inst)
    } else if op == insts::OP_ANDI {
        handle_andi(machine, inst)
    } else if op == insts::OP_SLTI {
        handle_slti(machine, inst)
    } else if op == insts::OP_SLTIU {
        handle_sltiu(machine, inst)
    } else if op == insts::OP_JALR_VERSION0 {
        handle_jalr_version0(machine, inst)
    } else if op == insts::OP_JALR_VERSION1 {
        handle_jalr_version1(machine, inst)
    } else if op == insts::OP_SLLI {
        handle_slli(machine, inst)
    } else if op == insts::OP_SRLI {
        handle_srli(machine, inst)
    } else if op == insts::OP_SRAI {
        handle_srai(machine, inst)
    } else if op == insts::OP_SLLIW {
        handle_slliw(machine, inst)
    } else if op == insts::OP_SRLIW {
        handle_srliw(machine, inst)
    } else if op == insts::OP_SRAIW {
        handle_sraiw(machine, inst)
    } else if op == insts::OP_SB {
        handle_sb(machine, inst)
    } else if op == insts::OP_SH {
        handle_sh(machine, inst)
    } else if op == insts::OP_SW {
        handle_sw(machine, inst)
    } else if op == insts::OP_SD {
        handle_sd(machine, inst)
    } else if op == insts::OP_BEQ {
        handle_beq(machine, inst)
    } else if op == insts::OP_BNE {
        handle_bne(machine, inst)
    } else if op == insts::OP_BLT {
        handle_blt(machine, inst)
    } else if op == insts::OP_BGE {
        handle_bge(machine, inst)
    } else if op == insts::OP_BLTU {
        handle_bltu(machine, inst)
    } else if op == insts::OP_BGEU {
        handle_bgeu(machine, inst)
    } else if op == insts::OP_LUI {
        handle_lui(machine, inst)
    } else if op == insts::OP_AUIPC {
        handle_auipc(machine, inst)
    } else if op == insts::OP_ECALL {
        handle_ecall(machine, inst)
    } else if op == insts::OP_EBREAK {
        handle_ebreak(machine, inst)
    } else if op == insts::OP_FENCEI {
        handle_fencei(machine, inst)
    } else if op == insts::OP_FENCE {
        handle_fence(machine, inst)
    } else if op == insts::OP_JAL {
        handle_jal(machine, inst)
    } else if op == insts::OP_MUL {
        handle_mul(machine, inst)
    } else if op == insts::OP_MULW {
        handle_mulw(machine, inst)
    } else if op == insts::OP_MULH {
        handle_mulh(machine, inst)
    } else if op == insts::OP_MULHSU {
        handle_mulhsu(machine, inst)
    } else if op == insts::OP_MULHU {
        handle_mulhu(machine, inst)
    } else if op == insts::OP_DIV {
        handle_div(machine, inst)
    } else if op == insts::OP_DIVW {
        handle_divw(machine, inst)
    } else if op == insts::OP_DIVU {
        handle_divu(machine, inst)
    } else if op == insts::OP_DIVUW {
        handle_divuw(machine, inst)
    } else if op == insts::OP_REM {
        handle_rem(machine, inst)
    } else if op == insts::OP_REMW {
        handle_remw(machine, inst)
    } else if op == insts::OP_REMU {
        handle_remu(machine, inst)
    } else if op == insts::OP_REMUW {
        handle_remuw(machine, inst)
    } else if op == insts::OP_ADDUW {
        handle_adduw(machine, inst)
    } else if op == insts::OP_ANDN {
        handle_andn(machine, inst)
    } else if op == insts::OP_BCLR {
        handle_bclr(machine, inst)
    } else if op == insts::OP_BCLRI {
        handle_bclri(machine, inst)
    } else if op == insts::OP_BEXT {
        handle_bext(machine, inst)
    } else if op == insts::OP_BEXTI {
        handle_bexti(machine, inst)
    } else if op == insts::OP_BINV {
        handle_binv(machine, inst)
    } else if op == insts::OP_BINVI {
        handle_binvi(machine, inst)
    } else if op == insts::OP_BSET {
        handle_bset(machine, inst)
    } else if op == insts::OP_BSETI {
        handle_bseti(machine, inst)
    } else if op == insts::OP_CLMUL {
        handle_clmul(machine, inst)
    } else if op == insts::OP_CLMULH {
        handle_clmulh(machine, inst)
    } else if op == insts::OP_CLMULR {
        handle_clmulr(machine, inst)
    } else if op == insts::OP_CLZ {
        handle_clz(machine, inst)
    } else if op == insts::OP_CLZW {
        handle_clzw(machine, inst)
    } else if op == insts::OP_CPOP {
        handle_cpop(machine, inst)
    } else if op == insts::OP_CPOPW {
        handle_cpopw(machine, inst)
    } else if op == insts::OP_CTZ {
        handle_ctz(machine, inst)
    } else if op == insts::OP_CTZW {
        handle_ctzw(machine, inst)
    } else if op == insts::OP_MAX {
        handle_max(machine, inst)
    } else if op == insts::OP_MAXU {
        handle_maxu(machine, inst)
    } else if op == insts::OP_MIN {
        handle_min(machine, inst)
    } else if op == insts::OP_MINU {
        handle_minu(machine, inst)
    } else if op == insts::OP_ORCB {
        handle_orcb(machine, inst)
    } else if op == insts::OP_ORN {
        handle_orn(machine, inst)
    } else if op == insts::OP_REV8 {
        handle_rev8(machine, inst)
    } else if op == insts::OP_ROL {
        handle_rol(machine, inst)
    } else if op == insts::OP_ROLW {
        handle_rolw(machine, inst)
    } else if op == insts::OP_ROR {
        handle_ror(machine, inst)
    } else if op == insts::OP_RORI {
        handle_rori(machine, inst)
    } else if op == insts::OP_RORIW {
        handle_roriw(machine, inst)
    } else if op == insts::OP_RORW {
        handle_rorw(machine, inst)
    } else if op == insts::OP_SEXTB {
        handle_sextb(machine, inst)
    } else if op == insts::OP_SEXTH {
        handle_sexth(machine, inst)
    } else if op == insts::OP_SH1ADD {
        handle_sh1add(machine, inst)
    } else if op == insts::OP_SH1ADDUW {
        handle_sh1adduw(machine, inst)
    } else if op == insts::OP_SH2ADD {
        handle_sh2add(machine, inst)
    } else if op == insts::OP_SH2ADDUW {
        handle_sh2adduw(machine, inst)
    } else if op == insts::OP_SH3ADD {
        handle_sh3add(machine, inst)
    } else if op == insts::OP_SH3ADDUW {
        handle_sh3adduw(machine, inst)
    } else if op == insts::OP_SLLIUW {
        handle_slliuw(machine, inst)
    } else if op == insts::OP_XNOR {
        handle_xnor(machine, inst)
    } else if op == insts::OP_ZEXTH {
        handle_zexth(machine, inst)
    } else if op == insts::OP_WIDE_MUL {
        handle_wide_mul(machine, inst)
    } else if op == insts::OP_WIDE_MULU {
        handle_wide_mulu(machine, inst)
    } else if op == insts::OP_WIDE_MULSU {
        handle_wide_mulsu(machine, inst)
    } else if op == insts::OP_WIDE_DIV {
        handle_wide_div(machine, inst)
    } else if op == insts::OP_WIDE_DIVU {
        handle_wide_divu(machine, inst)
    } else if op == insts::OP_FAR_JUMP_REL {
        handle_far_jump_rel(machine, inst)
    } else if op == insts::OP_FAR_JUMP_ABS {
        handle_far_jump_abs(machine, inst)
    } else if op == insts::OP_ADC {
        handle_adc(machine, inst)
    } else if op == insts::OP_SBB {
        handle_sbb(machine, inst)
    } else if op == insts::OP_ADCS {
        handle_adcs(machine, inst)
    } else if op == insts::OP_SBBS {
        handle_sbbs(machine, inst)
    } else if op == insts::OP_ADD3A {
        handle_add3a(machine, inst)
    } else if op == insts::OP_ADD3B {
        handle_add3b(machine, inst)
    } else if op == insts::OP_ADD3C {
        handle_add3c(machine, inst)
    } else if op == insts::OP_CUSTOM_LOAD_UIMM {
        handle_custom_load_uimm(machine, inst)
    } else if op == insts::OP_CUSTOM_LOAD_IMM {
        handle_custom_load_imm(machine, inst)
    } else if op == insts::OP_UNLOADED {
        handle_unloaded(machine, inst)
    } else if op == insts::OP_CUSTOM_TRACE_END {
        handle_custom_trace_end(machine, inst)
    } else if op == insts::OP_CUSTOM_ASM_TRACE_JUMP {
        handle_custom_asm_trace_jump(machine, inst)
    } else {
        handle_invalid_op(machine, inst)
    }
}
/// What `execute` does to machine `a`, giving `b` and the result `r`: the
/// address of the next instruction is set past `inst`, the handler of its
/// opcode runs, and the program counter moves to the next address, whether
/// or not the handler succeeded.
pub open spec fn spec_execute<M: CoreMachine>(a: M, b: M, inst: Instruction, r: Result<(), Error>) -> bool {
    exists|m1: M, m2: M|
        {
            &&& m1.spec_next_pc() == M::REG::spec_overflowing_add(
                a.spec_pc(),
                M::REG::spec_from_u8(spec_instruction_length(inst)),
            )
            &&& m1.spec_pc() == a.spec_pc()
            &&& m1.spec_registers() == a.spec_registers()
            &&& m1.spec_memory() == a.spec_memory()
            &&& m1.spec_version() == a.spec_version()
            &&& m1.spec_isa() == a.spec_isa()
            &&& #[trigger] spec_execute_instruction(m1, m2, inst, r)
            &&& b.spec_pc() == m2.spec_next_pc()
            &&& b.spec_next_pc() == m2.spec_next_pc()
            &&& b.spec_registers() == m2.spec_registers()
            &&& b.spec_memory() == m2.spec_memory()
            &&& b.spec_version() == m2.spec_version()
            &&& b.spec_isa() == m2.spec_isa()
        }
}

/// Executes one decoded instruction: the program counter ends at the
/// address that the instruction chose, by default the one right after it.
pub fn execute<Mac: Machine>(inst: Instruction, machine: &mut Mac) -> (r: Result<(), Error>)
    requires
        spec_operands_valid(inst),
    ensures
        spec_execute(*old(machine), *final(machine), inst, r),
{
    let instruction_size: u8 = instruction_length(inst);
    let next_pc: Mac::REG = machine.pc().overflowing_add(&Mac::REG::from_u8(instruction_size));
    machine.update_pc(next_pc);
    let ghost m1 = *machine;
    let r: Result<(), Error> = execute_instruction(inst, machine);
    let ghost m2 = *machine;
    machine.commit_pc();
    assert(spec_execute_instruction(m1, m2, inst, r));
    r
}

/// The opcodes that choose the next address themselves, or hand control to
/// the machine's own implementation.
pub open spec fn spec_transfers_control(op: InstructionOpcode) -> bool {
    ||| op == insts::OP_JAL
    ||| op == insts::OP_JALR_VERSION0
    ||| op == insts::OP_JALR_VERSION1
    ||| op == insts::OP_BEQ
    ||| op == insts::OP_BNE
    ||| op == insts::OP_BLT
    ||| op == insts::OP_BGE
    ||| op == insts::OP_BLTU
    ||| op == insts::OP_BGEU
    ||| op == insts::OP_FAR_JUMP_REL
    ||| op == insts::OP_FAR_JUMP_ABS
    ||| op == insts::OP_ECALL
    ||| op == insts::OP_EBREAK
}

/// A register write never touches x0, and keeps the register count.
pub broadcast proof fn lemma_write_register_keeps_x0<R>(regs: Seq<R>, index: int, value: R)
    requires
        regs.len() == 32,
    ensures
        (#[trigger] spec_write_register(regs, index, value))[0] == regs[0],
        spec_write_register(regs, index, value).len() == 32,
{
}

/// Every instruction but a jump, a branch, a system call or a breakpoint
/// leaves the program counter right after itself, whether it succeeds or
/// fails.
pub proof fn lemma_execute_advances_pc<M: CoreMachine>(a: M, b: M, inst: Instruction, r: Result<(), Error>)
    requires
        spec_execute(a, b, inst, r),
        !spec_transfers_control(spec_extract_opcode(inst)),
    ensures
        b.spec_pc() == M::REG::spec_overflowing_add(
            a.spec_pc(),
            M::REG::spec_from_u8(spec_instruction_length(inst)),
        ),
{
    let (m1, m2) = choose|m1: M, m2: M|
        {
            &&& m1.spec_next_pc() == M::REG::spec_overflowing_add(
                a.spec_pc(),
                M::REG::spec_from_u8(spec_instruction_length(inst)),
            )
            &&& m1.spec_pc() == a.spec_pc()
            &&& m1.spec_registers() == a.spec_registers()
            &&& m1.spec_memory() == a.spec_memory()
            &&& m1.spec_version() == a.spec_version()
            &&& m1.spec_isa() == a.spec_isa()
            &&& #[trigger] spec_execute_instruction(m1, m2, inst, r)
            &&& b.spec_pc() == m2.spec_next_pc()
            &&& b.spec_next_pc() == m2.spec_next_pc()
            &&& b.spec_registers() == m2.spec_registers()
            &&& b.spec_memory() == m2.spec_memory()
            &&& b.spec_version() == m2.spec_version()
            &&& b.spec_isa() == m2.spec_isa()
        };
    assert(m2.spec_next_pc() == m1.spec_next_pc());
}

/// No instruction but a system call or a breakpoint, which the machine's
/// own implementation runs, changes register x0: where it reads zero, it
/// keeps reading zero.
pub proof fn lemma_execute_keeps_x0<M: CoreMachine>(a: M, b: M, inst: Instruction, r: Result<(), Error>)
    requires
        spec_execute(a, b, inst, r),
        spec_extract_opcode(inst) != insts::OP_ECALL,
        spec_extract_opcode(inst) != insts::OP_EBREAK,
    ensures
        b.spec_registers()[0] == a.spec_registers()[0],
{
    broadcast use lemma_write_register_keeps_x0;

    a.lemma_registers_len();
    let (m1, m2) = choose|m1: M, m2: M|
        {
            &&& m1.spec_next_pc() == M::REG::spec_overflowing_add(
                a.spec_pc(),
                M::REG::spec_from_u8(spec_instruction_length(inst)),
            )
            &&& m1.spec_pc() == a.spec_pc()
            &&& m1.spec_registers() == a.spec_registers()
            &&& m1.spec_memory() == a.spec_memory()
            &&& m1.spec_version() == a.spec_version()
            &&& m1.spec_isa() == a.spec_isa()
            &&& #[trigger] spec_execute_instruction(m1, m2, inst, r)
            &&& b.spec_pc() == m2.spec_next_pc()
            &&& b.spec_next_pc() == m2.spec_next_pc()
            &&& b.spec_registers() == m2.spec_registers()
            &&& b.spec_memory() == m2.spec_memory()
            &&& b.spec_version() == m2.spec_version()
            &&& b.spec_isa() == m2.spec_isa()
        };
    assert(m2.spec_registers()[0] == m1.spec_registers()[0]);
}

/// Whether a conditional branch with opcode `op` is taken on the values
/// `x` and `y` of its two registers, read as RISC-V reads them: BEQ and BNE
/// compare for equality, BLT and BGE as signed 64 bit numbers, BLTU and
/// BGEU as unsigned ones.
pub open spec fn branch_taken_64(op: InstructionOpcode, x: u64, y: u64) -> bool {
    if op == insts::OP_BEQ {
        x == y
    } else if op == insts::OP_BNE {
        x != y
    } else if op == insts::OP_BLT {
        (x as i64) < (y as i64)
    } else if op == insts::OP_BGE {
        (x as i64) >= (y as i64)
    } else if op == insts::OP_BLTU {
        x < y
    } else {
        x >= y
    }
}

/// A conditional branch on 64 bit registers goes to `pc + imm` (modulo
/// 2^64) exactly when its comparison of the two source registers holds, and
/// otherwise to the instruction after it; it changes no register and no
/// memory, and succeeds.
pub proof fn lemma_branch_64<M: CoreMachine<REG = u64>>(a: M, b: M, inst: Instruction, r: Result<(), Error>)
    requires
        spec_execute(a, b, inst, r),
        ({
            let op = spec_extract_opcode(inst);
            op == insts::OP_BEQ || op == insts::OP_BNE || op == insts::OP_BLT || op == insts::OP_BGE
                || op == insts::OP_BLTU || op == insts::OP_BGEU
        }),
    ensures
        r is Ok,
        b.spec_registers() == a.spec_registers(),
        b.spec_memory() == a.spec_memory(),
        b.spec_pc() as int == if branch_taken_64(
            spec_extract_opcode(inst),
            a.spec_registers()[field_rs1(inst) as int],
            a.spec_registers()[field_s_rs2(inst) as int],
        ) {
            ((field_imm40(inst) as u64) as int + a.spec_pc() as int) % 0x1_0000_0000_0000_0000
        } else {
            (spec_instruction_length(inst) as int + a.spec_pc() as int) % 0x1_0000_0000_0000_0000
        },
{
    let (m1, m2) = lemma_execute_unpack(a, b, inst, r);
}

/// What a register-register operation with opcode `op` computes from the
/// values `x` and `y` of its two source registers on 64 bit registers,
/// read as RISC-V reads them: sums, differences and products modulo 2^64,
/// shifts by the low six bits of `y`, comparisons signed or unsigned, the
/// high halves of full products, and division rounding toward zero, with
/// all ones for a zero divisor and the dividend back where a signed
/// division overflows (the remainder then being the dividend, or zero).
pub open spec fn register_op_64(op: InstructionOpcode, x: u64, y: u64) -> int {
    let m: int = 0x1_0000_0000_0000_0000;
    let sx: int = signed64(x);
    let sy: int = signed64(y);
    let q: int = (abs(sx) / abs(sy)) as int;
    let tq: int = if (sx < 0) != (sy < 0) { -q } else { q };
    if op == insts::OP_ADD {
        (x + y) % m
    } else if op == insts::OP_SUB {
        (x - y) % m
    } else if op == insts::OP_XOR {
        (x ^ y) as int
    } else if op == insts::OP_OR {
        (x | y) as int
    } else if op == insts::OP_AND {
        (x & y) as int
    } else if op == insts::OP_SLL {
        (x << (y & 63)) as int
    } else if op == insts::OP_SRL {
        (x >> (y & 63)) as int
    } else if op == insts::OP_SRA {
        (((x as i64) >> (y & 63)) as u64) as int
    } else if op == insts::OP_SLT {
        if (x as i64) < (y as i64) { 1 } else { 0 }
    } else if op == insts::OP_SLTU {
        if x < y { 1 } else { 0 }
    } else if op == insts::OP_MUL {
        (x * y) % m
    } else if op == insts::OP_MULHU {
        ((x * y) / m) % m
    } else if op == insts::OP_MULH {
        ((sx * sy) / m) % m
    } else if op == insts::OP_MULHSU {
        ((sx * y) / m) % m
    } else if op == insts::OP_DIVU {
        if y == 0 { m - 1 } else { (x / y) as int }
    } else if op == insts::OP_REMU {
        if y == 0 { x as int } else { (x % y) as int }
    } else if op == insts::OP_DIV {
        if y == 0 {
            m - 1
        } else if sx == -0x8000_0000_0000_0000 && sy == -1 {
            x as int
        } else {
            tq % m
        }
    } else {
        if y == 0 {
            x as int
        } else if sx == -0x8000_0000_0000_0000 && sy == -1 {
            0
        } else {
            (sx - sy * tq) % m
        }
    }
}

/// A register-register operation of the base and multiplication sets on 64
/// bit registers writes `register_op_64` of its two source registers to its
/// destination (a write to x0 is dropped), changes nothing else but the
/// program counter, and succeeds.
#[verifier::rlimit(80)]
pub proof fn lemma_register_op_64<M: CoreMachine<REG = u64>>(a: M, b: M, inst: Instruction, r: Result<(), Error>)
    requires
        spec_execute(a, b, inst, r),
        ({
            let op = spec_extract_opcode(inst);
            op == insts::OP_ADD || op == insts::OP_SUB || op == insts::OP_XOR || op == insts::OP_OR
                || op == insts::OP_AND || op == insts::OP_SLL || op == insts::OP_SRL || op
                == insts::OP_SRA || op == insts::OP_SLT || op == insts::OP_SLTU || op
                == insts::OP_MUL || op == insts::OP_MULHU || op == insts::OP_MULH || op
                == insts::OP_MULHSU || op == insts::OP_DIVU || op == insts::OP_REMU || op
                == insts::OP_DIV || op == insts::OP_REM
        }),
    ensures
        r is Ok,
        b.spec_memory() == a.spec_memory(),
        b.spec_registers() == spec_write_register(
            a.spec_registers(),
            field_rd(inst) as int,
            register_op_64(
                spec_extract_opcode(inst),
                a.spec_registers()[field_rs1(inst) as int],
                a.spec_registers()[field_rs2(inst) as int],
            ) as u64,
        ),
{
    let (m1, m2) = lemma_execute_unpack(a, b, inst, r);
    let op = spec_extract_opcode(inst);
    let x = a.spec_registers()[field_rs1(inst) as int];
    let y = a.spec_registers()[field_rs2(inst) as int];
    let v = register_op_64(op, x, y);
    lemma_and_63(y);
    lemma_u64_bits();
    if op == insts::OP_ADD {
        assert(v as u64 == <u64 as Register>::spec_overflowing_add(x, y));
        assert(b.spec_registers() == spec_write_register(a.spec_registers(), field_rd(inst) as int, v as u64));

    } else if op == insts::OP_SUB {
        assert(v as u64 == <u64 as Register>::spec_overflowing_sub(x, y));
        assert(b.spec_registers() == spec_write_register(a.spec_registers(), field_rd(inst) as int, v as u64));
    } else if op == insts::OP_MUL {
        assert(v as u64 == <u64 as Register>::spec_overflowing_mul(x, y));
        assert(b.spec_registers() == spec_write_register(a.spec_registers(), field_rd(inst) as int, v as u64));
    } else if op == insts::OP_MULHU {
        assert(v as u64 == <u64 as Register>::spec_overflowing_mul_high_unsigned(x, y));
        assert(b.spec_registers() == spec_write_register(a.spec_registers(), field_rd(inst) as int, v as u64));
    } else if op == insts::OP_MULH {
        assert(v as u64 == <u64 as Register>::spec_overflowing_mul_high_signed(x, y));
        assert(b.spec_registers() == spec_write_register(a.spec_registers(), field_rd(inst) as int, v as u64));
    } else if op == insts::OP_MULHSU {
        assert(v as u64 == <u64 as Register>::spec_overflowing_mul_high_signed_unsigned(x, y));
        assert(b.spec_registers() == spec_write_register(a.spec_registers(), field_rd(inst) as int, v as u64));
    } else if op == insts::OP_DIVU {
        assert(v as u64 == <u64 as Register>::spec_overflowing_div(x, y));
        assert(b.spec_registers() == spec_write_register(a.spec_registers(), field_rd(inst) as int, v as u64));
    } else if op == insts::OP_REMU {
        assert(v as u64 == <u64 as Register>::spec_overflowing_rem(x, y));
        assert(b.spec_registers() == spec_write_register(a.spec_registers(), field_rd(inst) as int, v as u64));
    } else if op == insts::OP_DIV {
        assert(v as u64 == <u64 as Register>::spec_overflowing_div_signed(x, y));
        assert(b.spec_registers() == spec_write_register(a.spec_registers(), field_rd(inst) as int, v as u64));
    } else if op == insts::OP_REM {
        assert(v as u64 == <u64 as Register>::spec_overflowing_rem_signed(x, y));
        assert(b.spec_registers() == spec_write_register(a.spec_registers(), field_rd(inst) as int, v as u64));
    } else if op == insts::OP_SLL {
        assert(v as u64 == <u64 as Register>::spec_shl(x, y & 63));
        assert(b.spec_registers() == spec_write_register(a.spec_registers(), field_rd(inst) as int, v as u64));
    } else if op == insts::OP_SRL {
        assert(v as u64 == <u64 as Register>::spec_shr(x, y & 63));
        assert(b.spec_registers() == spec_write_register(a.spec_registers(), field_rd(inst) as int, v as u64));
    } else if op == insts::OP_SRA {
        assert(v as u64 == <u64 as Register>::spec_signed_shr(x, y & 63));
        assert(b.spec_registers() == spec_write_register(a.spec_registers(), field_rd(inst) as int, v as u64));
    } else if op == insts::OP_XOR {
        assert(v as u64 == x ^ y);
        assert(b.spec_registers() == spec_write_register(a.spec_registers(), field_rd(inst) as int, v as u64));
    } else if op == insts::OP_OR {
        assert(v as u64 == x | y);
        assert(b.spec_registers() == spec_write_register(a.spec_registers(), field_rd(inst) as int, v as u64));
    } else if op == insts::OP_AND {
        assert(v as u64 == x & y);
        assert(b.spec_registers() == spec_write_register(a.spec_registers(), field_rd(inst) as int, v as u64));
    } else if op == insts::OP_SLT {
        assert(v as u64 == <u64 as Register>::spec_lt_s(x, y));
        assert(b.spec_registers() == spec_write_register(a.spec_registers(), field_rd(inst) as int, v as u64));
    } else {
        assert(v as u64 == <u64 as Register>::spec_lt(x, y));
        assert(b.spec_registers() == spec_write_register(a.spec_registers(), field_rd(inst) as int, v as u64));
    }
}

/// What a register-immediate operation with opcode `op` computes from the
/// value `x` of its source register and its immediate `imm`, sign-extended
/// to 64 bits, on 64 bit registers: the sum modulo 2^64, the signed and
/// unsigned comparisons, the bitwise operations, and shifts by the low six
/// bits of the immediate.
pub open spec fn immediate_op_64(op: InstructionOpcode, x: u64, imm: i32) -> int {
    let y: u64 = imm as u64;
    if op == insts::OP_ADDI {
        (x + y) % 0x1_0000_0000_0000_0000
    } else if op == insts::OP_SLTI {
        if (x as i64) < (y as i64) { 1 } else { 0 }
    } else if op == insts::OP_SLTIU {
        if x < y { 1 } else { 0 }
    } else if op == insts::OP_XORI {
        (x ^ y) as int
    } else if op == insts::OP_ORI {
        (x | y) as int
    } else if op == insts::OP_ANDI {
        (x & y) as int
    } else if op == insts::OP_SLLI {
        (x << ((imm as u32 as u64) & 63)) as int
    } else if op == insts::OP_SRLI {
        (x >> ((imm as u32 as u64) & 63)) as int
    } else {
        (((x as i64) >> ((imm as u32 as u64) & 63)) as u64) as int
    }
}

/// A register-immediate operation of the base set on 64 bit registers
/// writes `immediate_op_64` of its source register and immediate to its
/// destination (a write to x0 is dropped), changes no memory, and succeeds.
#[verifier::rlimit(80)]
pub proof fn lemma_immediate_op_64<M: CoreMachine<REG = u64>>(
    a: M,
    b: M,
    inst: Instruction,
    r: Result<(), Error>,
)
    requires
        spec_execute(a, b, inst, r),
        ({
            let op = spec_extract_opcode(inst);
            op == insts::OP_ADDI || op == insts::OP_SLTI || op == insts::OP_SLTIU || op
                == insts::OP_XORI || op == insts::OP_ORI || op == insts::OP_ANDI || op
                == insts::OP_SLLI || op == insts::OP_SRLI || op == insts::OP_SRAI
        }),
    ensures
        r is Ok,
        b.spec_memory() == a.spec_memory(),
        b.spec_registers() == spec_write_register(
            a.spec_registers(),
            field_rd(inst) as int,
            immediate_op_64(
                spec_extract_opcode(inst),
                a.spec_registers()[field_rs1(inst) as int],
                field_imm40(inst),
            ) as u64,
        ),
{
    let (m1, m2) = lemma_execute_unpack(a, b, inst, r);
    let op = spec_extract_opcode(inst);
    let x = a.spec_registers()[field_rs1(inst) as int];
    let v = immediate_op_64(op, x, field_imm40(inst));
    let rd = field_rd(inst) as int;
    lemma_and_63(field_imm40(inst) as u32 as u64);
    if op == insts::OP_ADDI {
        assert(b.spec_registers() == spec_write_register(a.spec_registers(), rd, v as u64));
    } else if op == insts::OP_SLTI {
        assert(b.spec_registers() == spec_write_register(a.spec_registers(), rd, v as u64));
    } else if op == insts::OP_SLTIU {
        assert(b.spec_registers() == spec_write_register(a.spec_registers(), rd, v as u64));
    } else if op == insts::OP_XORI {
        assert(b.spec_registers() == spec_write_register(a.spec_registers(), rd, v as u64));
    } else if op == insts::OP_ORI {
        assert(b.spec_registers() == spec_write_register(a.spec_registers(), rd, v as u64));
    } else if op == insts::OP_ANDI {
        assert(b.spec_registers() == spec_write_register(a.spec_registers(), rd, v as u64));
    } else if op == insts::OP_SLLI {
        assert(b.spec_registers() == spec_write_register(a.spec_registers(), rd, v as u64));
    } else if op == insts::OP_SRLI {
        assert(b.spec_registers() == spec_write_register(a.spec_registers(), rd, v as u64));
    } else {
        assert(b.spec_registers() == spec_write_register(a.spec_registers(), rd, v as u64));
    }
}

/// How many bytes a load with opcode `op` reads: one for LB and LBU, two
/// for LH and LHU, four for LW and LWU, eight for LD.
pub open spec fn load_width(op: InstructionOpcode) -> nat {
    if op == insts::OP_LB_VERSION1 || op == insts::OP_LBU_VERSION1 {
        1
    } else if op == insts::OP_LH_VERSION1 || op == insts::OP_LHU_VERSION1 {
        2
    } else if op == insts::OP_LW_VERSION1 || op == insts::OP_LWU_VERSION1 {
        4
    } else {
        8
    }
}

/// Whether a load with opcode `op` extends the sign of what it reads: LB,
/// LH, LW and LD do (for LD, on 64 bits, there is nothing to extend); LBU,
/// LHU and LWU do not.
pub open spec fn load_is_signed(op: InstructionOpcode) -> bool {
    op == insts::OP_LB_VERSION1 || op == insts::OP_LH_VERSION1 || op == insts::OP_LW_VERSION1
        || op == insts::OP_LD_VERSION1
}

/// What a load of `n` bytes does on 64 bit registers, from its handler's
/// effect, where it succeeds.
proof fn lemma_load_effect_64<M: CoreMachine<REG = u64>>(
    a: M,
    b: M,
    m1: M,
    m2: M,
    inst: Instruction,
    r: Result<(), Error>,
    n: nat,
    signed: bool,
)
    requires
        r is Ok,
        1 <= n <= 8,
        spec_load_effect(m1, m2, r, field_rd(inst), field_rs1(inst), field_imm40(inst), false, n, signed),
        m1.spec_registers() == a.spec_registers(),
        m1.spec_memory() == a.spec_memory(),
        b.spec_registers() == m2.spec_registers(),
        b.spec_memory() == m2.spec_memory(),
    ensures
        b.spec_memory() == a.spec_memory(),
        ({
            let addr: int = (a.spec_registers()[field_rs1(inst) as int] as int + (field_imm40(
                inst,
            ) as u64) as int) % 0x1_0000_0000_0000_0000;
            exists|v: u64|
                {
                    &&& #[trigger] a.spec_memory().spec_load(addr as u64, n) == Ok::<u64, Error>(v)
                    &&& b.spec_registers() == spec_write_register(
                        a.spec_registers(),
                        field_rd(inst) as int,
                        if signed {
                            <u64 as Register>::spec_sign_extend(v, (8 * n) as u64)
                        } else {
                            v
                        },
                    )
                }
        }),
{
    let addr64: u64 = spec_effective_address(m1, field_rs1(inst), field_imm40(inst));
    assert(addr64 as int == (a.spec_registers()[field_rs1(inst) as int] as int + (field_imm40(inst)
        as u64) as int) % 0x1_0000_0000_0000_0000);
    assert((8 * n) as u8 as u64 == (8 * n) as u64);
    if let Ok(v) = a.spec_memory().spec_load(addr64, n) {
        assert(a.spec_memory().spec_load(addr64, n) == Ok::<u64, Error>(v));
    }
}

/// A load of the later versions on 64 bit registers that succeeds reads
/// `load_width` bytes at `rs1 + imm` (modulo 2^64) and writes them to its
/// destination, sign-extended from their top bit for LB, LH, LW and LD and
/// as they are for LBU, LHU and LWU (a write to x0 is dropped); it changes
/// no memory.
pub proof fn lemma_load_64<M: CoreMachine<REG = u64>>(a: M, b: M, inst: Instruction, r: Result<(), Error>)
    requires
        spec_execute(a, b, inst, r),
        r is Ok,
        ({
            let op = spec_extract_opcode(inst);
            op == insts::OP_LB_VERSION1 || op == insts::OP_LBU_VERSION1 || op == insts::OP_LH_VERSION1
                || op == insts::OP_LHU_VERSION1 || op == insts::OP_LW_VERSION1 || op
                == insts::OP_LWU_VERSION1 || op == insts::OP_LD_VERSION1
        }),
    ensures
        b.spec_memory() == a.spec_memory(),
        ({
            let op = spec_extract_opcode(inst);
            let addr: int = (a.spec_registers()[field_rs1(inst) as int] as int + (field_imm40(
                inst,
            ) as u64) as int) % 0x1_0000_0000_0000_0000;
            exists|v: u64|
                {
                    &&& #[trigger] a.spec_memory().spec_load(addr as u64, load_width(op)) == Ok::<
                        u64,
                        Error,
                    >(v)
                    &&& b.spec_registers() == spec_write_register(
                        a.spec_registers(),
                        field_rd(inst) as int,
                        if load_is_signed(op) {
                            <u64 as Register>::spec_sign_extend(v, (8 * load_width(op)) as u64)
                        } else {
                            v
                        },
                    )
                }
        }),
{
    let (m1, m2) = lemma_execute_unpack(a, b, inst, r);
    let op = spec_extract_opcode(inst);
    if op == insts::OP_LB_VERSION1 {
        lemma_load_effect_64(a, b, m1, m2, inst, r, 1, true);
    } else if op == insts::OP_LBU_VERSION1 {
        lemma_load_effect_64(a, b, m1, m2, inst, r, 1, false);
    } else if op == insts::OP_LH_VERSION1 {
        lemma_load_effect_64(a, b, m1, m2, inst, r, 2, true);
    } else if op == insts::OP_LHU_VERSION1 {
        lemma_load_effect_64(a, b, m1, m2, inst, r, 2, false);
    } else if op == insts::OP_LW_VERSION1 {
        lemma_load_effect_64(a, b, m1, m2, inst, r, 4, true);
    } else if op == insts::OP_LWU_VERSION1 {
        lemma_load_effect_64(a, b, m1, m2, inst, r, 4, false);
    } else {
        lemma_load_effect_64(a, b, m1, m2, inst, r, 8, true);
    }
}

/// How many bytes a store with opcode `op` writes: one for SB, two for SH,
/// four for SW, eight for SD.
pub open spec fn store_width(op: InstructionOpcode) -> nat {
    if op == insts::OP_SB {
        1
    } else if op == insts::OP_SH {
        2
    } else if op == insts::OP_SW {
        4
    } else {
        8
    }
}

/// What a store of `n` bytes does on 64 bit registers, from its handler's
/// effect.
proof fn lemma_store_effect_64<M: CoreMachine<REG = u64>>(
    a: M,
    b: M,
    m1: M,
    m2: M,
    inst: Instruction,
    r: Result<(), Error>,
    n: nat,
)
    requires
        spec_store_effect(m1, m2, r, field_rs1(inst), field_s_rs2(inst), field_imm40(inst), n),
        m1.spec_registers() == a.spec_registers(),
        m1.spec_memory() == a.spec_memory(),
        b.spec_registers() == m2.spec_registers(),
        b.spec_memory() == m2.spec_memory(),
    ensures
        b.spec_registers() == a.spec_registers(),
        ({
            let addr: int = (a.spec_registers()[field_rs1(inst) as int] as int + (field_imm40(
                inst,
            ) as u64) as int) % 0x1_0000_0000_0000_0000;
            match a.spec_memory().spec_store(
                addr as u64,
                n,
                a.spec_registers()[field_s_rs2(inst) as int],
            ) {
                Ok(m) => r is Ok && b.spec_memory() == m,
                Err(e) => r == Err::<(), Error>(e) && b.spec_memory() == a.spec_memory(),
            }
        }),
{
    let addr64: u64 = spec_effective_address(m1, field_rs1(inst), field_imm40(inst));
    assert(addr64 as int == (a.spec_registers()[field_rs1(inst) as int] as int + (field_imm40(inst)
        as u64) as int) % 0x1_0000_0000_0000_0000);
}

/// A store on 64 bit registers writes the low `store_width` bytes of its
/// second source register at `rs1 + imm` (modulo 2^64), as the memory's
/// store of that many bytes does, or fails as that store fails; it changes
/// no register.
pub proof fn lemma_store_64<M: CoreMachine<REG = u64>>(a: M, b: M, inst: Instruction, r: Result<(), Error>)
    requires
        spec_execute(a, b, inst, r),
        ({
            let op = spec_extract_opcode(inst);
            op == insts::OP_SB || op == insts::OP_SH || op == insts::OP_SW || op == insts::OP_SD
        }),
    ensures
        b.spec_registers() == a.spec_registers(),
        ({
            let addr: int = (a.spec_registers()[field_rs1(inst) as int] as int + (field_imm40(
                inst,
            ) as u64) as int) % 0x1_0000_0000_0000_0000;
            match a.spec_memory().spec_store(
                addr as u64,
                store_width(spec_extract_opcode(inst)),
                a.spec_registers()[field_s_rs2(inst) as int],
            ) {
                Ok(m) => r is Ok && b.spec_memory() == m,
                Err(e) => r == Err::<(), Error>(e) && b.spec_memory() == a.spec_memory(),
            }
        }),
{
    let (m1, m2) = lemma_execute_unpack(a, b, inst, r);
    let op = spec_extract_opcode(inst);
    if op == insts::OP_SB {
        lemma_store_effect_64(a, b, m1, m2, inst, r, 1);
    } else if op == insts::OP_SH {
        lemma_store_effect_64(a, b, m1, m2, inst, r, 2);
    } else if op == insts::OP_SW {
        lemma_store_effect_64(a, b, m1, m2, inst, r, 4);
    } else {
        lemma_store_effect_64(a, b, m1, m2, inst, r, 8);
    }
}

/// The jumps on 64 bit registers: JAL goes to `pc + imm` and JALR to
/// `(rs1 + imm)` with its lowest bit cleared, `rs1` read before anything is
/// written; both write the address of the next instruction, `pc + length`,
/// to their destination (a write to x0 is dropped), change no memory, and
/// succeed. Sums are modulo 2^64.
pub proof fn lemma_jump_64<M: CoreMachine<REG = u64>>(a: M, b: M, inst: Instruction, r: Result<(), Error>)
    requires
        spec_execute(a, b, inst, r),
        spec_extract_opcode(inst) == insts::OP_JAL || spec_extract_opcode(inst)
            == insts::OP_JALR_VERSION1,
    ensures
        r is Ok,
        b.spec_memory() == a.spec_memory(),
        b.spec_registers() == spec_write_register(
            a.spec_registers(),
            field_rd(inst) as int,
            ((a.spec_pc() as int + spec_instruction_length(inst) as int) % 0x1_0000_0000_0000_0000) as u64,
        ),
        spec_extract_opcode(inst) == insts::OP_JAL ==> b.spec_pc() as int == (a.spec_pc() as int + (
        field_imm32(inst) as u64) as int) % 0x1_0000_0000_0000_0000,
        spec_extract_opcode(inst) == insts::OP_JALR_VERSION1 ==> b.spec_pc() == ((((a.spec_registers()[
        field_rs1(inst) as int] as int + (field_imm40(inst) as u64) as int) % 0x1_0000_0000_0000_0000)
            as u64) & !1u64),
{
    let (m1, m2) = lemma_execute_unpack(a, b, inst, r);
}

/// The low word of `w` with its sign extended to 64 bits.
pub open spec fn sign_extend_word(w: u64) -> u64 {
    (w as u32 as i32) as i64 as u64
}

/// What a word operation of the 64 bit base and multiplication sets with
/// opcode `op` computes from the values `x` and `y` of its two source
/// registers: the 32 bit sum, difference or product, or the shift of the
/// low word by the low five bits of `y`, with the sign of the resulting
/// word extended to 64 bits.
pub open spec fn word_op_64(op: InstructionOpcode, x: u64, y: u64) -> u64 {
    let m: int = 0x1_0000_0000_0000_0000;
    if op == insts::OP_ADDW {
        sign_extend_word(((x + y) % m) as u64)
    } else if op == insts::OP_SUBW {
        sign_extend_word(((x - y) % m) as u64)
    } else if op == insts::OP_MULW {
        sign_extend_word((((x & 0xffff_ffff) * (y & 0xffff_ffff)) % m) as u64)
    } else if op == insts::OP_SLLW {
        sign_extend_word(x << (y & 31))
    } else if op == insts::OP_SRLW {
        sign_extend_word((x & 0xffff_ffff) >> (y & 31))
    } else {
        sign_extend_word(((sign_extend_word(x) as i64) >> (y & 31)) as u64)
    }
}

/// A word operation on 64 bit registers writes `word_op_64` of its two
/// source registers to its destination (a write to x0 is dropped), changes
/// no memory, and succeeds.
#[verifier::rlimit(80)]
pub proof fn lemma_word_op_64<M: CoreMachine<REG = u64>>(a: M, b: M, inst: Instruction, r: Result<(), Error>)
    requires
        spec_execute(a, b, inst, r),
        ({
            let op = spec_extract_opcode(inst);
            op == insts::OP_ADDW || op == insts::OP_SUBW || op == insts::OP_MULW || op
                == insts::OP_SLLW || op == insts::OP_SRLW || op == insts::OP_SRAW
        }),
    ensures
        r is Ok,
        b.spec_memory() == a.spec_memory(),
        b.spec_registers() == spec_write_register(
            a.spec_registers(),
            field_rd(inst) as int,
            word_op_64(
                spec_extract_opcode(inst),
                a.spec_registers()[field_rs1(inst) as int],
                a.spec_registers()[field_rs2(inst) as int],
            ),
        ),
{
    let (m1, m2) = lemma_execute_unpack(a, b, inst, r);
    let op = spec_extract_opcode(inst);
    let x = a.spec_registers()[field_rs1(inst) as int];
    let y = a.spec_registers()[field_rs2(inst) as int];
    let rd = field_rd(inst) as int;
    let v = word_op_64(op, x, y);
    lemma_and_63(y);
    lemma_u64_extend_word(x);
    lemma_u64_extend_word(y);
    if op == insts::OP_ADDW {
        lemma_u64_extend_word(<u64 as Register>::spec_overflowing_add(x, y));
        assert(b.spec_registers() == spec_write_register(a.spec_registers(), rd, v));
    } else if op == insts::OP_SUBW {
        lemma_u64_extend_word(<u64 as Register>::spec_overflowing_sub(x, y));
        assert(b.spec_registers() == spec_write_register(a.spec_registers(), rd, v));
    } else if op == insts::OP_MULW {
        lemma_u64_extend_word(<u64 as Register>::spec_overflowing_mul(x & 0xffff_ffff, y & 0xffff_ffff));
        assert(b.spec_registers() == spec_write_register(a.spec_registers(), rd, v));
    } else if op == insts::OP_SLLW {
        lemma_u64_extend_word(x << (y & 31));
        assert(b.spec_registers() == spec_write_register(a.spec_registers(), rd, v));
    } else if op == insts::OP_SRLW {
        lemma_u64_extend_word((x & 0xffff_ffff) >> (y & 31));
        assert(b.spec_registers() == spec_write_register(a.spec_registers(), rd, v));
    } else {
        lemma_u64_extend_word(((sign_extend_word(x) as i64) >> (y & 31)) as u64);
        assert(b.spec_registers() == spec_write_register(a.spec_registers(), rd, v));
    }
}

/// ADDIW on 64 bit registers writes the 32 bit sum of its source register
/// and its immediate, with the sign of that word extended to 64 bits.
pub proof fn lemma_addiw_64<M: CoreMachine<REG = u64>>(a: M, b: M, inst: Instruction, r: Result<(), Error>)
    requires
        spec_execute(a, b, inst, r),
        spec_extract_opcode(inst) == insts::OP_ADDIW,
    ensures
        r is Ok,
        b.spec_memory() == a.spec_memory(),
        b.spec_registers() == spec_write_register(
            a.spec_registers(),
            field_rd(inst) as int,
            sign_extend_word(
                ((a.spec_registers()[field_rs1(inst) as int] as int + (field_imm40(inst) as u64) as int)
                    % 0x1_0000_0000_0000_0000) as u64,
            ),
        ),
{
    let (m1, m2) = lemma_execute_unpack(a, b, inst, r);
    let x = a.spec_registers()[field_rs1(inst) as int];
    lemma_u64_extend_word(<u64 as Register>::spec_overflowing_add(x, field_imm40(inst) as u64));
}

/// What a register-register operation of the bit manipulation set with
/// opcode `op` computes from the values `x` and `y` of its two source
/// registers on 64 bit registers: AND, OR or XOR with the complement of
/// `y`, the signed and unsigned minimum and maximum, `x` shifted left by
/// one, two or three added to `y` (modulo 2^64), the bit of `x` that the
/// low six bits of `y` number cleared, set, flipped or extracted, and `x`
/// rotated by the low six bits of `y`.
pub open spec fn bit_op_64(op: InstructionOpcode, x: u64, y: u64) -> u64 {
    let m: int = 0x1_0000_0000_0000_0000;
    let bit: u64 = 1u64 << (y & 63);
    if op == insts::OP_ANDN {
        x & !y
    } else if op == insts::OP_ORN {
        x | !y
    } else if op == insts::OP_XNOR {
        x ^ !y
    } else if op == insts::OP_MIN {
        if (x as i64) < (y as i64) { x } else { y }
    } else if op == insts::OP_MINU {
        if x < y { x } else { y }
    } else if op == insts::OP_MAX {
        if (x as i64) < (y as i64) { y } else { x }
    } else if op == insts::OP_MAXU {
        if x < y { y } else { x }
    } else if op == insts::OP_SH1ADD {
        (((x << 1u64) + y) % m) as u64
    } else if op == insts::OP_SH2ADD {
        (((x << 2u64) + y) % m) as u64
    } else if op == insts::OP_SH3ADD {
        (((x << 3u64) + y) % m) as u64
    } else if op == insts::OP_BCLR {
        x & !bit
    } else if op == insts::OP_BSET {
        x | bit
    } else if op == insts::OP_BINV {
        x ^ bit
    } else if op == insts::OP_BEXT {
        1u64 & (x >> (y & 63))
    } else if op == insts::OP_ROL {
        <u64 as Register>::spec_rol(x, y & 63)
    } else {
        <u64 as Register>::spec_ror(x, y & 63)
    }
}

/// A register-register operation of the bit manipulation set on 64 bit
/// registers writes `bit_op_64` of its two source registers to its
/// destination (a write to x0 is dropped), changes no memory, and succeeds.
#[verifier::rlimit(80)]
pub proof fn lemma_bit_op_64<M: CoreMachine<REG = u64>>(a: M, b: M, inst: Instruction, r: Result<(), Error>)
    requires
        spec_execute(a, b, inst, r),
        ({
            let op = spec_extract_opcode(inst);
            op == insts::OP_ANDN || op == insts::OP_ORN || op == insts::OP_XNOR || op == insts::OP_MIN
                || op == insts::OP_MINU || op == insts::OP_MAX || op == insts::OP_MAXU || op
                == insts::OP_SH1ADD || op == insts::OP_SH2ADD || op == insts::OP_SH3ADD || op
                == insts::OP_BCLR || op == insts::OP_BSET || op == insts::OP_BINV || op
                == insts::OP_BEXT || op == insts::OP_ROL || op == insts::OP_ROR
        }),
    ensures
        r is Ok,
        b.spec_memory() == a.spec_memory(),
        b.spec_registers() == spec_write_register(
            a.spec_registers(),
            field_rd(inst) as int,
            bit_op_64(
                spec_extract_opcode(inst),
                a.spec_registers()[field_rs1(inst) as int],
                a.spec_registers()[field_rs2(inst) as int],
            ),
        ),
{
    let (m1, m2) = lemma_execute_unpack(a, b, inst, r);
    let op = spec_extract_opcode(inst);
    let x = a.spec_registers()[field_rs1(inst) as int];
    let y = a.spec_registers()[field_rs2(inst) as int];
    let rd = field_rd(inst) as int;
    let v = bit_op_64(op, x, y);
    lemma_and_63(y);
    lemma_and_63(1);
    lemma_and_63(2);
    lemma_and_63(3);
    lemma_u64_bits();
    if op == insts::OP_ANDN {
        assert(b.spec_registers() == spec_write_register(a.spec_registers(), rd, v));
    } else if op == insts::OP_ORN {
        assert(b.spec_registers() == spec_write_register(a.spec_registers(), rd, v));
    } else if op == insts::OP_XNOR {
        assert(b.spec_registers() == spec_write_register(a.spec_registers(), rd, v));
    } else if op == insts::OP_MIN {
        assert(b.spec_registers() == spec_write_register(a.spec_registers(), rd, v));
    } else if op == insts::OP_MINU {
        assert(b.spec_registers() == spec_write_register(a.spec_registers(), rd, v));
    } else if op == insts::OP_MAX {
        assert(b.spec_registers() == spec_write_register(a.spec_registers(), rd, v));
    } else if op == insts::OP_MAXU {
        assert(b.spec_registers() == spec_write_register(a.spec_registers(), rd, v));
    } else if op == insts::OP_SH1ADD {
        assert(b.spec_registers() == spec_write_register(a.spec_registers(), rd, v));
    } else if op == insts::OP_SH2ADD {
        assert(b.spec_registers() == spec_write_register(a.spec_registers(), rd, v));
    } else if op == insts::OP_SH3ADD {
        assert(b.spec_registers() == spec_write_register(a.spec_registers(), rd, v));
    } else if op == insts::OP_BCLR {
        assert(b.spec_registers() == spec_write_register(a.spec_registers(), rd, v));
    } else if op == insts::OP_BSET {
        assert(b.spec_registers() == spec_write_register(a.spec_registers(), rd, v));
    } else if op == insts::OP_BINV {
        assert(b.spec_registers() == spec_write_register(a.spec_registers(), rd, v));
    } else if op == insts::OP_BEXT {
        assert(b.spec_registers() == spec_write_register(a.spec_registers(), rd, v));
    } else if op == insts::OP_ROL {
        assert(b.spec_registers() == spec_write_register(a.spec_registers(), rd, v));
    } else {
        assert(b.spec_registers() == spec_write_register(a.spec_registers(), rd, v));
    }
}

/// What running `inst` on `a` goes through: the next address is set past
/// `inst` (in `m.0`), its handler runs (to `m.1`), and the program counter
/// moves to the address the handler chose.
pub proof fn lemma_execute_unpack<M: CoreMachine>(a: M, b: M, inst: Instruction, r: Result<(), Error>) -> (m: (M, M))
    requires
        spec_execute(a, b, inst, r),
    ensures
        m.0.spec_next_pc() == M::REG::spec_overflowing_add(
            a.spec_pc(),
            M::REG::spec_from_u8(spec_instruction_length(inst)),
        ),
        m.0.spec_pc() == a.spec_pc(),
        m.0.spec_registers() == a.spec_registers(),
        m.0.spec_memory() == a.spec_memory(),
        spec_execute_instruction(m.0, m.1, inst, r),
        b.spec_pc() == m.1.spec_next_pc(),
        b.spec_registers() == m.1.spec_registers(),
        b.spec_memory() == m.1.spec_memory(),
{
    choose|m1: M, m2: M|
        {
            &&& m1.spec_next_pc() == M::REG::spec_overflowing_add(
                a.spec_pc(),
                M::REG::spec_from_u8(spec_instruction_length(inst)),
            )
            &&& m1.spec_pc() == a.spec_pc()
            &&& m1.spec_registers() == a.spec_registers()
            &&& m1.spec_memory() == a.spec_memory()
            &&& m1.spec_version() == a.spec_version()
            &&& m1.spec_isa() == a.spec_isa()
            &&& #[trigger] spec_execute_instruction(m1, m2, inst, r)
            &&& b.spec_pc() == m2.spec_next_pc()
            &&& b.spec_next_pc() == m2.spec_next_pc()
            &&& b.spec_registers() == m2.spec_registers()
            &&& b.spec_memory() == m2.spec_memory()
            &&& b.spec_version() == m2.spec_version()
            &&& b.spec_isa() == m2.spec_isa()
        }
}

} // verus!
