//! Cycle costs of instructions, as charged by the machine.
use vstd::prelude::*;
use crate::definitions::instructions as insts;
use super::{extract_opcode, spec_extract_opcode, Instruction, InstructionOpcode};
use crate::cost_model::{
    is_division_op, is_doubleword_access_op, is_multiplication_op, is_system_op, is_transfer_op,
};

verus! {

/// The cost of an opcode: loads, stores, branches and jumps cost 2 or 3,
/// multiplications 5, divisions 32, system calls and breakpoints 500, and
/// all else 1. Both versions of a load or a jump cost the same.
pub open spec fn spec_instruction_cycles(op: InstructionOpcode) -> u64 {
    if op == insts::OP_JALR_VERSION0 {
        3
    } else if op == insts::OP_JALR_VERSION1 {
        3
    } else if op == insts::OP_LD_VERSION0 {
        2
    } else if op == insts::OP_LD_VERSION1 {
        2
    } else if op == insts::OP_LW_VERSION0 {
        3
    } else if op == insts::OP_LW_VERSION1 {
        3
    } else if op == insts::OP_LH_VERSION0 {
        3
    } else if op == insts::OP_LH_VERSION1 {
        3
    } else if op == insts::OP_LB_VERSION0 {
        3
    } else if op == insts::OP_LB_VERSION1 {
        3
    } else if op == insts::OP_LWU_VERSION0 {
        3
    } else if op == insts::OP_LWU_VERSION1 {
        3
    } else if op == insts::OP_LHU_VERSION0 {
        3
    } else if op == insts::OP_LHU_VERSION1 {
        3
    } else if op == insts::OP_LBU_VERSION0 {
        3
    } else if op == insts::OP_LBU_VERSION1 {
        3
    } else if op == insts::OP_SB {
        3
    } else if op == insts::OP_SH {
        3
    } else if op == insts::OP_SW {
        3
    } else if op == insts::OP_SD {
        2
    } else if op == insts::OP_BEQ {
        3
    } else if op == insts::OP_BGE {
        3
    } else if op == insts::OP_BGEU {
        3
    } else if op == insts::OP_BLT {
        3
    } else if op == insts::OP_BLTU {
        3
    } else if op == insts::OP_BNE {
        3
    } else if op == insts::OP_EBREAK {
        500
    } else if op == insts::OP_ECALL {
        500
    } else if op == insts::OP_JAL {
        3
    } else if op == insts::OP_MUL {
        5
    } else if op == insts::OP_MULW {
        5
    } else if op == insts::OP_MULH {
        5
    } else if op == insts::OP_MULHU {
        5
    } else if op == insts::OP_MULHSU {
        5
    } else if op == insts::OP_DIV {
        32
    } else if op == insts::OP_DIVW {
        32
    } else if op == insts::OP_DIVU {
        32
    } else if op == insts::OP_DIVUW {
        32
    } else if op == insts::OP_REM {
        32
    } else if op == insts::OP_REMW {
        32
    } else if op == insts::OP_REMU {
        32
    } else if op == insts::OP_REMUW {
        32
    } else if op == insts::OP_WIDE_MUL {
        5
    } else if op == insts::OP_WIDE_MULU {
        5
    } else if op == insts::OP_WIDE_MULSU {
        5
    } else if op == insts::OP_WIDE_DIV {
        32
    } else if op == insts::OP_WIDE_DIVU {
        32
    } else if op == insts::OP_FAR_JUMP_REL {
        3
    } else if op == insts::OP_FAR_JUMP_ABS {
        3
    } else {
        1
    }
}

/// The cycles that executing `i` costs. The vector length `vl`, element
/// width `sew` and `skip_counting` weigh vector instructions only, which
/// this opcode table does not have.
pub fn instruction_cycles(i: Instruction, vl: u64, sew: u64, skip_counting: bool) -> (r: u64)
    ensures
        r == spec_instruction_cycles(spec_extract_opcode(i)),
{
    let op: InstructionOpcode = extract_opcode(i);
    if op == insts::OP_JALR_VERSION0 {
        3
    } else if op == insts::OP_JALR_VERSION1 {
        3
    } else if op == insts::OP_LD_VERSION0 {
        2
    } else if op == insts::OP_LD_VERSION1 {
        2
    } else if op == insts::OP_LW_VERSION0 {
        3
    } else if op == insts::OP_LW_VERSION1 {
        3
    } else if op == insts::OP_LH_VERSION0 {
        3
    } else if op == insts::OP_LH_VERSION1 {
        3
    } else if op == insts::OP_LB_VERSION0 {
        3
    } else if op == insts::OP_LB_VERSION1 {
        3
    } else if op == insts::OP_LWU_VERSION0 {
        3
    } else if op == insts::OP_LWU_VERSION1 {
        3
    } else if op == insts::OP_LHU_VERSION0 {
        3
    } else if op == insts::OP_LHU_VERSION1 {
        3
    } else if op == insts::OP_LBU_VERSION0 {
        3
    } else if op == insts::OP_LBU_VERSION1 {
        3
    } else if op == insts::OP_SB {
        3
    } else if op == insts::OP_SH {
        3
    } else if op == insts::OP_SW {
        3
    } else if op == insts::OP_SD {
        2
    } else if op == insts::OP_BEQ {
        3
    } else if op == insts::OP_BGE {
        3
    } else if op == insts::OP_BGEU {
        3
    } else if op == insts::OP_BLT {
        3
    } else if op == insts::OP_BLTU {
        3
    } else if op == insts::OP_BNE {
        3
    } else if op == insts::OP_EBREAK {
        500
    } else if op == insts::OP_ECALL {
        500
    } else if op == insts::OP_JAL {
        3
    } else if op == insts::OP_MUL {
        5
    } else if op == insts::OP_MULW {
        5
    } else if op == insts::OP_MULH {
        5
    } else if op == insts::OP_MULHU {
        5
    } else if op == insts::OP_MULHSU {
        5
    } else if op == insts::OP_DIV {
        32
    } else if op == insts::OP_DIVW {
        32
    } else if op == insts::OP_DIVU {
        32
    } else if op == insts::OP_DIVUW {
        32
    } else if op == insts::OP_REM {
        32
    } else if op == insts::OP_REMW {
        32
    } else if op == insts::OP_REMU {
        32
    } else if op == insts::OP_REMUW {
        32
    } else if op == insts::OP_WIDE_MUL {
        5
    } else if op == insts::OP_WIDE_MULU {
        5
    } else if op == insts::OP_WIDE_MULSU {
        5
    } else if op == insts::OP_WIDE_DIV {
        32
    } else if op == insts::OP_WIDE_DIVU {
        32
    } else if op == insts::OP_FAR_JUMP_REL {
        3
    } else if op == insts::OP_FAR_JUMP_ABS {
        3
    } else {
        1
    }
}


/// The costs the machine charges by kind of instruction: system calls and
/// breakpoints 500 cycles, divisions and remainders 32, multiplications 5,
/// doubleword loads and stores 2, the other loads, stores, branches and
/// jumps 3, and every other instruction (atomic ones among them) 1.
pub proof fn lemma_instruction_cycles_by_kind(i: Instruction)
    ensures
        is_system_op(spec_extract_opcode(i)) ==> spec_instruction_cycles(spec_extract_opcode(i)) == 500,
        is_division_op(spec_extract_opcode(i)) ==> spec_instruction_cycles(spec_extract_opcode(i)) == 32,
        is_multiplication_op(spec_extract_opcode(i)) ==> spec_instruction_cycles(spec_extract_opcode(i))
            == 5,
        is_doubleword_access_op(spec_extract_opcode(i)) ==> spec_instruction_cycles(
            spec_extract_opcode(i),
        ) == 2,
        is_transfer_op(spec_extract_opcode(i)) ==> spec_instruction_cycles(spec_extract_opcode(i)) == 3,
        !(is_system_op(spec_extract_opcode(i)) || is_division_op(spec_extract_opcode(i))
            || is_multiplication_op(spec_extract_opcode(i)) || is_doubleword_access_op(
            spec_extract_opcode(i),
        ) || is_transfer_op(spec_extract_opcode(i))) ==> spec_instruction_cycles(
            spec_extract_opcode(i),
        ) == 1,
{
}

} // verus!
