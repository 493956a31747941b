//! Cycle costs of instructions.
use vstd::prelude::*;
use crate::definitions::instructions as insts;
use crate::instructions::{extract_opcode, spec_extract_opcode, Instruction, InstructionOpcode};

verus! {

/// One cycle for every instruction; handy in tests, where the count of
/// cycles is the count of instructions run.
pub fn constant_cycles(_i: Instruction) -> (r: u64)
    ensures
        r == 1,
{
    1
}

/// The estimated cost of an opcode, from the speed of hardware: loads,
/// stores, branches and jumps cost 2 or 3, multiplications 5, divisions 32,
/// system calls and breakpoints 500, atomics 3 to 7, all else 1.
pub open spec fn spec_estimate_cycles(op: InstructionOpcode) -> u64 {
    if op == insts::OP_JALR_VERSION0 {
        3
    } else if op == insts::OP_JALR_VERSION1 {
        3
    } else if op == insts::OP_LD_VERSION0 {
        2
    } else if op == insts::OP_LD_VERSION1 {
        2
    } else if op == insts::OP_LW_VERSION0 {
        3
    } else if op == insts::OP_LW_VERSION1 {
        3
    } else if op == insts::OP_LH_VERSION0 {
        3
    } else if op == insts::OP_LH_VERSION1 {
        3
    } else if op == insts::OP_LB_VERSION0 {
        3
    } else if op == insts::OP_LB_VERSION1 {
        3
    } else if op == insts::OP_LWU_VERSION0 {
        3
    } else if op == insts::OP_LWU_VERSION1 {
        3
    } else if op == insts::OP_LHU_VERSION0 {
        3
    } else if op == insts::OP_LHU_VERSION1 {
        3
    } else if op == insts::OP_LBU_VERSION0 {
        3
    } else if op == insts::OP_LBU_VERSION1 {
        3
    } else if op == insts::OP_SB {
        3
    } else if op == insts::OP_SH {
        3
    } else if op == insts::OP_SW {
        3
    } else if op == insts::OP_SD {
        2
    } else if op == insts::OP_BEQ {
        3
    } else if op == insts::OP_BGE {
        3
    } else if op == insts::OP_BGEU {
        3
    } else if op == insts::OP_BLT {
        3
    } else if op == insts::OP_BLTU {
        3
    } else if op == insts::OP_BNE {
        3
    } else if op == insts::OP_EBREAK {
        500
    } else if op == insts::OP_ECALL {
        500
    } else if op == insts::OP_JAL {
        3
    } else if op == insts::OP_MUL {
        5
    } else if op == insts::OP_MULW {
        5
    } else if op == insts::OP_MULH {
        5
    } else if op == insts::OP_MULHU {
        5
    } else if op == insts::OP_MULHSU {
        5
    } else if op == insts::OP_DIV {
        32
    } else if op == insts::OP_DIVW {
        32
    } else if op == insts::OP_DIVU {
        32
    } else if op == insts::OP_DIVUW {
        32
    } else if op == insts::OP_REM {
        32
    } else if op == insts::OP_REMW {
        32
    } else if op == insts::OP_REMU {
        32
    } else if op == insts::OP_REMUW {
        32
    } else if op == insts::OP_LR_W {
        4
    } else if op == insts::OP_SC_W {
        4
    } else if op == insts::OP_AMOSWAP_W {
        7
    } else if op == insts::OP_AMOADD_W {
        7
    } else if op == insts::OP_AMOXOR_W {
        7
    } else if op == insts::OP_AMOAND_W {
        7
    } else if op == insts::OP_AMOOR_W {
        7
    } else if op == insts::OP_AMOMIN_W {
        7
    } else if op == insts::OP_AMOMAX_W {
        7
    } else if op == insts::OP_AMOMINU_W {
        7
    } else if op == insts::OP_AMOMAXU_W {
        7
    } else if op == insts::OP_LR_D {
        3
    } else if op == insts::OP_SC_D {
        3
    } else if op == insts::OP_AMOSWAP_D {
        5
    } else if op == insts::OP_AMOADD_D {
        5
    } else if op == insts::OP_AMOXOR_D {
        5
    } else if op == insts::OP_AMOAND_D {
        5
    } else if op == insts::OP_AMOOR_D {
        5
    } else if op == insts::OP_AMOMIN_D {
        5
    } else if op == insts::OP_AMOMAX_D {
        5
    } else if op == insts::OP_AMOMINU_D {
        5
    } else if op == insts::OP_AMOMAXU_D {
        5
    } else if op == insts::OP_WIDE_MUL {
        5
    } else if op == insts::OP_WIDE_MULU {
        5
    } else if op == insts::OP_WIDE_MULSU {
        5
    } else if op == insts::OP_WIDE_DIV {
        32
    } else if op == insts::OP_WIDE_DIVU {
        32
    } else if op == insts::OP_FAR_JUMP_REL {
        3
    } else if op == insts::OP_FAR_JUMP_ABS {
        3
    } else {
        1
    }
}

/// The estimated cost of an instruction.
pub fn estimate_cycles(i: Instruction) -> (r: u64)
    ensures
        r == spec_estimate_cycles(spec_extract_opcode(i)),
{
    let op: InstructionOpcode = extract_opcode(i);
    if op == insts::OP_JALR_VERSION0 {
        3
    } else if op == insts::OP_JALR_VERSION1 {
        3
    } else if op == insts::OP_LD_VERSION0 {
        2
    } else if op == insts::OP_LD_VERSION1 {
        2
    } else if op == insts::OP_LW_VERSION0 {
        3
    } else if op == insts::OP_LW_VERSION1 {
        3
    } else if op == insts::OP_LH_VERSION0 {
        3
    } else if op == insts::OP_LH_VERSION1 {
        3
    } else if op == insts::OP_LB_VERSION0 {
        3
    } else if op == insts::OP_LB_VERSION1 {
        3
    } else if op == insts::OP_LWU_VERSION0 {
        3
    } else if op == insts::OP_LWU_VERSION1 {
        3
    } else if op == insts::OP_LHU_VERSION0 {
        3
    } else if op == insts::OP_LHU_VERSION1 {
        3
    } else if op == insts::OP_LBU_VERSION0 {
        3
    } else if op == insts::OP_LBU_VERSION1 {
        3
    } else if op == insts::OP_SB {
        3
    } else if op == insts::OP_SH {
        3
    } else if op == insts::OP_SW {
        3
    } else if op == insts::OP_SD {
        2
    } else if op == insts::OP_BEQ {
        3
    } else if op == insts::OP_BGE {
        3
    } else if op == insts::OP_BGEU {
        3
    } else if op == insts::OP_BLT {
        3
    } else if op == insts::OP_BLTU {
        3
    } else if op == insts::OP_BNE {
        3
    } else if op == insts::OP_EBREAK {
        500
    } else if op == insts::OP_ECALL {
        500
    } else if op == insts::OP_JAL {
        3
    } else if op == insts::OP_MUL {
        5
    } else if op == insts::OP_MULW {
        5
    } else if op == insts::OP_MULH {
        5
    } else if op == insts::OP_MULHU {
        5
    } else if op == insts::OP_MULHSU {
        5
    } else if op == insts::OP_DIV {
        32
    } else if op == insts::OP_DIVW {
        32
    } else if op == insts::OP_DIVU {
        32
    } else if op == insts::OP_DIVUW {
        32
    } else if op == insts::OP_REM {
        32
    } else if op == insts::OP_REMW {
        32
    } else if op == insts::OP_REMU {
        32
    } else if op == insts::OP_REMUW {
        32
    } else if op == insts::OP_LR_W {
        4
    } else if op == insts::OP_SC_W {
        4
    } else if op == insts::OP_AMOSWAP_W {
        7
    } else if op == insts::OP_AMOADD_W {
        7
    } else if op == insts::OP_AMOXOR_W {
        7
    } else if op == insts::OP_AMOAND_W {
        7
    } else if op == insts::OP_AMOOR_W {
        7
    } else if op == insts::OP_AMOMIN_W {
        7
    } else if op == insts::OP_AMOMAX_W {
        7
    } else if op == insts::OP_AMOMINU_W {
        7
    } else if op == insts::OP_AMOMAXU_W {
        7
    } else if op == insts::OP_LR_D {
        3
    } else if op == insts::OP_SC_D {
        3
    } else if op == insts::OP_AMOSWAP_D {
        5
    } else if op == insts::OP_AMOADD_D {
        5
    } else if op == insts::OP_AMOXOR_D {
        5
    } else if op == insts::OP_AMOAND_D {
        5
    } else if op == insts::OP_AMOOR_D {
        5
    } else if op == insts::OP_AMOMIN_D {
        5
    } else if op == insts::OP_AMOMAX_D {
        5
    } else if op == insts::OP_AMOMINU_D {
        5
    } else if op == insts::OP_AMOMAXU_D {
        5
    } else if op == insts::OP_WIDE_MUL {
        5
    } else if op == insts::OP_WIDE_MULU {
        5
    } else if op == insts::OP_WIDE_MULSU {
        5
    } else if op == insts::OP_WIDE_DIV {
        32
    } else if op == insts::OP_WIDE_DIVU {
        32
    } else if op == insts::OP_FAR_JUMP_REL {
        3
    } else if op == insts::OP_FAR_JUMP_ABS {
        3
    } else {
        1
    }
}


/// Whether `op` is one of the system calls and breakpoints.
pub open spec fn is_system_op(op: InstructionOpcode) -> bool {
    op == insts::OP_ECALL || op == insts::OP_EBREAK
}

/// Whether `op` is one of the divisions and remainders.
pub open spec fn is_division_op(op: InstructionOpcode) -> bool {
    op == insts::OP_DIV || op == insts::OP_DIVW || op == insts::OP_DIVU || op == insts::OP_DIVUW || op == insts::OP_REM || op == insts::OP_REMW || op == insts::OP_REMU || op == insts::OP_REMUW || op == insts::OP_WIDE_DIV || op == insts::OP_WIDE_DIVU
}

/// Whether `op` is one of the multiplications.
pub open spec fn is_multiplication_op(op: InstructionOpcode) -> bool {
    op == insts::OP_MUL || op == insts::OP_MULW || op == insts::OP_MULH || op == insts::OP_MULHU || op == insts::OP_MULHSU || op == insts::OP_WIDE_MUL || op == insts::OP_WIDE_MULU || op == insts::OP_WIDE_MULSU
}

/// Whether `op` is one of the doubleword loads and stores.
pub open spec fn is_doubleword_access_op(op: InstructionOpcode) -> bool {
    op == insts::OP_LD_VERSION0 || op == insts::OP_LD_VERSION1 || op == insts::OP_SD
}

/// Whether `op` is one of the the other loads and stores, branches and jumps.
pub open spec fn is_transfer_op(op: InstructionOpcode) -> bool {
    op == insts::OP_JALR_VERSION0 || op == insts::OP_JALR_VERSION1 || op == insts::OP_LW_VERSION0 || op == insts::OP_LW_VERSION1 || op == insts::OP_LH_VERSION0 || op == insts::OP_LH_VERSION1 || op == insts::OP_LB_VERSION0 || op == insts::OP_LB_VERSION1 || op == insts::OP_LWU_VERSION0 || op == insts::OP_LWU_VERSION1 || op == insts::OP_LHU_VERSION0 || op == insts::OP_LHU_VERSION1 || op == insts::OP_LBU_VERSION0 || op == insts::OP_LBU_VERSION1 || op == insts::OP_SB || op == insts::OP_SH || op == insts::OP_SW || op == insts::OP_BEQ || op == insts::OP_BGE || op == insts::OP_BGEU || op == insts::OP_BLT || op == insts::OP_BLTU || op == insts::OP_BNE || op == insts::OP_JAL || op == insts::OP_FAR_JUMP_REL || op == insts::OP_FAR_JUMP_ABS
}

/// Whether `op` is one of the word reservations.
pub open spec fn is_word_reservation_op(op: InstructionOpcode) -> bool {
    op == insts::OP_LR_W || op == insts::OP_SC_W
}

/// Whether `op` is one of the word atomic operations.
pub open spec fn is_word_amo_op(op: InstructionOpcode) -> bool {
    op == insts::OP_AMOSWAP_W || op == insts::OP_AMOADD_W || op == insts::OP_AMOXOR_W || op == insts::OP_AMOAND_W || op == insts::OP_AMOOR_W || op == insts::OP_AMOMIN_W || op == insts::OP_AMOMAX_W || op == insts::OP_AMOMINU_W || op == insts::OP_AMOMAXU_W
}

/// Whether `op` is one of the doubleword reservations.
pub open spec fn is_doubleword_reservation_op(op: InstructionOpcode) -> bool {
    op == insts::OP_LR_D || op == insts::OP_SC_D
}

/// Whether `op` is one of the doubleword atomic operations.
pub open spec fn is_doubleword_amo_op(op: InstructionOpcode) -> bool {
    op == insts::OP_AMOSWAP_D || op == insts::OP_AMOADD_D || op == insts::OP_AMOXOR_D || op == insts::OP_AMOAND_D || op == insts::OP_AMOOR_D || op == insts::OP_AMOMIN_D || op == insts::OP_AMOMAX_D || op == insts::OP_AMOMINU_D || op == insts::OP_AMOMAXU_D
}

/// The estimated costs by kind of instruction: system calls and
/// breakpoints 500 cycles, divisions and remainders 32, multiplications 5,
/// doubleword loads and stores 2, the other loads, stores, branches and
/// jumps 3, reservations 4 (word) or 3 (doubleword), atomic operations 7
/// (word) or 5 (doubleword), and every other instruction 1. So no
/// instruction costs more than a system call.
pub proof fn lemma_estimate_cycles_by_kind(i: Instruction)
    ensures
        is_system_op(spec_extract_opcode(i)) ==> spec_estimate_cycles(spec_extract_opcode(i)) == 500,
        is_division_op(spec_extract_opcode(i)) ==> spec_estimate_cycles(spec_extract_opcode(i)) == 32,
        is_multiplication_op(spec_extract_opcode(i)) ==> spec_estimate_cycles(spec_extract_opcode(i)) == 5,
        is_doubleword_access_op(spec_extract_opcode(i)) ==> spec_estimate_cycles(spec_extract_opcode(i)) == 2,
        is_transfer_op(spec_extract_opcode(i)) ==> spec_estimate_cycles(spec_extract_opcode(i)) == 3,
        is_word_reservation_op(spec_extract_opcode(i)) ==> spec_estimate_cycles(spec_extract_opcode(i)) == 4,
        is_word_amo_op(spec_extract_opcode(i)) ==> spec_estimate_cycles(spec_extract_opcode(i)) == 7,
        is_doubleword_reservation_op(spec_extract_opcode(i)) ==> spec_estimate_cycles(spec_extract_opcode(i)) == 3,
        is_doubleword_amo_op(spec_extract_opcode(i)) ==> spec_estimate_cycles(spec_extract_opcode(i)) == 5,
        !(is_system_op(spec_extract_opcode(i)) || is_division_op(spec_extract_opcode(i)) || is_multiplication_op(spec_extract_opcode(i)) || is_doubleword_access_op(spec_extract_opcode(i)) || is_transfer_op(spec_extract_opcode(i)) || is_word_reservation_op(spec_extract_opcode(i)) || is_word_amo_op(spec_extract_opcode(i)) || is_doubleword_reservation_op(spec_extract_opcode(i)) || is_doubleword_amo_op(spec_extract_opcode(i))) ==> spec_estimate_cycles(spec_extract_opcode(i)) == 1,
        1 <= spec_estimate_cycles(spec_extract_opcode(i)) <= 500,
{
}

} // verus!
