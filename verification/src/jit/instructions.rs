//! Which decoded instructions the block compiler can translate.
use vstd::prelude::*;
use crate::definitions::instructions::{OP_EBREAK, OP_ECALL};
use crate::instructions::{extract_opcode, spec_extract_opcode, Instruction};

verus! {

/// Environment calls and breakpoints leave compiled code; every other
/// instruction can be compiled.
pub open spec fn spec_is_jitable_instruction(i: Instruction) -> bool {
    spec_extract_opcode(i) != OP_ECALL && spec_extract_opcode(i) != OP_EBREAK
}

pub fn is_jitable_instruction(i: Instruction) -> (r: bool)
    ensures
        r == spec_is_jitable_instruction(i),
{
    let op = extract_opcode(i);
    if op == OP_ECALL {
        false
    } else if op == OP_EBREAK {
        false
    } else {
        true
    }
}

} // verus!
