use ckb_vm::cost_model::{constant_cycles, estimate_cycles};
use ckb_vm::definitions::instructions as insts;
use ckb_vm::instructions::blank_instruction;
use ckb_vm::instructions::cost_model::instruction_cycles;

#[test]
fn test_constant_cycles() {
    assert_eq!(constant_cycles(blank_instruction(insts::OP_ADD)), 1);
    assert_eq!(constant_cycles(blank_instruction(insts::OP_DIV)), 1);
}

#[test]
fn test_estimate_cycles() {
    assert_eq!(estimate_cycles(blank_instruction(insts::OP_ADD)), 1);
    assert_eq!(estimate_cycles(blank_instruction(insts::OP_JALR_VERSION0)), 3);
    assert_eq!(estimate_cycles(blank_instruction(insts::OP_WIDE_DIV)), 32);
    assert_eq!(estimate_cycles(blank_instruction(insts::OP_FAR_JUMP_ABS)), 3);
}

#[test]
fn test_instruction_cycles() {
    assert_eq!(instruction_cycles(blank_instruction(insts::OP_ADD), 0, 0, false), 1);
    assert_eq!(instruction_cycles(blank_instruction(insts::OP_JALR_VERSION1), 0, 0, false), 3);
    assert_eq!(instruction_cycles(blank_instruction(insts::OP_LD_VERSION1), 0, 0, false), 2);
}
