use ckb_vm::definitions::instructions as insts;
use ckb_vm::instructions::tagged::TaggedInstruction;
use ckb_vm::instructions::{
    blank_instruction, extract_opcode, instruction_opcode_name, set_instruction_length_4, Itype,
    Rtype,
};

#[test]
fn test_all_valid_opcodes_convert_to_tagged_instruction() {
    for i in insts::OP_UNLOADED..=insts::OP_CUSTOM_TRACE_END {
        let inst = blank_instruction(i);
        let result = TaggedInstruction::try_from(inst);
        assert!(
            result.is_ok(),
            "TaggedInstruction does not handle opcode {}({})!",
            i,
            instruction_opcode_name(i)
        );
    }
}

#[test]
fn test_tagging_keeps_the_instruction() {
    let r = set_instruction_length_4(Rtype::new(insts::OP_ADD, 3, 1, 2).0);
    let tagged = TaggedInstruction::try_from(r).unwrap();
    assert!(matches!(tagged, TaggedInstruction::Rtype(_)));
    assert_eq!(u64::from(tagged), r);

    let i = set_instruction_length_4(Itype::new_s(insts::OP_ADDI, 1, 0, -5).0);
    let tagged = TaggedInstruction::try_from(i).unwrap();
    assert!(matches!(tagged, TaggedInstruction::Itype(_)));
    assert_eq!(u64::from(tagged), i);
}

#[test]
fn test_unknown_opcode_is_not_tagged() {
    let inst = blank_instruction(insts::OP_CUSTOM_TRACE_END + 1);
    assert_eq!(extract_opcode(inst), insts::OP_CUSTOM_TRACE_END + 1);
    assert!(TaggedInstruction::try_from(inst).is_err());
}
