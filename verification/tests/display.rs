use ckb_vm::definitions::instructions as insts;
use ckb_vm::instructions::i::factory;
use ckb_vm::instructions::tagged::TaggedInstruction;
use ckb_vm::instructions::{Itype, R4type, R5type, Rtype, Stype, Utype};

#[test]
fn test_stype_display() {
    // This is "sd	a5,568(sp)"
    let sd_inst = 0x22f13c23;
    let decoded = factory::<u64>(sd_inst, u32::max_value()).expect("decoding");
    let stype = Stype(decoded);

    assert_eq!("sd a5,568(sp)", stype.to_string());

    // This is "beq	a0,a5,1012e"
    let sd_inst = 0xf4f500e3;
    let decoded = factory::<u64>(sd_inst, u32::max_value()).expect("decoding");
    let stype = Stype(decoded);

    assert_eq!("beq a0,a5,-192", stype.to_string());
}

#[test]
fn test_other_formats_display() {
    assert_eq!(Rtype::new(insts::OP_ADD, 10, 11, 12).to_string(), "add a0,a1,a2");
    assert_eq!(Itype::new_s(insts::OP_ADDI, 2, 2, -16).to_string(), "addi sp,-16(sp)");
    assert_eq!(Utype::new_s(insts::OP_LUI, 5, 4096).to_string(), "lui t0,4096");
    assert_eq!(
        R4type::new(insts::OP_WIDE_MUL, 5, 6, 7, 28).to_string(),
        "wide_mul t0,t1,t2,t3"
    );
    assert_eq!(
        R5type::new(insts::OP_ADC, 1, 2, 3, 4, 0).to_string(),
        "adc ra,sp,gp,tp,zero"
    );
}

#[test]
fn test_tagged_display() {
    let tagged = TaggedInstruction::try_from(Rtype::new(insts::OP_SUB, 5, 6, 7).0).unwrap();
    assert_eq!(tagged.to_string(), "sub t0,t1,t2");
    let tagged = TaggedInstruction::try_from(Stype::new_s(insts::OP_SW, -8, 2, 10).0).unwrap();
    assert_eq!(tagged.to_string(), "sw a0,-8(sp)");
}
