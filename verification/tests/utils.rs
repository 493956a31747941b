use ckb_vm::definitions::trace::{calculate_slot, TRACE_SIZE};
use ckb_vm::error::OutOfBoundKind;
use ckb_vm::instructions::utils::{
    btype_immediate, funct3, funct7, itype_immediate, jtype_immediate, opcode, rd, rs1, rs2, rs3,
    stype_immediate, utype_immediate, x, xs,
};
use ckb_vm::Error;

#[test]
fn test_bit_fields() {
    assert_eq!(x(0b1011_0000, 4, 4, 0), 0b1011);
    assert_eq!(x(0b1011_0000, 4, 2, 3), 0b11 << 3);
    assert_eq!(xs(0b1011_0000, 4, 4, 0), 0xffff_fffb);
    assert_eq!(xs(0b0011_0000, 4, 4, 1), 0b0110);
}

#[test]
fn test_field_extractors() {
    // sd a5,568(sp)
    let sd: u32 = 0x22f1_3c23;
    assert_eq!(opcode(sd), 0b010_0011);
    assert_eq!(funct3(sd), 0b011);
    assert_eq!(rs1(sd), 2);
    assert_eq!(rs2(sd), 15);
    assert_eq!(stype_immediate(sd), 568);
    // add a0, a1, a2 with funct7 0b0100000 (sub)
    let sub: u32 = 0x40c5_8533;
    assert_eq!(funct7(sub), 0b010_0000);
    assert_eq!(rd(sub), 10);
    assert_eq!(rs3(0xf800_0000), 31);
    // addi x1, x0, -1
    assert_eq!(itype_immediate(0xfff0_0093), -1);
    // beq a0,a5,-192
    assert_eq!(btype_immediate(0xf4f5_00e3), -192);
    // jal x0, -4
    assert_eq!(jtype_immediate(0xffdf_f06f), -4);
    // lui x5, 0x12345
    assert_eq!(utype_immediate(0x1234_52b7), 0x1234_5000);
}

#[test]
fn test_trace_slot() {
    assert_eq!(calculate_slot(0), 0);
    assert_eq!(calculate_slot(8), 2);
    assert_eq!(calculate_slot(4 * TRACE_SIZE as u64 + 12), 3);
}

#[test]
fn test_error_values_clone() {
    let e = Error::IO { kind: std::io::ErrorKind::NotFound, data: "gone".to_string() };
    assert_eq!(e.clone(), e);
    let m = Error::MemOutOfBound(8, OutOfBoundKind::ExternalData);
    assert_eq!(m.clone(), m);
    assert_ne!(m, Error::MemOutOfBound(8, OutOfBoundKind::Memory));
}
