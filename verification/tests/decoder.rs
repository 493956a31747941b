use ckb_vm::decoder::{build_decoder, fuse};
use ckb_vm::definitions::instructions as insts;
use ckb_vm::instructions::{
    a, b, extract_opcode, i, instruction_length, m, rvc, set_instruction_length_4, Itype, R4type,
    Rtype,
};
use ckb_vm::machine::VERSION1;
use ckb_vm::{Error, FlatMemory, Memory, ISA_A, ISA_IMC, ISA_MOP};

type Mem = FlatMemory<u64, 64>;

fn memory_with(ws: &[u32]) -> Mem {
    let mut mem = Mem::new();
    for (k, w) in ws.iter().enumerate() {
        mem.store32(&(4 * k as u64), &(*w as u64)).unwrap();
    }
    mem
}

const ADDI_X1_X0_5: u32 = 0x0050_0093;
const C_LI_X1_5: u32 = 0x4095;
const MUL_X3_X1_X2: u32 = 0x0220_81B3;

#[test]
fn test_base_decoder_addi() {
    let inst = i::factory::<u64>(ADDI_X1_X0_5, VERSION1).unwrap();
    assert_eq!(extract_opcode(inst), insts::OP_ADDI);
    let it = Itype(inst);
    assert_eq!(it.rd(), 1);
    assert_eq!(it.rs1(), 0);
    assert_eq!(it.immediate_s(), 5);
}

#[test]
fn test_compressed_decoder_li() {
    let inst = rvc::factory::<u64>(C_LI_X1_5, VERSION1).unwrap();
    assert_eq!(extract_opcode(inst), insts::OP_ADDI);
    let it = Itype(inst);
    assert_eq!(it.rd(), 1);
    assert_eq!(it.immediate_s(), 5);
    assert_eq!(instruction_length(inst), 2);
    // A full-size instruction is not compressed.
    assert!(rvc::factory::<u64>(ADDI_X1_X0_5, VERSION1).is_none());
}

#[test]
fn test_multiplication_decoder() {
    let inst = m::factory::<u64>(MUL_X3_X1_X2, VERSION1).unwrap();
    assert_eq!(extract_opcode(inst), insts::OP_MUL);
    let r = Rtype(inst);
    assert_eq!((r.rd(), r.rs1(), r.rs2()), (3, 1, 2));
    assert!(m::factory::<u64>(ADDI_X1_X0_5, VERSION1).is_none());
}

#[test]
fn test_fuse_mulh_and_mul() {
    let head = set_instruction_length_4(Rtype::new(insts::OP_MULH, 3, 1, 2).0);
    let next = set_instruction_length_4(Rtype::new(insts::OP_MUL, 4, 1, 2).0);
    let fused = fuse(head, Some(next));
    assert_eq!(extract_opcode(fused), insts::OP_WIDE_MUL);
    assert_eq!(instruction_length(fused), 8);
    // Without a following instruction, or with an unrelated one, nothing fuses.
    assert_eq!(fuse(head, None), head);
    let other = set_instruction_length_4(Rtype::new(insts::OP_MUL, 4, 2, 1).0);
    assert_eq!(fuse(head, Some(other)), head);
}

#[test]
fn test_decoder_reads_memory() {
    let decoder = build_decoder::<u64>(ISA_IMC, VERSION1);
    let mut mem = memory_with(&[ADDI_X1_X0_5, C_LI_X1_5]);
    let first = decoder.decode(&mut mem, 0).unwrap();
    assert_eq!(extract_opcode(first), insts::OP_ADDI);
    assert_eq!(Itype(first).rd(), 1);
    let second = decoder.decode(&mut mem, 4).unwrap();
    assert_eq!(instruction_length(second), 2);
}

#[test]
fn test_decoder_refuses_unknown_bits() {
    let decoder = build_decoder::<u64>(ISA_IMC, VERSION1);
    let mut mem = memory_with(&[0xffff_ffff]);
    let r = decoder.decode(&mut mem, 0);
    assert_eq!(r, Err(Error::InvalidInstruction { pc: 0, instruction: 0xffff_ffff }));
}

#[test]
fn test_decoder_with_mop_fuses() {
    // c.lui x5, 1 followed by c.addiw x5, 3: one constant load.
    let pair: u32 = 0x228d_6285;
    let plain = build_decoder::<u64>(ISA_IMC, VERSION1);
    let fusing = build_decoder::<u64>(ISA_IMC | ISA_MOP, VERSION1);
    let mut mem = memory_with(&[pair]);
    let head = plain.decode(&mut mem, 0).unwrap();
    assert_eq!(extract_opcode(head), insts::OP_LUI);
    assert_eq!(instruction_length(head), 2);
    let fused = fusing.decode(&mut mem, 0).unwrap();
    assert_eq!(extract_opcode(fused), insts::OP_CUSTOM_LOAD_IMM);
    assert_eq!(instruction_length(fused), 4);
}

#[test]
fn test_atomic_and_bit_decoders() {
    // lr.w x1, (x2)
    let lr = a::factory::<u64>(0x1001_20af, VERSION1).unwrap();
    assert_eq!(extract_opcode(lr), insts::OP_LR_W);
    assert_eq!(instruction_length(lr), 4);
    // andn x3, x1, x2
    let andn = b::factory::<u64>(0x4020_f1b3).unwrap();
    assert_eq!(extract_opcode(andn), insts::OP_ANDN);
    assert!(b::factory::<u64>(ADDI_X1_X0_5).is_none());
}

#[test]
fn test_built_decoder_has_no_atomic_decoder() {
    // lr.w x1, (x2) is refused even where the extension set names A.
    let decoder = build_decoder::<u64>(ISA_IMC | ISA_A, VERSION1);
    let mut mem = memory_with(&[0x1001_20af]);
    let r = decoder.decode(&mut mem, 0);
    assert_eq!(r, Err(Error::InvalidInstruction { pc: 0, instruction: 0x1001_20af }));
}

#[test]
fn test_compressed_version_changes_only_versioned_forms() {
    // c.jr ra: the register jump takes the form of the version.
    let v0 = rvc::factory::<u64>(0x8082, 0).unwrap();
    let v1 = rvc::factory::<u64>(0x8082, 1).unwrap();
    assert_eq!(extract_opcode(v0), insts::OP_JALR_VERSION0);
    assert_eq!(extract_opcode(v1), insts::OP_JALR_VERSION1);
    assert_eq!(v1, v0 + 1);
    assert_eq!(rvc::factory::<u64>(0x8082, 7), Some(v1));
    // c.addi ra, 0 is a hint: refused before version 1, a no-op from it on.
    assert_eq!(rvc::factory::<u64>(0x0081, 0), None);
    let hint = rvc::factory::<u64>(0x0081, 1).unwrap();
    assert_eq!(extract_opcode(hint), insts::OP_ADDI);
    assert_eq!(instruction_length(hint), 2);
    // c.li x1, 5 is the same in every version.
    assert_eq!(rvc::factory::<u64>(C_LI_X1_5, 0), rvc::factory::<u64>(C_LI_X1_5, 1));
}

#[test]
fn test_base_and_multiplication_decodes_record_four_bytes() {
    assert_eq!(instruction_length(i::factory::<u64>(ADDI_X1_X0_5, VERSION1).unwrap()), 4);
    assert_eq!(instruction_length(m::factory::<u64>(MUL_X3_X1_X2, VERSION1).unwrap()), 4);
}

#[test]
fn test_decoder_fuses_wide_multiplication_from_memory() {
    // mulh a0, a1, a2 ; mul a3, a1, a2
    let decoder = build_decoder::<u64>(ISA_IMC | ISA_MOP, VERSION1);
    let mut mem = memory_with(&[0x02c5_9533, 0x02c5_86b3]);
    let fused = decoder.decode(&mut mem, 0).unwrap();
    let r = R4type(fused);
    assert_eq!(r.op(), insts::OP_WIDE_MUL);
    assert_eq!((r.rd(), r.rs1(), r.rs2(), r.rs3()), (10, 11, 12, 13));
    assert_eq!(instruction_length(fused), 8);
    // Without fusion the first instruction comes alone.
    let plain = build_decoder::<u64>(ISA_IMC, VERSION1);
    assert_eq!(extract_opcode(plain.decode(&mut mem, 0).unwrap()), insts::OP_MULH);
}
