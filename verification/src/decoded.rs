//! What the decoders hand the interpreter: every register field that the
//! interpreter reads of a decoded instruction names one of the 32 registers.
use vstd::prelude::*;
use crate::instructions::a::spec_a_factory;
use crate::instructions::b::spec_b_factory;
use crate::instructions::execute::spec_operands_valid;
use crate::instructions::i::{spec_i, spec_i_expand, spec_i_factory, spec_r, spec_s, spec_u};
use crate::instructions::m::{spec_m_expand, spec_m_factory};
use crate::instructions::rvc::{spec_c_rs2, spec_compact_register, spec_rvc_factory};
use crate::instructions::utils::{spec_rd, spec_rs1, spec_rs2};
use crate::decoder::{
    spec_apply_factory, spec_first_decoding, spec_fuse, Decoder,
    InstructionFactory,
};
use crate::instructions::register::Register;
use crate::memory::Memory;
use crate::instructions::{
    lemma_r4type_roundtrip, spec_immediate_at_32, spec_immediate_at_40, spec_instruction_length,
    spec_r4type_bits,
};
use crate::definitions::instructions as insts;
use crate::definitions::registers::RA;
use crate::instructions::{
    lemma_itype_fields, lemma_itype_roundtrip, lemma_length_keeps_fields, lemma_opcode_bits, lemma_rtype_roundtrip, lemma_stype_roundtrip,
    lemma_utype_roundtrip, spec_byte_at, spec_extract_opcode, spec_itype_bits, spec_rtype_bits,
    spec_stype_bits, spec_utype_bits, Instruction,
};

verus! {

/// Every byte of `i` that can hold a register index names one of the 32
/// registers.
pub open spec fn register_bytes_small(i: Instruction) -> bool {
    &&& spec_byte_at(i, 8) < 32
    &&& spec_byte_at(i, 32) < 32
    &&& spec_byte_at(i, 40) < 32
    &&& spec_byte_at(i, 48) < 32
    &&& spec_byte_at(i, 56) < 32
}

/// The two low register bytes of `i`, its destination (or second source)
/// and its first source, name registers.
pub open spec fn low_register_bytes_small(i: Instruction) -> bool {
    &&& spec_byte_at(i, 8) < 32
    &&& spec_byte_at(i, 32) < 32
}

/// An instruction whose register bytes are all small can be executed,
/// whatever its opcode.
pub proof fn lemma_small_registers_executable(i: Instruction)
    requires
        register_bytes_small(i),
    ensures
        spec_operands_valid(i),
{
}

/// The register fields of a 32 bit instruction are five bits wide.
pub(crate) proof fn lemma_field_bounds(b: u32)
    by (bit_vector)
    ensures
        spec_rd(b) < 32,
        spec_rs1(b) < 32,
        spec_rs2(b) < 32,
        spec_c_rs2(b) < 32,
        spec_compact_register(b, 2) < 16,
        spec_compact_register(b, 7) < 16,
{
}

/// The builders of the base decoder put the register fields of the bits in
/// the register bytes.
proof fn lemma_builders(b: u32)
    ensures
        forall|o: u16|
            #![trigger spec_r(o, b)]
            spec_extract_opcode(spec_r(o, b)) == o && register_bytes_small(spec_r(o, b)),
        forall|o: u16, imm: i32|
            #![trigger spec_i(o, b, imm)]
            spec_extract_opcode(spec_i(o, b, imm)) == o && low_register_bytes_small(spec_i(o, b, imm)),
        forall|o: u16, imm: i32|
            #![trigger spec_s(o, b, imm)]
            spec_extract_opcode(spec_s(o, b, imm)) == o && low_register_bytes_small(spec_s(o, b, imm)),
        forall|o: u16, imm: i32|
            #![trigger spec_u(o, b, imm)]
            spec_extract_opcode(spec_u(o, b, imm)) == o && spec_byte_at(spec_u(o, b, imm), 8) < 32,
{
    lemma_field_bounds(b);
    assert forall|o: u16|
        #![trigger spec_r(o, b)]
        spec_extract_opcode(spec_r(o, b)) == o && register_bytes_small(spec_r(o, b)) by {
        lemma_rtype_roundtrip(o, spec_rd(b), spec_rs1(b), spec_rs2(b));
    }
    assert forall|o: u16, imm: i32|
        #![trigger spec_i(o, b, imm)]
        spec_extract_opcode(spec_i(o, b, imm)) == o && low_register_bytes_small(spec_i(o, b, imm)) by {
        lemma_itype_roundtrip(o, spec_rd(b), spec_rs1(b), imm);
    }
    assert forall|o: u16, imm: i32|
        #![trigger spec_s(o, b, imm)]
        spec_extract_opcode(spec_s(o, b, imm)) == o && low_register_bytes_small(spec_s(o, b, imm)) by {
        lemma_stype_roundtrip(o, imm, spec_rs1(b), spec_rs2(b));
    }
    assert forall|o: u16, imm: i32|
        #![trigger spec_u(o, b, imm)]
        spec_extract_opcode(spec_u(o, b, imm)) == o && spec_byte_at(spec_u(o, b, imm), 8) < 32 by {
        lemma_utype_roundtrip(o, spec_rd(b), imm);
    }
}

/// Recording a length of 4 bytes keeps an instruction executable.
proof fn lemma_length4_executable(i: Instruction)
    requires
        spec_operands_valid(i),
    ensures
        spec_operands_valid(i | 0x2000000),
{
    lemma_length_keeps_fields(i, 4);
}

/// The multiplication decoder gives executable instructions.
pub proof fn lemma_m_factory_executable(b: u32, bits: u8)
    ensures
        spec_m_factory(b, bits) matches Some(i) ==> spec_operands_valid(i),
{
    lemma_builders(b);
    if let Some(i) = spec_m_expand(b, bits) {
        lemma_length4_executable(i);
    }
}

/// The atomic decoder gives executable instructions.
pub proof fn lemma_a_factory_executable(b: u32, bits: u8)
    ensures
        spec_a_factory(b, bits) matches Some(i) ==> spec_operands_valid(i),
{
    lemma_builders(b);
    assert forall|o: u16| #[trigger] spec_operands_valid(spec_r(o, b) | 0x2000000) by {
        lemma_length_keeps_fields(spec_r(o, b), 4);
        lemma_small_registers_executable(spec_r(o, b) | 0x2000000);
    }
}

/// The base decoder gives executable instructions.
#[verifier::rlimit(50)]
pub proof fn lemma_i_factory_executable(b: u32, bits: u8, shift_mask: u8, version: u32)
    ensures
        spec_i_factory(b, bits, shift_mask, version) matches Some(i) ==> spec_operands_valid(i),
{
    lemma_builders(b);
    assert forall|o: u16| #[trigger] spec_operands_valid(spec_r(o, b)) by {
        lemma_small_registers_executable(spec_r(o, b));
    }
    let op = crate::instructions::utils::spec_opcode(b);
    if let Some(i) = spec_i_expand(b, bits, shift_mask, version) {
        if op == 0b0000011 {
            assert(spec_operands_valid(i));
        } else if op == 0b0010011 {
            assert(spec_operands_valid(i));
        } else if op == 0b1100011 {
            assert(spec_operands_valid(i));
        } else if op == 0b0100011 {
            assert(spec_operands_valid(i));
        } else if op == 0b0011011 {
            assert(spec_operands_valid(i));
        } else if op == 0b0110111 || op == 0b0010111 || op == 0b1101111 {
            assert(spec_operands_valid(i));
        } else if op == 0b1100111 {
            assert(spec_operands_valid(i));
        } else if op == 0b0110011 || op == 0b0111011 {
            assert(spec_operands_valid(i));
        } else if op == 0b0001111 {
            lemma_opcode_bits(crate::definitions::instructions::OP_FENCEI);
            lemma_rtype_roundtrip(
                crate::definitions::instructions::OP_FENCE,
                ((b & 0xF00_00000) >> 28u32) as u8 as usize,
                ((b & 0x0F0_00000) >> 24u32) as u8 as usize,
                ((b & 0x00F_00000) >> 20u32) as u8 as usize,
            );
        } else {
            lemma_opcode_bits(crate::definitions::instructions::OP_ECALL);
            lemma_opcode_bits(crate::definitions::instructions::OP_EBREAK);
        }
        lemma_length4_executable(i);
    }
}

/// The bit manipulation decoder gives executable instructions.
#[verifier::rlimit(50)]
pub proof fn lemma_b_factory_executable(b: u32, bits: u8)
    ensures
        spec_b_factory(b, bits) matches Some(i) ==> spec_operands_valid(i),
{
    lemma_builders(b);
    lemma_field_bounds(b);
    assert forall|o: u16| #[trigger] spec_operands_valid(spec_r(o, b) | 0x2000000) by {
        lemma_length_keeps_fields(spec_r(o, b), 4);
        lemma_small_registers_executable(spec_r(o, b) | 0x2000000);
    }
    assert forall|o: u16, u: u32|
        #![trigger spec_itype_bits(o, spec_rd(b), spec_rs1(b), u)]
        spec_extract_opcode(spec_itype_bits(o, spec_rd(b), spec_rs1(b), u) | 0x2000000) == o
            && low_register_bytes_small(spec_itype_bits(o, spec_rd(b), spec_rs1(b), u) | 0x2000000) by {
        lemma_itype_fields(o, spec_rd(b), spec_rs1(b), u);
        lemma_length_keeps_fields(spec_itype_bits(o, spec_rd(b), spec_rs1(b), u), 4);
    }
}

/// Encodings with small register operands have small register bytes; a
/// recorded length changes neither them nor the opcode.
proof fn lemma_small_encodings()
    ensures
        forall|o: u16, r1: usize, r2: usize, r3: usize|
            #![trigger spec_rtype_bits(o, r1, r2, r3)]
            r1 < 32 && r2 < 32 && r3 < 32 ==> spec_extract_opcode(spec_rtype_bits(o, r1, r2, r3)) == o
                && register_bytes_small(spec_rtype_bits(o, r1, r2, r3)),
        forall|o: u16, r1: usize, r2: usize, u: u32|
            #![trigger spec_itype_bits(o, r1, r2, u)]
            r1 < 32 && r2 < 32 ==> spec_extract_opcode(spec_itype_bits(o, r1, r2, u)) == o
                && low_register_bytes_small(spec_itype_bits(o, r1, r2, u)),
        forall|o: u16, u: u32, r1: usize, r2: usize|
            #![trigger spec_stype_bits(o, u, r1, r2)]
            r1 < 32 && r2 < 32 ==> spec_extract_opcode(spec_stype_bits(o, u, r1, r2)) == o
                && low_register_bytes_small(spec_stype_bits(o, u, r1, r2)),
        forall|i: u64|
            #![trigger i | 0x1000000]
            spec_extract_opcode(i | 0x1000000) == spec_extract_opcode(i) && (register_bytes_small(i)
                ==> register_bytes_small(i | 0x1000000)) && (low_register_bytes_small(i)
                ==> low_register_bytes_small(i | 0x1000000)),
{
    assert forall|o: u16, r1: usize, r2: usize, r3: usize|
        #![trigger spec_rtype_bits(o, r1, r2, r3)]
        r1 < 32 && r2 < 32 && r3 < 32 implies spec_extract_opcode(spec_rtype_bits(o, r1, r2, r3)) == o
            && register_bytes_small(spec_rtype_bits(o, r1, r2, r3)) by {
        lemma_rtype_roundtrip(o, r1, r2, r3);
    }
    assert forall|o: u16, r1: usize, r2: usize, u: u32|
        #![trigger spec_itype_bits(o, r1, r2, u)]
        r1 < 32 && r2 < 32 implies spec_extract_opcode(spec_itype_bits(o, r1, r2, u)) == o
            && low_register_bytes_small(spec_itype_bits(o, r1, r2, u)) by {
        lemma_itype_fields(o, r1, r2, u);
    }
    assert forall|o: u16, u: u32, r1: usize, r2: usize|
        #![trigger spec_stype_bits(o, u, r1, r2)]
        r1 < 32 && r2 < 32 implies spec_extract_opcode(spec_stype_bits(o, u, r1, r2)) == o
            && low_register_bytes_small(spec_stype_bits(o, u, r1, r2)) by {
        lemma_itype_fields(o, r2, r1, u);
    }
    assert forall|i: u64|
        #![trigger i | 0x1000000]
        spec_extract_opcode(i | 0x1000000) == spec_extract_opcode(i) && (register_bytes_small(i)
            ==> register_bytes_small(i | 0x1000000)) && (low_register_bytes_small(i)
            ==> low_register_bytes_small(i | 0x1000000)) by {
        lemma_length_keeps_fields(i, 2);
    }
}

/// The compressed decoder gives executable instructions.
#[verifier::rlimit(80)]
pub proof fn lemma_rvc_factory_executable(b: u32, bits: u8, shift_mask: u8, version: u32)
    ensures
        spec_rvc_factory(b, bits, shift_mask, version) matches Some(i) ==> spec_operands_valid(i),
{
    lemma_field_bounds(b);
    lemma_small_encodings();
    lemma_opcode_bits(crate::definitions::instructions::OP_EBREAK);
    lemma_utype_roundtrip(
        crate::definitions::instructions::OP_JAL,
        1,
        crate::instructions::rvc::spec_c_j_immediate(b),
    );
    lemma_utype_roundtrip(
        crate::definitions::instructions::OP_JAL,
        0,
        crate::instructions::rvc::spec_c_j_immediate(b),
    );
    lemma_utype_roundtrip(
        crate::definitions::instructions::OP_LUI,
        spec_rd(b),
        crate::instructions::rvc::spec_c_immediate(b) << 12u32,
    );
    if let Some(i) = spec_rvc_factory(b, bits, shift_mask, version) {
        assert(spec_operands_valid(i));
    }
}

/// Each decoder gives executable instructions.
pub proof fn lemma_apply_factory_executable(
    f: InstructionFactory,
    bits: u32,
    width: u8,
    shift_mask: u8,
    version: u32,
)
    ensures
        spec_apply_factory(f, bits, width, shift_mask, version) matches Some(i)
            ==> spec_operands_valid(i),
{
    match f {
        InstructionFactory::Rvc => lemma_rvc_factory_executable(bits, width, shift_mask, version),
        InstructionFactory::I => lemma_i_factory_executable(bits, width, shift_mask, version),
        InstructionFactory::M => lemma_m_factory_executable(bits, width),
        InstructionFactory::A => lemma_a_factory_executable(bits, width),
        InstructionFactory::B => lemma_b_factory_executable(bits, width),
    }
}

/// A chain of decoders gives executable instructions.
pub proof fn lemma_first_decoding_executable(
    fs: Seq<InstructionFactory>,
    bits: u32,
    width: u8,
    shift_mask: u8,
    version: u32,
)
    ensures
        spec_first_decoding(fs, bits, width, shift_mask, version) matches Some(i)
            ==> spec_operands_valid(i),
    decreases fs.len(),
{
    if fs.len() > 0 {
        lemma_apply_factory_executable(fs[0], bits, width, shift_mask, version);
        lemma_first_decoding_executable(fs.drop_first(), bits, width, shift_mask, version);
    }
}

/// Fusing two executable instructions gives an executable instruction.
pub proof fn lemma_fuse_executable(head: Instruction, next: Option<Instruction>)
    requires
        spec_operands_valid(head),
        next matches Some(n) ==> spec_operands_valid(n),
    ensures
        spec_operands_valid(spec_fuse(head, next)),
{
    if let Some(n) = next {
        let size_n: u64 = (spec_instruction_length(head) + spec_instruction_length(n)) as u8 as u64;
        let imm: i32 = spec_immediate_at_32(head).wrapping_add(spec_immediate_at_40(n));
        lemma_utype_roundtrip(insts::OP_FAR_JUMP_ABS, RA, imm);
        lemma_utype_roundtrip(insts::OP_FAR_JUMP_REL, RA, imm);
        lemma_utype_roundtrip(insts::OP_CUSTOM_LOAD_IMM, spec_byte_at(head, 8), imm);
        lemma_length_keeps_fields(spec_utype_bits(insts::OP_FAR_JUMP_ABS, RA, imm as u32), size_n);
        lemma_length_keeps_fields(spec_utype_bits(insts::OP_FAR_JUMP_REL, RA, imm as u32), size_n);
        lemma_length_keeps_fields(
            spec_utype_bits(insts::OP_CUSTOM_LOAD_IMM, spec_byte_at(head, 8), imm as u32),
            size_n,
        );
        let hd = spec_byte_at(head, 8);
        let h1 = spec_byte_at(head, 32);
        let h2 = spec_byte_at(head, 40);
        let nd = spec_byte_at(n, 8);
        let ops = seq![
            insts::OP_WIDE_MUL,
            insts::OP_WIDE_MULU,
            insts::OP_WIDE_MULSU,
            insts::OP_WIDE_DIV,
            insts::OP_WIDE_DIVU,
        ];
        assert forall|k: int| 0 <= k < 5 && h1 < 32 && h2 < 32 implies #[trigger] spec_operands_valid(
            spec_r4type_bits(ops[k], hd, h1, h2, nd) | (((size_n & 0x1f) >> 1u64) << 24u64),
        ) by {
            lemma_r4type_roundtrip(ops[k], hd, h1, h2, nd);
            lemma_length_keeps_fields(spec_r4type_bits(ops[k], hd, h1, h2, nd), size_n);
        }
        assert(ops[0] == insts::OP_WIDE_MUL);
        assert(ops[1] == insts::OP_WIDE_MULU);
        assert(ops[2] == insts::OP_WIDE_MULSU);
        assert(ops[3] == insts::OP_WIDE_DIV);
        assert(ops[4] == insts::OP_WIDE_DIVU);
    }
}

/// Whatever a decoder decodes, the interpreter can execute: every register
/// field it reads names one of the 32 registers.
pub proof fn lemma_decode_executable<R: Register, M: Memory>(decoder: Decoder<R>, memory: M, pc: u64)
    ensures
        decoder.spec_decode_raw(memory, pc) matches Ok(i) ==> spec_operands_valid(i),
        decoder.spec_decode_mop(memory, pc) matches Ok(i) ==> spec_operands_valid(i),
{
    if let Ok(bits) = crate::decoder::spec_decode_bits(memory, pc) {
        lemma_first_decoding_executable(
            decoder.spec_factories(),
            bits,
            R::BITS,
            R::SHIFT_MASK,
            decoder.spec_version(),
        );
    }
    if let Ok(head) = decoder.spec_decode_raw(memory, pc) {
        let next_pc = pc.wrapping_add(spec_instruction_length(head) as u64);
        if let Ok(bits) = crate::decoder::spec_decode_bits(memory, next_pc) {
            lemma_first_decoding_executable(
                decoder.spec_factories(),
                bits,
                R::BITS,
                R::SHIFT_MASK,
                decoder.spec_version(),
            );
        }
        let next = match decoder.spec_decode_raw(memory, next_pc) {
            Ok(n) => Some(n),
            Err(_) => None,
        };
        lemma_fuse_executable(head, next);
    }
}

} // verus!
