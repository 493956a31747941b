//! RISC-V instructions: raw bit fields, the decoded instruction formats, the
//! register semantics, the decoders and the execution of each opcode.
pub mod a;
pub mod ast;
pub mod b;
pub mod c;
pub mod common;
pub mod cost_model;
pub mod display;
pub mod execute;
pub mod i;
pub mod m;
pub mod register;
pub mod rv32i;
pub mod rv32m;
pub mod rvc;
pub mod tagged;
pub mod utils;
pub mod v_execute_macros;

use vstd::prelude::*;
pub use crate::definitions::instructions::{
    instruction_opcode_name, Instruction, InstructionOpcode, MAXIMUM_BASIC_BLOCK_END_OPCODE,
    MAXIMUM_OPCODE, MINIMAL_BASIC_BLOCK_END_OPCODE, MINIMAL_OPCODE,
};

verus! {

pub type RegisterIndex = usize;

pub type SImmediate = i32;

pub type UImmediate = u32;

/// The opcode of a decoded instruction: bits 0..8 hold its low byte and bits
/// 16..24 its high byte.
pub open spec fn spec_extract_opcode(i: Instruction) -> InstructionOpcode {
    (((i >> 8u64) & 0xff00) | (i & 0x00ff)) as u16
}

/// The encoding of an opcode alone, with no operands.
pub open spec fn spec_opcode_bits(op: InstructionOpcode) -> u64 {
    ((op as u64 >> 8u64) << 16u64) | (op as u64 & 0xff)
}

/// The bits that hold the instruction length, divided by two.
pub open spec fn spec_length_bits(i: Instruction) -> u64 {
    (i >> 24u64) & 0x0f
}

/// The length in bytes recorded in a decoded instruction.
pub open spec fn spec_instruction_length(i: Instruction) -> u8 {
    (((i >> 24u64) & 0x0f) << 1u64) as u8
}

proof fn lemma_op_bits(i: Instruction)
    ensures
        ((i >> 16u64 << 8u64) | (i & 0xFF)) as u16 == spec_extract_opcode(i),
{
    assert(((i >> 16u64 << 8u64) | (i & 0xFF)) as u16 == (((i >> 8u64) & 0xff00) | (i & 0x00ff)) as u16)
        by (bit_vector);
}

pub fn extract_opcode(i: Instruction) -> (r: InstructionOpcode)
    ensures
        r == spec_extract_opcode(i),
{
    (((i >> 8) & 0xff00) | (i & 0x00ff)) as u16
}

/// Blank instructions need no register indices nor immediates, they only
/// have opcode and module bit set.
pub fn blank_instruction(op: InstructionOpcode) -> (r: Instruction)
    ensures
        r == spec_opcode_bits(op),
        spec_extract_opcode(r) == op,
        spec_length_bits(r) == 0,
{
    let r: u64 = (op as u64 >> 8 << 16) | (op as u64 & 0xff);
    proof {
        lemma_opcode_bits(op);
    }
    r
}

/// An opcode alone encodes that opcode, with no length and every register
/// byte zero.
pub proof fn lemma_opcode_bits(op: InstructionOpcode)
    by (bit_vector)
    ensures
        spec_extract_opcode(spec_opcode_bits(op)) == op,
        spec_length_bits(spec_opcode_bits(op)) == 0,
        spec_byte_at(spec_opcode_bits(op), 8) == 0,
        spec_byte_at(spec_opcode_bits(op), 32) == 0,
        spec_byte_at(spec_opcode_bits(op), 40) == 0,
        spec_byte_at(spec_opcode_bits(op), 48) == 0,
        spec_byte_at(spec_opcode_bits(op), 56) == 0,
{
}

/// The common layout of all formats: opcode, and a register index in the
/// byte at bit 8.
pub open spec fn spec_head(op: InstructionOpcode, r: RegisterIndex) -> u64 {
    spec_opcode_bits(op) | ((r as u8 as u64) << 8u64)
}

pub open spec fn spec_byte_at(i: Instruction, shift: u64) -> RegisterIndex {
    (i >> shift) as u8 as usize
}

pub open spec fn spec_rtype_bits(
    op: InstructionOpcode,
    rd: RegisterIndex,
    rs1: RegisterIndex,
    rs2: RegisterIndex,
) -> u64 {
    spec_head(op, rd) | ((rs1 as u8 as u64) << 32u64) | ((rs2 as u8 as u64) << 40u64)
}

pub open spec fn spec_itype_bits(
    op: InstructionOpcode,
    rd: RegisterIndex,
    rs1: RegisterIndex,
    immediate_u: UImmediate,
) -> u64 {
    spec_head(op, rd) | ((rs1 as u8 as u64) << 32u64) | ((immediate_u as u64) << 40u64)
}

pub open spec fn spec_stype_bits(
    op: InstructionOpcode,
    immediate_u: UImmediate,
    rs1: RegisterIndex,
    rs2: RegisterIndex,
) -> u64 {
    spec_head(op, rs2) | ((rs1 as u8 as u64) << 32u64) | ((immediate_u as u64) << 40u64)
}

pub open spec fn spec_utype_bits(op: InstructionOpcode, rd: RegisterIndex, immediate_u: UImmediate) -> u64 {
    spec_head(op, rd) | ((immediate_u as u64) << 32u64)
}

pub open spec fn spec_r4type_bits(
    op: InstructionOpcode,
    rd: RegisterIndex,
    rs1: RegisterIndex,
    rs2: RegisterIndex,
    rs3: RegisterIndex,
) -> u64 {
    spec_rtype_bits(op, rd, rs1, rs2) | ((rs3 as u8 as u64) << 48u64)
}

pub open spec fn spec_r5type_bits(
    op: InstructionOpcode,
    rd: RegisterIndex,
    rs1: RegisterIndex,
    rs2: RegisterIndex,
    rs3: RegisterIndex,
    rs4: RegisterIndex,
) -> u64 {
    spec_r4type_bits(op, rd, rs1, rs2, rs3) | ((rs4 as u8 as u64) << 56u64)
}

/// The signed immediate stored in the top 24 bits.
pub open spec fn spec_immediate_at_40(i: Instruction) -> SImmediate {
    ((i as i64) >> 40u64) as i32
}

/// The signed immediate stored in the top 32 bits.
pub open spec fn spec_immediate_at_32(i: Instruction) -> SImmediate {
    ((i as i64) >> 32u64) as i32
}

/// R-type: `rd`, `rs1`, `rs2`.
#[derive(Debug, Clone, Copy, PartialEq, Eq, Structural)]
pub struct Rtype(pub Instruction);

impl Rtype {
    pub fn new(op: InstructionOpcode, rd: RegisterIndex, rs1: RegisterIndex, rs2: RegisterIndex) -> (r: Self)
        ensures
            r.0 == spec_rtype_bits(op, rd, rs1, rs2),
    {
        Rtype(
            (op as u64 >> 8 << 16) | (op as u64 & 0xff) | ((rd as u8 as u64) << 8) | ((
            rs1 as u8 as u64) << 32) | ((rs2 as u8 as u64) << 40),
        )
    }

    pub fn op(self) -> (r: InstructionOpcode)
        ensures
            r == spec_extract_opcode(self.0),
    {
        proof {
            lemma_op_bits(self.0);
        }
        ((self.0 >> 16 << 8) | (self.0 & 0xFF)) as InstructionOpcode
    }

    pub fn rd(self) -> (r: RegisterIndex)
        ensures
            r == spec_byte_at(self.0, 8),
            r < 256,
    {
        (self.0 >> 8) as u8 as RegisterIndex
    }

    pub fn rs1(self) -> (r: RegisterIndex)
        ensures
            r == spec_byte_at(self.0, 32),
            r < 256,
    {
        (self.0 >> 32) as u8 as RegisterIndex
    }

    pub fn rs2(self) -> (r: RegisterIndex)
        ensures
            r == spec_byte_at(self.0, 40),
            r < 256,
    {
        (self.0 >> 40) as u8 as RegisterIndex
    }
}

/// I-type: `rd`, `rs1` and a signed immediate of up to 24 bits.
#[derive(Debug, Clone, Copy, PartialEq, Eq, Structural)]
pub struct Itype(pub Instruction);

impl Itype {
    pub fn new_u(op: InstructionOpcode, rd: RegisterIndex, rs1: RegisterIndex, immediate_u: UImmediate) -> (r: Self)
        ensures
            r.0 == spec_itype_bits(op, rd, rs1, immediate_u),
    {
        // Per RISC-V spec, I-type uses 12 bits at most, so it's perfectly
        // fine we store them in 3-byte location.
        Itype(
            (op as u64 >> 8 << 16) | (op as u64 & 0xff) | ((rd as u8 as u64) << 8) | ((
            rs1 as u8 as u64) << 32) | ((immediate_u as u64) << 40),
        )
    }

    pub fn new_s(op: InstructionOpcode, rd: RegisterIndex, rs1: RegisterIndex, immediate_s: SImmediate) -> (r: Self)
        ensures
            r.0 == spec_itype_bits(op, rd, rs1, immediate_s as u32),
    {
        Self::new_u(op, rd, rs1, immediate_s as UImmediate)
    }

    pub fn op(self) -> (r: InstructionOpcode)
        ensures
            r == spec_extract_opcode(self.0),
    {
        proof {
            lemma_op_bits(self.0);
        }
        ((self.0 >> 16 << 8) | (self.0 & 0xFF)) as InstructionOpcode
    }

    pub fn rd(self) -> (r: RegisterIndex)
        ensures
            r == spec_byte_at(self.0, 8),
            r < 256,
    {
        (self.0 >> 8) as u8 as RegisterIndex
    }

    pub fn rs1(self) -> (r: RegisterIndex)
        ensures
            r == spec_byte_at(self.0, 32),
            r < 256,
    {
        (self.0 >> 32) as u8 as RegisterIndex
    }

    pub fn immediate_u(self) -> (r: UImmediate)
        ensures
            r == spec_immediate_at_40(self.0) as u32,
    {
        self.immediate_s() as UImmediate
    }

    pub fn immediate_s(self) -> (r: SImmediate)
        ensures
            r == spec_immediate_at_40(self.0),
    {
        ((self.0 as i64) >> 40) as SImmediate
    }
}

/// S-type (also used for B-type): `rs1`, `rs2` and a signed immediate.
#[derive(Debug, Clone, Copy, PartialEq, Eq, Structural)]
pub struct Stype(pub Instruction);

impl Stype {
    pub fn new_u(op: InstructionOpcode, immediate_u: UImmediate, rs1: RegisterIndex, rs2: RegisterIndex) -> (r: Self)
        ensures
            r.0 == spec_stype_bits(op, immediate_u, rs1, rs2),
    {
        // Per RISC-V spec, S/B type uses 13 bits at most, so it's perfectly
        // fine we store them in 3-byte location.
        Stype(
            (op as u64 >> 8 << 16) | (op as u64 & 0xff) | ((rs2 as u8 as u64) << 8) | ((
            rs1 as u8 as u64) << 32) | ((immediate_u as u64) << 40),
        )
    }

    pub fn new_s(op: InstructionOpcode, immediate_s: SImmediate, rs1: RegisterIndex, rs2: RegisterIndex) -> (r: Self)
        ensures
            r.0 == spec_stype_bits(op, immediate_s as u32, rs1, rs2),
    {
        Self::new_u(op, immediate_s as UImmediate, rs1, rs2)
    }

    pub fn op(self) -> (r: InstructionOpcode)
        ensures
            r == spec_extract_opcode(self.0),
    {
        proof {
            lemma_op_bits(self.0);
        }
        ((self.0 >> 16 << 8) | (self.0 & 0xFF)) as InstructionOpcode
    }

    pub fn rs1(self) -> (r: RegisterIndex)
        ensures
            r == spec_byte_at(self.0, 32),
            r < 256,
    {
        (self.0 >> 32) as u8 as RegisterIndex
    }

    pub fn rs2(self) -> (r: RegisterIndex)
        ensures
            r == spec_byte_at(self.0, 8),
            r < 256,
    {
        (self.0 >> 8) as u8 as RegisterIndex
    }

    pub fn immediate_u(self) -> (r: UImmediate)
        ensures
            r == spec_immediate_at_40(self.0) as u32,
    {
        self.immediate_s() as UImmediate
    }

    pub fn immediate_s(self) -> (r: SImmediate)
        ensures
            r == spec_immediate_at_40(self.0),
    {
        ((self.0 as i64) >> 40) as SImmediate
    }
}

/// U-type (also used for J-type): `rd` and a 32 bit immediate.
#[derive(Debug, Clone, Copy, PartialEq, Eq, Structural)]
pub struct Utype(pub Instruction);

impl Utype {
    pub fn new(op: InstructionOpcode, rd: RegisterIndex, immediate_u: UImmediate) -> (r: Self)
        ensures
            r.0 == spec_utype_bits(op, rd, immediate_u),
    {
        Utype(
            (op as u64 >> 8 << 16) | (op as u64 & 0xff) | ((rd as u8 as u64) << 8) | ((
            immediate_u as u64) << 32),
        )
    }

    pub fn new_s(op: InstructionOpcode, rd: RegisterIndex, immediate_s: SImmediate) -> (r: Self)
        ensures
            r.0 == spec_utype_bits(op, rd, immediate_s as u32),
    {
        Self::new(op, rd, immediate_s as UImmediate)
    }

    pub fn op(self) -> (r: InstructionOpcode)
        ensures
            r == spec_extract_opcode(self.0),
    {
        proof {
            lemma_op_bits(self.0);
        }
        ((self.0 >> 16 << 8) | (self.0 & 0xFF)) as InstructionOpcode
    }

    pub fn rd(self) -> (r: RegisterIndex)
        ensures
            r == spec_byte_at(self.0, 8),
            r < 256,
    {
        (self.0 >> 8) as u8 as RegisterIndex
    }

    pub fn immediate_u(self) -> (r: UImmediate)
        ensures
            r == spec_immediate_at_32(self.0) as u32,
    {
        self.immediate_s() as UImmediate
    }

    pub fn immediate_s(self) -> (r: SImmediate)
        ensures
            r == spec_immediate_at_32(self.0),
    {
        ((self.0 as i64) >> 32) as SImmediate
    }
}

/// R4-type: `rd`, `rs1`, `rs2`, `rs3`.
#[derive(Debug, Clone, Copy, PartialEq, Eq, Structural)]
pub struct R4type(pub Instruction);

impl R4type {
    pub fn new(
        op: InstructionOpcode,
        rd: RegisterIndex,
        rs1: RegisterIndex,
        rs2: RegisterIndex,
        rs3: RegisterIndex,
    ) -> (r: Self)
        ensures
            r.0 == spec_r4type_bits(op, rd, rs1, rs2, rs3),
    {
        R4type(
            (op as u64 >> 8 << 16) | (op as u64 & 0xff) | ((rd as u8 as u64) << 8) | ((
            rs1 as u8 as u64) << 32) | ((rs2 as u8 as u64) << 40) | ((rs3 as u8 as u64) << 48),
        )
    }

    pub fn op(self) -> (r: InstructionOpcode)
        ensures
            r == spec_extract_opcode(self.0),
    {
        proof {
            lemma_op_bits(self.0);
        }
        ((self.0 >> 16 << 8) | (self.0 & 0xFF)) as InstructionOpcode
    }

    pub fn rd(self) -> (r: RegisterIndex)
        ensures
            r == spec_byte_at(self.0, 8),
            r < 256,
    {
        (self.0 >> 8) as u8 as RegisterIndex
    }

    pub fn rs1(self) -> (r: RegisterIndex)
        ensures
            r == spec_byte_at(self.0, 32),
            r < 256,
    {
        (self.0 >> 32) as u8 as RegisterIndex
    }

    pub fn rs2(self) -> (r: RegisterIndex)
        ensures
            r == spec_byte_at(self.0, 40),
            r < 256,
    {
        (self.0 >> 40) as u8 as RegisterIndex
    }

    pub fn rs3(self) -> (r: RegisterIndex)
        ensures
            r == spec_byte_at(self.0, 48),
            r < 256,
    {
        (self.0 >> 48) as u8 as RegisterIndex
    }
}

/// R5-type: `rd`, `rs1`, `rs2`, `rs3`, `rs4`.
#[derive(Debug, Clone, Copy, PartialEq, Eq, Structural)]
pub struct R5type(pub Instruction);

impl R5type {
    pub fn new(
        op: InstructionOpcode,
        rd: RegisterIndex,
        rs1: RegisterIndex,
        rs2: RegisterIndex,
        rs3: RegisterIndex,
        rs4: RegisterIndex,
    ) -> (r: Self)
        ensures
            r.0 == spec_r5type_bits(op, rd, rs1, rs2, rs3, rs4),
    {
        assert((op as u8 as u64) == (op as u64 & 0xff)) by (bit_vector);
        R5type(
            ((op as u64) >> 8 << 16) | (op as u8 as u64) | ((rd as u8 as u64) << 8) | ((
            rs1 as u8 as u64) << 32) | ((rs2 as u8 as u64) << 40) | ((rs3 as u8 as u64) << 48)
                | ((rs4 as u8 as u64) << 56),
        )
    }

    pub fn op(self) -> (r: InstructionOpcode)
        ensures
            r == spec_extract_opcode(self.0),
    {
        proof {
            lemma_op_bits(self.0);
        }
        ((self.0 >> 16 << 8) | (self.0 & 0xFF)) as InstructionOpcode
    }

    pub fn rd(self) -> (r: RegisterIndex)
        ensures
            r == spec_byte_at(self.0, 8),
            r < 256,
    {
        (self.0 >> 8) as u8 as RegisterIndex
    }

    pub fn rs1(self) -> (r: RegisterIndex)
        ensures
            r == spec_byte_at(self.0, 32),
            r < 256,
    {
        (self.0 >> 32) as u8 as RegisterIndex
    }

    pub fn rs2(self) -> (r: RegisterIndex)
        ensures
            r == spec_byte_at(self.0, 40),
            r < 256,
    {
        (self.0 >> 40) as u8 as RegisterIndex
    }

    pub fn rs3(self) -> (r: RegisterIndex)
        ensures
            r == spec_byte_at(self.0, 48),
            r < 256,
    {
        (self.0 >> 48) as u8 as RegisterIndex
    }

    pub fn rs4(self) -> (r: RegisterIndex)
        ensures
            r == spec_byte_at(self.0, 56),
            r < 256,
    {
        (self.0 >> 56) as u8 as RegisterIndex
    }
}

pub fn is_slowpath_instruction(i: Instruction) -> (r: bool)
    ensures
        r == ((i as u8 as u16) < MINIMAL_OPCODE),
{
    (i as u8 as u16) < MINIMAL_OPCODE
}

/// An instruction ends a basic block when its opcode is in the range of
/// branch, jump and system opcodes, or it takes the slow path.
pub open spec fn spec_is_basic_block_end(i: Instruction) -> bool {
    (MINIMAL_BASIC_BLOCK_END_OPCODE <= spec_extract_opcode(i) <= MAXIMUM_BASIC_BLOCK_END_OPCODE)
        || ((i as u8 as u16) < MINIMAL_OPCODE)
}

pub fn is_basic_block_end_instruction(i: Instruction) -> (r: bool)
    ensures
        r == spec_is_basic_block_end(i),
{
    let opcode: InstructionOpcode = extract_opcode(i);
    (MINIMAL_BASIC_BLOCK_END_OPCODE <= opcode && opcode <= MAXIMUM_BASIC_BLOCK_END_OPCODE)
        || is_slowpath_instruction(i)
}

pub fn set_instruction_length_2(i: u64) -> (r: u64)
    ensures
        r == i | 0x1000000,
{
    i | 0x1000000
}

pub fn set_instruction_length_4(i: u64) -> (r: u64)
    ensures
        r == i | 0x2000000,
{
    i | 0x2000000
}

pub fn set_instruction_length_n(i: u64, n: u8) -> (r: u64)
    ensures
        r == i | (((n as u64 & 0x1f) >> 1u64) << 24u64),
{
    i | ((n as u64 & 0x1f) >> 1 << 24)
}

pub fn instruction_length(i: Instruction) -> (r: u8)
    ensures
        r == spec_instruction_length(i),
        r % 2 == 0,
        r <= 30,
{
    let r: u8 = (((i >> 24) & 0x0f) << 1) as u8;
    assert(spec_instruction_length(i) % 2 == 0 && spec_instruction_length(i) <= 30) by (bit_vector);
    r
}

/// Encoding an R-type instruction and reading it back gives the opcode and
/// the register indices that went in, and leaves the length bits clear.
pub proof fn lemma_rtype_roundtrip(op: InstructionOpcode, rd: RegisterIndex, rs1: RegisterIndex, rs2: RegisterIndex)
    requires
        rd < 256,
        rs1 < 256,
        rs2 < 256,
    ensures
        spec_extract_opcode(spec_rtype_bits(op, rd, rs1, rs2)) == op,
        spec_byte_at(spec_rtype_bits(op, rd, rs1, rs2), 8) == rd,
        spec_byte_at(spec_rtype_bits(op, rd, rs1, rs2), 32) == rs1,
        spec_byte_at(spec_rtype_bits(op, rd, rs1, rs2), 40) == rs2,
        spec_byte_at(spec_rtype_bits(op, rd, rs1, rs2), 48) == 0,
        spec_byte_at(spec_rtype_bits(op, rd, rs1, rs2), 56) == 0,
        spec_length_bits(spec_rtype_bits(op, rd, rs1, rs2)) == 0,
{
    let a: u8 = rd as u8;
    let b: u8 = rs1 as u8;
    let c: u8 = rs2 as u8;
    assert(a as usize == rd && b as usize == rs1 && c as usize == rs2);
    let i: u64 = spec_rtype_bits(op, rd, rs1, rs2);
    assert(i == ((op as u64 >> 8u64) << 16u64) | (op as u64 & 0xff) | ((a as u64) << 8u64) | ((b as u64) << 32u64) | ((c as u64) << 40u64));
    assert({
        let i = ((op as u64 >> 8u64) << 16u64) | (op as u64 & 0xff) | ((a as u64) << 8u64) | ((b as u64) << 32u64) | ((c as u64) << 40u64);
        &&& (((i >> 8u64) & 0xff00) | (i & 0x00ff)) as u16 == op
        &&& (i >> 8u64) as u8 == a
        &&& (i >> 32u64) as u8 == b
        &&& (i >> 40u64) as u8 == c
        &&& (i >> 48u64) as u8 == 0
        &&& (i >> 56u64) as u8 == 0
        &&& (i >> 24u64) & 0x0f == 0
    }) by (bit_vector);
}

/// Encoding an I-type instruction and reading it back gives the opcode, the
/// registers and the immediate, for immediates that fit in 24 signed bits.
pub proof fn lemma_itype_roundtrip(op: InstructionOpcode, rd: RegisterIndex, rs1: RegisterIndex, imm: SImmediate)
    requires
        rd < 256,
        rs1 < 256,
    ensures
        spec_extract_opcode(spec_itype_bits(op, rd, rs1, imm as u32)) == op,
        spec_byte_at(spec_itype_bits(op, rd, rs1, imm as u32), 8) == rd,
        spec_byte_at(spec_itype_bits(op, rd, rs1, imm as u32), 32) == rs1,
        -0x80_0000 <= imm < 0x80_0000 ==> spec_immediate_at_40(spec_itype_bits(op, rd, rs1, imm as u32)) == imm,
        spec_length_bits(spec_itype_bits(op, rd, rs1, imm as u32)) == 0,
{
    let a: u8 = rd as u8;
    let b: u8 = rs1 as u8;
    let u: u32 = imm as u32;
    assert(a as usize == rd && b as usize == rs1);
    let i: u64 = spec_itype_bits(op, rd, rs1, u);
    assert(i == ((op as u64 >> 8u64) << 16u64) | (op as u64 & 0xff) | ((a as u64) << 8u64) | ((b as u64) << 32u64) | ((u as u64) << 40u64));
    assert({
        let i = ((op as u64 >> 8u64) << 16u64) | (op as u64 & 0xff) | ((a as u64) << 8u64) | ((b as u64) << 32u64) | (((imm as u32) as u64) << 40u64);
        &&& (((i >> 8u64) & 0xff00) | (i & 0x00ff)) as u16 == op
        &&& (i >> 8u64) as u8 == a
        &&& (i >> 32u64) as u8 == b
        &&& (-0x80_0000 <= imm < 0x80_0000 ==> ((i as i64) >> 40u64) as i32 == imm)
        &&& (i >> 24u64) & 0x0f == 0
    }) by (bit_vector);
}

/// The opcode and registers of an I-type encoding read back whatever its
/// immediate bits.
pub proof fn lemma_itype_fields(op: InstructionOpcode, rd: RegisterIndex, rs1: RegisterIndex, u: u32)
    requires
        rd < 256,
        rs1 < 256,
    ensures
        spec_extract_opcode(spec_itype_bits(op, rd, rs1, u)) == op,
        spec_byte_at(spec_itype_bits(op, rd, rs1, u), 8) == rd,
        spec_byte_at(spec_itype_bits(op, rd, rs1, u), 32) == rs1,
        spec_length_bits(spec_itype_bits(op, rd, rs1, u)) == 0,
{
    let a: u8 = rd as u8;
    let b: u8 = rs1 as u8;
    assert(a as usize == rd && b as usize == rs1);
    assert({
        let i = ((op as u64 >> 8u64) << 16u64) | (op as u64 & 0xff) | ((a as u64) << 8u64) | ((b as u64) << 32u64) | ((u as u64) << 40u64);
        &&& (((i >> 8u64) & 0xff00) | (i & 0x00ff)) as u16 == op
        &&& (i >> 8u64) as u8 == a
        &&& (i >> 32u64) as u8 == b
        &&& (i >> 24u64) & 0x0f == 0
    }) by (bit_vector);
}

/// Encoding an S-type instruction and reading it back gives the opcode, the
/// registers and the immediate, for immediates that fit in 24 signed bits.
pub proof fn lemma_stype_roundtrip(op: InstructionOpcode, imm: SImmediate, rs1: RegisterIndex, rs2: RegisterIndex)
    requires
        rs1 < 256,
        rs2 < 256,
    ensures
        spec_extract_opcode(spec_stype_bits(op, imm as u32, rs1, rs2)) == op,
        spec_byte_at(spec_stype_bits(op, imm as u32, rs1, rs2), 32) == rs1,
        spec_byte_at(spec_stype_bits(op, imm as u32, rs1, rs2), 8) == rs2,
        -0x80_0000 <= imm < 0x80_0000 ==> spec_immediate_at_40(spec_stype_bits(op, imm as u32, rs1, rs2)) == imm,
        spec_length_bits(spec_stype_bits(op, imm as u32, rs1, rs2)) == 0,
{
    assert(spec_stype_bits(op, imm as u32, rs1, rs2) == spec_itype_bits(op, rs2, rs1, imm as u32));
    lemma_itype_roundtrip(op, rs2, rs1, imm);
}

/// Encoding a U-type instruction and reading it back gives the opcode, the
/// register and any 32 bit immediate.
pub proof fn lemma_utype_roundtrip(op: InstructionOpcode, rd: RegisterIndex, imm: SImmediate)
    requires
        rd < 256,
    ensures
        spec_extract_opcode(spec_utype_bits(op, rd, imm as u32)) == op,
        spec_byte_at(spec_utype_bits(op, rd, imm as u32), 8) == rd,
        spec_immediate_at_32(spec_utype_bits(op, rd, imm as u32)) == imm,
        spec_length_bits(spec_utype_bits(op, rd, imm as u32)) == 0,
{
    let a: u8 = rd as u8;
    assert(a as usize == rd);
    let i: u64 = spec_utype_bits(op, rd, imm as u32);
    assert(i == ((op as u64 >> 8u64) << 16u64) | (op as u64 & 0xff) | ((a as u64) << 8u64) | (((imm as u32) as u64) << 32u64));
    assert({
        let i = ((op as u64 >> 8u64) << 16u64) | (op as u64 & 0xff) | ((a as u64) << 8u64) | (((imm as u32) as u64) << 32u64);
        &&& (((i >> 8u64) & 0xff00) | (i & 0x00ff)) as u16 == op
        &&& (i >> 8u64) as u8 == a
        &&& ((i as i64) >> 32u64) as i32 == imm
        &&& (i >> 24u64) & 0x0f == 0
    }) by (bit_vector);
}

/// Recording a length of `n` bytes leaves the opcode and every register
/// byte as it was.
pub proof fn lemma_length_keeps_fields(i: Instruction, n: u64)
    by (bit_vector)
    ensures
        spec_extract_opcode(i | (((n & 0x1f) >> 1u64) << 24u64)) == spec_extract_opcode(i),
        spec_byte_at(i | (((n & 0x1f) >> 1u64) << 24u64), 8) == spec_byte_at(i, 8),
        spec_byte_at(i | (((n & 0x1f) >> 1u64) << 24u64), 32) == spec_byte_at(i, 32),
        spec_byte_at(i | (((n & 0x1f) >> 1u64) << 24u64), 40) == spec_byte_at(i, 40),
        spec_byte_at(i | (((n & 0x1f) >> 1u64) << 24u64), 48) == spec_byte_at(i, 48),
        spec_byte_at(i | (((n & 0x1f) >> 1u64) << 24u64), 56) == spec_byte_at(i, 56),
        n == 2 ==> ((n & 0x1f) >> 1u64) << 24u64 == 0x1000000,
        n == 4 ==> ((n & 0x1f) >> 1u64) << 24u64 == 0x2000000,
{
}

/// Encoding an R4-type instruction and reading it back gives the opcode and
/// the register indices that went in.
pub proof fn lemma_r4type_roundtrip(
    op: InstructionOpcode,
    rd: RegisterIndex,
    rs1: RegisterIndex,
    rs2: RegisterIndex,
    rs3: RegisterIndex,
)
    requires
        rd < 256,
        rs1 < 256,
        rs2 < 256,
        rs3 < 256,
    ensures
        spec_extract_opcode(spec_r4type_bits(op, rd, rs1, rs2, rs3)) == op,
        spec_byte_at(spec_r4type_bits(op, rd, rs1, rs2, rs3), 8) == rd,
        spec_byte_at(spec_r4type_bits(op, rd, rs1, rs2, rs3), 32) == rs1,
        spec_byte_at(spec_r4type_bits(op, rd, rs1, rs2, rs3), 40) == rs2,
        spec_byte_at(spec_r4type_bits(op, rd, rs1, rs2, rs3), 48) == rs3,
        spec_length_bits(spec_r4type_bits(op, rd, rs1, rs2, rs3)) == 0,
{
    let a: u8 = rd as u8;
    let b: u8 = rs1 as u8;
    let c: u8 = rs2 as u8;
    let d: u8 = rs3 as u8;
    assert(a as usize == rd && b as usize == rs1 && c as usize == rs2 && d as usize == rs3);
    let i: u64 = spec_r4type_bits(op, rd, rs1, rs2, rs3);
    assert(i == ((op as u64 >> 8u64) << 16u64) | (op as u64 & 0xff) | ((a as u64) << 8u64) | ((b as u64) << 32u64) | ((c as u64) << 40u64) | ((d as u64) << 48u64));
    assert({
        let i = ((op as u64 >> 8u64) << 16u64) | (op as u64 & 0xff) | ((a as u64) << 8u64) | ((b as u64) << 32u64) | ((c as u64) << 40u64) | ((d as u64) << 48u64);
        &&& (((i >> 8u64) & 0xff00) | (i & 0x00ff)) as u16 == op
        &&& (i >> 8u64) as u8 == a
        &&& (i >> 32u64) as u8 == b
        &&& (i >> 40u64) as u8 == c
        &&& (i >> 48u64) as u8 == d
        &&& (i >> 24u64) & 0x0f == 0
    }) by (bit_vector);
}

/// Setting the length of an instruction whose length bits are clear records
/// that length and keeps the opcode.
pub proof fn lemma_set_length(i: Instruction, n: u8)
    requires
        spec_length_bits(i) == 0,
        n % 2 == 0,
        n <= 30,
    ensures
        spec_instruction_length(i | (((n as u64 & 0x1f) >> 1u64) << 24u64)) == n,
        spec_extract_opcode(i | (((n as u64 & 0x1f) >> 1u64) << 24u64)) == spec_extract_opcode(i),
        spec_instruction_length(i | 0x1000000) == 2,
        spec_extract_opcode(i | 0x1000000) == spec_extract_opcode(i),
        spec_instruction_length(i | 0x2000000) == 4,
        spec_extract_opcode(i | 0x2000000) == spec_extract_opcode(i),
{
    assert((i >> 24u64) & 0x0f == 0 && n % 2 == 0 && n <= 30 ==> {
        let j = i | (((n as u64 & 0x1f) >> 1u64) << 24u64);
        &&& ((((j >> 24u64) & 0x0f) << 1u64) as u8) == n
        &&& (((j >> 8u64) & 0xff00) | (j & 0x00ff)) as u16 == (((i >> 8u64) & 0xff00) | (i & 0x00ff)) as u16
    }) by (bit_vector);
    assert((i >> 24u64) & 0x0f == 0 ==> {
        let j = i | 0x1000000;
        let k = i | 0x2000000;
        &&& ((((j >> 24u64) & 0x0f) << 1u64) as u8) == 2
        &&& (((j >> 8u64) & 0xff00) | (j & 0x00ff)) as u16 == (((i >> 8u64) & 0xff00) | (i & 0x00ff)) as u16
        &&& ((((k >> 24u64) & 0x0f) << 1u64) as u8) == 4
        &&& (((k >> 8u64) & 0xff00) | (k & 0x00ff)) as u16 == (((i >> 8u64) & 0xff00) | (i & 0x00ff)) as u16
    }) by (bit_vector);
}

} // verus!
