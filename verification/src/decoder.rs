//! Fetching instruction bits from memory, decoding them with a chain of
//! decoders, and fusing common instruction pairs into one operation.
use vstd::prelude::*;
use crate::definitions::instructions as insts;
use crate::definitions::registers::RA;
use crate::definitions::{ISA_B, ISA_MOP};
use crate::error::Error;
use crate::instructions::a::spec_a_factory;
use crate::instructions::b::spec_b_factory;
use crate::instructions::i::spec_i_factory;
use crate::instructions::m::spec_m_factory;
use crate::instructions::register::Register;
use crate::instructions::rvc::spec_rvc_factory;
use crate::instructions::{
    a, b, extract_opcode, i, instruction_length, m, rvc, set_instruction_length_n, spec_byte_at,
    spec_extract_opcode, spec_immediate_at_32, spec_immediate_at_40, spec_instruction_length,
    spec_r4type_bits, spec_utype_bits, Instruction, Itype, R4type, Rtype, Utype,
};
use crate::machine::VERSION0;
use crate::memory::Memory;

verus! {

/// The offset of an address within its page: `RISCV_PAGESIZE - 1`.
const RISCV_PAGESIZE_MASK: u64 = 0xfff;

/// One of the library's decoders, for one instruction set extension.
#[derive(Debug, Clone, Copy, PartialEq, Eq, Structural)]
pub enum InstructionFactory {
    /// The compressed instructions.
    Rvc,
    /// The base integer instructions.
    I,
    /// Multiplication and division.
    M,
    /// Atomic memory operations.
    A,
    /// Bit manipulation.
    B,
}

/// What decoder `f` makes of `bits` for registers of `width` bits.
pub open spec fn spec_apply_factory(
    f: InstructionFactory,
    bits: u32,
    width: u8,
    shift_mask: u8,
    version: u32,
) -> Option<Instruction> {
    match f {
        InstructionFactory::Rvc => spec_rvc_factory(bits, width, shift_mask, version),
        InstructionFactory::I => spec_i_factory(bits, width, shift_mask, version),
        InstructionFactory::M => spec_m_factory(bits, width),
        InstructionFactory::A => spec_a_factory(bits, width),
        InstructionFactory::B => spec_b_factory(bits, width),
    }
}

/// The decoding by the first decoder of `fs` that accepts `bits`.
pub open spec fn spec_first_decoding(
    fs: Seq<InstructionFactory>,
    bits: u32,
    width: u8,
    shift_mask: u8,
    version: u32,
) -> Option<Instruction>
    decreases fs.len(),
{
    if fs.len() == 0 {
        None
    } else {
        match spec_apply_factory(fs[0], bits, width, shift_mask, version) {
            Some(inst) => Some(inst),
            None => spec_first_decoding(fs.drop_first(), bits, width, shift_mask, version),
        }
    }
}

fn apply_factory<R: Register>(f: InstructionFactory, bits: u32, version: u32) -> (r: Option<
    Instruction,
>)
    ensures
        r == spec_apply_factory(f, bits, R::BITS, R::SHIFT_MASK, version),
{
    match f {
        InstructionFactory::Rvc => rvc::factory::<R>(bits, version),
        InstructionFactory::I => i::factory::<R>(bits, version),
        InstructionFactory::M => m::factory::<R>(bits, version),
        InstructionFactory::A => a::factory::<R>(bits, version),
        InstructionFactory::B => b::factory::<R>(bits),
    }
}

/// The instruction bits at `pc`: a 32 bit word where its two low bits are
/// 0b11, else the 16 bit compressed instruction. Within a page one 32 bit
/// fetch serves; at the last two bytes of a page the halves are fetched
/// apart, so that the next page is touched only for a 32 bit instruction.
pub open spec fn spec_decode_bits<M: Memory>(memory: M, pc: u64) -> Result<u32, Error> {
    if pc & 0xfff < 0xffe {
        match memory.spec_execute_load(pc, 4) {
            Err(e) => Err(e),
            Ok(v) => {
                let word: u32 = v as u32;
                if word & 0x3 != 0x3 {
                    Ok(word & 0xffff)
                } else {
                    Ok(word)
                }
            },
        }
    } else {
        match memory.spec_execute_load(pc, 2) {
            Err(e) => Err(e),
            Ok(lo) => {
                let low: u32 = lo as u16 as u32;
                if low & 0x3 == 0x3 {
                    match memory.spec_execute_load(pc.wrapping_add(2), 2) {
                        Err(e) => Err(e),
                        Ok(hi) => Ok(low | ((hi as u16 as u32) << 16u32)),
                    }
                } else {
                    Ok(low)
                }
            },
        }
    }
}

/// The opcodes that start a fusable pair.
pub open spec fn spec_is_fusion_head(op: u16) -> bool {
    ||| op == insts::OP_LUI
    ||| op == insts::OP_AUIPC
    ||| op == insts::OP_MULH
    ||| op == insts::OP_MULHU
    ||| op == insts::OP_MULHSU
    ||| op == insts::OP_DIV
    ||| op == insts::OP_DIVU
}

/// The fused form of a high multiplication or a division followed by the
/// matching low multiplication or remainder over the same sources, when
/// the first result does not overwrite a source.
pub open spec fn spec_fuse_wide(head: Instruction, next: Instruction, second: u16, fused: u16) -> Instruction {
    let hd = spec_byte_at(head, 8);
    let h1 = spec_byte_at(head, 32);
    let h2 = spec_byte_at(head, 40);
    if spec_extract_opcode(next) == second && hd != h1 && hd != h2 && h1 == spec_byte_at(next, 32)
        && h2 == spec_byte_at(next, 40) {
        spec_r4type_bits(fused, hd, h1, h2, spec_byte_at(next, 8)) | ((((spec_instruction_length(
            head,
        ) + spec_instruction_length(next)) as u8 as u64 & 0x1f) >> 1u64) << 24u64)
    } else {
        head
    }
}

/// `a + b` is an `i32`: adding them on 32 bits does not wrap.
pub open spec fn spec_sum_fits_i32(a: i32, b: i32) -> bool {
    i32::MIN <= a + b <= i32::MAX
}

/// The fused form of an upper immediate into `ra` followed by a jump
/// through `ra` that links in `ra`, where the two immediates add up without
/// wrapping on 32 bits; or (for LUI) of an upper immediate followed by an
/// ADDIW on its register. Only these pairs do, as one instruction, exactly
/// what the two do in turn.
///
/// An upper immediate into another register `t` followed by `jalr ra,
/// I(t)` is not fused: the far jump holds one register, which it links, and
/// one 32 bit immediate, so it cannot also leave the upper immediate in `t`
/// (nor, for `t` = x0, jump from zero); and where the two immediates wrap
/// on 32 bits, its target differs from the pair's 64 bit one. Such a pair
/// decodes to its first instruction alone, and the machine then decodes and
/// runs the jump as the next instruction, so it does what the pair does.
pub open spec fn spec_fuse_upper(head: Instruction, next: Instruction, jump: u16) -> Instruction {
    let hd = spec_byte_at(head, 8);
    let nop = spec_extract_opcode(next);
    let nd = spec_byte_at(next, 8);
    let n1 = spec_byte_at(next, 32);
    let imm: i32 = spec_immediate_at_32(head).wrapping_add(spec_immediate_at_40(next));
    let size = ((((spec_instruction_length(head) + spec_instruction_length(next)) as u8 as u64)
        & 0x1f) >> 1u64) << 24u64;
    if nop == insts::OP_JALR_VERSION1 && n1 == hd && nd == RA && hd == RA && spec_sum_fits_i32(
        spec_immediate_at_32(head),
        spec_immediate_at_40(next),
    ) {
        spec_utype_bits(jump, RA, imm as u32) | size
    } else if jump == insts::OP_FAR_JUMP_ABS && nop == insts::OP_ADDIW && n1 == nd && nd == hd {
        spec_utype_bits(insts::OP_CUSTOM_LOAD_IMM, hd, imm as u32) | size
    } else {
        head
    }
}

/// What `head` becomes given the instruction after it, if there is one.
pub open spec fn spec_fuse(head: Instruction, next: Option<Instruction>) -> Instruction {
    let op = spec_extract_opcode(head);
    match next {
        None => head,
        Some(n) => if op == insts::OP_LUI {
            spec_fuse_upper(head, n, insts::OP_FAR_JUMP_ABS)
        } else if op == insts::OP_AUIPC {
            spec_fuse_upper(head, n, insts::OP_FAR_JUMP_REL)
        } else if op == insts::OP_MULH {
            spec_fuse_wide(head, n, insts::OP_MUL, insts::OP_WIDE_MUL)
        } else if op == insts::OP_MULHU {
            spec_fuse_wide(head, n, insts::OP_MUL, insts::OP_WIDE_MULU)
        } else if op == insts::OP_MULHSU {
            spec_fuse_wide(head, n, insts::OP_MUL, insts::OP_WIDE_MULSU)
        } else if op == insts::OP_DIV {
            spec_fuse_wide(head, n, insts::OP_REM, insts::OP_WIDE_DIV)
        } else if op == insts::OP_DIVU {
            spec_fuse_wide(head, n, insts::OP_REMU, insts::OP_WIDE_DIVU)
        } else {
            head
        },
    }
}

fn fuse_wide(head: Instruction, next: Instruction, second: u16, fused: u16) -> (r: Instruction)
    ensures
        r == spec_fuse_wide(head, next, second, fused),
{
    let head_inst = Rtype(head);
    let next_inst = Rtype(next);
    if extract_opcode(next) == second && head_inst.rd() != head_inst.rs1() && head_inst.rd()
        != head_inst.rs2() && head_inst.rs1() == next_inst.rs1() && head_inst.rs2()
        == next_inst.rs2() {
        let fuze_inst = R4type::new(
            fused,
            head_inst.rd(),
            head_inst.rs1(),
            head_inst.rs2(),
            next_inst.rd(),
        );
        let fuze_size: u8 = instruction_length(head) + instruction_length(next);
        set_instruction_length_n(fuze_inst.0, fuze_size)
    } else {
        head
    }
}

fn fuse_upper(head: Instruction, next: Instruction, jump: u16) -> (r: Instruction)
    ensures
        r == spec_fuse_upper(head, next, jump),
{
    let head_inst = Utype(head);
    let next_inst = Itype(next);
    let next_opcode = extract_opcode(next);
    let fuze_imm: i32 = head_inst.immediate_s().wrapping_add(next_inst.immediate_s());
    let fuze_size: u8 = instruction_length(head) + instruction_length(next);
    let fits: bool = head_inst.immediate_s().checked_add(next_inst.immediate_s()).is_some();
    if next_opcode == insts::OP_JALR_VERSION1 && next_inst.rs1() == head_inst.rd() && next_inst.rd()
        == RA && head_inst.rd() == RA && fits {
        set_instruction_length_n(Utype::new_s(jump, RA, fuze_imm).0, fuze_size)
    } else if jump == insts::OP_FAR_JUMP_ABS && next_opcode == insts::OP_ADDIW && next_inst.rs1()
        == next_inst.rd() && next_inst.rd() == head_inst.rd() {
        set_instruction_length_n(
            Utype::new_s(insts::OP_CUSTOM_LOAD_IMM, head_inst.rd(), fuze_imm).0,
            fuze_size,
        )
    } else {
        head
    }
}

/// Fuses `head` with the instruction after it, where the pair has a fused
/// form: LUI or AUIPC into `ra` and a JALR through `ra` that links in `ra` become one
/// far jump, LUI and ADDIW on one register become one constant load, and a
/// high multiplication or a division followed by its low half or remainder
/// become one wide operation. The fused operation covers both lengths.
pub fn fuse(head: Instruction, next: Option<Instruction>) -> (r: Instruction)
    ensures
        r == spec_fuse(head, next),
{
    let next_instruction: Instruction = match next {
        None => {
            return head;
        },
        Some(n) => n,
    };
    let head_opcode = extract_opcode(head);
    if head_opcode == insts::OP_LUI {
        fuse_upper(head, next_instruction, insts::OP_FAR_JUMP_ABS)
    } else if head_opcode == insts::OP_AUIPC {
        fuse_upper(head, next_instruction, insts::OP_FAR_JUMP_REL)
    } else if head_opcode == insts::OP_MULH {
        fuse_wide(head, next_instruction, insts::OP_MUL, insts::OP_WIDE_MUL)
    } else if head_opcode == insts::OP_MULHU {
        fuse_wide(head, next_instruction, insts::OP_MUL, insts::OP_WIDE_MULU)
    } else if head_opcode == insts::OP_MULHSU {
        fuse_wide(head, next_instruction, insts::OP_MUL, insts::OP_WIDE_MULSU)
    } else if head_opcode == insts::OP_DIV {
        fuse_wide(head, next_instruction, insts::OP_REM, insts::OP_WIDE_DIV)
    } else if head_opcode == insts::OP_DIVU {
        fuse_wide(head, next_instruction, insts::OP_REMU, insts::OP_WIDE_DIVU)
    } else {
        head
    }
}

/// A chain of decoders, tried in order, for registers `R`, with optional
/// macro-operation fusion.
#[verifier::reject_recursive_types(R)]
pub struct Decoder<R: Register> {
    factories: Vec<InstructionFactory>,
    mop: bool,
    version: u32,
    width: core::marker::PhantomData<R>,
}

impl<R: Register> Decoder<R> {
    pub closed spec fn spec_factories(&self) -> Seq<InstructionFactory> {
        self.factories@
    }

    pub closed spec fn spec_mop(&self) -> bool {
        self.mop
    }

    pub closed spec fn spec_version(&self) -> u32 {
        self.version
    }

    /// What decoding the instruction at `pc` of `memory` gives: the first
    /// decoding of its bits, or the error of the fetch, or an invalid
    /// instruction where no decoder accepts the bits.
    pub open spec fn spec_decode_raw<M: Memory>(&self, memory: M, pc: u64) -> Result<Instruction, Error> {
        match spec_decode_bits(memory, pc) {
            Err(e) => Err(e),
            Ok(bits) => match spec_first_decoding(
                self.spec_factories(),
                bits,
                R::BITS,
                R::SHIFT_MASK,
                self.spec_version(),
            ) {
                Some(inst) => Ok(inst),
                None => Err(Error::InvalidInstruction { pc, instruction: bits }),
            },
        }
    }

    /// What decoding with fusion gives: the instruction at `pc`, fused with
    /// the one after it where they form a pair.
    pub open spec fn spec_decode_mop<M: Memory>(&self, memory: M, pc: u64) -> Result<Instruction, Error> {
        match self.spec_decode_raw(memory, pc) {
            Err(e) => Err(e),
            Ok(head) => {
                let next = self.spec_decode_raw(
                    memory,
                    pc.wrapping_add(spec_instruction_length(head) as u64),
                );
                Ok(
                    spec_fuse(
                        head,
                        match next {
                            Ok(n) => Some(n),
                            Err(_) => None,
                        },
                    ),
                )
            },
        }
    }

    /// A decoder with no decoders yet, of version 0 and without fusion.
    pub fn new() -> (r: Self)
        ensures
            r.spec_factories() == Seq::<InstructionFactory>::empty(),
            !r.spec_mop(),
            r.spec_version() == VERSION0,
    {
        Decoder { factories: Vec::new(), mop: false, version: VERSION0, width: core::marker::PhantomData }
    }

    /// Adds a decoder after those already there.
    pub fn add_instruction_factory(&mut self, factory: InstructionFactory)
        ensures
            final(self).spec_factories() == old(self).spec_factories().push(factory),
            final(self).spec_mop() == old(self).spec_mop(),
            final(self).spec_version() == old(self).spec_version(),
    {
        self.factories.push(factory);
    }

    fn decode_bits<M: Memory>(&self, memory: &mut M, pc: u64) -> (r: Result<u32, Error>)
        ensures
            r == spec_decode_bits(*old(memory), pc),
            *final(memory) == *old(memory),
    {
        if pc & RISCV_PAGESIZE_MASK < RISCV_PAGESIZE_MASK - 1 {
            let word: u32 = match memory.execute_load32(pc) {
                Ok(w) => w,
                Err(e) => {
                    return Err(e);
                },
            };
            if word & 0x3 != 0x3 {
                Ok(word & 0xffff)
            } else {
                Ok(word)
            }
        } else {
            let low: u32 = match memory.execute_load16(pc) {
                Ok(h) => h as u32,
                Err(e) => {
                    return Err(e);
                },
            };
            if low & 0x3 == 0x3 {
                let high: u32 = match memory.execute_load16(pc.wrapping_add(2)) {
                    Ok(h) => h as u32,
                    Err(e) => {
                        return Err(e);
                    },
                };
                Ok(low | (high << 16))
            } else {
                Ok(low)
            }
        }
    }

    /// Decodes the instruction at `pc` with the first decoder that accepts
    /// its bits.
    pub fn decode_raw<M: Memory>(&self, memory: &mut M, pc: u64) -> (r: Result<Instruction, Error>)
        ensures
            r == self.spec_decode_raw(*old(memory), pc),
            *final(memory) == *old(memory),
    {
        let instruction_bits: u32 = match self.decode_bits(memory, pc) {
            Ok(b) => b,
            Err(e) => {
                return Err(e);
            },
        };
        let mut idx: usize = 0;
        assert(self.factories@.skip(0) =~= self.factories@);
        while idx < self.factories.len()
            invariant
                idx <= self.factories@.len(),
                spec_decode_bits(*old(memory), pc) == Ok::<u32, Error>(instruction_bits),
                *memory == *old(memory),
                spec_first_decoding(self.factories@, instruction_bits, R::BITS, R::SHIFT_MASK, self.version)
                    == spec_first_decoding(
                    self.factories@.skip(idx as int),
                    instruction_bits,
                    R::BITS,
                    R::SHIFT_MASK,
                    self.version,
                ),
            decreases self.factories@.len() - idx,
        {
            proof {
                let rest = self.factories@.skip(idx as int);
                assert(rest[0] == self.factories@[idx as int]);
                assert(rest.drop_first() =~= self.factories@.skip(idx + 1));
            }
            if let Some(instruction) = apply_factory::<R>(self.factories[idx], instruction_bits, self.version) {
                return Ok(instruction);
            }
            idx = idx + 1;
        }
        assert(self.factories@.skip(idx as int).len() == 0);
        Err(Error::InvalidInstruction { pc, instruction: instruction_bits })
    }

    /// Decodes the instruction at `pc`, fused with the one after it where
    /// the pair has a fused form (see `spec_fuse`; `lemma_fused_runs_as_pair`
    /// shows that a fused instruction ends where the pair ends). An
    /// instruction after it that cannot be decoded, or a pair without a fused
    /// form, leaves the first one as it is.
    pub fn decode_mop<M: Memory>(&self, memory: &mut M, pc: u64) -> (r: Result<Instruction, Error>)
        ensures
            r == self.spec_decode_mop(*old(memory), pc),
            *final(memory) == *old(memory),
    {
        let head_instruction: Instruction = match self.decode_raw(memory, pc) {
            Ok(h) => h,
            Err(e) => {
                return Err(e);
            },
        };
        let head_opcode = extract_opcode(head_instruction);
        if head_opcode == insts::OP_LUI || head_opcode == insts::OP_AUIPC || head_opcode
            == insts::OP_MULH || head_opcode == insts::OP_MULHU || head_opcode == insts::OP_MULHSU
            || head_opcode == insts::OP_DIV || head_opcode == insts::OP_DIVU {
            let head_size: u8 = instruction_length(head_instruction);
            let next: Option<Instruction> = match self.decode_raw(memory, pc.wrapping_add(head_size as u64)) {
                Ok(n) => Some(n),
                Err(_) => None,
            };
            Ok(fuse(head_instruction, next))
        } else {
            Ok(head_instruction)
        }
    }

    /// Decodes the instruction at `pc`, with fusion where the decoder was
    /// built for it.
    pub fn decode<M: Memory>(&self, memory: &mut M, pc: u64) -> (r: Result<Instruction, Error>)
        ensures
            r == if self.spec_mop() {
                self.spec_decode_mop(*old(memory), pc)
            } else {
                self.spec_decode_raw(*old(memory), pc)
            },
            *final(memory) == *old(memory),
    {
        if self.mop {
            self.decode_mop(memory, pc)
        } else {
            self.decode_raw(memory, pc)
        }
    }
}

/// The decoders for extension set `isa`, in the order they are tried.
pub open spec fn spec_decoder_factories(isa: u8) -> Seq<InstructionFactory> {
    let base = seq![InstructionFactory::Rvc, InstructionFactory::I, InstructionFactory::M];
    if isa & ISA_B != 0 { base.push(InstructionFactory::B) } else { base }
}

/// The decoder for registers `R`, extension set `isa` and `version`: the
/// compressed, base and multiplication decoders, then the bit manipulation
/// one where `isa` has it, with fusion where it has `ISA_MOP`. The atomic
/// decoder is not among them; a caller adds it with
/// `add_instruction_factory`.
pub fn build_decoder<R: Register>(isa: u8, version: u32) -> (r: Decoder<R>)
    ensures
        r.spec_factories() == spec_decoder_factories(isa),
        r.spec_mop() == (isa & ISA_MOP != 0),
        r.spec_version() == version,
{
    let mut decoder = Decoder::<R>::new();
    decoder.version = version;
    decoder.add_instruction_factory(InstructionFactory::Rvc);
    decoder.add_instruction_factory(InstructionFactory::I);
    decoder.add_instruction_factory(InstructionFactory::M);
    if isa & ISA_B != 0 {
        decoder.add_instruction_factory(InstructionFactory::B);
    }
    decoder.mop = isa & ISA_MOP != 0;
    assert(decoder.spec_factories() =~= spec_decoder_factories(isa));
    decoder
}

} // verus!
