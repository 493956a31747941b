//! Macro-operation fusion keeps meaning: a fused instruction does, in one
//! step, what the pair it stands for does in two.
use vstd::prelude::*;
use crate::decoder::{spec_fuse, spec_fuse_upper, spec_fuse_wide, spec_sum_fits_i32};
use crate::definitions::instructions as insts;
use crate::definitions::registers::RA;
use crate::error::Error;
use crate::instructions::execute::{lemma_execute_unpack, spec_execute, spec_operands_valid};
use crate::instructions::register::{lemma_u64_extend_word, wrap64, Register};
use crate::instructions::{
    lemma_length_keeps_fields, lemma_r4type_roundtrip, lemma_utype_roundtrip, spec_byte_at,
    spec_extract_opcode, spec_immediate_at_32, spec_immediate_at_40, spec_instruction_length,
    spec_r4type_bits, spec_utype_bits, Instruction,
};
use crate::machine::{spec_write_register, CoreMachine};

verus! {

/// `a` and `b` agree on all that a program sees of a machine: the program
/// counter, the registers and the memory.
pub open spec fn same_state<M: CoreMachine>(a: M, b: M) -> bool {
    &&& a.spec_pc() == b.spec_pc()
    &&& a.spec_registers() == b.spec_registers()
    &&& a.spec_memory() == b.spec_memory()
}

/// `head` and `next` are instructions as the decoders give them: every
/// register they name is one of the 32, and their lengths together fit the
/// length field of one instruction.
pub open spec fn decoded_pair(head: Instruction, next: Instruction) -> bool {
    &&& spec_operands_valid(head)
    &&& spec_operands_valid(next)
    &&& spec_byte_at(head, 8) < 32
    &&& spec_byte_at(next, 8) < 32
    &&& spec_instruction_length(head) + spec_instruction_length(next) < 32
}

/// Additions that wrap at 2^64.
proof fn lemma_wrap(x: u64, y: u64, z: u64)
    by (bit_vector)
    ensures
        wrap64(x + y) == (x + y) as u64,
        wrap64(wrap64(x + y) + z) == wrap64(x + wrap64(y + z)),
{
}

/// Adding two 32 bit immediates widened to 64 bits: the sum when it does
/// not wrap on 32 bits, and in any case the 32 bit wrapping sum in the low
/// word. And recording the total length of two instructions `h` and `n` in
/// an encoding `i` without a length records that total, and keeps the
/// upper immediate.
proof fn lemma_i32_sum_and_length(a: i32, b: i32, i: u64, h: u64, n: u64)
    by (bit_vector)
    ensures
        -0x8000_0000 <= a + b <= 0x7fff_ffff ==> (a as u64 + b as u64) as u64 == ((a + b) as i32) as u64,
        ((((a as u64 + b as u64) as u64) as u32 as i32) as i64 as u64) == (if a + b > 0x7fff_ffff {
            (a + b - 0x1_0000_0000) as i32
        } else if a + b < -0x8000_0000 {
            (a + b + 0x1_0000_0000) as i32
        } else {
            (a + b) as i32
        }) as u64,
        (i >> 24u64) & 0x0f == 0 && spec_instruction_length(h) + spec_instruction_length(n) < 32
            ==> spec_instruction_length(
            i | (((((spec_instruction_length(h) + spec_instruction_length(n)) as u8 as u64) & 0x1f)
                >> 1u64) << 24u64),
        ) == spec_instruction_length(h) + spec_instruction_length(n),
        (i >> 24u64) & 0x0f == 0 ==> spec_immediate_at_32(
            i | (((((spec_instruction_length(h) + spec_instruction_length(n)) as u8 as u64) & 0x1f)
                >> 1u64) << 24u64),
        ) == spec_immediate_at_32(i),
{
}

/// Recording the total length of two instructions in an encoding without
/// a length records that total, and keeps the upper immediate.
proof fn lemma_record_length(i: u64, h: u64, n: u64)
    requires
        (i >> 24u64) & 0x0f == 0,
    ensures
        spec_instruction_length(h) + spec_instruction_length(n) < 32 ==> spec_instruction_length(
            i | (((((spec_instruction_length(h) + spec_instruction_length(n)) as u8 as u64) & 0x1f)
                >> 1u64) << 24u64),
        ) == spec_instruction_length(h) + spec_instruction_length(n),
        spec_immediate_at_32(
            i | (((((spec_instruction_length(h) + spec_instruction_length(n)) as u8 as u64) & 0x1f)
                >> 1u64) << 24u64),
        ) == spec_immediate_at_32(i),
{
    lemma_i32_sum_and_length(0, 0, i, h, n);
}

/// Adding two 32 bit immediates widened to 64 bits.
proof fn lemma_i32_sum(a: i32, b: i32)
    ensures
        -0x8000_0000 <= a + b <= 0x7fff_ffff ==> (a as u64 + b as u64) as u64 == ((a + b) as i32) as u64,
        ((((a as u64 + b as u64) as u64) as u32 as i32) as i64 as u64) == (if a + b > 0x7fff_ffff {
            (a + b - 0x1_0000_0000) as i32
        } else if a + b < -0x8000_0000 {
            (a + b + 0x1_0000_0000) as i32
        } else {
            (a + b) as i32
        }) as u64,
{
    lemma_i32_sum_and_length(a, b, 0, 0, 0);
}

/// The program counter after two instructions is the one after an
/// instruction as long as both.
proof fn lemma_two_steps(p: u64, h: Instruction, n: Instruction)
    requires
        spec_instruction_length(h) + spec_instruction_length(n) < 32,
    ensures
        wrap64(wrap64(p + spec_instruction_length(h) as u64) + spec_instruction_length(n) as u64)
            == wrap64(p + ((spec_instruction_length(h) + spec_instruction_length(n)) as u8 as u64)),
{
    let l1 = spec_instruction_length(h) as u64;
    let l2 = spec_instruction_length(n) as u64;
    lemma_wrap(p, l1, l2);
    lemma_wrap(l1, l2, 0);
}

/// A fused wide multiplication or division runs as its high half (or
/// quotient) and then its low half (or remainder).
#[verifier::rlimit(60)]
proof fn lemma_wide_runs_as_pair<M: CoreMachine<REG = u64>>(
    head: Instruction,
    next: Instruction,
    a: M,
    mid: M,
    b: M,
    c: M,
    r1: Result<(), Error>,
    r2: Result<(), Error>,
    r: Result<(), Error>,
    second: u16,
    fused_op: u16,
)
    requires
        decoded_pair(head, next),
        a.spec_registers().len() == 32,
        spec_fuse_wide(head, next, second, fused_op) != head,
        (spec_extract_opcode(head), second, fused_op) == (insts::OP_MULH, insts::OP_MUL, insts::OP_WIDE_MUL)
            || (spec_extract_opcode(head), second, fused_op) == (
            insts::OP_MULHU,
            insts::OP_MUL,
            insts::OP_WIDE_MULU,
        ) || (spec_extract_opcode(head), second, fused_op) == (
            insts::OP_MULHSU,
            insts::OP_MUL,
            insts::OP_WIDE_MULSU,
        ) || (spec_extract_opcode(head), second, fused_op) == (
            insts::OP_DIV,
            insts::OP_REM,
            insts::OP_WIDE_DIV,
        ) || (spec_extract_opcode(head), second, fused_op) == (
            insts::OP_DIVU,
            insts::OP_REMU,
            insts::OP_WIDE_DIVU,
        ),
        spec_execute(a, mid, head, r1),
        spec_execute(mid, b, next, r2),
        spec_execute(a, c, spec_fuse_wide(head, next, second, fused_op), r),
    ensures
        r1 is Ok && r2 is Ok && r is Ok,
        same_state(b, c),
{
    let fused = spec_fuse_wide(head, next, second, fused_op);
    let hd = spec_byte_at(head, 8);
    let h1 = spec_byte_at(head, 32);
    let h2 = spec_byte_at(head, 40);
    let nd = spec_byte_at(next, 8);
    let base = spec_r4type_bits(fused_op, hd, h1, h2, nd);
    let size = (spec_instruction_length(head) + spec_instruction_length(next)) as u8 as u64;
    lemma_r4type_roundtrip(fused_op, hd, h1, h2, nd);
    lemma_length_keeps_fields(base, size);
    lemma_record_length(base, head, next);
    let (m1, m2) = lemma_execute_unpack(a, mid, head, r1);
    let (n1, n2) = lemma_execute_unpack(mid, b, next, r2);
    let (f1, f2) = lemma_execute_unpack(a, c, fused, r);
    lemma_two_steps(a.spec_pc(), head, next);
    assert(mid.spec_registers()[h1 as int] == a.spec_registers()[h1 as int]);
    assert(mid.spec_registers()[h2 as int] == a.spec_registers()[h2 as int]);
    assert(b.spec_registers() =~= c.spec_registers());
}

/// A fused far jump runs as its upper immediate into `ra` and then the
/// jump through `ra` that links in `ra`.
#[verifier::rlimit(60)]
proof fn lemma_far_jump_runs_as_pair<M: CoreMachine<REG = u64>>(
    head: Instruction,
    next: Instruction,
    a: M,
    mid: M,
    b: M,
    c: M,
    r1: Result<(), Error>,
    r2: Result<(), Error>,
    r: Result<(), Error>,
    jump: u16,
)
    requires
        decoded_pair(head, next),
        a.spec_registers().len() == 32,
        (spec_extract_opcode(head), jump) == (insts::OP_LUI, insts::OP_FAR_JUMP_ABS) || (
            spec_extract_opcode(head),
            jump,
        ) == (insts::OP_AUIPC, insts::OP_FAR_JUMP_REL),
        spec_extract_opcode(next) == insts::OP_JALR_VERSION1,
        spec_byte_at(next, 32) == spec_byte_at(head, 8),
        spec_byte_at(next, 8) == RA,
        spec_byte_at(head, 8) == RA,
        spec_sum_fits_i32(spec_immediate_at_32(head), spec_immediate_at_40(next)),
        spec_execute(a, mid, head, r1),
        spec_execute(mid, b, next, r2),
        spec_execute(a, c, spec_fuse_upper(head, next, jump), r),
    ensures
        r1 is Ok && r2 is Ok && r is Ok,
        same_state(b, c),
{
    let u = spec_immediate_at_32(head);
    let i = spec_immediate_at_40(next);
    let imm: i32 = u.wrapping_add(i);
    let fused = spec_fuse_upper(head, next, jump);
    let base = spec_utype_bits(jump, RA, imm as u32);
    let size = (spec_instruction_length(head) + spec_instruction_length(next)) as u8 as u64;
    lemma_utype_roundtrip(jump, RA, imm);
    lemma_length_keeps_fields(base, size);
    lemma_record_length(base, head, next);
    lemma_i32_sum(u, i);
    assert(imm == (u + i) as i32);
    let (m1, m2) = lemma_execute_unpack(a, mid, head, r1);
    let (n1, n2) = lemma_execute_unpack(mid, b, next, r2);
    let (f1, f2) = lemma_execute_unpack(a, c, fused, r);
    lemma_two_steps(a.spec_pc(), head, next);
    lemma_wrap(u as u64, i as u64, 0);
    lemma_wrap(a.spec_pc(), u as u64, i as u64);
    assert(b.spec_registers() =~= c.spec_registers());
}

/// A fused constant load runs as its upper immediate and then the ADDIW on
/// that register.
#[verifier::rlimit(60)]
proof fn lemma_load_imm_runs_as_pair<M: CoreMachine<REG = u64>>(
    head: Instruction,
    next: Instruction,
    a: M,
    mid: M,
    b: M,
    c: M,
    r1: Result<(), Error>,
    r2: Result<(), Error>,
    r: Result<(), Error>,
)
    requires
        decoded_pair(head, next),
        a.spec_registers().len() == 32,
        spec_extract_opcode(head) == insts::OP_LUI,
        spec_extract_opcode(next) == insts::OP_ADDIW,
        spec_byte_at(next, 32) == spec_byte_at(next, 8),
        spec_byte_at(next, 8) == spec_byte_at(head, 8),
        spec_execute(a, mid, head, r1),
        spec_execute(mid, b, next, r2),
        spec_execute(a, c, spec_fuse_upper(head, next, insts::OP_FAR_JUMP_ABS), r),
        spec_fuse_upper(head, next, insts::OP_FAR_JUMP_ABS) == spec_utype_bits(
            insts::OP_CUSTOM_LOAD_IMM,
            spec_byte_at(head, 8),
            spec_immediate_at_32(head).wrapping_add(spec_immediate_at_40(next)) as u32,
        ) | (((((spec_instruction_length(head) + spec_instruction_length(next)) as u8 as u64)
            & 0x1f) >> 1u64) << 24u64),
    ensures
        r1 is Ok && r2 is Ok && r is Ok,
        same_state(b, c),
{
    let u = spec_immediate_at_32(head);
    let i = spec_immediate_at_40(next);
    let imm: i32 = u.wrapping_add(i);
    let hd = spec_byte_at(head, 8);
    let fused = spec_fuse_upper(head, next, insts::OP_FAR_JUMP_ABS);
    let base = spec_utype_bits(insts::OP_CUSTOM_LOAD_IMM, hd, imm as u32);
    let size = (spec_instruction_length(head) + spec_instruction_length(next)) as u8 as u64;
    lemma_utype_roundtrip(insts::OP_CUSTOM_LOAD_IMM, hd, imm);
    lemma_length_keeps_fields(base, size);
    lemma_record_length(base, head, next);
    lemma_i32_sum(u, i);
    let (m1, m2) = lemma_execute_unpack(a, mid, head, r1);
    let (n1, n2) = lemma_execute_unpack(mid, b, next, r2);
    let (f1, f2) = lemma_execute_unpack(a, c, fused, r);
    lemma_two_steps(a.spec_pc(), head, next);
    lemma_wrap(u as u64, i as u64, 0);
    lemma_u64_extend_word(wrap64(u as u64 + i as u64));
    if hd != 0 {
        assert(mid.spec_registers()[hd as int] == u as u64);
    }
    assert(b.spec_registers() =~= c.spec_registers());
}

/// Fusion keeps meaning: where the decoder fuses an instruction `head` with
/// the instruction `next` after it, running the fused instruction on a
/// machine with 64-bit registers ends in the same program counter,
/// registers and memory as running `head` and then `next`, and all of them
/// succeed.
pub proof fn lemma_fused_runs_as_pair<M: CoreMachine<REG = u64>>(
    head: Instruction,
    next: Instruction,
    a: M,
    mid: M,
    b: M,
    c: M,
    r1: Result<(), Error>,
    r2: Result<(), Error>,
    r: Result<(), Error>,
)
    requires
        decoded_pair(head, next),
        spec_fuse(head, Some(next)) != head,
        spec_execute(a, mid, head, r1),
        spec_execute(mid, b, next, r2),
        spec_execute(a, c, spec_fuse(head, Some(next)), r),
    ensures
        r1 is Ok && r2 is Ok && r is Ok,
        same_state(b, c),
{
    a.lemma_registers_len();
    let op = spec_extract_opcode(head);
    let nop = spec_extract_opcode(next);
    if op == insts::OP_LUI {
        if nop == insts::OP_JALR_VERSION1 && spec_byte_at(next, 32) == spec_byte_at(head, 8)
            && spec_byte_at(next, 8) == RA && spec_byte_at(head, 8) == RA && spec_sum_fits_i32(
            spec_immediate_at_32(head),
            spec_immediate_at_40(next),
        ) {
            lemma_far_jump_runs_as_pair(head, next, a, mid, b, c, r1, r2, r, insts::OP_FAR_JUMP_ABS);
        } else {
            lemma_load_imm_runs_as_pair(head, next, a, mid, b, c, r1, r2, r);
        }
    } else if op == insts::OP_AUIPC {
        lemma_far_jump_runs_as_pair(head, next, a, mid, b, c, r1, r2, r, insts::OP_FAR_JUMP_REL);
    } else if op == insts::OP_MULH {
        lemma_wide_runs_as_pair(head, next, a, mid, b, c, r1, r2, r, insts::OP_MUL, insts::OP_WIDE_MUL);
    } else if op == insts::OP_MULHU {
        lemma_wide_runs_as_pair(head, next, a, mid, b, c, r1, r2, r, insts::OP_MUL, insts::OP_WIDE_MULU);
    } else if op == insts::OP_MULHSU {
        lemma_wide_runs_as_pair(
            head,
            next,
            a,
            mid,
            b,
            c,
            r1,
            r2,
            r,
            insts::OP_MUL,
            insts::OP_WIDE_MULSU,
        );
    } else if op == insts::OP_DIV {
        lemma_wide_runs_as_pair(head, next, a, mid, b, c, r1, r2, r, insts::OP_REM, insts::OP_WIDE_DIV);
    } else {
        lemma_wide_runs_as_pair(head, next, a, mid, b, c, r1, r2, r, insts::OP_REMU, insts::OP_WIDE_DIVU);
    }
}

} // verus!
