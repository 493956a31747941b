//! Return codes of the trace-based interpreter, and its trace cache slots.
use vstd::prelude::*;

verus! {

/// The number of trace items to keep.
pub const TRACE_SIZE: usize = 8192;

pub const TRACE_ITEM_LENGTH: usize = 16;

pub const RET_DECODE_TRACE: u8 = 1;
pub const RET_ECALL: u8 = 2;
pub const RET_EBREAK: u8 = 3;
pub const RET_DYNAMIC_JUMP: u8 = 4;
pub const RET_MAX_CYCLES_EXCEEDED: u8 = 5;
pub const RET_CYCLES_OVERFLOW: u8 = 6;
pub const RET_OUT_OF_BOUND: u8 = 7;
pub const RET_INVALID_PERMISSION: u8 = 8;
pub const RET_SLOWPATH: u8 = 9;
pub const RET_PAUSE: u8 = 10;

/// The trace cache slot of an address: instructions are at least 2 bytes
/// apart, so the address is divided by 4 and taken modulo the trace size.
pub fn calculate_slot(addr: u64) -> (r: usize)
    ensures
        r == (addr / 4) % (TRACE_SIZE as u64),
        r < TRACE_SIZE,
{
    let a: usize = addr as usize;
    let r: usize = (a >> 2) & (TRACE_SIZE - 1);
    assert(((addr as usize) >> 2) & 8191usize == (addr / 4) % 8192) by (bit_vector);
    assert(((addr as usize) >> 2) & 8191usize < 8192) by (bit_vector);
    r
}

} // verus!
