//! Page flags of the memory model.
use vstd::prelude::*;

verus! {

pub const FLAG_FREEZED: u8 = 0b01;

/// CKB VM enforces W^X: with this flag set a page is executable, otherwise
/// it is writable.
pub const FLAG_EXECUTABLE: u8 = 0b10;

pub const FLAG_WXORX_BIT: u8 = 0b10;

pub const FLAG_WRITABLE: u8 = (!FLAG_EXECUTABLE) & FLAG_WXORX_BIT;

} // verus!
