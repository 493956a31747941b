//! The errors of the virtual machine.
use vstd::prelude::*;

verus! {

/// The kind of a failed I/O operation, as std reports it; carried through
/// unchanged.
#[verifier::external_type_specification]
#[verifier::external_body]
pub struct ExIoErrorKind(std::io::ErrorKind);

/// `std::io::ErrorKind` is a `Copy` enum whose `Clone` is derived: a clone
/// is the value itself.
pub assume_specification[ <std::io::ErrorKind as Clone>::clone ](kind: &std::io::ErrorKind) -> (r:
    std::io::ErrorKind)
    ensures
        r == *kind,
;

/// What went wrong, in any part of the machine.
#[derive(Debug, PartialEq, Clone, Eq)]
pub enum Error {
    Asm(u8),
    CyclesExceeded,
    CyclesOverflow,
    ElfBits,
    ElfParseError(String),
    ElfSegmentUnreadable(u64),
    ElfSegmentWritableAndExecutable(u64),
    ElfSegmentAddrOrSizeError(u64),
    /// Lets the implementors of the machine's traits wrap their own errors.
    External(String),
    InvalidEcall(u64),
    InvalidInstruction { pc: u64, instruction: u32 },
    InvalidOp(u16),
    InvalidVersion,
    IO { kind: std::io::ErrorKind, data: String },
    MemOutOfBound(u64, OutOfBoundKind),
    MemOutOfStack,
    MemPageUnalignedAccess(u64),
    MemWriteOnExecutablePage(u64),
    MemWriteOnFreezedPage(u64),
    Pause,
    SnapshotDataLoadError,
    Unexpected(String),
    Yield,
}

/// Which bound an access went past.
#[derive(Debug, PartialEq, Clone, Copy, Eq, Structural)]
pub enum OutOfBoundKind {
    Memory,
    ExternalData,
}

} // verus!
