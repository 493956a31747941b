//! A RISC-V virtual machine: instruction decoding into a compact internal
//! form, the integer register semantics, instruction execution over an
//! abstract machine, ELF loading plans and cost models.
pub mod bits;
pub mod context;
pub mod cost_model;
pub mod debugger;
pub mod decoded;
pub mod decoder;
pub mod definitions;
pub mod elf;
pub mod fusion;
pub mod error;
pub mod instructions;
pub mod jit;
pub mod machine;
pub mod memory;

pub use definitions::{
    DEFAULT_MEMORY_SIZE, ISA_A, ISA_B, ISA_IMC, ISA_MOP, MEMORY_FRAMESIZE, MEMORY_FRAME_SHIFTS,
    RISCV_GENERAL_REGISTER_NUMBER, RISCV_PAGESIZE, RISCV_PAGE_SHIFTS,
};
pub use definitions::registers;
pub use error::Error;
pub use instructions::{Instruction, register::Register};
pub use machine::{CoreMachine, DefaultCoreMachine, DefaultMachine, Machine};
pub use memory::{FlatMemory, Memory};
