//! The first-generation decoder and interpreter of the RV32M
//! multiplication and division instructions, on 32 bit registers.
use vstd::prelude::*;
use crate::error::Error;
use crate::machine::{reg_of, spec_write_register, CoreMachine, Machine};
use super::register::Register;
use super::rv32i::landed;
use super::utils::{
    funct3, funct7, opcode, rd, rs1, rs2, spec_funct3, spec_funct7, spec_opcode, spec_rd,
    spec_rs1, spec_rs2, update_register,
};
use super::RegisterIndex;

verus! {

#[derive(Debug, Clone, Copy, PartialEq, Eq, Structural)]
pub enum RtypeInstruction {
    MUL,
    MULH,
    MULHSU,
    MULHU,
    DIV,
    DIVU,
    REM,
    REMU,
}

/// A register-register instruction.
#[derive(Debug, Clone, Copy, PartialEq, Eq, Structural)]
pub struct Rtype {
    pub rd: RegisterIndex,
    pub rs1: RegisterIndex,
    pub rs2: RegisterIndex,
    pub inst: RtypeInstruction,
}

/// A decoded RV32M instruction.
#[derive(Debug, Clone, Copy, PartialEq, Eq, Structural)]
pub struct Instruction(pub Rtype);

pub open spec fn spec_m_kind(f3: u32) -> Option<RtypeInstruction> {
    if f3 == 0b000 {
        Some(RtypeInstruction::MUL)
    } else if f3 == 0b001 {
        Some(RtypeInstruction::MULH)
    } else if f3 == 0b010 {
        Some(RtypeInstruction::MULHSU)
    } else if f3 == 0b011 {
        Some(RtypeInstruction::MULHU)
    } else if f3 == 0b100 {
        Some(RtypeInstruction::DIV)
    } else if f3 == 0b101 {
        Some(RtypeInstruction::DIVU)
    } else if f3 == 0b110 {
        Some(RtypeInstruction::REM)
    } else if f3 == 0b111 {
        Some(RtypeInstruction::REMU)
    } else {
        None
    }
}

/// The decoding of an RV32M instruction: major opcode 0b0110011 with
/// `funct7` 1, the operation by `funct3`.
pub open spec fn spec_rv32m_factory(b: u32) -> Option<Instruction> {
    if spec_opcode(b) != 0b0110011 || spec_funct7(b) != 0b0000001 {
        None
    } else {
        match spec_m_kind(spec_funct3(b)) {
            Some(k) => Some(Instruction(Rtype { rd: spec_rd(b), rs1: spec_rs1(b), rs2: spec_rs2(b), inst: k })),
            None => None,
        }
    }
}

/// Decodes an RV32M instruction.
pub fn factory(instruction_bits: u32) -> (r: Option<Instruction>)
    ensures
        r == spec_rv32m_factory(instruction_bits),
{
    if opcode(instruction_bits) != 0b_0110011 || funct7(instruction_bits) != 0b_0000001 {
        None
    } else {
        let inst_opt: Option<RtypeInstruction> = match funct3(instruction_bits) {
            0b_000 => Some(RtypeInstruction::MUL),
            0b_001 => Some(RtypeInstruction::MULH),
            0b_010 => Some(RtypeInstruction::MULHSU),
            0b_011 => Some(RtypeInstruction::MULHU),
            0b_100 => Some(RtypeInstruction::DIV),
            0b_101 => Some(RtypeInstruction::DIVU),
            0b_110 => Some(RtypeInstruction::REM),
            0b_111 => Some(RtypeInstruction::REMU),
            _ => None,
        };
        match inst_opt {
            Some(inst) => Some(
                Instruction(
                    Rtype {
                        rd: rd(instruction_bits),
                        rs1: rs1(instruction_bits),
                        rs2: rs2(instruction_bits),
                        inst,
                    },
                ),
            ),
            None => None,
        }
    }
}

/// The value that an RV32M operation computes: the low or high half of
/// the product, or the quotient or remainder with the RISC-V results for a
/// zero divisor (all ones, or the dividend) and for signed overflow (the
/// dividend, or zero).
pub open spec fn spec_m_value(inst: RtypeInstruction, x: u32, y: u32) -> u32 {
    match inst {
        RtypeInstruction::MUL => <u32 as Register>::spec_overflowing_mul(x, y),
        RtypeInstruction::MULH => <u32 as Register>::spec_overflowing_mul_high_signed(x, y),
        RtypeInstruction::MULHSU => <u32 as Register>::spec_overflowing_mul_high_signed_unsigned(x, y),
        RtypeInstruction::MULHU => <u32 as Register>::spec_overflowing_mul_high_unsigned(x, y),
        RtypeInstruction::DIV => <u32 as Register>::spec_overflowing_div_signed(x, y),
        RtypeInstruction::DIVU => <u32 as Register>::spec_overflowing_div(x, y),
        RtypeInstruction::REM => <u32 as Register>::spec_overflowing_rem_signed(x, y),
        RtypeInstruction::REMU => <u32 as Register>::spec_overflowing_rem(x, y),
    }
}

impl Instruction {
    /// Runs the instruction on a machine with 32 bit registers and moves
    /// the program counter 4 bytes on.
    pub fn execute<Mac: Machine<REG = u32>>(&self, machine: &mut Mac) -> (r: Result<(), Error>)
        requires
            self.0.rs1 < 32,
            self.0.rs2 < 32,
        ensures
            r is Ok,
            landed(
                *old(machine),
                *final(machine),
                spec_write_register(
                    old(machine).spec_registers(),
                    self.0.rd as int,
                    spec_m_value(self.0.inst, reg_of(*old(machine), self.0.rs1), reg_of(*old(machine), self.0.rs2)),
                ),
                old(machine).spec_memory(),
                <u32 as Register>::spec_overflowing_add(old(machine).spec_pc(), 4),
            ),
    {
        let i: Rtype = self.0;
        let x: u32 = machine.registers()[i.rs1];
        let y: u32 = machine.registers()[i.rs2];
        let value: u32 = match i.inst {
            RtypeInstruction::MUL => <u32 as Register>::overflowing_mul(&x, &y),
            RtypeInstruction::MULH => <u32 as Register>::overflowing_mul_high_signed(&x, &y),
            RtypeInstruction::MULHSU => <u32 as Register>::overflowing_mul_high_signed_unsigned(&x, &y),
            RtypeInstruction::MULHU => <u32 as Register>::overflowing_mul_high_unsigned(&x, &y),
            RtypeInstruction::DIV => <u32 as Register>::overflowing_div_signed(&x, &y),
            RtypeInstruction::DIVU => <u32 as Register>::overflowing_div(&x, &y),
            RtypeInstruction::REM => <u32 as Register>::overflowing_rem_signed(&x, &y),
            RtypeInstruction::REMU => <u32 as Register>::overflowing_rem(&x, &y),
        };
        update_register(machine, i.rd, value);
        let next: u32 = <u32 as Register>::overflowing_add(machine.pc(), &4u32);
        machine.update_pc(next);
        machine.commit_pc();
        Ok(())
    }
}

} // verus!
