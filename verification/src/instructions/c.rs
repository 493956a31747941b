//! The first-generation decoder and interpreter of the compressed
//! instructions of RV32C, kept as tagged values and run on 32 bit
//! registers.
use vstd::prelude::*;
use crate::definitions::registers::SP;
use crate::error::Error;
use crate::machine::{reg_of, same_machine_data, spec_write_register, CoreMachine, Machine};
use crate::memory::Memory;
use super::register::Register;
use super::rv32i::landed;
use super::rvc::{
    b_immediate, c_rs2, compact_register_number, immediate, j_immediate, lwsp_uimmediate,
    spec_c_b_immediate, spec_c_immediate, spec_c_j_immediate, spec_c_rs2, spec_c_uimmediate,
    spec_compact_register, spec_lwsp_uimmediate, spec_sw_uimmediate, spec_swsp_uimmediate,
    sw_uimmediate, uimmediate,
};
use super::utils::{rd, spec_rd, spec_x, update_register, x};

verus! {

/// A decoded compressed instruction.
#[derive(Debug, Clone, Copy, PartialEq, Eq, Structural)]
pub enum Instruction {
    ADD { rd: usize, rs2: usize },
    ADDI { rd: usize, imm: i32 },
    ANDI { rd: usize, imm: i32 },
    BEQZ { rs1: usize, imm: i32 },
    BNEZ { rs1: usize, imm: i32 },
    LI { rd: usize, imm: i32 },
    J { imm: i32 },
    JAL { imm: i32 },
    JALR { rs1: usize },
    JR { rs1: usize },
    LUI { rd: usize, imm: i32 },
    LW { rd: usize, rs1: usize, uimm: u32 },
    LWSP { rd: usize, uimm: u32 },
    MV { rd: usize, rs2: usize },
    SRAI { rd: usize, uimm: u32 },
    SUB { rd: usize, rs2: usize },
    SW { rs1: usize, rs2: usize, uimm: u32 },
    SWSP { rs2: usize, uimm: u32 },
}

/// The 5 bit opcode of a compressed instruction: bits 1..0, then bits
/// 15..13 above them.
pub open spec fn spec_c_opcode(b: u32) -> u32 {
    spec_x(b, 0, 2, 0) | spec_x(b, 13, 3, 2)
}

/// The 5 bit opcode of the arithmetic group: bits 6..5, then bits 12..10.
pub open spec fn spec_c_alu_opcode(b: u32) -> u32 {
    spec_x(b, 5, 2, 0) | spec_x(b, 10, 3, 2)
}

fn opcode(b: u32) -> (r: u32)
    ensures
        r == spec_c_opcode(b),
{
    x(b, 0, 2, 0) | x(b, 13, 3, 2)
}

fn alu_opcode(b: u32) -> (r: u32)
    ensures
        r == spec_c_alu_opcode(b),
{
    x(b, 5, 2, 0) | x(b, 10, 3, 2)
}

/// The decoding of a compressed instruction by the first-generation
/// decoder, which knows a subset of RV32C.
pub open spec fn spec_c_factory(b: u32) -> Option<Instruction> {
    let op: u32 = spec_c_opcode(b);
    let rd: usize = spec_rd(b);
    if op == 0x1 {
        if rd != 0 && spec_c_immediate(b) != 0 {
            Some(Instruction::ADDI { rd, imm: spec_c_immediate(b) })
        } else {
            None
        }
    } else if op == 0x5 {
        Some(Instruction::JAL { imm: spec_c_j_immediate(b) })
    } else if op == 0x8 {
        Some(
            Instruction::LW {
                rs1: spec_compact_register(b, 7),
                rd: spec_compact_register(b, 2),
                uimm: spec_sw_uimmediate(b),
            },
        )
    } else if op == 0x9 {
        if rd > 0 {
            Some(Instruction::LI { rd, imm: spec_c_immediate(b) })
        } else {
            None
        }
    } else if op == 0xa {
        if rd > 0 {
            Some(Instruction::LWSP { rd, uimm: spec_lwsp_uimmediate(b) })
        } else {
            None
        }
    } else if op == 0xd {
        let imm: i32 = spec_c_immediate(b) << 12u32;
        if rd != 0 && rd != 2 && imm != 0 {
            Some(Instruction::LUI { rd, imm })
        } else {
            None
        }
    } else if op == 0x11 {
        if spec_c_alu_opcode(b) == 0xc {
            Some(Instruction::SUB { rd: spec_compact_register(b, 7), rs2: spec_compact_register(b, 2) })
        } else if spec_x(b, 10, 2, 0) == 0x1 {
            if spec_c_uimmediate(b) != 0 {
                Some(Instruction::SRAI { rd, uimm: spec_c_uimmediate(b) })
            } else {
                None
            }
        } else if spec_x(b, 10, 2, 0) == 0x2 {
            Some(Instruction::ANDI { rd: spec_compact_register(b, 7), imm: spec_c_immediate(b) })
        } else {
            None
        }
    } else if op == 0x12 {
        let rs2: usize = spec_c_rs2(b);
        if spec_x(b, 12, 1, 0) == 0 {
            if rd != 0 && rs2 != 0 {
                Some(Instruction::MV { rd, rs2 })
            } else if rd != 0 {
                Some(Instruction::JR { rs1: rd })
            } else {
                None
            }
        } else if rd != 0 && rs2 != 0 {
            Some(Instruction::ADD { rd, rs2 })
        } else if rd != 0 {
            Some(Instruction::JALR { rs1: rd })
        } else {
            None
        }
    } else if op == 0x15 {
        Some(Instruction::J { imm: spec_c_j_immediate(b) })
    } else if op == 0x18 {
        Some(
            Instruction::SW {
                rs1: spec_compact_register(b, 7),
                rs2: spec_compact_register(b, 2),
                uimm: spec_sw_uimmediate(b),
            },
        )
    } else if op == 0x1a {
        Some(Instruction::SWSP { rs2: spec_c_rs2(b), uimm: spec_swsp_uimmediate(b) })
    } else if op == 0x19 {
        Some(Instruction::BEQZ { rs1: spec_compact_register(b, 7), imm: spec_c_b_immediate(b) })
    } else if op == 0x1d {
        Some(Instruction::BNEZ { rs1: spec_compact_register(b, 7), imm: spec_c_b_immediate(b) })
    } else {
        None
    }
}

/// Decodes a compressed instruction.
pub fn factory(instruction_bits: u32) -> (r: Option<Instruction>)
    ensures
        r == spec_c_factory(instruction_bits),
{
    let b: u32 = instruction_bits;
    match opcode(b) {
        0x1 => {
            let rd: usize = rd(b);
            let nzimm: i32 = immediate(b);
            if rd != 0 && nzimm != 0 {
                Some(Instruction::ADDI { rd, imm: nzimm })
            } else {
                None
            }
        },
        0x5 => Some(Instruction::JAL { imm: j_immediate(b) }),
        0x8 => Some(
            Instruction::LW {
                rs1: compact_register_number(b, 7),
                rd: compact_register_number(b, 2),
                uimm: sw_uimmediate(b),
            },
        ),
        0x9 => {
            let rd: usize = rd(b);
            if rd > 0 {
                Some(Instruction::LI { rd, imm: immediate(b) })
            } else {
                None
            }
        },
        0xa => {
            let rd: usize = rd(b);
            if rd > 0 {
                Some(Instruction::LWSP { rd, uimm: lwsp_uimmediate(b) })
            } else {
                None
            }
        },
        0xd => {
            let rd: usize = rd(b);
            let base: i32 = immediate(b);
            assert(-32 <= spec_c_immediate(b) < 32) by (bit_vector);
            let imm: i32 = base << 12u32;
            if rd != 0 && rd != 2 && imm != 0 {
                Some(Instruction::LUI { rd, imm })
            } else {
                None
            }
        },
        0x11 => {
            if alu_opcode(b) == 0xc {
                Some(Instruction::SUB { rd: compact_register_number(b, 7), rs2: compact_register_number(b, 2) })
            } else {
                let f: u32 = x(b, 10, 2, 0);
                if f == 0x1 {
                    let rd: usize = rd(b);
                    let uimm: u32 = uimmediate(b);
                    if uimm != 0 {
                        Some(Instruction::SRAI { rd, uimm })
                    } else {
                        None
                    }
                } else if f == 0x2 {
                    Some(Instruction::ANDI { rd: compact_register_number(b, 7), imm: immediate(b) })
                } else {
                    None
                }
            }
        },
        0x12 => {
            let rs2: usize = c_rs2(b);
            let rd_or_rs1: usize = rd(b);
            if x(b, 12, 1, 0) == 0 {
                if rd_or_rs1 != 0 && rs2 != 0 {
                    Some(Instruction::MV { rd: rd_or_rs1, rs2 })
                } else if rd_or_rs1 != 0 {
                    Some(Instruction::JR { rs1: rd_or_rs1 })
                } else {
                    None
                }
            } else if rd_or_rs1 != 0 && rs2 != 0 {
                Some(Instruction::ADD { rd: rd_or_rs1, rs2 })
            } else if rd_or_rs1 != 0 {
                Some(Instruction::JALR { rs1: rd_or_rs1 })
            } else {
                None
            }
        },
        0x15 => Some(Instruction::J { imm: j_immediate(b) }),
        0x18 => Some(
            Instruction::SW {
                rs1: compact_register_number(b, 7),
                rs2: compact_register_number(b, 2),
                uimm: sw_uimmediate(b),
            },
        ),
        0x1a => Some(Instruction::SWSP { rs2: c_rs2(b), uimm: x(b, 9, 4, 2) | x(b, 7, 2, 6) }),
        0x19 => Some(Instruction::BEQZ { rs1: compact_register_number(b, 7), imm: b_immediate(b) }),
        0x1d => Some(Instruction::BNEZ { rs1: compact_register_number(b, 7), imm: b_immediate(b) }),
        _ => None,
    }
}

/// The instructions that can run: the registers read are register
/// indices, and an arithmetic shift is by less than 32.
pub open spec fn spec_c_runnable(inst: Instruction) -> bool {
    match inst {
        Instruction::ADD { rd, rs2 } => rd < 32 && rs2 < 32,
        Instruction::ADDI { rd, .. } => rd < 32,
        Instruction::ANDI { rd, .. } => rd < 32,
        Instruction::BEQZ { rs1, .. } => rs1 < 32,
        Instruction::BNEZ { rs1, .. } => rs1 < 32,
        Instruction::JALR { rs1 } => rs1 < 32,
        Instruction::JR { rs1 } => rs1 < 32,
        Instruction::LW { rs1, .. } => rs1 < 32,
        Instruction::MV { rs2, .. } => rs2 < 32,
        Instruction::SRAI { rd, uimm } => rd < 32 && uimm < 32,
        Instruction::SUB { rd, rs2 } => rd < 32 && rs2 < 32,
        Instruction::SW { rs1, rs2, .. } => rs1 < 32 && rs2 < 32,
        Instruction::SWSP { rs2, .. } => rs2 < 32,
        _ => true,
    }
}

/// What a load of a word at `addr` into `rd` does, the program counter
/// moving 2 bytes on.
pub open spec fn spec_c_load<M: CoreMachine<REG = u32>>(a: M, b: M, r: Result<(), Error>, rd: usize, addr: u32) -> bool {
    match a.spec_memory().spec_load(addr, 4) {
        Err(e) => r == Err::<(), Error>(e) && same_machine_data(a, b),
        Ok(v) => r is Ok && landed(
            a,
            b,
            spec_write_register(a.spec_registers(), rd as int, v),
            a.spec_memory(),
            <u32 as Register>::spec_overflowing_add(a.spec_pc(), 2),
        ),
    }
}

/// What a store of the word in `rs2` at `addr` does, the program counter
/// moving 2 bytes on.
pub open spec fn spec_c_store<M: CoreMachine<REG = u32>>(a: M, b: M, r: Result<(), Error>, rs2: usize, addr: u32) -> bool {
    match a.spec_memory().spec_store(addr, 4, reg_of(a, rs2)) {
        Err(e) => r == Err::<(), Error>(e) && same_machine_data(a, b),
        Ok(m) => r is Ok && landed(
            a,
            b,
            a.spec_registers(),
            m,
            <u32 as Register>::spec_overflowing_add(a.spec_pc(), 2),
        ),
    }
}

/// What running `inst` does to machine `a`, giving `b` and the result `r`.
/// Jumps and taken branches set the program counter; everything else
/// moves it 2 bytes on. Loads and stores are of words.
pub open spec fn spec_c_execute<M: CoreMachine<REG = u32>>(
    a: M,
    b: M,
    inst: Instruction,
    r: Result<(), Error>,
) -> bool {
    let pc: u32 = a.spec_pc();
    let regs = a.spec_registers();
    let mem = a.spec_memory();
    let next: u32 = <u32 as Register>::spec_overflowing_add(pc, 2);
    let with = |i: usize, v: u32| spec_write_register(regs, i as int, v);
    match inst {
        Instruction::ADD { rd, rs2 } => r is Ok && landed(
            a,
            b,
            with(rd, <u32 as Register>::spec_overflowing_add(reg_of(a, rd), reg_of(a, rs2))),
            mem,
            next,
        ),
        Instruction::ADDI { rd, imm } => r is Ok && landed(
            a,
            b,
            with(rd, <u32 as Register>::spec_overflowing_add(reg_of(a, rd), imm as u32)),
            mem,
            next,
        ),
        Instruction::ANDI { rd, imm } => r is Ok && landed(a, b, with(rd, reg_of(a, rd) & (imm as u32)), mem, next),
        Instruction::BEQZ { rs1, imm } => r is Ok && landed(
            a,
            b,
            regs,
            mem,
            if reg_of(a, rs1) == 0 {
                <u32 as Register>::spec_overflowing_add(pc, imm as u32)
            } else {
                next
            },
        ),
        Instruction::BNEZ { rs1, imm } => r is Ok && landed(
            a,
            b,
            regs,
            mem,
            if reg_of(a, rs1) != 0 {
                <u32 as Register>::spec_overflowing_add(pc, imm as u32)
            } else {
                next
            },
        ),
        Instruction::J { imm } => r is Ok && landed(
            a,
            b,
            regs,
            mem,
            <u32 as Register>::spec_overflowing_add(pc, imm as u32),
        ),
        Instruction::JAL { imm } => r is Ok && landed(
            a,
            b,
            with(1, next),
            mem,
            <u32 as Register>::spec_overflowing_add(pc, imm as u32),
        ),
        Instruction::JALR { rs1 } => r is Ok && landed(a, b, with(1, next), mem, reg_of(a, rs1)),
        Instruction::JR { rs1 } => r is Ok && landed(a, b, regs, mem, reg_of(a, rs1)),
        Instruction::LI { rd, imm } => r is Ok && landed(a, b, with(rd, imm as u32), mem, next),
        Instruction::LUI { rd, imm } => r is Ok && landed(a, b, with(rd, imm as u32), mem, next),
        Instruction::LW { rd, rs1, uimm } => spec_c_load(
            a,
            b,
            r,
            rd,
            <u32 as Register>::spec_overflowing_add(reg_of(a, rs1), uimm),
        ),
        Instruction::LWSP { rd, uimm } => spec_c_load(
            a,
            b,
            r,
            rd,
            <u32 as Register>::spec_overflowing_add(reg_of(a, SP), uimm),
        ),
        Instruction::MV { rd, rs2 } => r is Ok && landed(a, b, with(rd, reg_of(a, rs2)), mem, next),
        Instruction::SRAI { rd, uimm } => r is Ok && landed(
            a,
            b,
            with(rd, ((reg_of(a, rd) as i32) >> uimm) as u32),
            mem,
            next,
        ),
        Instruction::SUB { rd, rs2 } => r is Ok && landed(
            a,
            b,
            with(rd, <u32 as Register>::spec_overflowing_sub(reg_of(a, rd), reg_of(a, rs2))),
            mem,
            next,
        ),
        Instruction::SW { rs1, rs2, uimm } => spec_c_store(
            a,
            b,
            r,
            rs2,
            <u32 as Register>::spec_overflowing_add(reg_of(a, rs1), uimm),
        ),
        Instruction::SWSP { rs2, uimm } => spec_c_store(
            a,
            b,
            r,
            rs2,
            <u32 as Register>::spec_overflowing_add(reg_of(a, SP), uimm),
        ),
    }
}

impl Instruction {
    /// Runs the instruction on a machine with 32 bit registers.
    pub fn execute<Mac: Machine<REG = u32>>(&self, machine: &mut Mac) -> (r: Result<(), Error>)
        requires
            spec_c_runnable(*self),
        ensures
            spec_c_execute(*old(machine), *final(machine), *self, r),
    {
        let pc: u32 = *machine.pc();
        let next: u32 = <u32 as Register>::overflowing_add(&pc, &2u32);
        let target: u32 = match *self {
            Instruction::ADD { rd, rs2 } => {
                let value: u32 = <u32 as Register>::overflowing_add(&machine.registers()[rd], &machine.registers()[rs2]);
                update_register(machine, rd, value);
                next
            },
            Instruction::ADDI { rd, imm } => {
                let value: u32 = <u32 as Register>::overflowing_add(&machine.registers()[rd], &(imm as u32));
                update_register(machine, rd, value);
                next
            },
            Instruction::ANDI { rd, imm } => {
                let value: u32 = machine.registers()[rd] & (imm as u32);
                update_register(machine, rd, value);
                next
            },
            Instruction::BEQZ { rs1, imm } => {
                if machine.registers()[rs1] == 0 {
                    <u32 as Register>::overflowing_add(&pc, &(imm as u32))
                } else {
                    next
                }
            },
            Instruction::BNEZ { rs1, imm } => {
                if machine.registers()[rs1] != 0 {
                    <u32 as Register>::overflowing_add(&pc, &(imm as u32))
                } else {
                    next
                }
            },
            Instruction::J { imm } => <u32 as Register>::overflowing_add(&pc, &(imm as u32)),
            Instruction::JAL { imm } => {
                update_register(machine, 1, next);
                <u32 as Register>::overflowing_add(&pc, &(imm as u32))
            },
            Instruction::JALR { rs1 } => {
                let value: u32 = machine.registers()[rs1];
                update_register(machine, 1, next);
                value
            },
            Instruction::JR { rs1 } => machine.registers()[rs1],
            Instruction::LI { rd, imm } => {
                update_register(machine, rd, imm as u32);
                next
            },
            Instruction::LUI { rd, imm } => {
                update_register(machine, rd, imm as u32);
                next
            },
            Instruction::LW { rd, rs1, uimm } => {
                let address: u32 = <u32 as Register>::overflowing_add(&machine.registers()[rs1], &uimm);
                let value: u32 = match machine.memory_mut().load32(&address) {
                    Ok(v) => v,
                    Err(e) => {
                        return Err(e);
                    },
                };
                update_register(machine, rd, value);
                next
            },
            Instruction::LWSP { rd, uimm } => {
                let address: u32 = <u32 as Register>::overflowing_add(&machine.registers()[SP], &uimm);
                let value: u32 = match machine.memory_mut().load32(&address) {
                    Ok(v) => v,
                    Err(e) => {
                        return Err(e);
                    },
                };
                update_register(machine, rd, value);
                next
            },
            Instruction::MV { rd, rs2 } => {
                let value: u32 = machine.registers()[rs2];
                update_register(machine, rd, value);
                next
            },
            Instruction::SRAI { rd, uimm } => {
                let value: u32 = ((machine.registers()[rd] as i32) >> uimm) as u32;
                update_register(machine, rd, value);
                next
            },
            Instruction::SUB { rd, rs2 } => {
                let value: u32 = <u32 as Register>::overflowing_sub(&machine.registers()[rd], &machine.registers()[rs2]);
                update_register(machine, rd, value);
                next
            },
            Instruction::SW { rs1, rs2, uimm } => {
                let address: u32 = <u32 as Register>::overflowing_add(&machine.registers()[rs1], &uimm);
                let value: u32 = machine.registers()[rs2];
                if let Err(e) = machine.memory_mut().store32(&address, &value) {
                    return Err(e);
                }
                next
            },
            Instruction::SWSP { rs2, uimm } => {
                let address: u32 = <u32 as Register>::overflowing_add(&machine.registers()[SP], &uimm);
                let value: u32 = machine.registers()[rs2];
                if let Err(e) = machine.memory_mut().store32(&address, &value) {
                    return Err(e);
                }
                next
            },
        };
        machine.update_pc(target);
        machine.commit_pc();
        Ok(())
    }
}

} // verus!
