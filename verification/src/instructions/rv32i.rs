//! The first-generation decoder and interpreter of the RV32I base
//! instructions: instructions are kept as tagged values with their fields
//! unpacked, and run on a machine with 32 bit registers.
use vstd::prelude::*;
use crate::error::Error;
use crate::machine::{reg_of, same_machine_data, spec_write_register, CoreMachine, Machine};
use crate::memory::Memory;
use super::register::{lemma_and_31, Register};
use super::utils::{
    btype_immediate, funct3, funct7, itype_immediate, jtype_immediate, opcode, rd, rs1, rs2,
    spec_btype_immediate, spec_funct3, spec_funct7, spec_itype_immediate, spec_jtype_immediate,
    spec_opcode, spec_rd, spec_rs1, spec_rs2, spec_stype_immediate, spec_utype_immediate,
    stype_immediate, update_register, utype_immediate,
};
use super::{RegisterIndex, SImmediate, UImmediate};

verus! {

#[derive(Debug, Clone, Copy, PartialEq, Eq, Structural)]
pub enum RtypeInstruction {
    ADD,
    SUB,
    SLL,
    SLT,
    SLTU,
    XOR,
    SRL,
    SRA,
    OR,
    AND,
}

#[derive(Debug, Clone, Copy, PartialEq, Eq, Structural)]
pub enum ItypeInstruction {
    JALR,
    LB,
    LH,
    LW,
    LBU,
    LHU,
    ADDI,
    SLTI,
    SLTIU,
    XORI,
    ORI,
    ANDI,
}

#[derive(Debug, Clone, Copy, PartialEq, Eq, Structural)]
pub enum ItypeShiftInstruction {
    SLLI,
    SRLI,
    SRAI,
}

#[derive(Debug, Clone, Copy, PartialEq, Eq, Structural)]
pub enum StypeInstruction {
    SB,
    SH,
    SW,
}

#[derive(Debug, Clone, Copy, PartialEq, Eq, Structural)]
pub enum BtypeInstruction {
    BEQ,
    BNE,
    BLT,
    BGE,
    BLTU,
    BGEU,
}

#[derive(Debug, Clone, Copy, PartialEq, Eq, Structural)]
pub enum UtypeInstruction {
    LUI,
    AUIPC,
}

#[derive(Debug, Clone, Copy, PartialEq, Eq, Structural)]
pub enum EnvInstruction {
    ECALL,
    EBREAK,
}

#[derive(Debug, Clone, Copy, PartialEq, Eq, Structural)]
pub enum CsrInstruction {
    CSRRW,
    CSRRS,
    CSRRC,
}

#[derive(Debug, Clone, Copy, PartialEq, Eq, Structural)]
pub enum CsrIInstruction {
    CSRRWI,
    CSRRSI,
    CSRRCI,
}

/// A register-register instruction.
#[derive(Debug, Clone, Copy, PartialEq, Eq, Structural)]
pub struct Rtype {
    pub rd: RegisterIndex,
    pub rs1: RegisterIndex,
    pub rs2: RegisterIndex,
    pub inst: RtypeInstruction,
}

/// A register-immediate instruction.
#[derive(Debug, Clone, Copy, PartialEq, Eq, Structural)]
pub struct Itype {
    pub rd: RegisterIndex,
    pub rs1: RegisterIndex,
    pub imm: SImmediate,
    pub inst: ItypeInstruction,
}

/// A shift by an immediate amount.
#[derive(Debug, Clone, Copy, PartialEq, Eq, Structural)]
pub struct ItypeShift {
    pub rd: RegisterIndex,
    pub rs1: RegisterIndex,
    pub shamt: SImmediate,
    pub inst: ItypeShiftInstruction,
}

/// A store.
#[derive(Debug, Clone, Copy, PartialEq, Eq, Structural)]
pub struct Stype {
    pub rs1: RegisterIndex,
    pub rs2: RegisterIndex,
    pub imm: SImmediate,
    pub inst: StypeInstruction,
}

/// A conditional branch.
#[derive(Debug, Clone, Copy, PartialEq, Eq, Structural)]
pub struct Btype {
    pub rs1: RegisterIndex,
    pub rs2: RegisterIndex,
    pub imm: SImmediate,
    pub inst: BtypeInstruction,
}

/// An upper immediate instruction.
#[derive(Debug, Clone, Copy, PartialEq, Eq, Structural)]
pub struct Utype {
    pub rd: RegisterIndex,
    pub imm: SImmediate,
    pub inst: UtypeInstruction,
}

/// The FENCE instruction orders device I/O and memory accesses as viewed
/// by other RISC-V harts and external devices or coprocessors.
#[derive(Debug, Clone, Copy, PartialEq, Eq, Structural)]
pub struct FenceType {
    pub fm: u32,
    pub pred: u32,
    pub succ: u32,
}

/// A control and status register instruction with a register operand.
#[derive(Debug, Clone, Copy, PartialEq, Eq, Structural)]
pub struct CsrType {
    pub csr: UImmediate,
    pub rs1: RegisterIndex,
    pub rd: RegisterIndex,
    pub inst: CsrInstruction,
}

/// A control and status register instruction with an immediate operand.
#[derive(Debug, Clone, Copy, PartialEq, Eq, Structural)]
pub struct CsrIType {
    pub csr: UImmediate,
    pub zimm: UImmediate,
    pub rd: RegisterIndex,
    pub inst: CsrIInstruction,
}

/// A decoded RV32I instruction.
#[derive(Debug, Clone, Copy, PartialEq, Eq, Structural)]
pub enum Instruction {
    R(Rtype),
    I(Itype),
    IShift(ItypeShift),
    S(Stype),
    B(Btype),
    U(Utype),
    Fence(FenceType),
    Env(EnvInstruction),
    Csr(CsrType),
    CsrI(CsrIType),
    JAL { imm: SImmediate, rd: RegisterIndex },
    FENCEI,
}

pub open spec fn spec_load_kind(f3: u32) -> Option<ItypeInstruction> {
    if f3 == 0b000 {
        Some(ItypeInstruction::LB)
    } else if f3 == 0b001 {
        Some(ItypeInstruction::LH)
    } else if f3 == 0b010 {
        Some(ItypeInstruction::LW)
    } else if f3 == 0b100 {
        Some(ItypeInstruction::LBU)
    } else if f3 == 0b101 {
        Some(ItypeInstruction::LHU)
    } else {
        None
    }
}

pub open spec fn spec_alu_imm_kind(f3: u32) -> Option<ItypeInstruction> {
    if f3 == 0b000 {
        Some(ItypeInstruction::ADDI)
    } else if f3 == 0b010 {
        Some(ItypeInstruction::SLTI)
    } else if f3 == 0b011 {
        Some(ItypeInstruction::SLTIU)
    } else if f3 == 0b100 {
        Some(ItypeInstruction::XORI)
    } else if f3 == 0b110 {
        Some(ItypeInstruction::ORI)
    } else if f3 == 0b111 {
        Some(ItypeInstruction::ANDI)
    } else {
        None
    }
}

pub open spec fn spec_shift_kind(f3: u32, f7: u32) -> Option<ItypeShiftInstruction> {
    if f3 == 0b001 && f7 == 0b0000000 {
        Some(ItypeShiftInstruction::SLLI)
    } else if f3 == 0b101 && f7 == 0b0000000 {
        Some(ItypeShiftInstruction::SRLI)
    } else if f3 == 0b101 && f7 == 0b0100000 {
        Some(ItypeShiftInstruction::SRAI)
    } else {
        None
    }
}

pub open spec fn spec_branch_kind(f3: u32) -> Option<BtypeInstruction> {
    if f3 == 0b000 {
        Some(BtypeInstruction::BEQ)
    } else if f3 == 0b001 {
        Some(BtypeInstruction::BNE)
    } else if f3 == 0b100 {
        Some(BtypeInstruction::BLT)
    } else if f3 == 0b101 {
        Some(BtypeInstruction::BGE)
    } else if f3 == 0b110 {
        Some(BtypeInstruction::BLTU)
    } else if f3 == 0b111 {
        Some(BtypeInstruction::BGEU)
    } else {
        None
    }
}

pub open spec fn spec_store_kind(f3: u32) -> Option<StypeInstruction> {
    if f3 == 0b000 {
        Some(StypeInstruction::SB)
    } else if f3 == 0b001 {
        Some(StypeInstruction::SH)
    } else if f3 == 0b010 {
        Some(StypeInstruction::SW)
    } else {
        None
    }
}

pub open spec fn spec_alu_kind(f3: u32, f7: u32) -> Option<RtypeInstruction> {
    if f3 == 0b000 && f7 == 0b0000000 {
        Some(RtypeInstruction::ADD)
    } else if f3 == 0b000 && f7 == 0b0100000 {
        Some(RtypeInstruction::SUB)
    } else if f3 == 0b001 && f7 == 0b0000000 {
        Some(RtypeInstruction::SLL)
    } else if f3 == 0b010 && f7 == 0b0000000 {
        Some(RtypeInstruction::SLT)
    } else if f3 == 0b011 && f7 == 0b0000000 {
        Some(RtypeInstruction::SLTU)
    } else if f3 == 0b100 && f7 == 0b0000000 {
        Some(RtypeInstruction::XOR)
    } else if f3 == 0b101 && f7 == 0b0000000 {
        Some(RtypeInstruction::SRL)
    } else if f3 == 0b101 && f7 == 0b0100000 {
        Some(RtypeInstruction::SRA)
    } else if f3 == 0b110 && f7 == 0b0000000 {
        Some(RtypeInstruction::OR)
    } else if f3 == 0b111 && f7 == 0b0000000 {
        Some(RtypeInstruction::AND)
    } else {
        None
    }
}

/// The system instructions other than ECALL and EBREAK, by `funct3`.
pub open spec fn spec_csr(b: u32) -> Option<Instruction> {
    let f3: u32 = spec_funct3(b);
    let csr: u32 = b >> 20u32;
    let z: usize = spec_rs1(b);
    let d: usize = spec_rd(b);
    if f3 == 0b001 {
        Some(Instruction::Csr(CsrType { csr, rd: d, rs1: z, inst: CsrInstruction::CSRRW }))
    } else if f3 == 0b010 {
        Some(Instruction::Csr(CsrType { csr, rd: d, rs1: z, inst: CsrInstruction::CSRRS }))
    } else if f3 == 0b011 {
        Some(Instruction::Csr(CsrType { csr, rd: d, rs1: z, inst: CsrInstruction::CSRRC }))
    } else if f3 == 0b101 {
        Some(Instruction::CsrI(CsrIType { csr, rd: d, zimm: z as u32, inst: CsrIInstruction::CSRRWI }))
    } else if f3 == 0b110 {
        Some(Instruction::CsrI(CsrIType { csr, rd: d, zimm: z as u32, inst: CsrIInstruction::CSRRSI }))
    } else if f3 == 0b111 {
        Some(Instruction::CsrI(CsrIType { csr, rd: d, zimm: z as u32, inst: CsrIInstruction::CSRRCI }))
    } else {
        None
    }
}

/// The decoding of an RV32I instruction.
pub open spec fn spec_rv32i_factory(b: u32) -> Option<Instruction> {
    let op: u32 = spec_opcode(b);
    let f3: u32 = spec_funct3(b);
    if op == 0b0110111 {
        Some(Instruction::U(Utype { rd: spec_rd(b), imm: spec_utype_immediate(b), inst: UtypeInstruction::LUI }))
    } else if op == 0b0010111 {
        Some(Instruction::U(Utype { rd: spec_rd(b), imm: spec_utype_immediate(b), inst: UtypeInstruction::AUIPC }))
    } else if op == 0b1101111 {
        Some(Instruction::JAL { rd: spec_rd(b), imm: spec_jtype_immediate(b) })
    } else if op == 0b1100111 {
        if f3 == 0b000 {
            Some(Instruction::I(Itype { rs1: spec_rs1(b), rd: spec_rd(b), imm: spec_itype_immediate(b), inst: ItypeInstruction::JALR }))
        } else {
            None
        }
    } else if op == 0b0000011 {
        match spec_load_kind(f3) {
            Some(k) => Some(Instruction::I(Itype { rs1: spec_rs1(b), rd: spec_rd(b), imm: spec_itype_immediate(b), inst: k })),
            None => None,
        }
    } else if op == 0b0010011 {
        if f3 == 0b001 || f3 == 0b101 {
            match spec_shift_kind(f3, spec_funct7(b)) {
                Some(k) => Some(Instruction::IShift(ItypeShift { rs1: spec_rs1(b), rd: spec_rd(b), shamt: spec_itype_immediate(b) & 0x1F, inst: k })),
                None => None,
            }
        } else {
            match spec_alu_imm_kind(f3) {
                Some(k) => Some(Instruction::I(Itype { rs1: spec_rs1(b), rd: spec_rd(b), imm: spec_itype_immediate(b), inst: k })),
                None => None,
            }
        }
    } else if op == 0b1100011 {
        match spec_branch_kind(f3) {
            Some(k) => Some(Instruction::B(Btype { rs2: spec_rs2(b), rs1: spec_rs1(b), imm: spec_btype_immediate(b), inst: k })),
            None => None,
        }
    } else if op == 0b0100011 {
        match spec_store_kind(f3) {
            Some(k) => Some(Instruction::S(Stype { rs2: spec_rs2(b), rs1: spec_rs1(b), imm: spec_stype_immediate(b), inst: k })),
            None => None,
        }
    } else if op == 0b0110011 {
        match spec_alu_kind(f3, spec_funct7(b)) {
            Some(k) => Some(Instruction::R(Rtype { rs2: spec_rs2(b), rs1: spec_rs1(b), rd: spec_rd(b), inst: k })),
            None => None,
        }
    } else if op == 0b0001111 {
        if b == 0b0000_0000_0000_00000_001_00000_0001111 {
            Some(Instruction::FENCEI)
        } else if b & 0x000_FFFFF == 0b00000_000_00000_0001111 {
            Some(Instruction::Fence(FenceType {
                fm: (b & 0xF00_00000) >> 28u32,
                pred: (b & 0x0F0_00000) >> 24u32,
                succ: (b & 0x00F_00000) >> 20u32,
            }))
        } else {
            None
        }
    } else if op == 0b1110011 {
        if b == 0b000000000000_00000_000_00000_1110011 {
            Some(Instruction::Env(EnvInstruction::ECALL))
        } else if b == 0b000000000001_00000_000_00000_1110011 {
            Some(Instruction::Env(EnvInstruction::EBREAK))
        } else {
            spec_csr(b)
        }
    } else {
        None
    }
}

fn load_kind(f3: u32) -> (r: Option<ItypeInstruction>)
    ensures
        r == spec_load_kind(f3),
{
    match f3 {
        0b_000 => Some(ItypeInstruction::LB),
        0b_001 => Some(ItypeInstruction::LH),
        0b_010 => Some(ItypeInstruction::LW),
        0b_100 => Some(ItypeInstruction::LBU),
        0b_101 => Some(ItypeInstruction::LHU),
        _ => None,
    }
}

fn alu_imm_kind(f3: u32) -> (r: Option<ItypeInstruction>)
    ensures
        r == spec_alu_imm_kind(f3),
{
    match f3 {
        0b_000 => Some(ItypeInstruction::ADDI),
        0b_010 => Some(ItypeInstruction::SLTI),
        0b_011 => Some(ItypeInstruction::SLTIU),
        0b_100 => Some(ItypeInstruction::XORI),
        0b_110 => Some(ItypeInstruction::ORI),
        0b_111 => Some(ItypeInstruction::ANDI),
        _ => None,
    }
}

fn shift_kind(f3: u32, f7: u32) -> (r: Option<ItypeShiftInstruction>)
    ensures
        r == spec_shift_kind(f3, f7),
{
    if f3 == 0b_001 && f7 == 0b_0000000 {
        Some(ItypeShiftInstruction::SLLI)
    } else if f3 == 0b_101 && f7 == 0b_0000000 {
        Some(ItypeShiftInstruction::SRLI)
    } else if f3 == 0b_101 && f7 == 0b_0100000 {
        Some(ItypeShiftInstruction::SRAI)
    } else {
        None
    }
}

fn branch_kind(f3: u32) -> (r: Option<BtypeInstruction>)
    ensures
        r == spec_branch_kind(f3),
{
    match f3 {
        0b_000 => Some(BtypeInstruction::BEQ),
        0b_001 => Some(BtypeInstruction::BNE),
        0b_100 => Some(BtypeInstruction::BLT),
        0b_101 => Some(BtypeInstruction::BGE),
        0b_110 => Some(BtypeInstruction::BLTU),
        0b_111 => Some(BtypeInstruction::BGEU),
        _ => None,
    }
}

fn store_kind(f3: u32) -> (r: Option<StypeInstruction>)
    ensures
        r == spec_store_kind(f3),
{
    match f3 {
        0b_000 => Some(StypeInstruction::SB),
        0b_001 => Some(StypeInstruction::SH),
        0b_010 => Some(StypeInstruction::SW),
        _ => None,
    }
}

fn alu_kind(f3: u32, f7: u32) -> (r: Option<RtypeInstruction>)
    ensures
        r == spec_alu_kind(f3, f7),
{
    if f3 == 0b_000 && f7 == 0b_0000000 {
        Some(RtypeInstruction::ADD)
    } else if f3 == 0b_000 && f7 == 0b_0100000 {
        Some(RtypeInstruction::SUB)
    } else if f3 == 0b_001 && f7 == 0b_0000000 {
        Some(RtypeInstruction::SLL)
    } else if f3 == 0b_010 && f7 == 0b_0000000 {
        Some(RtypeInstruction::SLT)
    } else if f3 == 0b_011 && f7 == 0b_0000000 {
        Some(RtypeInstruction::SLTU)
    } else if f3 == 0b_100 && f7 == 0b_0000000 {
        Some(RtypeInstruction::XOR)
    } else if f3 == 0b_101 && f7 == 0b_0000000 {
        Some(RtypeInstruction::SRL)
    } else if f3 == 0b_101 && f7 == 0b_0100000 {
        Some(RtypeInstruction::SRA)
    } else if f3 == 0b_110 && f7 == 0b_0000000 {
        Some(RtypeInstruction::OR)
    } else if f3 == 0b_111 && f7 == 0b_0000000 {
        Some(RtypeInstruction::AND)
    } else {
        None
    }
}

fn csr(b: u32) -> (r: Option<Instruction>)
    ensures
        r == spec_csr(b),
{
    let csr: u32 = b >> 20;
    let rs1_zimm: usize = rs1(b);
    let rd: usize = rd(b);
    match funct3(b) {
        0b_001 => Some(Instruction::Csr(CsrType { csr, rd, rs1: rs1_zimm, inst: CsrInstruction::CSRRW })),
        0b_010 => Some(Instruction::Csr(CsrType { csr, rd, rs1: rs1_zimm, inst: CsrInstruction::CSRRS })),
        0b_011 => Some(Instruction::Csr(CsrType { csr, rd, rs1: rs1_zimm, inst: CsrInstruction::CSRRC })),
        0b_101 => Some(Instruction::CsrI(CsrIType { csr, rd, zimm: rs1_zimm as u32, inst: CsrIInstruction::CSRRWI })),
        0b_110 => Some(Instruction::CsrI(CsrIType { csr, rd, zimm: rs1_zimm as u32, inst: CsrIInstruction::CSRRSI })),
        0b_111 => Some(Instruction::CsrI(CsrIType { csr, rd, zimm: rs1_zimm as u32, inst: CsrIInstruction::CSRRCI })),
        _ => None,
    }
}

/// Decodes an RV32I instruction.
pub fn factory(instruction_bits: u32) -> (r: Option<Instruction>)
    ensures
        r == spec_rv32i_factory(instruction_bits),
{
    let b: u32 = instruction_bits;
    match opcode(b) {
        0b_0110111 => Some(Instruction::U(Utype { rd: rd(b), imm: utype_immediate(b), inst: UtypeInstruction::LUI })),
        0b_0010111 => Some(Instruction::U(Utype { rd: rd(b), imm: utype_immediate(b), inst: UtypeInstruction::AUIPC })),
        0b_1101111 => Some(Instruction::JAL { rd: rd(b), imm: jtype_immediate(b) }),
        0b_1100111 => {
            if funct3(b) == 0b_000 {
                Some(Instruction::I(Itype { rs1: rs1(b), rd: rd(b), imm: itype_immediate(b), inst: ItypeInstruction::JALR }))
            } else {
                None
            }
        },
        0b_0000011 => match load_kind(funct3(b)) {
            Some(k) => Some(Instruction::I(Itype { rs1: rs1(b), rd: rd(b), imm: itype_immediate(b), inst: k })),
            None => None,
        },
        0b_0010011 => {
            let funct3_value: u32 = funct3(b);
            if funct3_value == 0b_001 || funct3_value == 0b_101 {
                match shift_kind(funct3_value, funct7(b)) {
                    Some(k) => Some(Instruction::IShift(ItypeShift { rs1: rs1(b), rd: rd(b), shamt: itype_immediate(b) & 0x1F, inst: k })),
                    None => None,
                }
            } else {
                match alu_imm_kind(funct3_value) {
                    Some(k) => Some(Instruction::I(Itype { rs1: rs1(b), rd: rd(b), imm: itype_immediate(b), inst: k })),
                    None => None,
                }
            }
        },
        0b_1100011 => match branch_kind(funct3(b)) {
            Some(k) => Some(Instruction::B(Btype { rs2: rs2(b), rs1: rs1(b), imm: btype_immediate(b), inst: k })),
            None => None,
        },
        0b_0100011 => match store_kind(funct3(b)) {
            Some(k) => Some(Instruction::S(Stype { rs2: rs2(b), rs1: rs1(b), imm: stype_immediate(b), inst: k })),
            None => None,
        },
        0b_0110011 => match alu_kind(funct3(b), funct7(b)) {
            Some(k) => Some(Instruction::R(Rtype { rs2: rs2(b), rs1: rs1(b), rd: rd(b), inst: k })),
            None => None,
        },
        0b_0001111 => {
            let fence_low_bits: u32 = 0b_00000_000_00000_0001111;
            let fencei_value: u32 = 0b_0000_0000_0000_00000_001_00000_0001111;
            if b == fencei_value {
                Some(Instruction::FENCEI)
            } else if b & 0x000_FFFFF == fence_low_bits {
                Some(Instruction::Fence(FenceType {
                    fm: (b & 0xF00_00000) >> 28,
                    pred: (b & 0x0F0_00000) >> 24,
                    succ: (b & 0x00F_00000) >> 20,
                }))
            } else {
                None
            }
        },
        0b_1110011 => {
            if b == 0b_000000000000_00000_000_00000_1110011 {
                Some(Instruction::Env(EnvInstruction::ECALL))
            } else if b == 0b_000000000001_00000_000_00000_1110011 {
                Some(Instruction::Env(EnvInstruction::EBREAK))
            } else {
                csr(b)
            }
        },
        _ => None,
    }
}

/// `b` is `a` with registers `regs`, memory `mem` and the program counter
/// at `next`.
pub open spec fn landed<M: CoreMachine>(a: M, b: M, regs: Seq<M::REG>, mem: M::MEM, next: M::REG) -> bool {
    &&& b.spec_registers() == regs
    &&& b.spec_memory() == mem
    &&& b.spec_pc() == next
    &&& b.spec_next_pc() == next
    &&& b.spec_version() == a.spec_version()
    &&& b.spec_isa() == a.spec_isa()
}

/// The instructions that can run: the control and status register
/// instructions and FENCE.I are not implemented, and the registers read
/// are register indices.
pub open spec fn spec_rv32i_runnable(inst: Instruction) -> bool {
    match inst {
        Instruction::R(i) => i.rs1 < 32 && i.rs2 < 32,
        Instruction::I(i) => i.rs1 < 32,
        Instruction::IShift(i) => i.rs1 < 32,
        Instruction::S(i) => i.rs1 < 32 && i.rs2 < 32,
        Instruction::B(i) => i.rs1 < 32 && i.rs2 < 32,
        Instruction::Csr(_) | Instruction::CsrI(_) | Instruction::FENCEI => false,
        _ => true,
    }
}

/// The value a register-register instruction computes.
pub open spec fn spec_rtype_value<M: CoreMachine<REG = u32>>(a: M, i: Rtype) -> u32 {
    let x: u32 = reg_of(a, i.rs1);
    let y: u32 = reg_of(a, i.rs2);
    match i.inst {
        RtypeInstruction::ADD => <M::REG as Register>::spec_overflowing_add(x, y),
        RtypeInstruction::SUB => <M::REG as Register>::spec_overflowing_sub(x, y),
        RtypeInstruction::XOR => <M::REG as Register>::spec_bitxor(x, y),
        RtypeInstruction::OR => <M::REG as Register>::spec_bitor(x, y),
        RtypeInstruction::AND => <M::REG as Register>::spec_bitand(x, y),
        RtypeInstruction::SLL => x << (y & 0x1F),
        RtypeInstruction::SRL => x >> (y & 0x1F),
        RtypeInstruction::SRA => ((x as i32) >> (y & 0x1F)) as u32,
        RtypeInstruction::SLT => if (x as i32) < (y as i32) { 1 } else { 0 },
        RtypeInstruction::SLTU => if x < y { 1 } else { 0 },
    }
}

/// What a load of `bytes` bytes at `rs1 + imm` into `rd` does, the value
/// sign extended where `signed`.
pub open spec fn spec_legacy_load<M: CoreMachine<REG = u32>>(
    a: M,
    b: M,
    r: Result<(), Error>,
    i: Itype,
    bytes: nat,
    signed: bool,
) -> bool {
    let addr: u32 = <M::REG as Register>::spec_overflowing_add(reg_of(a, i.rs1), <M::REG as Register>::spec_from_i32(i.imm));
    let next: u32 = <M::REG as Register>::spec_overflowing_add(a.spec_pc(), <M::REG as Register>::spec_from_u8(4));
    match a.spec_memory().spec_load(addr, bytes) {
        Err(e) => r == Err::<(), Error>(e) && same_machine_data(a, b),
        Ok(v) => r is Ok && landed(
            a,
            b,
            spec_write_register(
                a.spec_registers(),
                i.rd as int,
                if signed {
                    <M::REG as Register>::spec_sign_extend(v, <M::REG as Register>::spec_from_u8((8 * bytes) as u8))
                } else {
                    v
                },
            ),
            a.spec_memory(),
            next,
        ),
    }
}

/// What running `inst` does to machine `a`, giving `b` and the result `r`:
/// its effect on registers and memory, then the program counter at the
/// address the instruction chose, by default 4 bytes on. A failed load or
/// store changes nothing; system calls and breakpoints are the machine's.
pub open spec fn spec_rv32i_execute<M: CoreMachine<REG = u32>>(
    a: M,
    b: M,
    inst: Instruction,
    r: Result<(), Error>,
) -> bool {
    let pc: u32 = a.spec_pc();
    let regs = a.spec_registers();
    let mem = a.spec_memory();
    let next: u32 = <M::REG as Register>::spec_overflowing_add(pc, <M::REG as Register>::spec_from_u8(4));
    match inst {
        Instruction::R(i) => r is Ok && landed(
            a,
            b,
            spec_write_register(regs, i.rd as int, spec_rtype_value(a, i)),
            mem,
            next,
        ),
        Instruction::I(i) => {
            let x: u32 = reg_of(a, i.rs1);
            let with = |v: u32| spec_write_register(regs, i.rd as int, v);
            match i.inst {
                ItypeInstruction::LB => spec_legacy_load(a, b, r, i, 1, true),
                ItypeInstruction::LH => spec_legacy_load(a, b, r, i, 2, true),
                ItypeInstruction::LW => spec_legacy_load(a, b, r, i, 4, true),
                ItypeInstruction::LBU => spec_legacy_load(a, b, r, i, 1, false),
                ItypeInstruction::LHU => spec_legacy_load(a, b, r, i, 2, false),
                ItypeInstruction::ADDI => r is Ok && landed(
                    a,
                    b,
                    with(<M::REG as Register>::spec_overflowing_add(x, <M::REG as Register>::spec_from_i32(i.imm))),
                    mem,
                    next,
                ),
                ItypeInstruction::XORI => r is Ok && landed(
                    a,
                    b,
                    with(<M::REG as Register>::spec_bitxor(x, <M::REG as Register>::spec_from_i32(i.imm))),
                    mem,
                    next,
                ),
                ItypeInstruction::ORI => r is Ok && landed(
                    a,
                    b,
                    with(<M::REG as Register>::spec_bitor(x, <M::REG as Register>::spec_from_i32(i.imm))),
                    mem,
                    next,
                ),
                ItypeInstruction::ANDI => r is Ok && landed(
                    a,
                    b,
                    with(<M::REG as Register>::spec_bitand(x, <M::REG as Register>::spec_from_i32(i.imm))),
                    mem,
                    next,
                ),
                ItypeInstruction::SLTI => r is Ok && landed(
                    a,
                    b,
                    with(if (x as i32) < i.imm { 1 } else { 0 }),
                    mem,
                    next,
                ),
                ItypeInstruction::SLTIU => r is Ok && landed(
                    a,
                    b,
                    with(if x < (i.imm as u32) { 1 } else { 0 }),
                    mem,
                    next,
                ),
                ItypeInstruction::JALR => r is Ok && landed(
                    a,
                    b,
                    with(next),
                    mem,
                    <M::REG as Register>::spec_bitand(
                        <M::REG as Register>::spec_overflowing_add(x, <M::REG as Register>::spec_from_i32(i.imm)),
                        <M::REG as Register>::spec_not(<M::REG as Register>::spec_one()),
                    ),
                ),
            }
        },
        Instruction::IShift(i) => {
            let x: u32 = reg_of(a, i.rs1);
            let amount: u32 = <M::REG as Register>::spec_from_u32(i.shamt as u32);
            r is Ok && landed(
                a,
                b,
                spec_write_register(
                    regs,
                    i.rd as int,
                    match i.inst {
                        ItypeShiftInstruction::SLLI => <M::REG as Register>::spec_shl(x, amount),
                        ItypeShiftInstruction::SRLI => <M::REG as Register>::spec_shr(x, amount),
                        ItypeShiftInstruction::SRAI => <M::REG as Register>::spec_signed_shr(x, amount),
                    },
                ),
                mem,
                next,
            )
        },
        Instruction::S(i) => {
            let addr: u32 = <M::REG as Register>::spec_overflowing_add(reg_of(a, i.rs1), <M::REG as Register>::spec_from_i32(i.imm));
            let bytes: nat = match i.inst {
                StypeInstruction::SB => 1,
                StypeInstruction::SH => 2,
                StypeInstruction::SW => 4,
            };
            match mem.spec_store(addr, bytes, reg_of(a, i.rs2)) {
                Err(e) => r == Err::<(), Error>(e) && same_machine_data(a, b),
                Ok(m) => r is Ok && landed(a, b, regs, m, next),
            }
        },
        Instruction::B(i) => {
            let x: u32 = reg_of(a, i.rs1);
            let y: u32 = reg_of(a, i.rs2);
            let taken: bool = match i.inst {
                BtypeInstruction::BEQ => x == y,
                BtypeInstruction::BNE => x != y,
                BtypeInstruction::BLT => (x as i32) < (y as i32),
                BtypeInstruction::BGE => (x as i32) >= (y as i32),
                BtypeInstruction::BLTU => x < y,
                BtypeInstruction::BGEU => x >= y,
            };
            r is Ok && landed(
                a,
                b,
                regs,
                mem,
                if taken {
                    <M::REG as Register>::spec_overflowing_add(pc, <M::REG as Register>::spec_from_i32(i.imm))
                } else {
                    next
                },
            )
        },
        Instruction::U(i) => r is Ok && landed(
            a,
            b,
            spec_write_register(
                regs,
                i.rd as int,
                match i.inst {
                    UtypeInstruction::LUI => i.imm as u32,
                    UtypeInstruction::AUIPC => <M::REG as Register>::spec_overflowing_add(pc, <M::REG as Register>::spec_from_i32(i.imm)),
                },
            ),
            mem,
            next,
        ),
        Instruction::Fence(_) => r is Ok && landed(a, b, regs, mem, next),
        Instruction::JAL { imm, rd } => r is Ok && landed(
            a,
            b,
            spec_write_register(regs, rd as int, next),
            mem,
            <M::REG as Register>::spec_overflowing_add(pc, <M::REG as Register>::spec_from_i32(imm)),
        ),
        _ => true,
    }
}

fn rtype_value<Mac: Machine<REG = u32>>(machine: &Mac, i: Rtype) -> (v: u32)
    requires
        i.rs1 < 32,
        i.rs2 < 32,
    ensures
        v == spec_rtype_value(*machine, i),
{
    let x: u32 = machine.registers()[i.rs1];
    let y: u32 = machine.registers()[i.rs2];
    proof {
        lemma_and_31(y);
    }
    match i.inst {
        RtypeInstruction::ADD => <u32 as Register>::overflowing_add(&x, &y),
        RtypeInstruction::SUB => <u32 as Register>::overflowing_sub(&x, &y),
        RtypeInstruction::XOR => <u32 as Register>::bitxor(&x, &y),
        RtypeInstruction::OR => <u32 as Register>::bitor(&x, &y),
        RtypeInstruction::AND => <u32 as Register>::bitand(&x, &y),
        RtypeInstruction::SLL => x << (y & 0x1F),
        RtypeInstruction::SRL => x >> (y & 0x1F),
        RtypeInstruction::SRA => ((x as i32) >> (y & 0x1F)) as u32,
        RtypeInstruction::SLT => if (x as i32) < (y as i32) { 1 } else { 0 },
        RtypeInstruction::SLTU => if x < y { 1 } else { 0 },
    }
}

impl Instruction {
    /// Runs the instruction on a machine with 32 bit registers, then moves
    /// the program counter to the address the instruction chose, by
    /// default 4 bytes on.
    pub fn execute<Mac: Machine<REG = u32>>(&self, machine: &mut Mac) -> (r: Result<(), Error>)
        requires
            spec_rv32i_runnable(*self),
        ensures
            spec_rv32i_execute(*old(machine), *final(machine), *self, r),
    {
        let pc: u32 = *machine.pc();
        let next_pc: Option<u32> = match *self {
            Instruction::R(i) => {
                let value: u32 = rtype_value(machine, i);
                update_register(machine, i.rd, value);
                None
            },
            Instruction::I(i) => {
                let x: u32 = machine.registers()[i.rs1];
                let loaded: Result<(), Error> = match i.inst {
                    ItypeInstruction::LB => super::common::lb(machine, i.rd, i.rs1, i.imm, false),
                    ItypeInstruction::LH => super::common::lh(machine, i.rd, i.rs1, i.imm, false),
                    ItypeInstruction::LW => super::common::lw(machine, i.rd, i.rs1, i.imm, false),
                    ItypeInstruction::LBU => super::common::lbu(machine, i.rd, i.rs1, i.imm, false),
                    ItypeInstruction::LHU => super::common::lhu(machine, i.rd, i.rs1, i.imm, false),
                    _ => Ok(()),
                };
                if let Err(e) = loaded {
                    return Err(e);
                }
                match i.inst {
                    ItypeInstruction::ADDI => {
                        super::common::addi(machine, i.rd, i.rs1, i.imm);
                        None
                    },
                    ItypeInstruction::XORI => {
                        super::common::xori(machine, i.rd, i.rs1, i.imm);
                        None
                    },
                    ItypeInstruction::ORI => {
                        super::common::ori(machine, i.rd, i.rs1, i.imm);
                        None
                    },
                    ItypeInstruction::ANDI => {
                        super::common::andi(machine, i.rd, i.rs1, i.imm);
                        None
                    },
                    ItypeInstruction::SLTI => {
                        let value: u32 = if (x as i32) < i.imm { 1 } else { 0 };
                        update_register(machine, i.rd, value);
                        None
                    },
                    ItypeInstruction::SLTIU => {
                        let value: u32 = if x < (i.imm as u32) { 1 } else { 0 };
                        update_register(machine, i.rd, value);
                        None
                    },
                    ItypeInstruction::JALR => {
                        let link: u32 = <u32 as Register>::overflowing_add(&pc, &4u32);
                        let target: u32 = <u32 as Register>::bitand(&<u32 as Register>::overflowing_add(&x, &(i.imm as u32)), &<u32 as Register>::not(&1u32));
                        update_register(machine, i.rd, link);
                        Some(target)
                    },
                    _ => None,
                }
            },
            Instruction::IShift(i) => {
                match i.inst {
                    ItypeShiftInstruction::SLLI => super::common::slli(machine, i.rd, i.rs1, i.shamt as u32),
                    ItypeShiftInstruction::SRLI => super::common::srli(machine, i.rd, i.rs1, i.shamt as u32),
                    ItypeShiftInstruction::SRAI => super::common::srai(machine, i.rd, i.rs1, i.shamt as u32),
                }
                None
            },
            Instruction::S(i) => {
                let stored: Result<(), Error> = match i.inst {
                    StypeInstruction::SB => super::common::sb(machine, i.rs1, i.rs2, i.imm),
                    StypeInstruction::SH => super::common::sh(machine, i.rs1, i.rs2, i.imm),
                    StypeInstruction::SW => super::common::sw(machine, i.rs1, i.rs2, i.imm),
                };
                if let Err(e) = stored {
                    return Err(e);
                }
                None
            },
            Instruction::B(i) => {
                let x: u32 = machine.registers()[i.rs1];
                let y: u32 = machine.registers()[i.rs2];
                let taken: bool = match i.inst {
                    BtypeInstruction::BEQ => x == y,
                    BtypeInstruction::BNE => x != y,
                    BtypeInstruction::BLT => (x as i32) < (y as i32),
                    BtypeInstruction::BGE => (x as i32) >= (y as i32),
                    BtypeInstruction::BLTU => x < y,
                    BtypeInstruction::BGEU => x >= y,
                };
                if taken {
                    Some(<u32 as Register>::overflowing_add(&pc, &(i.imm as u32)))
                } else {
                    None
                }
            },
            Instruction::U(i) => {
                let value: u32 = match i.inst {
                    UtypeInstruction::LUI => i.imm as u32,
                    UtypeInstruction::AUIPC => <u32 as Register>::overflowing_add(&pc, &(i.imm as u32)),
                };
                update_register(machine, i.rd, value);
                None
            },
            Instruction::Fence(_) => None,
            Instruction::Env(e) => {
                // The semantics of ECALL and EBREAK belong to the
                // environment, which the machine provides.
                let done: Result<(), Error> = match e {
                    EnvInstruction::ECALL => machine.ecall(),
                    EnvInstruction::EBREAK => machine.ebreak(),
                };
                if let Err(e) = done {
                    return Err(e);
                }
                None
            },
            Instruction::JAL { imm, rd } => {
                super::common::jal(machine, rd, imm, 4);
                Some(<u32 as Register>::overflowing_add(&pc, &(imm as u32)))
            },
            // Not implemented; excluded by the precondition.
            Instruction::Csr(_) | Instruction::CsrI(_) | Instruction::FENCEI => None,
        };
        let default_next_pc: u32 = <u32 as Register>::overflowing_add(machine.pc(), &4u32);
        let target: u32 = match next_pc {
            Some(n) => n,
            None => default_next_pc,
        };
        machine.update_pc(target);
        machine.commit_pc();
        Ok(())
    }
}

} // verus!
