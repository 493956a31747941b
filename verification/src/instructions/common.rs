//! Instruction semantics shared by the full and the compressed encodings.
use vstd::prelude::*;
use crate::definitions::DEFAULT_MEMORY_SIZE;
use crate::error::{Error, OutOfBoundKind};
use crate::machine::{
    only_memory_changed, spec_write_register, reg_of, same_machine_data, wrote_register, CoreMachine, Machine,
};
use crate::memory::Memory;
use super::register::Register;
use super::utils::update_register;
use super::{RegisterIndex, SImmediate, UImmediate};

verus! {

/// The address `rs1 + imm` that a load or store of `m` reaches.
pub open spec fn spec_effective_address<M: CoreMachine>(m: M, rs1: RegisterIndex, imm: SImmediate) -> M::REG {
    M::REG::spec_overflowing_add(reg_of(m, rs1), M::REG::spec_from_i32(imm))
}

/// Under version 0, a load of `bytes` bytes at `address` is refused where
/// its end does not fit in 64 bits or lands exactly on the end of the
/// default memory.
pub open spec fn spec_check_load_boundary(version0: bool, address: u64, bytes: u64) -> Result<(), Error> {
    if !version0 {
        Ok(())
    } else if address + bytes > u64::MAX {
        Err(Error::MemOutOfBound(address, OutOfBoundKind::Memory))
    } else if address + bytes == DEFAULT_MEMORY_SIZE {
        Err(Error::MemOutOfBound((address + bytes) as u64, OutOfBoundKind::Memory))
    } else {
        Ok(())
    }
}

/// What a load of `bytes` bytes into `rd` does to machine `a`, giving `b`
/// and the result `r`: the boundary check of version 0, then the memory's
/// answer, and on success the value, sign extended where `signed`, in `rd`.
pub open spec fn spec_load_effect<M: CoreMachine>(
    a: M,
    b: M,
    r: Result<(), Error>,
    rd: RegisterIndex,
    rs1: RegisterIndex,
    imm: SImmediate,
    version0: bool,
    bytes: nat,
    signed: bool,
) -> bool {
    let addr: M::REG = spec_effective_address(a, rs1, imm);
    match spec_check_load_boundary(version0, M::REG::spec_to_u64(addr), bytes as u64) {
        Err(e) => r == Err::<(), Error>(e) && same_machine_data(a, b),
        Ok(_) => match a.spec_memory().spec_load(addr, bytes) {
            Err(e) => r == Err::<(), Error>(e) && same_machine_data(a, b),
            Ok(v) => r is Ok && wrote_register(
                a,
                b,
                rd,
                if signed {
                    M::REG::spec_sign_extend(v, M::REG::spec_from_u8((8 * bytes) as u8))
                } else {
                    v
                },
            ),
        },
    }
}

/// What a store of the low `bytes` bytes of `rs2` does to machine `a`,
/// giving `b` and the result `r`.
pub open spec fn spec_store_effect<M: CoreMachine>(
    a: M,
    b: M,
    r: Result<(), Error>,
    rs1: RegisterIndex,
    rs2: RegisterIndex,
    imm: SImmediate,
    bytes: nat,
) -> bool {
    match a.spec_memory().spec_store(spec_effective_address(a, rs1, imm), bytes, reg_of(a, rs2)) {
        Ok(m) => r is Ok && b.spec_memory() == m && only_memory_changed(a, b),
        Err(e) => r == Err::<(), Error>(e) && same_machine_data(a, b),
    }
}

// ALU instructions

/// `rd = rs1 + rs2`, wrapping.
pub fn add<Mac: Machine>(machine: &mut Mac, rd: RegisterIndex, rs1: RegisterIndex, rs2: RegisterIndex)
    requires
        rs1 < 32,
        rs2 < 32,
    ensures
        wrote_register(
            *old(machine),
            *final(machine),
            rd,
            Mac::REG::spec_overflowing_add(reg_of(*old(machine), rs1), reg_of(*old(machine), rs2)),
        ),
{
    let rs1_value: Mac::REG = machine.registers()[rs1];
    let rs2_value: Mac::REG = machine.registers()[rs2];
    let value: Mac::REG = rs1_value.overflowing_add(&rs2_value);
    update_register(machine, rd, value);
}

/// `rd = rs1 + rs2` on the low 32 bits, sign extended.
pub fn addw<Mac: Machine>(machine: &mut Mac, rd: RegisterIndex, rs1: RegisterIndex, rs2: RegisterIndex)
    requires
        rs1 < 32,
        rs2 < 32,
    ensures
        wrote_register(
            *old(machine),
            *final(machine),
            rd,
            Mac::REG::spec_sign_extend(Mac::REG::spec_overflowing_add(reg_of(*old(machine), rs1), reg_of(*old(machine), rs2)), Mac::REG::spec_from_u8(32)),
        ),
{
    let rs1_value: Mac::REG = machine.registers()[rs1];
    let rs2_value: Mac::REG = machine.registers()[rs2];
    let value: Mac::REG = rs1_value.overflowing_add(&rs2_value).sign_extend(&Mac::REG::from_u8(32));
    update_register(machine, rd, value);
}

/// `rd = rs1 - rs2`, wrapping.
pub fn sub<Mac: Machine>(machine: &mut Mac, rd: RegisterIndex, rs1: RegisterIndex, rs2: RegisterIndex)
    requires
        rs1 < 32,
        rs2 < 32,
    ensures
        wrote_register(
            *old(machine),
            *final(machine),
            rd,
            Mac::REG::spec_overflowing_sub(reg_of(*old(machine), rs1), reg_of(*old(machine), rs2)),
        ),
{
    let rs1_value: Mac::REG = machine.registers()[rs1];
    let rs2_value: Mac::REG = machine.registers()[rs2];
    let value: Mac::REG = rs1_value.overflowing_sub(&rs2_value);
    update_register(machine, rd, value);
}

/// `rd = rs1 - rs2` on the low 32 bits, sign extended.
pub fn subw<Mac: Machine>(machine: &mut Mac, rd: RegisterIndex, rs1: RegisterIndex, rs2: RegisterIndex)
    requires
        rs1 < 32,
        rs2 < 32,
    ensures
        wrote_register(
            *old(machine),
            *final(machine),
            rd,
            Mac::REG::spec_sign_extend(Mac::REG::spec_overflowing_sub(reg_of(*old(machine), rs1), reg_of(*old(machine), rs2)), Mac::REG::spec_from_u8(32)),
        ),
{
    let rs1_value: Mac::REG = machine.registers()[rs1];
    let rs2_value: Mac::REG = machine.registers()[rs2];
    let value: Mac::REG = rs1_value.overflowing_sub(&rs2_value).sign_extend(&Mac::REG::from_u8(32));
    update_register(machine, rd, value);
}

/// `rd = rs1 + imm`, wrapping.
pub fn addi<Mac: Machine>(machine: &mut Mac, rd: RegisterIndex, rs1: RegisterIndex, imm: SImmediate)
    requires
        rs1 < 32,
    ensures
        wrote_register(
            *old(machine),
            *final(machine),
            rd,
            Mac::REG::spec_overflowing_add(reg_of(*old(machine), rs1), Mac::REG::spec_from_i32(imm)),
        ),
{
    let rs1_value: Mac::REG = machine.registers()[rs1];
    let value: Mac::REG = rs1_value.overflowing_add(&Mac::REG::from_i32(imm));
    update_register(machine, rd, value);
}

/// `rd = rs1 + imm` on the low 32 bits, sign extended.
pub fn addiw<Mac: Machine>(machine: &mut Mac, rd: RegisterIndex, rs1: RegisterIndex, imm: SImmediate)
    requires
        rs1 < 32,
    ensures
        wrote_register(
            *old(machine),
            *final(machine),
            rd,
            Mac::REG::spec_sign_extend(Mac::REG::spec_overflowing_add(reg_of(*old(machine), rs1), Mac::REG::spec_from_i32(imm)), Mac::REG::spec_from_u8(32)),
        ),
{
    let rs1_value: Mac::REG = machine.registers()[rs1];
    let value: Mac::REG = rs1_value.overflowing_add(&Mac::REG::from_i32(imm)).sign_extend(&Mac::REG::from_u8(32));
    update_register(machine, rd, value);
}

// Load instructions

fn check_load_boundary<R: Register>(version0: bool, address: &R, bytes: u64) -> (r: Result<(), Error>)
    ensures
        r == spec_check_load_boundary(version0, R::spec_to_u64(*address), bytes),
{
    if version0 {
        let address: u64 = address.to_u64();
        let end: u64 = match address.checked_add(bytes) {
            Some(e) => e,
            None => {
                return Err(Error::MemOutOfBound(address, OutOfBoundKind::Memory));
            },
        };
        if end == DEFAULT_MEMORY_SIZE as u64 {
            return Err(Error::MemOutOfBound(end, OutOfBoundKind::Memory));
        }
    }
    Ok(())
}

/// Loads 1 byte at `rs1 + imm` into `rd`, sign extended.
pub fn lb<Mac: Machine>(
    machine: &mut Mac,
    rd: RegisterIndex,
    rs1: RegisterIndex,
    imm: SImmediate,
    version0: bool,
) -> (r: Result<(), Error>)
    requires
        rs1 < 32,
    ensures
        spec_load_effect(*old(machine), *final(machine), r, rd, rs1, imm, version0, 1, true),
{
    let address: Mac::REG = machine.registers()[rs1].overflowing_add(&Mac::REG::from_i32(imm));
    if let Err(e) = check_load_boundary(version0, &address, 1) {
        return Err(e);
    }
    let value: Mac::REG = match machine.memory_mut().load8(&address) {
        Ok(v) => v,
        Err(e) => {
            return Err(e);
        },
    };
    update_register(machine, rd, value.sign_extend(&Mac::REG::from_u8(8)));
    Ok(())
}

/// Loads 2 bytes at `rs1 + imm` into `rd`, sign extended.
pub fn lh<Mac: Machine>(
    machine: &mut Mac,
    rd: RegisterIndex,
    rs1: RegisterIndex,
    imm: SImmediate,
    version0: bool,
) -> (r: Result<(), Error>)
    requires
        rs1 < 32,
    ensures
        spec_load_effect(*old(machine), *final(machine), r, rd, rs1, imm, version0, 2, true),
{
    let address: Mac::REG = machine.registers()[rs1].overflowing_add(&Mac::REG::from_i32(imm));
    if let Err(e) = check_load_boundary(version0, &address, 2) {
        return Err(e);
    }
    let value: Mac::REG = match machine.memory_mut().load16(&address) {
        Ok(v) => v,
        Err(e) => {
            return Err(e);
        },
    };
    update_register(machine, rd, value.sign_extend(&Mac::REG::from_u8(16)));
    Ok(())
}

/// Loads 4 bytes at `rs1 + imm` into `rd`, sign extended.
pub fn lw<Mac: Machine>(
    machine: &mut Mac,
    rd: RegisterIndex,
    rs1: RegisterIndex,
    imm: SImmediate,
    version0: bool,
) -> (r: Result<(), Error>)
    requires
        rs1 < 32,
    ensures
        spec_load_effect(*old(machine), *final(machine), r, rd, rs1, imm, version0, 4, true),
{
    let address: Mac::REG = machine.registers()[rs1].overflowing_add(&Mac::REG::from_i32(imm));
    if let Err(e) = check_load_boundary(version0, &address, 4) {
        return Err(e);
    }
    let value: Mac::REG = match machine.memory_mut().load32(&address) {
        Ok(v) => v,
        Err(e) => {
            return Err(e);
        },
    };
    update_register(machine, rd, value.sign_extend(&Mac::REG::from_u8(32)));
    Ok(())
}

/// Loads 8 bytes at `rs1 + imm` into `rd`, sign extended.
pub fn ld<Mac: Machine>(
    machine: &mut Mac,
    rd: RegisterIndex,
    rs1: RegisterIndex,
    imm: SImmediate,
    version0: bool,
) -> (r: Result<(), Error>)
    requires
        rs1 < 32,
    ensures
        spec_load_effect(*old(machine), *final(machine), r, rd, rs1, imm, version0, 8, true),
{
    let address: Mac::REG = machine.registers()[rs1].overflowing_add(&Mac::REG::from_i32(imm));
    if let Err(e) = check_load_boundary(version0, &address, 8) {
        return Err(e);
    }
    let value: Mac::REG = match machine.memory_mut().load64(&address) {
        Ok(v) => v,
        Err(e) => {
            return Err(e);
        },
    };
    update_register(machine, rd, value.sign_extend(&Mac::REG::from_u8(64)));
    Ok(())
}

/// Loads 1 byte at `rs1 + imm` into `rd`, zero extended.
pub fn lbu<Mac: Machine>(
    machine: &mut Mac,
    rd: RegisterIndex,
    rs1: RegisterIndex,
    imm: SImmediate,
    version0: bool,
) -> (r: Result<(), Error>)
    requires
        rs1 < 32,
    ensures
        spec_load_effect(*old(machine), *final(machine), r, rd, rs1, imm, version0, 1, false),
{
    let address: Mac::REG = machine.registers()[rs1].overflowing_add(&Mac::REG::from_i32(imm));
    if let Err(e) = check_load_boundary(version0, &address, 1) {
        return Err(e);
    }
    let value: Mac::REG = match machine.memory_mut().load8(&address) {
        Ok(v) => v,
        Err(e) => {
            return Err(e);
        },
    };
    update_register(machine, rd, value);
    Ok(())
}

/// Loads 2 bytes at `rs1 + imm` into `rd`, zero extended.
pub fn lhu<Mac: Machine>(
    machine: &mut Mac,
    rd: RegisterIndex,
    rs1: RegisterIndex,
    imm: SImmediate,
    version0: bool,
) -> (r: Result<(), Error>)
    requires
        rs1 < 32,
    ensures
        spec_load_effect(*old(machine), *final(machine), r, rd, rs1, imm, version0, 2, false),
{
    let address: Mac::REG = machine.registers()[rs1].overflowing_add(&Mac::REG::from_i32(imm));
    if let Err(e) = check_load_boundary(version0, &address, 2) {
        return Err(e);
    }
    let value: Mac::REG = match machine.memory_mut().load16(&address) {
        Ok(v) => v,
        Err(e) => {
            return Err(e);
        },
    };
    update_register(machine, rd, value);
    Ok(())
}

/// Loads 4 bytes at `rs1 + imm` into `rd`, zero extended.
pub fn lwu<Mac: Machine>(
    machine: &mut Mac,
    rd: RegisterIndex,
    rs1: RegisterIndex,
    imm: SImmediate,
    version0: bool,
) -> (r: Result<(), Error>)
    requires
        rs1 < 32,
    ensures
        spec_load_effect(*old(machine), *final(machine), r, rd, rs1, imm, version0, 4, false),
{
    let address: Mac::REG = machine.registers()[rs1].overflowing_add(&Mac::REG::from_i32(imm));
    if let Err(e) = check_load_boundary(version0, &address, 4) {
        return Err(e);
    }
    let value: Mac::REG = match machine.memory_mut().load32(&address) {
        Ok(v) => v,
        Err(e) => {
            return Err(e);
        },
    };
    update_register(machine, rd, value);
    Ok(())
}

// Store instructions

/// Stores the low 1 byte of `rs2` at `rs1 + imm`.
pub fn sb<Mac: Machine>(
    machine: &mut Mac,
    rs1: RegisterIndex,
    rs2: RegisterIndex,
    imm: SImmediate,
) -> (r: Result<(), Error>)
    requires
        rs1 < 32,
        rs2 < 32,
    ensures
        spec_store_effect(*old(machine), *final(machine), r, rs1, rs2, imm, 1),
{
    let address: Mac::REG = machine.registers()[rs1].overflowing_add(&Mac::REG::from_i32(imm));
    let value: Mac::REG = machine.registers()[rs2];
    machine.memory_mut().store8(&address, &value)
}

/// Stores the low 2 bytes of `rs2` at `rs1 + imm`.
pub fn sh<Mac: Machine>(
    machine: &mut Mac,
    rs1: RegisterIndex,
    rs2: RegisterIndex,
    imm: SImmediate,
) -> (r: Result<(), Error>)
    requires
        rs1 < 32,
        rs2 < 32,
    ensures
        spec_store_effect(*old(machine), *final(machine), r, rs1, rs2, imm, 2),
{
    let address: Mac::REG = machine.registers()[rs1].overflowing_add(&Mac::REG::from_i32(imm));
    let value: Mac::REG = machine.registers()[rs2];
    machine.memory_mut().store16(&address, &value)
}

/// Stores the low 4 bytes of `rs2` at `rs1 + imm`.
pub fn sw<Mac: Machine>(
    machine: &mut Mac,
    rs1: RegisterIndex,
    rs2: RegisterIndex,
    imm: SImmediate,
) -> (r: Result<(), Error>)
    requires
        rs1 < 32,
        rs2 < 32,
    ensures
        spec_store_effect(*old(machine), *final(machine), r, rs1, rs2, imm, 4),
{
    let address: Mac::REG = machine.registers()[rs1].overflowing_add(&Mac::REG::from_i32(imm));
    let value: Mac::REG = machine.registers()[rs2];
    machine.memory_mut().store32(&address, &value)
}

/// Stores the low 8 bytes of `rs2` at `rs1 + imm`.
pub fn sd<Mac: Machine>(
    machine: &mut Mac,
    rs1: RegisterIndex,
    rs2: RegisterIndex,
    imm: SImmediate,
) -> (r: Result<(), Error>)
    requires
        rs1 < 32,
        rs2 < 32,
    ensures
        spec_store_effect(*old(machine), *final(machine), r, rs1, rs2, imm, 8),
{
    let address: Mac::REG = machine.registers()[rs1].overflowing_add(&Mac::REG::from_i32(imm));
    let value: Mac::REG = machine.registers()[rs2];
    machine.memory_mut().store64(&address, &value)
}

// Bit operations

/// `rd = rs1 & rs2`.
pub fn and<Mac: Machine>(machine: &mut Mac, rd: RegisterIndex, rs1: RegisterIndex, rs2: RegisterIndex)
    requires
        rs1 < 32,
        rs2 < 32,
    ensures
        wrote_register(
            *old(machine),
            *final(machine),
            rd,
            Mac::REG::spec_bitand(reg_of(*old(machine), rs1), reg_of(*old(machine), rs2)),
        ),
{
    let rs1_value: Mac::REG = machine.registers()[rs1];
    let rs2_value: Mac::REG = machine.registers()[rs2];
    let value: Mac::REG = rs1_value.bitand(&rs2_value);
    update_register(machine, rd, value);
}

/// `rd = rs1 ^ rs2`.
pub fn xor<Mac: Machine>(machine: &mut Mac, rd: RegisterIndex, rs1: RegisterIndex, rs2: RegisterIndex)
    requires
        rs1 < 32,
        rs2 < 32,
    ensures
        wrote_register(
            *old(machine),
            *final(machine),
            rd,
            Mac::REG::spec_bitxor(reg_of(*old(machine), rs1), reg_of(*old(machine), rs2)),
        ),
{
    let rs1_value: Mac::REG = machine.registers()[rs1];
    let rs2_value: Mac::REG = machine.registers()[rs2];
    let value: Mac::REG = rs1_value.bitxor(&rs2_value);
    update_register(machine, rd, value);
}

/// `rd = rs1 | rs2`.
pub fn or<Mac: Machine>(machine: &mut Mac, rd: RegisterIndex, rs1: RegisterIndex, rs2: RegisterIndex)
    requires
        rs1 < 32,
        rs2 < 32,
    ensures
        wrote_register(
            *old(machine),
            *final(machine),
            rd,
            Mac::REG::spec_bitor(reg_of(*old(machine), rs1), reg_of(*old(machine), rs2)),
        ),
{
    let rs1_value: Mac::REG = machine.registers()[rs1];
    let rs2_value: Mac::REG = machine.registers()[rs2];
    let value: Mac::REG = rs1_value.bitor(&rs2_value);
    update_register(machine, rd, value);
}

/// `rd = rs1 & imm`.
pub fn andi<Mac: Machine>(machine: &mut Mac, rd: RegisterIndex, rs1: RegisterIndex, imm: SImmediate)
    requires
        rs1 < 32,
    ensures
        wrote_register(
            *old(machine),
            *final(machine),
            rd,
            Mac::REG::spec_bitand(reg_of(*old(machine), rs1), Mac::REG::spec_from_i32(imm)),
        ),
{
    let rs1_value: Mac::REG = machine.registers()[rs1];
    let value: Mac::REG = rs1_value.bitand(&Mac::REG::from_i32(imm));
    update_register(machine, rd, value);
}

/// `rd = rs1 ^ imm`.
pub fn xori<Mac: Machine>(machine: &mut Mac, rd: RegisterIndex, rs1: RegisterIndex, imm: SImmediate)
    requires
        rs1 < 32,
    ensures
        wrote_register(
            *old(machine),
            *final(machine),
            rd,
            Mac::REG::spec_bitxor(reg_of(*old(machine), rs1), Mac::REG::spec_from_i32(imm)),
        ),
{
    let rs1_value: Mac::REG = machine.registers()[rs1];
    let value: Mac::REG = rs1_value.bitxor(&Mac::REG::from_i32(imm));
    update_register(machine, rd, value);
}

/// `rd = rs1 | imm`.
pub fn ori<Mac: Machine>(machine: &mut Mac, rd: RegisterIndex, rs1: RegisterIndex, imm: SImmediate)
    requires
        rs1 < 32,
    ensures
        wrote_register(
            *old(machine),
            *final(machine),
            rd,
            Mac::REG::spec_bitor(reg_of(*old(machine), rs1), Mac::REG::spec_from_i32(imm)),
        ),
{
    let rs1_value: Mac::REG = machine.registers()[rs1];
    let value: Mac::REG = rs1_value.bitor(&Mac::REG::from_i32(imm));
    update_register(machine, rd, value);
}

/// `rd = rs1 << shamt`.
pub fn slli<Mac: Machine>(machine: &mut Mac, rd: RegisterIndex, rs1: RegisterIndex, shamt: UImmediate)
    requires
        rs1 < 32,
    ensures
        wrote_register(
            *old(machine),
            *final(machine),
            rd,
            Mac::REG::spec_shl(reg_of(*old(machine), rs1), Mac::REG::spec_from_u32(shamt)),
        ),
{
    let rs1_value: Mac::REG = machine.registers()[rs1];
    let value: Mac::REG = rs1_value.shl(&Mac::REG::from_u32(shamt));
    update_register(machine, rd, value);
}

/// `rd = rs1 >> shamt`, logical.
pub fn srli<Mac: Machine>(machine: &mut Mac, rd: RegisterIndex, rs1: RegisterIndex, shamt: UImmediate)
    requires
        rs1 < 32,
    ensures
        wrote_register(
            *old(machine),
            *final(machine),
            rd,
            Mac::REG::spec_shr(reg_of(*old(machine), rs1), Mac::REG::spec_from_u32(shamt)),
        ),
{
    let rs1_value: Mac::REG = machine.registers()[rs1];
    let value: Mac::REG = rs1_value.shr(&Mac::REG::from_u32(shamt));
    update_register(machine, rd, value);
}

/// `rd = rs1 >> shamt`, arithmetic.
pub fn srai<Mac: Machine>(machine: &mut Mac, rd: RegisterIndex, rs1: RegisterIndex, shamt: UImmediate)
    requires
        rs1 < 32,
    ensures
        wrote_register(
            *old(machine),
            *final(machine),
            rd,
            Mac::REG::spec_signed_shr(reg_of(*old(machine), rs1), Mac::REG::spec_from_u32(shamt)),
        ),
{
    let rs1_value: Mac::REG = machine.registers()[rs1];
    let value: Mac::REG = rs1_value.signed_shr(&Mac::REG::from_u32(shamt));
    update_register(machine, rd, value);
}

/// `rd = rs1 << shamt` on the low 32 bits, sign extended.
pub fn slliw<Mac: Machine>(machine: &mut Mac, rd: RegisterIndex, rs1: RegisterIndex, shamt: UImmediate)
    requires
        rs1 < 32,
    ensures
        wrote_register(
            *old(machine),
            *final(machine),
            rd,
            Mac::REG::spec_sign_extend(Mac::REG::spec_shl(reg_of(*old(machine), rs1), Mac::REG::spec_from_u32(shamt)), Mac::REG::spec_from_u8(32)),
        ),
{
    let rs1_value: Mac::REG = machine.registers()[rs1];
    let value: Mac::REG = rs1_value.shl(&Mac::REG::from_u32(shamt)).sign_extend(&Mac::REG::from_u8(32));
    update_register(machine, rd, value);
}

/// The low 32 bits of `rs1`, shifted right logically by `shamt`, sign extended.
pub fn srliw<Mac: Machine>(machine: &mut Mac, rd: RegisterIndex, rs1: RegisterIndex, shamt: UImmediate)
    requires
        rs1 < 32,
    ensures
        wrote_register(
            *old(machine),
            *final(machine),
            rd,
            Mac::REG::spec_sign_extend(Mac::REG::spec_shr(Mac::REG::spec_zero_extend(reg_of(*old(machine), rs1), Mac::REG::spec_from_u8(32)), Mac::REG::spec_from_u32(shamt)), Mac::REG::spec_from_u8(32)),
        ),
{
    let rs1_value: Mac::REG = machine.registers()[rs1];
    let value: Mac::REG = rs1_value.zero_extend(&Mac::REG::from_u8(32)).shr(&Mac::REG::from_u32(shamt)).sign_extend(&Mac::REG::from_u8(32));
    update_register(machine, rd, value);
}

/// The low 32 bits of `rs1`, shifted right arithmetically by `shamt`, sign extended.
pub fn sraiw<Mac: Machine>(machine: &mut Mac, rd: RegisterIndex, rs1: RegisterIndex, shamt: UImmediate)
    requires
        rs1 < 32,
    ensures
        wrote_register(
            *old(machine),
            *final(machine),
            rd,
            Mac::REG::spec_sign_extend(Mac::REG::spec_signed_shr(Mac::REG::spec_sign_extend(reg_of(*old(machine), rs1), Mac::REG::spec_from_u8(32)), Mac::REG::spec_from_u32(shamt)), Mac::REG::spec_from_u8(32)),
        ),
{
    let rs1_value: Mac::REG = machine.registers()[rs1];
    let value: Mac::REG = rs1_value.sign_extend(&Mac::REG::from_u8(32)).signed_shr(&Mac::REG::from_u32(shamt)).sign_extend(&Mac::REG::from_u8(32));
    update_register(machine, rd, value);
}

// Jumps

/// Jumps to `pc + imm`, linking the address of the next instruction,
/// `pc + xbytes`, in `rd`.
pub fn jal<Mac: Machine>(machine: &mut Mac, rd: RegisterIndex, imm: SImmediate, xbytes: u8)
    ensures
        final(machine).spec_registers() == spec_write_register(
            old(machine).spec_registers(),
            rd as int,
            Mac::REG::spec_overflowing_add(old(machine).spec_pc(), Mac::REG::spec_from_u8(xbytes)),
        ),
        final(machine).spec_next_pc() == Mac::REG::spec_overflowing_add(
            old(machine).spec_pc(),
            Mac::REG::spec_from_i32(imm),
        ),
        final(machine).spec_pc() == old(machine).spec_pc(),
        final(machine).spec_memory() == old(machine).spec_memory(),
        final(machine).spec_version() == old(machine).spec_version(),
        final(machine).spec_isa() == old(machine).spec_isa(),
{
    let link: Mac::REG = machine.pc().overflowing_add(&Mac::REG::from_u8(xbytes));
    update_register(machine, rd, link);
    let target: Mac::REG = machine.pc().overflowing_add(&Mac::REG::from_i32(imm));
    machine.update_pc(target);
}

} // verus!
