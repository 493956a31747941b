use ckb_vm::instructions::{c, rv32i, rv32m};
use ckb_vm::machine::{DefaultCoreMachine, DefaultMachine, VERSION0};
use ckb_vm::{CoreMachine, FlatMemory, ISA_IMC};

type Core32 = DefaultCoreMachine<u32, FlatMemory<u32, 256>>;

fn machine() -> DefaultMachine<Core32, ()> {
    let core = DefaultCoreMachine::new_with_memory_value(ISA_IMC, VERSION0, None, FlatMemory::new());
    DefaultMachine::new(core, ())
}

#[test]
fn test_rv32i_decode_addi() {
    let inst = rv32i::factory(0x0050_0093).unwrap();
    assert_eq!(
        inst,
        rv32i::Instruction::I(rv32i::Itype {
            rd: 1,
            rs1: 0,
            imm: 5,
            inst: rv32i::ItypeInstruction::ADDI
        })
    );
    assert!(rv32i::factory(0xffff_ffff).is_none());
}

#[test]
fn test_rv32i_execute_addi_and_branch() {
    let mut m = machine();
    rv32i::factory(0x0050_0093).unwrap().execute(&mut m).unwrap();
    assert_eq!(m.registers()[1], 5);
    assert_eq!(*m.pc(), 4);
    // beq x1, x1, 8
    let beq = rv32i::Instruction::B(rv32i::Btype {
        rs1: 1,
        rs2: 1,
        imm: 8,
        inst: rv32i::BtypeInstruction::BEQ,
    });
    beq.execute(&mut m).unwrap();
    assert_eq!(*m.pc(), 12);
}

#[test]
fn test_rv32i_store_and_load_word() {
    let mut m = machine();
    m.set_register(1, 0x40);
    m.set_register(2, 0xdead_beef);
    let sw = rv32i::Instruction::S(rv32i::Stype {
        rs1: 1,
        rs2: 2,
        imm: 4,
        inst: rv32i::StypeInstruction::SW,
    });
    sw.execute(&mut m).unwrap();
    let lw = rv32i::Instruction::I(rv32i::Itype {
        rd: 3,
        rs1: 1,
        imm: 4,
        inst: rv32i::ItypeInstruction::LW,
    });
    lw.execute(&mut m).unwrap();
    assert_eq!(m.registers()[3], 0xdead_beef);
    assert_eq!(*m.pc(), 8);
}

#[test]
fn test_rv32m_decode_and_execute_mul() {
    // mul x3, x1, x2
    let inst = rv32m::factory(0x0220_81B3).unwrap();
    assert_eq!(inst.0.inst, rv32m::RtypeInstruction::MUL);
    assert_eq!((inst.0.rd, inst.0.rs1, inst.0.rs2), (3, 1, 2));
    let mut m = machine();
    m.set_register(1, 0x1_0001);
    m.set_register(2, 0x1_0001);
    inst.execute(&mut m).unwrap();
    assert_eq!(m.registers()[3], 0x0002_0001);
    assert_eq!(*m.pc(), 4);
}

#[test]
fn test_compressed_li() {
    let inst = c::factory(0x4095).unwrap();
    assert_eq!(inst, c::Instruction::LI { rd: 1, imm: 5 });
    let mut m = machine();
    inst.execute(&mut m).unwrap();
    assert_eq!(m.registers()[1], 5);
    assert_eq!(*m.pc(), 2);
}
