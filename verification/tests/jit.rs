use ckb_vm::definitions::instructions as insts;
use ckb_vm::instructions::ast::Value;
use ckb_vm::instructions::{blank_instruction, set_instruction_length_4, Itype};
use ckb_vm::jit::emitter::RegisterAllocator;
use ckb_vm::jit::instructions::is_jitable_instruction;
use ckb_vm::jit::machine::{JitCompilingMachine, MemorySize, Write, REGISTER_PC};
use ckb_vm::jit::tracer::{DefaultTracer, TcgTracer, Tracer};
use ckb_vm::registers::A0;
use ckb_vm::RISCV_GENERAL_REGISTER_NUMBER;
use std::rc::Rc;

fn is_imm(v: &Value, x: u64) -> bool {
    matches!(v, Value::Imm(y) if *y == x)
}

fn is_reg(v: &Value, r: usize) -> bool {
    matches!(v, Value::Register(s) if *s == r)
}

#[test]
fn test_jit_constant_rules_hold_for_the_pc_slot() {
    assert_eq!(REGISTER_PC, RISCV_GENERAL_REGISTER_NUMBER);
}

#[test]
fn test_environment_instructions_are_not_jitable() {
    assert!(!is_jitable_instruction(blank_instruction(insts::OP_ECALL)));
    assert!(!is_jitable_instruction(blank_instruction(insts::OP_EBREAK)));
    let addi = set_instruction_length_4(Itype::new_s(insts::OP_ADDI, 1, 0, 5).0);
    assert!(is_jitable_instruction(addi));
}

#[test]
fn test_compiling_machine_starts_symbolic() {
    let m = JitCompilingMachine::new(0x1000);
    assert_eq!(m.registers().len(), 32);
    for i in 0..32 {
        assert!(is_reg(&m.registers()[i], i));
    }
    assert!(is_imm(m.pc(), 0x1000));
    assert!(m.writes().is_empty());
}

#[test]
fn test_later_immediate_pc_write_supersedes() {
    let mut m = JitCompilingMachine::new(0);
    m.set_pc(Value::Imm(4));
    m.set_pc(Value::Imm(8));
    assert_eq!(m.writes().len(), 1);
    assert!(matches!(&m.writes()[0], Write::Pc { value } if is_imm(value, 8)));
    m.set_pc(Value::Register(5));
    m.set_pc(Value::Imm(12));
    // A computed program counter is kept, the immediate one before it is not.
    assert_eq!(m.writes().len(), 2);
    assert!(matches!(&m.writes()[0], Write::Pc { value } if is_reg(value, 5)));
    assert!(is_imm(m.pc(), 12));
}

#[test]
fn test_register_writes_and_reads() {
    let mut m = JitCompilingMachine::new(0);
    m.set_register(3, Value::Imm(7));
    m.set_register(3, Value::Imm(9));
    m.set_register(4, Value::Imm(1));
    assert_eq!(m.writes().len(), 2);
    assert!(is_imm(&m.registers()[3], 9));
    let sum = Value::Register(1).overflowing_add(&Value::Register(2));
    m.set_register(5, sum);
    // A computed value is read back from its register.
    assert!(is_reg(&m.registers()[5], 5));
    assert_eq!(m.writes().len(), 3);
}

#[test]
fn test_memory_access_is_recorded() {
    let mut m = JitCompilingMachine::new(0);
    let loaded = m.load32(&Value::Register(2)).unwrap();
    assert!(matches!(&loaded, Value::Load(a, 4) if is_reg(a, 2)));
    assert!(m.writes().is_empty());
    m.store16(&Value::Imm(0x100), &Value::Register(6)).unwrap();
    assert_eq!(m.writes().len(), 1);
    assert!(matches!(
        &m.writes()[0],
        Write::Memory { address, size: MemorySize::HalfWord, value } if is_imm(address, 0x100) && is_reg(value, 6)
    ));
    assert_eq!(MemorySize::DoubleWord.bytes(), 8);
    assert_eq!(MemorySize::Byte.bytes(), 1);
}

#[test]
fn test_register_allocator_skips_avoided() {
    let mut a = RegisterAllocator::new_with_avoids(&[A0, A0 + 2]);
    assert_eq!(a.next(), Some(A0 + 1));
    assert_eq!(a.next(), Some(A0 + 3));
    let r2 = Value::Register(A0 + 4);
    let imm = Value::Imm(3);
    let mut b = RegisterAllocator::new_with_values(&[&r2, &imm]);
    assert_eq!(b.next(), Some(A0));
    assert_eq!(b.next(), Some(A0 + 1));
}

#[test]
fn test_register_allocator_runs_out() {
    let mut a = RegisterAllocator::new_with_avoids(&[]);
    let mut handed = vec![];
    while let Some(r) = a.next() {
        handed.push(r);
    }
    assert_eq!(handed.len(), RISCV_GENERAL_REGISTER_NUMBER - A0);
    assert_eq!(a.next(), None);
}

#[test]
fn test_tcg_tracer_compiles_jitable_blocks() {
    let mut t = TcgTracer::default();
    let addi = set_instruction_length_4(Itype::new_s(insts::OP_ADDI, 1, 0, 5).0);
    assert_eq!(t.should_jit(0, 4, &[addi, addi]), Ok(true));
    assert_eq!(t.should_jit(0, 8, &[addi, blank_instruction(insts::OP_ECALL)]), Ok(false));
    assert_eq!(t.trace(0), Ok(()));
    assert_eq!(t.clear(0), Ok(()));
}

#[test]
fn test_default_tracer_counts_runs() {
    let mut t = DefaultTracer::default();
    let block = vec![set_instruction_length_4(Itype::new_s(insts::OP_ADDI, 1, 0, 5).0); 11];
    for _ in 0..9 {
        t.trace(0x100).unwrap();
    }
    assert_eq!(t.should_jit(0x100, 44, &block), Ok(false));
    t.trace(0x100).unwrap();
    assert_eq!(t.should_jit(0x100, 44, &block), Ok(true));
    // Ten instructions are not enough.
    assert_eq!(t.should_jit(0x100, 40, &block[..10]), Ok(false));
    // Another block is counted on its own; the table is read for it.
    t.trace(0x200).unwrap();
    assert_eq!(t.should_jit(0x100, 44, &block), Ok(true));
    t.clear(0x100).unwrap();
    assert_eq!(t.should_jit(0x100, 44, &block), Ok(false));
}

#[test]
fn test_load_nodes_share_nothing_with_their_source() {
    let addr = Value::Imm(8);
    let mut m = JitCompilingMachine::new(0);
    let v = m.load64(&addr).unwrap();
    match v {
        Value::Load(a, 8) => assert!(is_imm(Rc::as_ref(&a), 8)),
        _ => panic!("expected a load"),
    }
}

#[test]
fn test_register_allocator_sequence() {
    let mut a = RegisterAllocator::new_with_avoids(&[A0, A0 + 1]);
    let mut handed = vec![];
    while let Some(r) = a.next() {
        handed.push(r);
    }
    let expected: Vec<usize> = (A0 + 2..RISCV_GENERAL_REGISTER_NUMBER).collect();
    assert_eq!(handed, expected);
    assert_eq!(a.next(), None);
    assert_eq!(a.next(), None);
}
