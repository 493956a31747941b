use ckb_vm::machine::{DefaultCoreMachine, VERSION0, VERSION2};
use ckb_vm::{CoreMachine, Error, FlatMemory, ISA_IMC};


fn machine(max: Option<u64>) -> DefaultCoreMachine<u64, FlatMemory<u64, 16>> {
    DefaultCoreMachine::new_with_memory_value(ISA_IMC, VERSION2, max, FlatMemory::new())
}

#[test]
fn test_add_cycles_counts() {
    let mut m = machine(Some(100));
    assert_eq!(m.add_cycles(40), Ok(()));
    assert_eq!(m.add_cycles(60), Ok(()));
    assert_eq!(m.cycles(), 100);
    assert_eq!(m.add_cycles(1), Err(Error::CyclesExceeded));
    assert_eq!(m.cycles(), 101);
}

#[test]
fn test_add_cycles_overflow() {
    let mut m = machine(None);
    assert_eq!(m.add_cycles(u64::MAX), Ok(()));
    assert_eq!(m.add_cycles(1), Err(Error::CyclesOverflow));
    assert_eq!(m.cycles(), u64::MAX);
}

#[test]
fn test_new_machine_state() {
    let mut m = machine(Some(5));
    assert_eq!(*m.pc(), 0);
    assert!(m.registers().iter().all(|r| *r == 0));
    assert_eq!(m.registers().len(), 32);
    assert_eq!(m.version(), VERSION2);
    assert_eq!(m.isa(), ISA_IMC);
    assert_eq!(m.max_cycles(), Some(5));
    m.set_elf_end(0x4000);
    assert_eq!(m.elf_end(), 0x4000);
    m.set_register(3, 9);
    assert_eq!(m.registers()[3], 9);
    m.update_pc(8);
    assert_eq!(*m.pc(), 0);
    m.commit_pc();
    assert_eq!(*m.pc(), 8);
    let _ = VERSION0;
}
