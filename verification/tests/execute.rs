use ckb_vm::context::{ExecutionContext, ExecutionContextExt};
use ckb_vm::decoder::{build_decoder, fuse};
use ckb_vm::definitions::instructions as insts;
use ckb_vm::instructions::execute::execute;
use ckb_vm::instructions::{extract_opcode, set_instruction_length_4, Itype, Rtype, Stype, Utype};
use ckb_vm::machine::{DefaultCoreMachine, DefaultMachine, VERSION1};
use ckb_vm::{CoreMachine, Error, FlatMemory, Memory, ISA_IMC};

const MEMORY_BYTES: usize = 0x1000;

type Core = DefaultCoreMachine<u64, FlatMemory<u64, MEMORY_BYTES>>;

/// Counts the environment calls and breakpoints it sees, and handles every
/// call.
#[derive(Default)]
struct Counter {
    ecalls: u32,
    ebreaks: u32,
}

impl ExecutionContext<Core> for Counter {
    fn ecall(&mut self, _machine: &mut Core) -> Result<bool, Error> {
        self.ecalls += 1;
        Ok(true)
    }

    fn ebreak(&mut self, _machine: &mut Core) -> Result<(), Error> {
        self.ebreaks += 1;
        Ok(())
    }
}

fn new_machine() -> DefaultMachine<Core, Counter> {
    let core = DefaultCoreMachine::new_with_memory_value(ISA_IMC, VERSION1, None, FlatMemory::new());
    DefaultMachine::new(core, Counter::default())
}

fn itype(op: u16, rd: usize, rs1: usize, imm: i32) -> u64 {
    set_instruction_length_4(Itype::new_s(op, rd, rs1, imm).0)
}

fn rtype(op: u16, rd: usize, rs1: usize, rs2: usize) -> u64 {
    set_instruction_length_4(Rtype::new(op, rd, rs1, rs2).0)
}

fn stype(op: u16, imm: i32, rs1: usize, rs2: usize) -> u64 {
    set_instruction_length_4(Stype::new_s(op, imm, rs1, rs2).0)
}

#[test]
fn test_addi_writes_register_and_advances_pc() {
    let mut m = new_machine();
    execute(itype(insts::OP_ADDI, 1, 0, 5), &mut m).unwrap();
    assert_eq!(m.registers()[1], 5);
    assert_eq!(*m.pc(), 4);
    execute(itype(insts::OP_ADDI, 2, 1, -7), &mut m).unwrap();
    assert_eq!(m.registers()[2], (-2i64) as u64);
    assert_eq!(*m.pc(), 8);
}

#[test]
fn test_writes_to_x0_are_dropped() {
    let mut m = new_machine();
    execute(itype(insts::OP_ADDI, 0, 0, 123), &mut m).unwrap();
    assert_eq!(m.registers()[0], 0);
    assert_eq!(*m.pc(), 4);
}

#[test]
fn test_add_and_sub_wrap() {
    let mut m = new_machine();
    m.set_register(1, u64::MAX);
    m.set_register(2, 2);
    execute(rtype(insts::OP_ADD, 3, 1, 2), &mut m).unwrap();
    assert_eq!(m.registers()[3], 1);
    execute(rtype(insts::OP_SUB, 4, 2, 1), &mut m).unwrap();
    assert_eq!(m.registers()[4], 3);
}

#[test]
fn test_lui_loads_upper_immediate() {
    let mut m = new_machine();
    let inst = set_instruction_length_4(Utype::new_s(insts::OP_LUI, 5, 0x12345000).0);
    execute(inst, &mut m).unwrap();
    assert_eq!(m.registers()[5], 0x12345000);
}

#[test]
fn test_store_then_load_reads_back() {
    let mut m = new_machine();
    m.set_register(1, 0x100);
    m.set_register(2, 0x1122_3344_5566_7788);
    execute(stype(insts::OP_SD, 8, 1, 2), &mut m).unwrap();
    execute(itype(insts::OP_LD_VERSION1, 3, 1, 8), &mut m).unwrap();
    assert_eq!(m.registers()[3], 0x1122_3344_5566_7788);
    assert_eq!(*m.pc(), 8);
}

#[test]
fn test_load_out_of_memory_fails() {
    let mut m = new_machine();
    m.set_register(1, MEMORY_BYTES as u64);
    let r = execute(itype(insts::OP_LD_VERSION1, 3, 1, 0), &mut m);
    assert!(matches!(r, Err(Error::MemOutOfBound(_, _))));
}

#[test]
fn test_beq_taken_and_not_taken() {
    let mut m = new_machine();
    m.set_register(1, 7);
    m.set_register(2, 7);
    execute(stype(insts::OP_BEQ, 16, 1, 2), &mut m).unwrap();
    assert_eq!(*m.pc(), 16);
    m.set_register(2, 8);
    execute(stype(insts::OP_BEQ, 16, 1, 2), &mut m).unwrap();
    assert_eq!(*m.pc(), 20);
}

#[test]
fn test_division_by_zero() {
    let mut m = new_machine();
    m.set_register(1, 42);
    execute(rtype(insts::OP_DIVU, 3, 1, 0), &mut m).unwrap();
    assert_eq!(m.registers()[3], u64::MAX);
    execute(rtype(insts::OP_REMU, 4, 1, 0), &mut m).unwrap();
    assert_eq!(m.registers()[4], 42);
}

#[test]
fn test_jal_links_and_jumps() {
    let mut m = new_machine();
    let inst = set_instruction_length_4(Utype::new_s(insts::OP_JAL, 1, 0x40).0);
    execute(inst, &mut m).unwrap();
    assert_eq!(m.registers()[1], 4);
    assert_eq!(*m.pc(), 0x40);
}

#[test]
fn test_ecall_exit_stops_machine() {
    let mut m = new_machine();
    m.set_running(true);
    m.set_register(17, 93);
    m.set_register(10, 3);
    let inst = set_instruction_length_4(ckb_vm::instructions::blank_instruction(insts::OP_ECALL));
    execute(inst, &mut m).unwrap();
    assert!(!m.running());
    assert_eq!(m.exit_code(), 3);
    assert_eq!(*m.pc(), 4);
}

#[test]
fn test_ecall_goes_to_context() {
    let mut m = new_machine();
    m.set_running(true);
    m.set_register(17, 5);
    let inst = set_instruction_length_4(ckb_vm::instructions::blank_instruction(insts::OP_ECALL));
    assert_eq!(execute(inst, &mut m), Ok(()));
    assert!(m.running());
    // A context that handles nothing leaves the call invalid.
    let core = DefaultCoreMachine::<u64, FlatMemory<u64, MEMORY_BYTES>>::new_with_memory_value(
        ISA_IMC,
        VERSION1,
        None,
        FlatMemory::new(),
    );
    let mut bare = DefaultMachine::new(core, ());
    bare.set_register(17, 5);
    assert_eq!(execute(inst, &mut bare), Err(Error::InvalidEcall(5)));
}

#[test]
fn test_ebreak_goes_to_context() {
    let mut m = new_machine();
    let inst = set_instruction_length_4(ckb_vm::instructions::blank_instruction(insts::OP_EBREAK));
    assert_eq!(execute(inst, &mut m), Ok(()));
    assert_eq!(*m.pc(), 4);
}

#[test]
fn test_unloaded_instruction_is_refused() {
    let mut m = new_machine();
    let inst = set_instruction_length_4(ckb_vm::instructions::blank_instruction(insts::OP_UNLOADED));
    let r = execute(inst, &mut m);
    assert!(r.is_err());
}

#[test]
fn test_step_decodes_executes_and_charges() {
    let mut memory = FlatMemory::<u64, MEMORY_BYTES>::new();
    // c.li x1, 5 ; c.addi x1, 3
    memory.store16(&0, &0x4095).unwrap();
    memory.store16(&2, &0x008d).unwrap();
    let core = DefaultCoreMachine::new_with_memory_value(ISA_IMC, VERSION1, Some(10), memory);
    let context = ExecutionContextExt::<Core>::with_cycles((), |_| 1);
    let mut m = DefaultMachine::new(core, context);
    let decoder = build_decoder::<u64>(ISA_IMC, VERSION1);
    m.step(&decoder).unwrap();
    assert_eq!(m.registers()[1], 5);
    assert_eq!(*m.pc(), 2);
    m.step(&decoder).unwrap();
    assert_eq!(m.registers()[1], 8);
    assert_eq!(*m.pc(), 4);
    assert_eq!(m.inner().cycles(), 2);
    // Zero bytes are no instruction; nothing changes.
    assert_eq!(
        m.step(&decoder),
        Err(Error::InvalidInstruction { pc: 4, instruction: 0 })
    );
    assert_eq!(*m.pc(), 4);
    assert_eq!(m.inner().cycles(), 2);
}

#[test]
fn test_machine_text() {
    let mut m = new_machine();
    m.set_register(1, 0xabc);
    m.update_pc(0x1000);
    m.commit_pc();
    let text = m.to_string();
    let lines: Vec<&str> = text.lines().collect();
    assert_eq!(lines.len(), 9);
    assert_eq!(lines[0], "pc  : 0x            1000");
    assert_eq!(
        lines[1],
        "zero: 0x               0 ra  : 0x             ABC sp  : 0x               0 gp  : 0x               0"
    );
    assert!(lines[7].starts_with("s8  : 0x"));
    assert!(lines[7].contains("s10 : 0x"));
    assert!(text.ends_with('\n'));
}

/// Runs `pair` in turn on one machine and `fused` on another, both starting
/// from the same registers, and checks that they end alike.
fn check_fused_runs_as_pair(pair: [u64; 2], fused: u64, setup: &[(usize, u64)]) {
    let mut one = new_machine();
    let mut two = new_machine();
    for (r, v) in setup {
        one.set_register(*r, *v);
        two.set_register(*r, *v);
    }
    execute(pair[0], &mut one).unwrap();
    execute(pair[1], &mut one).unwrap();
    execute(fused, &mut two).unwrap();
    assert_eq!(*one.pc(), *two.pc());
    assert_eq!(one.registers(), two.registers());
}

#[test]
fn test_fused_far_jump_runs_as_pair() {
    let lui = set_instruction_length_4(Utype::new_s(insts::OP_LUI, 1, 0x12345000).0);
    let jalr = itype(insts::OP_JALR_VERSION1, 1, 1, 8);
    let fused = fuse(lui, Some(jalr));
    assert_eq!(extract_opcode(fused), insts::OP_FAR_JUMP_ABS);
    check_fused_runs_as_pair([lui, jalr], fused, &[]);
    let auipc = set_instruction_length_4(Utype::new_s(insts::OP_AUIPC, 1, 0x2000).0);
    let jalr_back = itype(insts::OP_JALR_VERSION1, 1, 1, -12);
    let fused = fuse(auipc, Some(jalr_back));
    assert_eq!(extract_opcode(fused), insts::OP_FAR_JUMP_REL);
    check_fused_runs_as_pair([auipc, jalr_back], fused, &[]);
}

#[test]
fn test_far_jump_through_other_register_is_not_fused() {
    // lui x5, U; jalr ra, 8(x5): x5 must keep U, so the pair stays apart.
    let lui = set_instruction_length_4(Utype::new_s(insts::OP_LUI, 5, 0x12345000).0);
    let jalr = itype(insts::OP_JALR_VERSION1, 1, 5, 8);
    assert_eq!(fuse(lui, Some(jalr)), lui);
    // lui x0, U; jalr ra, 8(x0) jumps to 8, not to U + 8.
    let lui0 = set_instruction_length_4(Utype::new_s(insts::OP_LUI, 0, 0x12345000).0);
    let jalr0 = itype(insts::OP_JALR_VERSION1, 1, 0, 8);
    assert_eq!(fuse(lui0, Some(jalr0)), lui0);
    // Immediates whose 32 bit sum wraps are not fused either.
    let low = set_instruction_length_4(Utype::new_s(insts::OP_LUI, 1, i32::MIN).0);
    let down = itype(insts::OP_JALR_VERSION1, 1, 1, -4);
    assert_eq!(fuse(low, Some(down)), low);
}

#[test]
fn test_fused_wide_operations_run_as_pairs() {
    let setup = [(1usize, 0xffff_ffff_0000_0007u64), (2usize, 0x1234_5678_9abc_def0u64)];
    let pairs = [
        (insts::OP_MULH, insts::OP_MUL, insts::OP_WIDE_MUL),
        (insts::OP_MULHU, insts::OP_MUL, insts::OP_WIDE_MULU),
        (insts::OP_MULHSU, insts::OP_MUL, insts::OP_WIDE_MULSU),
        (insts::OP_DIV, insts::OP_REM, insts::OP_WIDE_DIV),
        (insts::OP_DIVU, insts::OP_REMU, insts::OP_WIDE_DIVU),
    ];
    for (high, low, wide) in pairs {
        let head = rtype(high, 3, 1, 2);
        let next = rtype(low, 4, 1, 2);
        let fused = fuse(head, Some(next));
        assert_eq!(extract_opcode(fused), wide);
        check_fused_runs_as_pair([head, next], fused, &setup);
    }
}

#[test]
fn test_fused_constant_load_runs_as_pair() {
    let lui = set_instruction_length_4(Utype::new_s(insts::OP_LUI, 7, 0x7ffff000).0);
    let addiw = itype(insts::OP_ADDIW, 7, 7, 0x7ff);
    let fused = fuse(lui, Some(addiw));
    assert_eq!(extract_opcode(fused), insts::OP_CUSTOM_LOAD_IMM);
    check_fused_runs_as_pair([lui, addiw], fused, &[]);
}

#[test]
fn test_step_past_the_limit_counts_then_fails() {
    let mut memory = FlatMemory::<u64, MEMORY_BYTES>::new();
    // c.li x1, 5 ; c.addi x1, 3
    memory.store16(&0, &0x4095).unwrap();
    memory.store16(&2, &0x008d).unwrap();
    let core = DefaultCoreMachine::new_with_memory_value(ISA_IMC, VERSION1, Some(5), memory);
    let context = ExecutionContextExt::<Core>::with_cycles((), |_| 3);
    let mut m = DefaultMachine::new(core, context);
    let decoder = build_decoder::<u64>(ISA_IMC, VERSION1);
    assert_eq!(m.step(&decoder), Ok(()));
    assert_eq!(m.inner().cycles(), 3);
    assert_eq!(m.step(&decoder), Err(Error::CyclesExceeded));
    assert_eq!(m.registers()[1], 8);
    assert_eq!(m.inner().cycles(), 6);
}

#[test]
fn test_step_runs_full_size_instructions() {
    let mut memory = FlatMemory::<u64, MEMORY_BYTES>::new();
    // addi x1, x0, 5 ; addi x2, x1, 1
    memory.store32(&0, &0x0050_0093).unwrap();
    memory.store32(&4, &0x0010_8113).unwrap();
    let core = DefaultCoreMachine::new_with_memory_value(ISA_IMC, VERSION1, None, memory);
    let mut m = DefaultMachine::new(core, ());
    let decoder = build_decoder::<u64>(ISA_IMC, VERSION1);
    m.step(&decoder).unwrap();
    assert_eq!(*m.pc(), 4);
    m.step(&decoder).unwrap();
    assert_eq!(*m.pc(), 8);
    assert_eq!(m.registers()[2], 6);
}

/// Answers every environment call with an error of its own.
struct Failing;

impl ExecutionContext<Core> for Failing {
    fn ecall(&mut self, _machine: &mut Core) -> Result<bool, Error> {
        Err(Error::External("refused".to_string()))
    }

    fn ebreak(&mut self, _machine: &mut Core) -> Result<(), Error> {
        Err(Error::Unexpected("break".to_string()))
    }
}

#[test]
fn test_context_errors_are_passed_on() {
    let core = DefaultCoreMachine::new_with_memory_value(ISA_IMC, VERSION1, None, FlatMemory::new());
    let mut m = DefaultMachine::new(core, Failing);
    m.set_register(17, 5);
    let ecall = set_instruction_length_4(ckb_vm::instructions::blank_instruction(insts::OP_ECALL));
    assert_eq!(execute(ecall, &mut m), Err(Error::External("refused".to_string())));
    let ebreak = set_instruction_length_4(ckb_vm::instructions::blank_instruction(insts::OP_EBREAK));
    assert_eq!(execute(ebreak, &mut m), Err(Error::Unexpected("break".to_string())));
    // Call number 93 never reaches the context.
    m.set_register(17, 93);
    m.set_register(10, 7);
    assert_eq!(execute(ecall, &mut m), Ok(()));
    assert_eq!(m.exit_code(), 7);
}
