use ckb_vm::context::{ExecutionContext, ExecutionContextExt, Syscalls};
use ckb_vm::machine::{DefaultCoreMachine, VERSION1};
use ckb_vm::{CoreMachine, Error, FlatMemory, ISA_IMC};


type Mac = DefaultCoreMachine<u64, FlatMemory<u64, 16>>;

/// Handles call number 1 by writing 42 to a0.
struct Answer;

impl Syscalls<Mac> for Answer {
    fn initialize(&mut self, _machine: &mut Mac) -> Result<(), Error> {
        Ok(())
    }

    fn ecall(&mut self, machine: &mut Mac) -> Result<bool, Error> {
        if machine.registers()[17] == 1 {
            machine.set_register(10, 42);
            Ok(true)
        } else {
            Ok(false)
        }
    }
}

fn machine() -> Mac {
    DefaultCoreMachine::new_with_memory_value(ISA_IMC, VERSION1, None, FlatMemory::new())
}

#[test]
fn test_empty_context_declines() {
    let mut m = machine();
    let mut ctx = ();
    assert_eq!(ExecutionContext::<Mac>::ecall(&mut ctx, &mut m), Ok(false));
    assert_eq!(ExecutionContext::<Mac>::instruction_cycles(&ctx, 0), 0);
}

#[test]
fn test_with_syscall_handles_what_base_declines() {
    let mut m = machine();
    let mut ctx = ExecutionContextExt::<Mac>::with_syscall((), Answer);
    m.set_register(17, 1);
    assert_eq!(ctx.ecall(&mut m), Ok(true));
    assert_eq!(m.registers()[10], 42);
    m.set_register(17, 2);
    assert_eq!(ctx.ecall(&mut m), Ok(false));
}

#[test]
fn test_with_cycles_and_debugger() {
    let mut m = machine();
    let mut hits = 0;
    {
        let mut ctx = ExecutionContextExt::<Mac>::with_cycles((), |_i| 7)
            .with_debugger(|_m: &mut Mac| {
                hits += 1;
                Ok(())
            });
        assert_eq!(ctx.instruction_cycles(0), 7);
        assert_eq!(ctx.ebreak(&mut m), Ok(()));
        assert_eq!(ctx.ebreak(&mut m), Ok(()));
    }
    assert_eq!(hits, 2);
}
