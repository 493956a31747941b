//! Execution contexts: what a machine consults on environment calls,
//! breakpoints and for the cost of each instruction, and the combinators
//! that layer one context over another.
use vstd::prelude::*;
use crate::error::Error;
use crate::instructions::Instruction;
use crate::machine::CoreMachine;

verus! {

/// A handler of environment calls, written by the embedder.
pub trait Syscalls<Mac: CoreMachine> {
    fn initialize(&mut self, machine: &mut Mac) -> Result<(), Error>;

    /// What an environment call may do: from handler `self` and machine
    /// `machine` to result `r`, handler `new_self` and machine `new_machine`.
    /// A handler that does not state it claims nothing of its calls.
    open spec fn ecall_outcome(
        &self,
        machine: &Mac,
        r: Result<bool, Error>,
        new_self: &Self,
        new_machine: &Mac,
    ) -> bool {
        true
    }

    /// Whether the call was handled; an unhandled call goes on to the next
    /// handler.
    fn ecall(&mut self, machine: &mut Mac) -> (r: Result<bool, Error>)
        ensures
            old(self).ecall_outcome(&*old(machine), r, &*final(self), &*final(machine)),
    ;
}

/// What a running machine consults. `initialize` by default does nothing
/// and `instruction_cycles` charges nothing; `ecall` and `ebreak` are each
/// context's own, with the outcome it states.
pub trait ExecutionContext<Mac: CoreMachine> {
    fn initialize(&mut self, machine: &mut Mac) -> (r: Result<(), Error>)
        default_ensures
            r is Ok,
    {
        Ok(())
    }

    /// What an environment call may do: from context `self` and machine
    /// `machine` to result `r`, context `new_self` and machine
    /// `new_machine`. A context that does not state it claims nothing of its
    /// calls.
    open spec fn ecall_outcome(
        &self,
        machine: &Mac,
        r: Result<bool, Error>,
        new_self: &Self,
        new_machine: &Mac,
    ) -> bool {
        true
    }

    /// Return true if the syscall has been processed. If a module returns
    /// false, Machine would continue to leverage the next syscall module to
    /// process.
    fn ecall(&mut self, machine: &mut Mac) -> (r: Result<bool, Error>)
        ensures
            old(self).ecall_outcome(&*old(machine), r, &*final(self), &*final(machine)),
    ;

    /// What a breakpoint may do: from context `self` and machine `machine`
    /// to result `r`, context `new_self` and machine `new_machine`. A
    /// context that does not state it claims nothing of its breakpoints.
    open spec fn ebreak_outcome(
        &self,
        machine: &Mac,
        r: Result<(), Error>,
        new_self: &Self,
        new_machine: &Mac,
    ) -> bool {
        true
    }

    fn ebreak(&mut self, machine: &mut Mac) -> (r: Result<(), Error>)
        ensures
            old(self).ebreak_outcome(&*old(machine), r, &*final(self), &*final(machine)),
    ;

    fn instruction_cycles(&self, inst: Instruction) -> (r: u64)
        default_ensures
            r == 0,
    {
        0
    }
}

/// The empty context.
impl<Mac: CoreMachine> ExecutionContext<Mac> for () {
    /// Every call is declined and nothing changes.
    open spec fn ecall_outcome(
        &self,
        machine: &Mac,
        r: Result<bool, Error>,
        new_self: &Self,
        new_machine: &Mac,
    ) -> bool {
        &&& r == Ok::<bool, Error>(false)
        &&& *new_machine == *machine
    }

    fn ecall(&mut self, machine: &mut Mac) -> (r: Result<bool, Error>) {
        Ok(false)
    }

    /// Every breakpoint is let through and nothing changes.
    open spec fn ebreak_outcome(
        &self,
        machine: &Mac,
        r: Result<(), Error>,
        new_self: &Self,
        new_machine: &Mac,
    ) -> bool {
        &&& r is Ok
        &&& *new_machine == *machine
    }

    fn ebreak(&mut self, machine: &mut Mac) -> (r: Result<(), Error>) {
        Ok(())
    }
}

/// A context extended with a handler of environment calls, which sees each
/// call the base context declines.
pub struct WithSyscall<Ctx, Sys> {
    pub base: Ctx,
    pub syscall: Sys,
}

impl<Ctx, Sys, Mac> ExecutionContext<Mac> for WithSyscall<Ctx, Sys> where
    Mac: CoreMachine,
    Ctx: ExecutionContext<Mac>,
    Sys: Syscalls<Mac>,
 {
    /// The base context sees the call first; an error or a handled call
    /// ends it there, and a declined call goes to the handler.
    open spec fn ecall_outcome(
        &self,
        machine: &Mac,
        r: Result<bool, Error>,
        new_self: &Self,
        new_machine: &Mac,
    ) -> bool {
        exists|base_r: Result<bool, Error>, mid: Mac|
            {
                &&& #[trigger] self.base.ecall_outcome(machine, base_r, &new_self.base, &mid)
                &&& if base_r == Ok::<bool, Error>(false) {
                    self.syscall.ecall_outcome(&mid, r, &new_self.syscall, new_machine)
                } else {
                    &&& r == base_r
                    &&& new_self.syscall == self.syscall
                    &&& *new_machine == mid
                }
            }
    }

    fn initialize(&mut self, machine: &mut Mac) -> Result<(), Error> {
        self.base.initialize(machine)?;
        self.syscall.initialize(machine)
    }

    fn ecall(&mut self, machine: &mut Mac) -> Result<bool, Error> {
        let ghost start_self = *self;
        let ghost start_machine = *machine;
        let base_r = self.base.ecall(machine);
        let ghost mid_base = self.base;
        let ghost mid_machine = *machine;
        match base_r {
            Ok(false) => {
                let r = self.syscall.ecall(machine);
                assert(start_self.base.ecall_outcome(
                    &start_machine,
                    base_r,
                    &self.base,
                    &mid_machine,
                ));
                r
            },
            _ => {
                assert(start_self.base.ecall_outcome(
                    &start_machine,
                    base_r,
                    &self.base,
                    &mid_machine,
                ));
                base_r
            },
        }
    }

    /// Breakpoints go to the base context alone.
    open spec fn ebreak_outcome(
        &self,
        machine: &Mac,
        r: Result<(), Error>,
        new_self: &Self,
        new_machine: &Mac,
    ) -> bool {
        &&& self.base.ebreak_outcome(machine, r, &new_self.base, new_machine)
        &&& new_self.syscall == self.syscall
    }

    fn ebreak(&mut self, machine: &mut Mac) -> Result<(), Error> {
        self.base.ebreak(machine)
    }

    fn instruction_cycles(&self, inst: Instruction) -> u64 {
        self.base.instruction_cycles(inst)
    }
}

/// Hands a breakpoint to the embedder's debugger closure.
///
/// Calls the closure through `FnMut`; nothing is claimed of what it does to
/// the machine or returns, and it is taken to accept every machine.
#[verifier::external_body]
fn call_debugger<Mac, F: FnMut(&mut Mac) -> Result<(), Error>>(
    debugger: &mut F,
    machine: &mut Mac,
) -> Result<(), Error> {
    debugger(machine)
}

/// Asks the embedder's cost closure for the cycles of `inst`.
///
/// Calls the closure through `Fn`; nothing is claimed of the number it
/// returns, and it is taken to accept every instruction.
#[verifier::external_body]
fn call_cycles<F: Fn(Instruction) -> u64>(cycles: &F, inst: Instruction) -> u64 {
    cycles(inst)
}

/// A context whose breakpoints go to a debugger.
pub struct WithDebugger<Ctx, F> {
    pub base: Ctx,
    pub debugger: F,
}


impl<Ctx, F, Mac> ExecutionContext<Mac> for WithDebugger<Ctx, F> where
    Mac: CoreMachine,
    Ctx: ExecutionContext<Mac>,
    F: FnMut(&mut Mac) -> Result<(), Error>,
 {
    /// Environment calls go to the base context alone.
    open spec fn ecall_outcome(
        &self,
        machine: &Mac,
        r: Result<bool, Error>,
        new_self: &Self,
        new_machine: &Mac,
    ) -> bool {
        &&& self.base.ecall_outcome(machine, r, &new_self.base, new_machine)
        &&& new_self.debugger == self.debugger
    }

    fn initialize(&mut self, machine: &mut Mac) -> Result<(), Error> {
        self.base.initialize(machine)
    }

    fn ecall(&mut self, machine: &mut Mac) -> Result<bool, Error> {
        self.base.ecall(machine)
    }

    /// Breakpoints go to the debugger, which sees the machine alone: the
    /// base context stays as it was, and nothing more is claimed.
    open spec fn ebreak_outcome(
        &self,
        machine: &Mac,
        r: Result<(), Error>,
        new_self: &Self,
        new_machine: &Mac,
    ) -> bool {
        new_self.base == self.base
    }

    fn ebreak(&mut self, machine: &mut Mac) -> Result<(), Error> {
        call_debugger(&mut self.debugger, machine)
    }

    fn instruction_cycles(&self, inst: Instruction) -> u64 {
        self.base.instruction_cycles(inst)
    }
}

/// A context whose instruction costs come from a function.
pub struct WithCyclesFunc<Ctx, F> {
    pub base: Ctx,
    pub cycles: F,
}

impl<Ctx, F, Mac> ExecutionContext<Mac> for WithCyclesFunc<Ctx, F> where
    Mac: CoreMachine,
    Ctx: ExecutionContext<Mac>,
    F: Fn(Instruction) -> u64,
 {
    /// Environment calls go to the base context alone.
    open spec fn ecall_outcome(
        &self,
        machine: &Mac,
        r: Result<bool, Error>,
        new_self: &Self,
        new_machine: &Mac,
    ) -> bool {
        &&& self.base.ecall_outcome(machine, r, &new_self.base, new_machine)
        &&& new_self.cycles == self.cycles
    }

    fn initialize(&mut self, machine: &mut Mac) -> Result<(), Error> {
        self.base.initialize(machine)
    }

    fn ecall(&mut self, machine: &mut Mac) -> Result<bool, Error> {
        self.base.ecall(machine)
    }

    /// Breakpoints go to the base context alone.
    open spec fn ebreak_outcome(
        &self,
        machine: &Mac,
        r: Result<(), Error>,
        new_self: &Self,
        new_machine: &Mac,
    ) -> bool {
        &&& self.base.ebreak_outcome(machine, r, &new_self.base, new_machine)
        &&& new_self.cycles == self.cycles
    }

    fn ebreak(&mut self, machine: &mut Mac) -> Result<(), Error> {
        self.base.ebreak(machine)
    }

    fn instruction_cycles(&self, inst: Instruction) -> u64 {
        call_cycles(&self.cycles, inst)
    }
}

/// ExecutionContext composing.
pub trait ExecutionContextExt<Mac: CoreMachine>: ExecutionContext<Mac> + Sized {
    /// Add a syscall handler to the this context.
    fn with_syscall<Sys: Syscalls<Mac>>(self, syscall: Sys) -> (r: WithSyscall<Self, Sys>)
        ensures
            r.base == self && r.syscall == syscall,
    {
        WithSyscall { base: self, syscall }
    }

    /// Replace the debugger.
    fn with_debugger<F: FnMut(&mut Mac) -> Result<(), Error>>(self, debugger: F) -> (r: WithDebugger<
        Self,
        F,
    >)
        ensures
            r.base == self && r.debugger == debugger,
    {
        WithDebugger { base: self, debugger }
    }

    /// Replace the instruction cycles function.
    fn with_cycles<F: Fn(Instruction) -> u64>(self, cycles: F) -> (r: WithCyclesFunc<Self, F>)
        ensures
            r.base == self && r.cycles == cycles,
    {
        WithCyclesFunc { base: self, cycles }
    }
}

impl<Mac: CoreMachine, T: ExecutionContext<Mac>> ExecutionContextExt<Mac> for T {
}

} // verus!
