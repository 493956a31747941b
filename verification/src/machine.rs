//! The abstract machine that instructions execute on, and its default
//! implementation.
use vstd::prelude::*;
use crate::context::ExecutionContext;
use crate::decoded::lemma_decode_executable;
use crate::decoder::Decoder;
use crate::instructions::display::{append_padded_abi_name, hex16, spec_hex16, spec_padded_abi_name};
use vstd::string::StringExecFns;
use crate::instructions::execute::{execute, spec_execute};
use crate::definitions::registers::{A0, A7};
use crate::definitions::ISA_IMC;
use crate::error::Error;
use crate::instructions::register::Register;
use crate::memory::Memory;

verus! {

/// Behaviour of the first release.
pub const VERSION0: u32 = 0;
/// Loads and jumps get opcodes of their own, and compressed hints decode
/// to no-ops.
pub const VERSION1: u32 = 1;
pub const VERSION2: u32 = 2;
pub const VERSION3: u32 = 3;

/// The register file after `value` is written to `index` the way the
/// machine writes registers: the index wraps modulo 32, and writes to x0
/// are dropped, so that x0 always reads zero.
pub open spec fn spec_write_register<R>(regs: Seq<R>, index: int, value: R) -> Seq<R> {
    let i: int = index % 32;
    if i > 0 {
        regs.update(i, value)
    } else {
        regs
    }
}

/// The data part of a machine: its program counter, the address of the
/// next instruction, the general registers, the memory, and the version
/// and extension set it was made with.
pub trait CoreMachine: Sized {
    type REG: Register;
    type MEM: Memory<REG = Self::REG>;

    spec fn spec_pc(&self) -> Self::REG;

    spec fn spec_next_pc(&self) -> Self::REG;

    spec fn spec_registers(&self) -> Seq<Self::REG>;

    spec fn spec_memory(&self) -> Self::MEM;

    spec fn spec_version(&self) -> u32;

    spec fn spec_isa(&self) -> u8;

    /// What a system call may do on this machine, for a machine that runs
    /// them (see `Machine`): from `self` to result `r` and machine `new`. A
    /// machine that does not state it claims nothing of its system calls.
    open spec fn spec_ecall_outcome(&self, r: Result<(), Error>, new: &Self) -> bool {
        true
    }

    /// What a breakpoint may do on this machine, in the same way.
    open spec fn spec_ebreak_outcome(&self, r: Result<(), Error>, new: &Self) -> bool {
        true
    }

    /// A machine has 32 general registers.
    proof fn lemma_registers_len(&self)
        ensures
            self.spec_registers().len() == 32,
    ;

    fn pc(&self) -> (r: &Self::REG)
        ensures
            *r == self.spec_pc(),
    ;

    /// Sets the address of the next instruction, which takes effect at
    /// `commit_pc`.
    fn update_pc(&mut self, pc: Self::REG)
        ensures
            final(self).spec_next_pc() == pc,
            final(self).spec_pc() == old(self).spec_pc(),
            final(self).spec_registers() == old(self).spec_registers(),
            final(self).spec_memory() == old(self).spec_memory(),
            final(self).spec_version() == old(self).spec_version(),
            final(self).spec_isa() == old(self).spec_isa(),
    ;

    /// Moves the program counter to the address that `update_pc` set.
    fn commit_pc(&mut self)
        ensures
            final(self).spec_pc() == old(self).spec_next_pc(),
            final(self).spec_next_pc() == old(self).spec_next_pc(),
            final(self).spec_registers() == old(self).spec_registers(),
            final(self).spec_memory() == old(self).spec_memory(),
            final(self).spec_version() == old(self).spec_version(),
            final(self).spec_isa() == old(self).spec_isa(),
    ;

    fn memory(&self) -> (r: &Self::MEM)
        ensures
            *r == self.spec_memory(),
    ;

    /// The memory, to change in place; nothing else of the machine changes
    /// through it.
    fn memory_mut(&mut self) -> (r: &mut Self::MEM)
        ensures
            *r == old(self).spec_memory(),
            final(self).spec_memory() == *final(r),
            final(self).spec_pc() == old(self).spec_pc(),
            final(self).spec_next_pc() == old(self).spec_next_pc(),
            final(self).spec_registers() == old(self).spec_registers(),
            final(self).spec_version() == old(self).spec_version(),
            final(self).spec_isa() == old(self).spec_isa(),
    ;

    /// The 32 general registers.
    fn registers(&self) -> (r: &[Self::REG])
        ensures
            r@ == self.spec_registers(),
            r@.len() == 32,
    ;

    fn set_register(&mut self, idx: usize, value: Self::REG)
        requires
            idx < 32,
        ensures
            final(self).spec_registers() == old(self).spec_registers().update(idx as int, value),
            final(self).spec_pc() == old(self).spec_pc(),
            final(self).spec_next_pc() == old(self).spec_next_pc(),
            final(self).spec_memory() == old(self).spec_memory(),
            final(self).spec_version() == old(self).spec_version(),
            final(self).spec_isa() == old(self).spec_isa(),
    ;

    fn version(&self) -> (r: u32)
        ensures
            r == self.spec_version(),
    ;

    fn isa(&self) -> (r: u8)
        ensures
            r == self.spec_isa(),
    ;
}

/// `b` is `a` with at most its registers changed.
pub open spec fn only_registers_changed<M: CoreMachine>(a: M, b: M) -> bool {
    &&& b.spec_pc() == a.spec_pc()
    &&& b.spec_next_pc() == a.spec_next_pc()
    &&& b.spec_memory() == a.spec_memory()
    &&& b.spec_version() == a.spec_version()
    &&& b.spec_isa() == a.spec_isa()
}

/// `b` is `a` with at most its memory changed.
pub open spec fn only_memory_changed<M: CoreMachine>(a: M, b: M) -> bool {
    &&& b.spec_pc() == a.spec_pc()
    &&& b.spec_next_pc() == a.spec_next_pc()
    &&& b.spec_registers() == a.spec_registers()
    &&& b.spec_version() == a.spec_version()
    &&& b.spec_isa() == a.spec_isa()
}

/// `a` and `b` agree on everything that instructions read and write.
pub open spec fn same_machine_data<M: CoreMachine>(a: M, b: M) -> bool {
    &&& b.spec_pc() == a.spec_pc()
    &&& b.spec_next_pc() == a.spec_next_pc()
    &&& b.spec_registers() == a.spec_registers()
    &&& b.spec_memory() == a.spec_memory()
    &&& b.spec_version() == a.spec_version()
    &&& b.spec_isa() == a.spec_isa()
}

/// The value of register `i` of `m`.
pub open spec fn reg_of<M: CoreMachine>(m: M, i: usize) -> M::REG {
    m.spec_registers()[i as int]
}

/// `b` is `a` with `value` written to register `rd`, and nothing else
/// changed.
pub open spec fn wrote_register<M: CoreMachine>(a: M, b: M, rd: usize, value: M::REG) -> bool {
    &&& b.spec_registers() == spec_write_register(a.spec_registers(), rd as int, value)
    &&& only_registers_changed(a, b)
}

/// A machine that can also run system calls and breakpoints. What they do
/// is up to the implementation, which states it in `spec_ecall_outcome` and
/// `spec_ebreak_outcome`.
pub trait Machine: CoreMachine {
    fn ecall(&mut self) -> (r: Result<(), Error>)
        ensures
            old(self).spec_ecall_outcome(r, &*final(self)),
    ;

    fn ebreak(&mut self) -> (r: Result<(), Error>)
        ensures
            old(self).spec_ebreak_outcome(r, &*final(self)),
    ;
}

/// The plain data of a machine, over registers `R` and memory `M`.
#[verifier::reject_recursive_types(R)]
pub struct DefaultCoreMachine<R: Register, M: Memory<REG = R>> {
    registers: [R; 32],
    pc: R,
    next_pc: R,
    memory: M,
    elf_end: usize,
    cycles: u64,
    max_cycles: Option<u64>,
    isa: u8,
    version: u32,
}

impl<R: Register, M: Memory<REG = R>> CoreMachine for DefaultCoreMachine<R, M> {
    type REG = R;

    type MEM = M;

    closed spec fn spec_pc(&self) -> R {
        self.pc
    }

    closed spec fn spec_next_pc(&self) -> R {
        self.next_pc
    }

    closed spec fn spec_registers(&self) -> Seq<R> {
        self.registers@
    }

    closed spec fn spec_memory(&self) -> M {
        self.memory
    }

    closed spec fn spec_version(&self) -> u32 {
        self.version
    }

    closed spec fn spec_isa(&self) -> u8 {
        self.isa
    }

    proof fn lemma_registers_len(&self) {
    }

    fn pc(&self) -> &R {
        &self.pc
    }

    fn update_pc(&mut self, pc: R) {
        self.next_pc = pc;
    }

    fn commit_pc(&mut self) {
        self.pc = self.next_pc;
    }

    fn memory(&self) -> &M {
        &self.memory
    }

    fn memory_mut(&mut self) -> &mut M {
        &mut self.memory
    }

    fn registers(&self) -> &[R] {
        self.registers.as_slice()
    }

    fn set_register(&mut self, idx: usize, value: R) {
        self.registers[idx] = value;
    }

    fn version(&self) -> u32 {
        self.version
    }

    fn isa(&self) -> u8 {
        self.isa
    }
}

impl<R: Register, M: Memory<REG = R>> DefaultCoreMachine<R, M> {
    pub closed spec fn spec_elf_end(&self) -> usize {
        self.elf_end
    }

    pub closed spec fn spec_cycles(&self) -> u64 {
        self.cycles
    }

    pub closed spec fn spec_max_cycles(&self) -> Option<u64> {
        self.max_cycles
    }

    /// A machine with every register, the program counter and the cycle
    /// count at zero, and the given memory, limit, extensions and version.
    pub fn new_with_memory_value(isa: u8, version: u32, max_cycles: Option<u64>, memory: M) -> (r: Self)
        ensures
            r.spec_registers() == Seq::new(32, |_i: int| R::spec_zero()),
            r.spec_pc() == R::spec_zero(),
            r.spec_next_pc() == R::spec_zero(),
            r.spec_memory() == memory,
            r.spec_elf_end() == 0,
            r.spec_cycles() == 0,
            r.spec_max_cycles() == max_cycles,
            r.spec_isa() == isa,
            r.spec_version() == version,
    {
        let zero: R = R::zero();
        let registers: [R; 32] = [zero; 32];
        let r = DefaultCoreMachine {
            registers,
            pc: zero,
            next_pc: zero,
            memory,
            elf_end: 0,
            cycles: 0,
            max_cycles,
            isa,
            version,
        };
        assert(r.registers@ =~= Seq::new(32, |_i: int| R::spec_zero()));
        r
    }

    /// End address of the loaded ELF segments.
    pub fn elf_end(&self) -> (r: usize)
        ensures
            r == self.spec_elf_end(),
    {
        self.elf_end
    }

    pub fn set_elf_end(&mut self, elf_end: usize)
        ensures
            final(self).spec_elf_end() == elf_end,
            final(self).spec_cycles() == old(self).spec_cycles(),
            final(self).spec_max_cycles() == old(self).spec_max_cycles(),
            same_machine_data(*old(self), *final(self)),
    {
        self.elf_end = elf_end;
    }

    /// Cycles spent so far.
    pub fn cycles(&self) -> (r: u64)
        ensures
            r == self.spec_cycles(),
    {
        self.cycles
    }

    pub fn max_cycles(&self) -> (r: Option<u64>)
        ensures
            r == self.spec_max_cycles(),
    {
        self.max_cycles
    }

    /// Adds `cycles` to the count, then fails where the count has gone past
    /// the limit; fails, and counts nothing, where the sum does not fit in
    /// 64 bits.
    pub fn add_cycles(&mut self, cycles: u64) -> (r: Result<(), Error>)
        ensures
            spec_add_cycles(*old(self), cycles, *final(self), r),
    {
        let new_cycles: u64 = match self.cycles.checked_add(cycles) {
            Some(c) => c,
            None => {
                return Err(Error::CyclesOverflow);
            },
        };
        self.cycles = new_cycles;
        if let Some(m) = self.max_cycles {
            if new_cycles > m {
                return Err(Error::CyclesExceeded);
            }
        }
        Ok(())
    }
}

/// What charging `cycles` to `a` gives: `b` and the result `r`. A sum past
/// 64 bits is refused and changes nothing; otherwise the sum is the new
/// count, and the charge fails where it goes past the limit.
pub open spec fn spec_add_cycles<R: Register, M: Memory<REG = R>>(
    a: DefaultCoreMachine<R, M>,
    cycles: u64,
    b: DefaultCoreMachine<R, M>,
    r: Result<(), Error>,
) -> bool {
    if a.spec_cycles() + cycles > u64::MAX {
        r == Err::<(), Error>(Error::CyclesOverflow) && b == a
    } else {
        &&& b.spec_cycles() == a.spec_cycles() + cycles
        &&& b.spec_elf_end() == a.spec_elf_end()
        &&& b.spec_max_cycles() == a.spec_max_cycles()
        &&& same_machine_data(a, b)
        &&& r == match a.spec_max_cycles() {
            Some(m) if a.spec_cycles() + cycles > m => Err::<(), Error>(Error::CyclesExceeded),
            _ => Ok::<(), Error>(()),
        }
    }
}

impl<R: Register, M: Memory<REG = R> + Default> DefaultCoreMachine<R, M> {
    /// A zeroed machine of the first version, with the base extensions, the
    /// memory type's default value and a limit of `max_cycles`.
    pub fn new_with_max_cycles(max_cycles: u64) -> (r: Self)
        ensures
            r.spec_registers() == Seq::new(32, |_i: int| R::spec_zero()),
            r.spec_pc() == R::spec_zero(),
            r.spec_next_pc() == R::spec_zero(),
            r.spec_elf_end() == 0,
            r.spec_cycles() == 0,
            r.spec_max_cycles() == Some(max_cycles),
            r.spec_isa() == ISA_IMC,
            r.spec_version() == VERSION0,
            call_ensures(M::default, (), r.spec_memory()),
    {
        let memory: M = M::default();
        Self::new_with_memory_value(ISA_IMC, VERSION0, Some(max_cycles), memory)
    }

    /// A zeroed machine with the given extensions, version and limit, and
    /// the default memory.
    pub fn new(isa: u8, version: u32, max_cycles: u64) -> (r: Self)
        ensures
            r.spec_registers() == Seq::new(32, |_i: int| R::spec_zero()),
            r.spec_pc() == R::spec_zero(),
            r.spec_next_pc() == R::spec_zero(),
            r.spec_elf_end() == 0,
            r.spec_cycles() == 0,
            r.spec_max_cycles() == Some(max_cycles),
            r.spec_isa() == isa,
            r.spec_version() == version,
            call_ensures(M::default, (), r.spec_memory()),
    {
        let memory: M = M::default();
        Self::new_with_memory_value(isa, version, Some(max_cycles), memory)
    }
}

impl<R: Register, M: Memory<REG = R> + Default> Default for DefaultCoreMachine<R, M> {
    /// A zeroed machine of the first version with no cycle limit.
    fn default() -> (r: Self)
        ensures
            r.spec_registers() == Seq::new(32, |_i: int| R::spec_zero()),
            r.spec_pc() == R::spec_zero(),
            r.spec_next_pc() == R::spec_zero(),
            r.spec_elf_end() == 0,
            r.spec_cycles() == 0,
            r.spec_max_cycles() == None::<u64>,
            r.spec_isa() == ISA_IMC,
            r.spec_version() == VERSION0,
            call_ensures(M::default, (), r.spec_memory()),
    {
        let memory: M = M::default();
        Self::new_with_memory_value(ISA_IMC, VERSION0, None, memory)
    }
}


/// A machine that runs programs: a core machine, the execution context it
/// consults, and whether it is running and with what exit code it stopped.
pub struct DefaultMachine<Inner, Ctx> {
    inner: Inner,
    context: Ctx,
    running: bool,
    exit_code: u8,
}

impl<Inner: CoreMachine, Ctx> DefaultMachine<Inner, Ctx> {
    pub closed spec fn spec_inner(&self) -> Inner {
        self.inner
    }

    pub closed spec fn spec_context(&self) -> Ctx {
        self.context
    }

    pub closed spec fn spec_running(&self) -> bool {
        self.running
    }

    pub closed spec fn spec_exit_code(&self) -> u8 {
        self.exit_code
    }

    /// A stopped machine over `inner` that consults `context`.
    pub fn new(inner: Inner, context: Ctx) -> (r: Self)
        ensures
            r.spec_inner() == inner,
            r.spec_context() == context,
            !r.spec_running(),
            r.spec_exit_code() == 0,
    {
        DefaultMachine { inner, context, running: false, exit_code: 0 }
    }

    pub fn inner(&self) -> (r: &Inner)
        ensures
            *r == self.spec_inner(),
    {
        &self.inner
    }

    pub fn inner_mut(&mut self) -> (r: &mut Inner)
        ensures
            *r == old(self).spec_inner(),
            final(self).spec_inner() == *final(r),
            final(self).spec_context() == old(self).spec_context(),
            final(self).spec_running() == old(self).spec_running(),
            final(self).spec_exit_code() == old(self).spec_exit_code(),
    {
        &mut self.inner
    }

    pub fn running(&self) -> (r: bool)
        ensures
            r == self.spec_running(),
    {
        self.running
    }

    pub fn set_running(&mut self, running: bool)
        ensures
            final(self).spec_running() == running,
            final(self).spec_inner() == old(self).spec_inner(),
            final(self).spec_context() == old(self).spec_context(),
            final(self).spec_exit_code() == old(self).spec_exit_code(),
    {
        self.running = running;
    }

    pub fn exit_code(&self) -> (r: u8)
        ensures
            r == self.spec_exit_code(),
    {
        self.exit_code
    }

    /// Gives the core machine back.
    pub fn take_inner(self) -> (r: Inner)
        ensures
            r == self.spec_inner(),
    {
        self.inner
    }
}

impl<Inner: CoreMachine, Ctx: ExecutionContext<Inner>> CoreMachine for DefaultMachine<Inner, Ctx> {
    type REG = Inner::REG;

    type MEM = Inner::MEM;

    closed spec fn spec_pc(&self) -> Inner::REG {
        self.inner.spec_pc()
    }

    closed spec fn spec_next_pc(&self) -> Inner::REG {
        self.inner.spec_next_pc()
    }

    closed spec fn spec_registers(&self) -> Seq<Inner::REG> {
        self.inner.spec_registers()
    }

    closed spec fn spec_memory(&self) -> Inner::MEM {
        self.inner.spec_memory()
    }

    /// Call number 93 in a7 stops the machine with the low byte of a0 as
    /// its exit code. Any other call goes to the context: a call it handles
    /// succeeds, one it declines is an invalid call with that number, and
    /// its error is passed on.
    open spec fn spec_ecall_outcome(&self, r: Result<(), Error>, new: &Self) -> bool {
        let code = Inner::REG::spec_to_u64(self.spec_inner().spec_registers()[A7 as int]);
        if code == EXIT_SYSCALL_NUMBER {
            &&& r is Ok
            &&& !new.spec_running()
            &&& new.spec_exit_code() == Inner::REG::spec_to_u8(self.spec_inner().spec_registers()[A0 as int])
            &&& new.spec_inner() == self.spec_inner()
            &&& new.spec_context() == self.spec_context()
        } else {
            &&& new.spec_running() == self.spec_running()
            &&& new.spec_exit_code() == self.spec_exit_code()
            &&& exists|cr: Result<bool, Error>|
                {
                    &&& #[trigger] self.spec_context().ecall_outcome(
                        &self.spec_inner(),
                        cr,
                        &new.spec_context(),
                        &new.spec_inner(),
                    )
                    &&& r == match cr {
                        Ok(true) => Ok::<(), Error>(()),
                        Ok(false) => Err::<(), Error>(Error::InvalidEcall(code)),
                        Err(e) => Err::<(), Error>(e),
                    }
                }
        }
    }

    /// A breakpoint goes to the context, whose answer is the result.
    open spec fn spec_ebreak_outcome(&self, r: Result<(), Error>, new: &Self) -> bool {
        &&& new.spec_running() == self.spec_running()
        &&& new.spec_exit_code() == self.spec_exit_code()
        &&& self.spec_context().ebreak_outcome(&self.spec_inner(), r, &new.spec_context(), &new.spec_inner())
    }

    proof fn lemma_registers_len(&self) {
        self.inner.lemma_registers_len();
    }

    closed spec fn spec_version(&self) -> u32 {
        self.inner.spec_version()
    }

    closed spec fn spec_isa(&self) -> u8 {
        self.inner.spec_isa()
    }

    fn pc(&self) -> &Inner::REG {
        self.inner.pc()
    }

    fn update_pc(&mut self, pc: Inner::REG) {
        self.inner.update_pc(pc)
    }

    fn commit_pc(&mut self) {
        self.inner.commit_pc()
    }

    fn memory(&self) -> &Inner::MEM {
        self.inner.memory()
    }

    fn memory_mut(&mut self) -> &mut Inner::MEM {
        self.inner.memory_mut()
    }

    fn registers(&self) -> &[Inner::REG] {
        self.inner.registers()
    }

    fn set_register(&mut self, idx: usize, value: Inner::REG) {
        self.inner.set_register(idx, value)
    }

    fn version(&self) -> u32 {
        self.inner.version()
    }

    fn isa(&self) -> u8 {
        self.inner.isa()
    }
}

/// The environment call that stops the program, with the exit code in a0.
pub const EXIT_SYSCALL_NUMBER: u64 = 93;

impl<Inner: CoreMachine, Ctx: ExecutionContext<Inner>> Machine for DefaultMachine<Inner, Ctx> {
    /// Call number 93 in a7 stops the machine with the low byte of a0 as its
    /// exit code. Any other call goes to the context; one it does not handle
    /// is an invalid call.
    fn ecall(&mut self) -> (r: Result<(), Error>)
        ensures
            old(self).spec_ecall_outcome(r, &*final(self)),
    {
        let code: u64 = self.inner.registers()[A7].to_u64();
        if code == EXIT_SYSCALL_NUMBER {
            self.exit_code = self.inner.registers()[A0].to_u8();
            self.running = false;
            Ok(())
        } else {
            let ghost before = *self;
            let cr = self.context.ecall(&mut self.inner);
            assert(before.spec_context().ecall_outcome(
                &before.spec_inner(),
                cr,
                &self.spec_context(),
                &self.spec_inner(),
            ));
            match cr {
                Ok(true) => Ok(()),
                Ok(false) => Err(Error::InvalidEcall(code)),
                Err(e) => Err(e),
            }
        }
    }

    /// Breakpoints go to the context.
    fn ebreak(&mut self) -> (r: Result<(), Error>)
        ensures
            old(self).spec_ebreak_outcome(r, &*final(self)),
    {
        self.context.ebreak(&mut self.inner)
    }
}


/// What `decoder` decodes at the program counter of `m`.
pub open spec fn spec_decode_at<R: Register, M: CoreMachine<REG = R>>(decoder: Decoder<R>, m: M) -> Result<
    crate::instructions::Instruction,
    Error,
> {
    let pc: u64 = R::spec_to_u64(m.spec_pc());
    if decoder.spec_mop() {
        decoder.spec_decode_mop(m.spec_memory(), pc)
    } else {
        decoder.spec_decode_raw(m.spec_memory(), pc)
    }
}

impl<R: Register, M: Memory<REG = R>, Ctx: ExecutionContext<DefaultCoreMachine<R, M>>> DefaultMachine<
    DefaultCoreMachine<R, M>,
    Ctx,
> {
    /// Runs one instruction: decodes it at the program counter, executes
    /// it, then charges the cycles the context puts on it. A failed decode
    /// changes nothing; a failed execution is reported before any cycle is
    /// charged; a charge past the limit is counted, then reported.
    pub fn step(&mut self, decoder: &Decoder<R>) -> (r: Result<(), Error>)
        ensures
            match spec_decode_at(*decoder, *old(self)) {
                Err(e) => r == Err::<(), Error>(e) && *final(self) == *old(self),
                Ok(inst) => exists|mid: Self, done: Result<(), Error>|
                    {
                        &&& #[trigger] spec_execute(*old(self), mid, inst, done)
                        &&& match done {
                            Err(e) => r == Err::<(), Error>(e) && *final(self) == mid,
                            Ok(_) => exists|cycles: u64|
                                {
                                    &&& call_ensures(
                                        Ctx::instruction_cycles,
                                        (&mid.spec_context(), inst),
                                        cycles,
                                    )
                                    &&& #[trigger] spec_add_cycles(
                                        mid.spec_inner(),
                                        cycles,
                                        final(self).spec_inner(),
                                        r,
                                    )
                                    &&& final(self).spec_context() == mid.spec_context()
                                    &&& final(self).spec_running() == mid.spec_running()
                                    &&& final(self).spec_exit_code() == mid.spec_exit_code()
                                },
                        }
                    },
            },
    {
        let pc: u64 = self.inner.pc.to_u64();
        proof {
            lemma_decode_executable(*decoder, self.inner.memory, pc);
        }
        let instruction = match decoder.decode(&mut self.inner.memory, pc) {
            Ok(i) => i,
            Err(e) => {
                return Err(e);
            },
        };
        let ghost before = *self;
        let done = execute(instruction, self);
        let ghost mid = *self;
        assert(spec_execute(before, mid, instruction, done));
        if let Err(e) = done {
            return Err(e);
        }
        let cycles: u64 = self.context.instruction_cycles(instruction);
        let r = self.inner.add_cycles(cycles);
        assert(call_ensures(Ctx::instruction_cycles, (&mid.spec_context(), instruction), cycles));
        assert(spec_add_cycles(mid.spec_inner(), cycles, self.spec_inner(), r));
        assert(exists|c: u64|
            {
                &&& call_ensures(Ctx::instruction_cycles, (&mid.spec_context(), instruction), c)
                &&& #[trigger] spec_add_cycles(mid.spec_inner(), c, self.spec_inner(), r)
                &&& self.spec_context() == mid.spec_context()
                &&& self.spec_running() == mid.spec_running()
                &&& self.spec_exit_code() == mid.spec_exit_code()
            });
        r
    }
}


/// The line of register `i` of `regs`: its name, its value in hexadecimal,
/// and a line break after every fourth register.
pub open spec fn spec_register_text<R: Register>(regs: Seq<R>, i: nat) -> Seq<char> {
    spec_padded_abi_name(i as usize) + ": 0x"@ + spec_hex16(R::spec_to_u64(regs[i as int])) + (if (
    i + 1) % 4 == 0 {
        "\n"@
    } else {
        " "@
    })
}

/// The lines of the first `n` registers of `regs`.
pub open spec fn spec_registers_text<R: Register>(regs: Seq<R>, n: nat) -> Seq<char>
    decreases n,
{
    if n == 0 {
        Seq::empty()
    } else {
        spec_registers_text(regs, (n - 1) as nat) + spec_register_text(regs, (n - 1) as nat)
    }
}

/// The program counter, then the 32 registers four to a line.
pub open spec fn spec_machine_text<M: CoreMachine>(m: M) -> Seq<char> {
    "pc  : 0x"@ + spec_hex16(M::REG::spec_to_u64(m.spec_pc())) + "\n"@ + spec_registers_text(
        m.spec_registers(),
        32,
    )
}

impl<Inner: CoreMachine, Ctx: ExecutionContext<Inner>> DefaultMachine<Inner, Ctx> {
    /// The program counter and the registers, in hexadecimal.
    pub fn to_string(&self) -> (r: String)
        ensures
            r@ == spec_machine_text(*self),
    {
        let mut s = String::from_str("pc  : 0x");
        let pc_text = hex16(self.inner.pc().to_u64());
        s.append(pc_text.as_str());
        s.append("\n");
        let regs = self.inner.registers();
        let ghost head = s@;
        let mut i: usize = 0;
        while i < 32
            invariant
                i <= 32,
                regs@.len() == 32,
                regs@ == self.spec_registers(),
                s@ == head + spec_registers_text(regs@, i as nat),
            decreases 32 - i,
        {
            let ghost before = s@;
            append_padded_abi_name(&mut s, i);
            s.append(": 0x");
            let value_text = hex16(regs[i].to_u64());
            s.append(value_text.as_str());
            if (i + 1) % 4 == 0 {
                s.append("\n");
            } else {
                s.append(" ");
            }
            proof {
                assert(s@ =~= before + spec_register_text(regs@, i as nat));
            }
            i = i + 1;
        }
        s
    }
}

} // verus!
