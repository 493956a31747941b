//! The symbolic machine a basic block runs on before it is compiled: its
//! registers hold expressions, and each register, program counter or memory
//! update is recorded as a write to emit.
use std::rc::Rc;
use vstd::prelude::*;
use crate::error::Error;
use crate::instructions::ast::Value;

verus! {

/// The program counter is kept after the 32 general purpose registers.
pub const REGISTER_PC: usize = 32;

/// The width of a memory access.
#[derive(Debug, Clone, Copy, PartialEq, Eq, Structural)]
pub enum MemorySize {
    Byte,
    HalfWord,
    Word,
    DoubleWord,
}

/// The number of bytes a memory access of size `s` touches.
pub open spec fn spec_memory_size_bytes(s: MemorySize) -> u8 {
    match s {
        MemorySize::Byte => 1,
        MemorySize::HalfWord => 2,
        MemorySize::Word => 4,
        MemorySize::DoubleWord => 8,
    }
}

impl MemorySize {
    pub fn bytes(&self) -> (r: u8)
        ensures
            r == spec_memory_size_bytes(*self),
    {
        match self {
            MemorySize::Byte => 1,
            MemorySize::HalfWord => 2,
            MemorySize::Word => 4,
            MemorySize::DoubleWord => 8,
        }
    }
}

/// One effect of a basic block: a memory store, a register update or a
/// program counter update.
#[derive(Debug)]
pub enum Write {
    Memory { address: Value, size: MemorySize, value: Value },
    Register { index: usize, value: Value },
    Pc { value: Value },
}

impl Clone for Write {
    fn clone(&self) -> (r: Self)
        ensures
            r == *self,
    {
        match self {
            Write::Memory { address, size, value } => Write::Memory {
                address: address.clone(),
                size: *size,
                value: value.clone(),
            },
            Write::Register { index, value } => Write::Register {
                index: *index,
                value: value.clone(),
            },
            Write::Pc { value } => Write::Pc { value: value.clone() },
        }
    }
}

/// A program counter write of an immediate, which a later program counter
/// write supersedes.
pub open spec fn is_immediate_pc_write(w: Write) -> bool {
    match w {
        Write::Pc { value } => value is Imm,
        _ => false,
    }
}

/// A write of an immediate to register `idx`, which a later write to the same
/// register supersedes.
pub open spec fn is_immediate_register_write(w: Write, idx: usize) -> bool {
    match w {
        Write::Register { index, value } => index == idx && value is Imm,
        _ => false,
    }
}

/// The writes that stay when the program counter is written again.
pub open spec fn writes_kept_by_pc_write(ws: Seq<Write>) -> Seq<Write> {
    ws.filter(|w: Write| !is_immediate_pc_write(w))
}

/// The writes that stay when register `idx` is written again.
pub open spec fn writes_kept_by_register_write(ws: Seq<Write>, idx: usize) -> Seq<Write> {
    ws.filter(|w: Write| !is_immediate_register_write(w, idx))
}

/// What register `idx` reads as after `value` is written to it: an immediate
/// is kept, any other expression is read back from the register itself.
pub open spec fn register_after_write(idx: usize, value: Value) -> Value {
    if value is Imm {
        value
    } else {
        Value::Register(idx)
    }
}

/// Once the program counter is written, no earlier write of an immediate
/// program counter remains among the writes.
pub proof fn lemma_pc_write_supersedes(ws: Seq<Write>)
    ensures
        forall|k: int|
            0 <= k < writes_kept_by_pc_write(ws).len() ==> !is_immediate_pc_write(
                #[trigger] writes_kept_by_pc_write(ws)[k],
            ),
        writes_kept_by_pc_write(ws).len() <= ws.len(),
{
    broadcast use vstd::seq_lib::group_filter_ensures;

}

/// Once register `idx` is written, no earlier write of an immediate to it
/// remains among the writes.
pub proof fn lemma_register_write_supersedes(ws: Seq<Write>, idx: usize)
    ensures
        forall|k: int|
            0 <= k < writes_kept_by_register_write(ws, idx).len() ==> !is_immediate_register_write(
                #[trigger] writes_kept_by_register_write(ws, idx)[k],
                idx,
            ),
        writes_kept_by_register_write(ws, idx).len() <= ws.len(),
{
    broadcast use vstd::seq_lib::group_filter_ensures;

}

/// The machine that runs a basic block symbolically: 32 registers and the
/// program counter, each an expression, and the writes recorded so far.
pub struct JitCompilingMachine {
    registers: [Value; 33],
    writes: Vec<Write>,
}

impl JitCompilingMachine {
    /// The 32 registers followed by the program counter.
    pub closed spec fn spec_registers(&self) -> Seq<Value> {
        self.registers@
    }

    /// The writes recorded so far, oldest first.
    pub closed spec fn spec_writes(&self) -> Seq<Write> {
        self.writes@
    }

    /// A machine about to run the block at `pc`: each register reads as
    /// itself, the program counter is the immediate `pc`, nothing is written.
    pub fn new(pc: usize) -> (r: Self)
        ensures
            r.spec_registers().len() == 33,
            forall|i: int| 0 <= i < 32 ==> r.spec_registers()[i] == Value::Register(i as usize),
            r.spec_registers()[32] == Value::Imm(pc as u64),
            r.spec_writes() == Seq::<Write>::empty(),
    {
        let registers = [
            Value::Register(0),
            Value::Register(1),
            Value::Register(2),
            Value::Register(3),
            Value::Register(4),
            Value::Register(5),
            Value::Register(6),
            Value::Register(7),
            Value::Register(8),
            Value::Register(9),
            Value::Register(10),
            Value::Register(11),
            Value::Register(12),
            Value::Register(13),
            Value::Register(14),
            Value::Register(15),
            Value::Register(16),
            Value::Register(17),
            Value::Register(18),
            Value::Register(19),
            Value::Register(20),
            Value::Register(21),
            Value::Register(22),
            Value::Register(23),
            Value::Register(24),
            Value::Register(25),
            Value::Register(26),
            Value::Register(27),
            Value::Register(28),
            Value::Register(29),
            Value::Register(30),
            Value::Register(31),
            Value::Imm(pc as u64),
        ];
        Self { registers, writes: Vec::new() }
    }

    pub fn writes(&self) -> (r: &[Write])
        ensures
            r@ == self.spec_writes(),
    {
        self.writes.as_slice()
    }

    pub fn pc(&self) -> (r: &Value)
        requires
            self.spec_registers().len() == 33,
        ensures
            *r == self.spec_registers()[REGISTER_PC as int],
    {
        &self.registers[REGISTER_PC]
    }

    /// The 32 general purpose registers.
    pub fn registers(&self) -> (r: &[Value])
        ensures
            r@ == self.spec_registers().take(32),
    {
        vstd::slice::slice_subrange(self.registers.as_slice(), 0, REGISTER_PC)
    }

    /// Records a write of the program counter, dropping earlier writes of an
    /// immediate program counter, and makes `next_pc` the program counter.
    pub fn set_pc(&mut self, next_pc: Value)
        ensures
            final(self).spec_writes() == writes_kept_by_pc_write(old(self).spec_writes()).push(
                Write::Pc { value: next_pc },
            ),
            final(self).spec_registers() == old(self).spec_registers().update(
                REGISTER_PC as int,
                next_pc,
            ),
    {
        let mut old_writes: Vec<Write> = Vec::new();
        std::mem::swap(&mut old_writes, &mut self.writes);
        let mut kept: Vec<Write> = Vec::new();
        let mut i: usize = 0;
        while i < old_writes.len()
            invariant
                i <= old_writes.len(),
                kept@ == writes_kept_by_pc_write(old_writes@.take(i as int)),
            decreases old_writes.len() - i,
        {
            let drop = match &old_writes[i] {
                Write::Pc { value: Value::Imm(_) } => true,
                _ => false,
            };
            if !drop {
                kept.push(old_writes[i].clone());
            }
            proof {
                assert(old_writes@.take(i + 1).drop_last() =~= old_writes@.take(i as int));
                reveal(Seq::filter);
            }
            i = i + 1;
        }
        proof {
            assert(old_writes@.take(old_writes.len() as int) =~= old_writes@);
        }
        kept.push(Write::Pc { value: next_pc.clone() });
        self.writes = kept;
        self.registers[REGISTER_PC] = next_pc;
    }

    /// Records a write of register `idx`, dropping earlier writes of an
    /// immediate to it. The register then reads as the value when it is an
    /// immediate, and as itself otherwise.
    pub fn set_register(&mut self, idx: usize, value: Value)
        requires
            idx < 33,
        ensures
            final(self).spec_writes() == writes_kept_by_register_write(
                old(self).spec_writes(),
                idx,
            ).push(Write::Register { index: idx, value }),
            final(self).spec_registers() == old(self).spec_registers().update(
                idx as int,
                register_after_write(idx, value),
            ),
    {
        let mut old_writes: Vec<Write> = Vec::new();
        std::mem::swap(&mut old_writes, &mut self.writes);
        let mut kept: Vec<Write> = Vec::new();
        let mut i: usize = 0;
        while i < old_writes.len()
            invariant
                i <= old_writes.len(),
                kept@ == writes_kept_by_register_write(old_writes@.take(i as int), idx),
            decreases old_writes.len() - i,
        {
            let drop = match &old_writes[i] {
                Write::Register { index, value: Value::Imm(_) } => *index == idx,
                _ => false,
            };
            if !drop {
                kept.push(old_writes[i].clone());
            }
            proof {
                assert(old_writes@.take(i + 1).drop_last() =~= old_writes@.take(i as int));
                reveal(Seq::filter);
            }
            i = i + 1;
        }
        proof {
            assert(old_writes@.take(old_writes.len() as int) =~= old_writes@);
        }
        kept.push(Write::Register { index: idx, value: value.clone() });
        self.writes = kept;
        if let Value::Imm(_) = value {
            self.registers[idx] = value;
        } else {
            self.registers[idx] = Value::Register(idx);
        }
    }

    fn load(&mut self, addr: &Value, size: MemorySize) -> (r: Result<Value, Error>)
        ensures
            r == Ok::<Value, Error>(Value::Load(Rc::new(*addr), spec_memory_size_bytes(size))),
            *final(self) == *old(self),
    {
        Ok(Value::Load(Rc::new(addr.clone()), size.bytes()))
    }

    fn store(&mut self, addr: &Value, value: &Value, size: MemorySize) -> (r: Result<(), Error>)
        ensures
            r is Ok,
            final(self).spec_writes() == old(self).spec_writes().push(
                Write::Memory { address: *addr, size, value: *value },
            ),
            final(self).spec_registers() == old(self).spec_registers(),
    {
        self.writes.push(Write::Memory { address: addr.clone(), size, value: value.clone() });
        Ok(())
    }

    /// A byte load reads as the load expression; nothing is recorded.
    pub fn load8(&mut self, addr: &Value) -> (r: Result<Value, Error>)
        ensures
            r == Ok::<Value, Error>(Value::Load(Rc::new(*addr), 1)),
            *final(self) == *old(self),
    {
        self.load(addr, MemorySize::Byte)
    }

    pub fn load16(&mut self, addr: &Value) -> (r: Result<Value, Error>)
        ensures
            r == Ok::<Value, Error>(Value::Load(Rc::new(*addr), 2)),
            *final(self) == *old(self),
    {
        self.load(addr, MemorySize::HalfWord)
    }

    pub fn load32(&mut self, addr: &Value) -> (r: Result<Value, Error>)
        ensures
            r == Ok::<Value, Error>(Value::Load(Rc::new(*addr), 4)),
            *final(self) == *old(self),
    {
        self.load(addr, MemorySize::Word)
    }

    pub fn load64(&mut self, addr: &Value) -> (r: Result<Value, Error>)
        ensures
            r == Ok::<Value, Error>(Value::Load(Rc::new(*addr), 8)),
            *final(self) == *old(self),
    {
        self.load(addr, MemorySize::DoubleWord)
    }

    /// A byte store is recorded as a memory write.
    pub fn store8(&mut self, addr: &Value, value: &Value) -> (r: Result<(), Error>)
        ensures
            r is Ok,
            final(self).spec_writes() == old(self).spec_writes().push(
                Write::Memory { address: *addr, size: MemorySize::Byte, value: *value },
            ),
            final(self).spec_registers() == old(self).spec_registers(),
    {
        self.store(addr, value, MemorySize::Byte)
    }

    pub fn store16(&mut self, addr: &Value, value: &Value) -> (r: Result<(), Error>)
        ensures
            r is Ok,
            final(self).spec_writes() == old(self).spec_writes().push(
                Write::Memory { address: *addr, size: MemorySize::HalfWord, value: *value },
            ),
            final(self).spec_registers() == old(self).spec_registers(),
    {
        self.store(addr, value, MemorySize::HalfWord)
    }

    pub fn store32(&mut self, addr: &Value, value: &Value) -> (r: Result<(), Error>)
        ensures
            r is Ok,
            final(self).spec_writes() == old(self).spec_writes().push(
                Write::Memory { address: *addr, size: MemorySize::Word, value: *value },
            ),
            final(self).spec_registers() == old(self).spec_registers(),
    {
        self.store(addr, value, MemorySize::Word)
    }

    pub fn store64(&mut self, addr: &Value, value: &Value) -> (r: Result<(), Error>)
        ensures
            r is Ok,
            final(self).spec_writes() == old(self).spec_writes().push(
                Write::Memory { address: *addr, size: MemorySize::DoubleWord, value: *value },
            ),
            final(self).spec_registers() == old(self).spec_registers(),
    {
        self.store(addr, value, MemorySize::DoubleWord)
    }
}

impl Default for JitCompilingMachine {
    fn default() -> (r: Self)
        ensures
            r.spec_registers().len() == 33,
            forall|i: int| 0 <= i < 32 ==> r.spec_registers()[i] == Value::Register(i as usize),
            r.spec_registers()[32] == Value::Imm(0),
            r.spec_writes() == Seq::<Write>::empty(),
    {
        Self::new(0)
    }
}

} // verus!
