//! Tracers: they watch basic blocks run and decide which ones to compile.
use fnv::FnvHashMap;
use vstd::prelude::*;
use crate::error::Error;
use crate::instructions::Instruction;
use crate::jit::instructions::{is_jitable_instruction, spec_is_jitable_instruction};

verus! {

pub trait Tracer {
    /// Called each time the block starting at `pc` is about to run.
    fn trace(&mut self, pc: usize) -> Result<(), Error>;

    /// Whether the block at `pc`, of `block_length` bytes holding
    /// `instructions`, should be compiled now.
    fn should_jit(
        &mut self,
        pc: usize,
        block_length: usize,
        instructions: &[Instruction],
    ) -> Result<bool, Error>;

    /// Called when the compiled block at `pc` is dropped.
    fn clear(&mut self, pc: usize) -> Result<(), Error>;
}

/// The FNV hasher of `fnv`, which keys the tracer's table.
#[verifier::external_type_specification]
#[verifier::external_body]
pub struct ExFnvHasher(fnv::FnvHasher);

/// The standard builder of hashers that each start from their default.
#[verifier::external_type_specification]
#[verifier::external_body]
#[verifier::reject_recursive_types(H)]
pub struct ExBuildHasherDefault<H>(core::hash::BuildHasherDefault<H>);

/// How many times the block at `pc` has run, as `measures` counts it.
pub open spec fn spec_measure(measures: Map<usize, usize>, pc: usize) -> usize {
    if measures.contains_key(pc) {
        measures[pc]
    } else {
        0
    }
}

/// How often the block at `pc` has run, from the table kept by the tracer.
///
/// Calls `get` of the standard hash map that `fnv` keys with its FNV hasher;
/// the claim is that it finds the entry last inserted for `pc`, as a map
/// does, the hasher being deterministic.
#[verifier::external_body]
fn measure_of(measures: &FnvHashMap<usize, usize>, pc: usize) -> (r: Option<usize>)
    ensures
        r == (if measures@.contains_key(pc) {
            Some(measures@[pc])
        } else {
            None::<usize>
        }),
{
    measures.get(&pc).copied()
}

/// Records `count` runs of the block at `pc`.
///
/// Calls `insert` of the standard hash map that `fnv` keys with its FNV
/// hasher; the claim is that the table then maps `pc` to `count` and keeps
/// every other entry.
#[verifier::external_body]
fn set_measure(measures: &mut FnvHashMap<usize, usize>, pc: usize, count: usize)
    ensures
        final(measures)@ == old(measures)@.insert(pc, count),
{
    measures.insert(pc, count);
}

/// The default tracer: it counts how often each block runs and compiles a
/// block of more than ten instructions once it has run ten times. The count
/// of the block traced last is kept at hand.
pub struct DefaultTracer {
    last_trace_pc: usize,
    last_trace_measure: usize,
    measures: FnvHashMap<usize, usize>,
}

impl DefaultTracer {
    /// The run count of each block traced.
    pub closed spec fn spec_measures(&self) -> Map<usize, usize> {
        self.measures@
    }

    /// The count kept at hand agrees with the table.
    pub closed spec fn wf(&self) -> bool {
        self.last_trace_measure == spec_measure(self.measures@, self.last_trace_pc)
    }

    /// The count the tracer goes by for the block at `pc`.
    pub closed spec fn spec_measure_at(&self, pc: usize) -> usize {
        if self.last_trace_pc == pc {
            self.last_trace_measure
        } else {
            spec_measure(self.measures@, pc)
        }
    }

    /// Under the tracer's invariant the count at hand is the table's count.
    pub proof fn lemma_measure_at(&self, pc: usize)
        requires
            self.wf(),
        ensures
            self.spec_measure_at(pc) == spec_measure(self.spec_measures(), pc),
    {
    }
}

impl Default for DefaultTracer {
    fn default() -> (r: Self)
        ensures
            r.wf(),
            r.spec_measures() == Map::<usize, usize>::empty(),
    {
        DefaultTracer { last_trace_pc: 0, last_trace_measure: 0, measures: FnvHashMap::default() }
    }
}

impl Tracer for DefaultTracer {
    /// Counts one more run of the block at `pc`; the count wraps around at
    /// `usize::MAX`.
    fn trace(&mut self, pc: usize) -> (r: Result<(), Error>)
        ensures
            r is Ok,
            final(self).spec_measures() == old(self).spec_measures().insert(
                pc,
                spec_measure(old(self).spec_measures(), pc).wrapping_add(1),
            ),
            final(self).wf(),
    {
        let count: usize = match measure_of(&self.measures, pc) {
            Some(c) => c,
            None => 0,
        };
        let next: usize = count.wrapping_add(1);
        set_measure(&mut self.measures, pc, next);
        self.last_trace_pc = pc;
        self.last_trace_measure = next;
        Ok(())
    }

    /// A block is compiled once its count reaches ten and it holds more than
    /// ten instructions.
    fn should_jit(
        &mut self,
        pc: usize,
        _block_length: usize,
        instructions: &[Instruction],
    ) -> (r: Result<bool, Error>)
        ensures
            r == Ok::<bool, Error>(old(self).spec_measure_at(pc) >= 10 && instructions@.len() > 10),
            *final(self) == *old(self),
    {
        let measure: usize = if self.last_trace_pc == pc {
            self.last_trace_measure
        } else {
            match measure_of(&self.measures, pc) {
                Some(c) => c,
                None => 0,
            }
        };
        Ok(measure >= 10 && instructions.len() > 10)
    }

    /// Resets the count of the block at `pc`, if it has one.
    fn clear(&mut self, pc: usize) -> (r: Result<(), Error>)
        ensures
            r is Ok,
            final(self).spec_measures() == (if old(self).spec_measures().contains_key(pc) {
                old(self).spec_measures().insert(pc, 0)
            } else {
                old(self).spec_measures()
            }),
            old(self).wf() ==> final(self).wf(),
            spec_measure(final(self).spec_measures(), pc) == 0,
    {
        if measure_of(&self.measures, pc).is_some() {
            set_measure(&mut self.measures, pc, 0);
        }
        if self.last_trace_pc == pc {
            self.last_trace_measure = 0;
        }
        Ok(())
    }
}

/// Every block made of instructions the compiler can translate.
pub open spec fn all_jitable(instructions: Seq<Instruction>) -> bool {
    forall|k: int| 0 <= k < instructions.len() ==> spec_is_jitable_instruction(instructions[k])
}

/// A tracer that compiles every block it can, the way a translating emulator
/// does; handy to exercise the compiler.
#[derive(Default)]
pub struct TcgTracer {}

impl Tracer for TcgTracer {
    fn trace(&mut self, _pc: usize) -> (r: Result<(), Error>)
        ensures
            r is Ok,
    {
        Ok(())
    }

    fn should_jit(
        &mut self,
        _pc: usize,
        _block_length: usize,
        instructions: &[Instruction],
    ) -> (r: Result<bool, Error>)
        ensures
            r == Ok::<bool, Error>(all_jitable(instructions@)),
    {
        let mut i: usize = 0;
        while i < instructions.len()
            invariant
                i <= instructions.len(),
                forall|k: int| 0 <= k < i ==> spec_is_jitable_instruction(instructions@[k]),
            decreases instructions.len() - i,
        {
            if !is_jitable_instruction(instructions[i]) {
                return Ok(false);
            }
            i = i + 1;
        }
        Ok(true)
    }

    fn clear(&mut self, _pc: usize) -> (r: Result<(), Error>)
        ensures
            r is Ok,
    {
        Ok(())
    }
}

} // verus!
