//! The interface a debugger attached to a machine implements.
use vstd::prelude::*;
use crate::error::Error;
use crate::machine::CoreMachine;

verus! {

/// A debugger: prepared once when the machine starts, and handed every
/// breakpoint.
pub trait Debugger<Mac: CoreMachine>: Send + Sync {
    fn initialize(&mut self, machine: &mut Mac) -> Result<(), Error>;

    fn ebreak(&mut self, machine: &mut Mac) -> Result<(), Error>;
}

} // verus!
