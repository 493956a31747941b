//! Pieces of the block compiler: which instructions it takes, the symbolic
//! machine that turns a basic block into a list of writes, the allocation of
//! scratch registers, and the tracers that decide which blocks to compile.
pub mod emitter;
pub mod instructions;
pub mod machine;
pub mod tracer;
