# ckb_vm

A RISC-V virtual machine for 32 and 64 bit registers, written in Verus.

- `src/definitions`: opcode numbers, register names, memory flags and limits.
- `src/instructions`: instruction encodings, the register semantics
  (`register.rs`), the decoders of each extension (`i`, `m`, `a`, `b`,
  `rvc`), the first-generation RV32 decoders and interpreters (`rv32i`,
  `rv32m`, `c`), the handler of every opcode (`execute.rs`), assembly text,
  tagged forms and cost models.
- `src/decoder.rs`: chains of decoders and macro-operation fusion;
  `src/decoded.rs` proves that whatever a decoder yields the interpreter
  can execute, and `src/fusion.rs` that a fused instruction ends where the
  pair it stands for ends.
- `src/machine.rs`, `src/memory.rs`, `src/context.rs`: the abstract machine,
  a flat byte memory, and the contexts that handle environment calls.
- `src/elf.rs`: the loading plan of an ELF program, over goblin's headers.
- `src/jit`: the symbolic machine, register allocation and tracers of the
  block compiler.
- `app/`: printable errors and the run loop.
