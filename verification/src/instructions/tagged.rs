//! Instructions tagged with their format, for printing them.
use vstd::prelude::*;
use crate::definitions::instructions as insts;
use crate::error::Error;
use super::{extract_opcode, spec_extract_opcode, Instruction, InstructionOpcode, Itype, R4type, R5type, Rtype, Stype, Utype};
use core::convert::TryFrom;

verus! {

/// A decoded instruction together with the format that its opcode uses.
#[derive(Debug, Clone, Copy, PartialEq, Eq, Structural)]
pub enum TaggedInstruction {
    Rtype(Rtype),
    Itype(Itype),
    Stype(Stype),
    Utype(Utype),
    R4type(R4type),
    R5type(R5type),
}

impl From<Rtype> for TaggedInstruction {
    fn from(i: Rtype) -> (r: Self) {
        TaggedInstruction::Rtype(i)
    }
}

impl vstd::std_specs::convert::FromSpecImpl<Rtype> for TaggedInstruction {
    open spec fn obeys_from_spec() -> bool {
        true
    }

    open spec fn from_spec(i: Rtype) -> TaggedInstruction {
        TaggedInstruction::Rtype(i)
    }
}

impl From<Itype> for TaggedInstruction {
    fn from(i: Itype) -> (r: Self) {
        TaggedInstruction::Itype(i)
    }
}

impl vstd::std_specs::convert::FromSpecImpl<Itype> for TaggedInstruction {
    open spec fn obeys_from_spec() -> bool {
        true
    }

    open spec fn from_spec(i: Itype) -> TaggedInstruction {
        TaggedInstruction::Itype(i)
    }
}

impl From<Stype> for TaggedInstruction {
    fn from(i: Stype) -> (r: Self) {
        TaggedInstruction::Stype(i)
    }
}

impl vstd::std_specs::convert::FromSpecImpl<Stype> for TaggedInstruction {
    open spec fn obeys_from_spec() -> bool {
        true
    }

    open spec fn from_spec(i: Stype) -> TaggedInstruction {
        TaggedInstruction::Stype(i)
    }
}

impl From<Utype> for TaggedInstruction {
    fn from(i: Utype) -> (r: Self) {
        TaggedInstruction::Utype(i)
    }
}

impl vstd::std_specs::convert::FromSpecImpl<Utype> for TaggedInstruction {
    open spec fn obeys_from_spec() -> bool {
        true
    }

    open spec fn from_spec(i: Utype) -> TaggedInstruction {
        TaggedInstruction::Utype(i)
    }
}

impl From<R4type> for TaggedInstruction {
    fn from(i: R4type) -> (r: Self) {
        TaggedInstruction::R4type(i)
    }
}

impl vstd::std_specs::convert::FromSpecImpl<R4type> for TaggedInstruction {
    open spec fn obeys_from_spec() -> bool {
        true
    }

    open spec fn from_spec(i: R4type) -> TaggedInstruction {
        TaggedInstruction::R4type(i)
    }
}

impl From<R5type> for TaggedInstruction {
    fn from(i: R5type) -> (r: Self) {
        TaggedInstruction::R5type(i)
    }
}

impl vstd::std_specs::convert::FromSpecImpl<R5type> for TaggedInstruction {
    open spec fn obeys_from_spec() -> bool {
        true
    }

    open spec fn from_spec(i: R5type) -> TaggedInstruction {
        TaggedInstruction::R5type(i)
    }
}

/// The instruction without its tag.
pub open spec fn spec_untag(t: TaggedInstruction) -> Instruction {
    match t {
            TaggedInstruction::Rtype(i) => i.0,
            TaggedInstruction::Itype(i) => i.0,
            TaggedInstruction::Stype(i) => i.0,
            TaggedInstruction::Utype(i) => i.0,
            TaggedInstruction::R4type(i) => i.0,
            TaggedInstruction::R5type(i) => i.0,
    }
}

impl From<TaggedInstruction> for u64 {
    fn from(t: TaggedInstruction) -> (r: Self) {
        match t {
            TaggedInstruction::Rtype(i) => i.0,
            TaggedInstruction::Itype(i) => i.0,
            TaggedInstruction::Stype(i) => i.0,
            TaggedInstruction::Utype(i) => i.0,
            TaggedInstruction::R4type(i) => i.0,
            TaggedInstruction::R5type(i) => i.0,
        }
    }
}

impl vstd::std_specs::convert::FromSpecImpl<TaggedInstruction> for u64 {
    open spec fn obeys_from_spec() -> bool {
        true
    }

    open spec fn from_spec(t: TaggedInstruction) -> u64 {
        spec_untag(t)
    }
}

/// The tagging of `i` by the format of its opcode; an opcode outside the
/// table is refused.
pub open spec fn spec_tag(i: Instruction) -> Result<TaggedInstruction, Error> {
    let op: InstructionOpcode = spec_extract_opcode(i);
    if op == insts::OP_UNLOADED {
        Ok(TaggedInstruction::Rtype(Rtype(i)))
    } else if op == insts::OP_ADD {
        Ok(TaggedInstruction::Rtype(Rtype(i)))
    } else if op == insts::OP_ADDI {
        Ok(TaggedInstruction::Itype(Itype(i)))
    } else if op == insts::OP_ADDIW {
        Ok(TaggedInstruction::Itype(Itype(i)))
    } else if op == insts::OP_ADDW {
        Ok(TaggedInstruction::Rtype(Rtype(i)))
    } else if op == insts::OP_AND {
        Ok(TaggedInstruction::Rtype(Rtype(i)))
    } else if op == insts::OP_ANDI {
        Ok(TaggedInstruction::Itype(Itype(i)))
    } else if op == insts::OP_DIV {
        Ok(TaggedInstruction::Rtype(Rtype(i)))
    } else if op == insts::OP_DIVU {
        Ok(TaggedInstruction::Rtype(Rtype(i)))
    } else if op == insts::OP_DIVUW {
        Ok(TaggedInstruction::Rtype(Rtype(i)))
    } else if op == insts::OP_DIVW {
        Ok(TaggedInstruction::Rtype(Rtype(i)))
    } else if op == insts::OP_LB_VERSION0 {
        Ok(TaggedInstruction::Itype(Itype(i)))
    } else if op == insts::OP_LB_VERSION1 {
        Ok(TaggedInstruction::Itype(Itype(i)))
    } else if op == insts::OP_LBU_VERSION0 {
        Ok(TaggedInstruction::Itype(Itype(i)))
    } else if op == insts::OP_LBU_VERSION1 {
        Ok(TaggedInstruction::Itype(Itype(i)))
    } else if op == insts::OP_LD_VERSION0 {
        Ok(TaggedInstruction::Itype(Itype(i)))
    } else if op == insts::OP_LD_VERSION1 {
        Ok(TaggedInstruction::Itype(Itype(i)))
    } else if op == insts::OP_LH_VERSION0 {
        Ok(TaggedInstruction::Itype(Itype(i)))
    } else if op == insts::OP_LH_VERSION1 {
        Ok(TaggedInstruction::Itype(Itype(i)))
    } else if op == insts::OP_LHU_VERSION0 {
        Ok(TaggedInstruction::Itype(Itype(i)))
    } else if op == insts::OP_LHU_VERSION1 {
        Ok(TaggedInstruction::Itype(Itype(i)))
    } else if op == insts::OP_LUI {
        Ok(TaggedInstruction::Utype(Utype(i)))
    } else if op == insts::OP_LW_VERSION0 {
        Ok(TaggedInstruction::Itype(Itype(i)))
    } else if op == insts::OP_LW_VERSION1 {
        Ok(TaggedInstruction::Itype(Itype(i)))
    } else if op == insts::OP_LWU_VERSION0 {
        Ok(TaggedInstruction::Itype(Itype(i)))
    } else if op == insts::OP_LWU_VERSION1 {
        Ok(TaggedInstruction::Itype(Itype(i)))
    } else if op == insts::OP_MUL {
        Ok(TaggedInstruction::Rtype(Rtype(i)))
    } else if op == insts::OP_MULH {
        Ok(TaggedInstruction::Rtype(Rtype(i)))
    } else if op == insts::OP_MULHSU {
        Ok(TaggedInstruction::Rtype(Rtype(i)))
    } else if op == insts::OP_MULHU {
        Ok(TaggedInstruction::Rtype(Rtype(i)))
    } else if op == insts::OP_MULW {
        Ok(TaggedInstruction::Rtype(Rtype(i)))
    } else if op == insts::OP_OR {
        Ok(TaggedInstruction::Rtype(Rtype(i)))
    } else if op == insts::OP_ORI {
        Ok(TaggedInstruction::Itype(Itype(i)))
    } else if op == insts::OP_REM {
        Ok(TaggedInstruction::Rtype(Rtype(i)))
    } else if op == insts::OP_REMU {
        Ok(TaggedInstruction::Rtype(Rtype(i)))
    } else if op == insts::OP_REMUW {
        Ok(TaggedInstruction::Rtype(Rtype(i)))
    } else if op == insts::OP_REMW {
        Ok(TaggedInstruction::Rtype(Rtype(i)))
    } else if op == insts::OP_SB {
        Ok(TaggedInstruction::Stype(Stype(i)))
    } else if op == insts::OP_SD {
        Ok(TaggedInstruction::Stype(Stype(i)))
    } else if op == insts::OP_SH {
        Ok(TaggedInstruction::Stype(Stype(i)))
    } else if op == insts::OP_SLL {
        Ok(TaggedInstruction::Rtype(Rtype(i)))
    } else if op == insts::OP_SLLI {
        Ok(TaggedInstruction::Itype(Itype(i)))
    } else if op == insts::OP_SLLIW {
        Ok(TaggedInstruction::Itype(Itype(i)))
    } else if op == insts::OP_SLLW {
        Ok(TaggedInstruction::Rtype(Rtype(i)))
    } else if op == insts::OP_SLT {
        Ok(TaggedInstruction::Rtype(Rtype(i)))
    } else if op == insts::OP_SLTI {
        Ok(TaggedInstruction::Itype(Itype(i)))
    } else if op == insts::OP_SLTIU {
        Ok(TaggedInstruction::Itype(Itype(i)))
    } else if op == insts::OP_SLTU {
        Ok(TaggedInstruction::Rtype(Rtype(i)))
    } else if op == insts::OP_SRA {
        Ok(TaggedInstruction::Rtype(Rtype(i)))
    } else if op == insts::OP_SRAI {
        Ok(TaggedInstruction::Itype(Itype(i)))
    } else if op == insts::OP_SRAIW {
        Ok(TaggedInstruction::Itype(Itype(i)))
    } else if op == insts::OP_SRAW {
        Ok(TaggedInstruction::Rtype(Rtype(i)))
    } else if op == insts::OP_SRL {
        Ok(TaggedInstruction::Rtype(Rtype(i)))
    } else if op == insts::OP_SRLI {
        Ok(TaggedInstruction::Itype(Itype(i)))
    } else if op == insts::OP_SRLIW {
        Ok(TaggedInstruction::Itype(Itype(i)))
    } else if op == insts::OP_SRLW {
        Ok(TaggedInstruction::Rtype(Rtype(i)))
    } else if op == insts::OP_SUB {
        Ok(TaggedInstruction::Rtype(Rtype(i)))
    } else if op == insts::OP_SUBW {
        Ok(TaggedInstruction::Rtype(Rtype(i)))
    } else if op == insts::OP_SW {
        Ok(TaggedInstruction::Stype(Stype(i)))
    } else if op == insts::OP_XOR {
        Ok(TaggedInstruction::Rtype(Rtype(i)))
    } else if op == insts::OP_XORI {
        Ok(TaggedInstruction::Itype(Itype(i)))
    } else if op == insts::OP_LR_W {
        Ok(TaggedInstruction::Rtype(Rtype(i)))
    } else if op == insts::OP_SC_W {
        Ok(TaggedInstruction::Rtype(Rtype(i)))
    } else if op == insts::OP_AMOSWAP_W {
        Ok(TaggedInstruction::Rtype(Rtype(i)))
    } else if op == insts::OP_AMOADD_W {
        Ok(TaggedInstruction::Rtype(Rtype(i)))
    } else if op == insts::OP_AMOXOR_W {
        Ok(TaggedInstruction::Rtype(Rtype(i)))
    } else if op == insts::OP_AMOAND_W {
        Ok(TaggedInstruction::Rtype(Rtype(i)))
    } else if op == insts::OP_AMOOR_W {
        Ok(TaggedInstruction::Rtype(Rtype(i)))
    } else if op == insts::OP_AMOMIN_W {
        Ok(TaggedInstruction::Rtype(Rtype(i)))
    } else if op == insts::OP_AMOMAX_W {
        Ok(TaggedInstruction::Rtype(Rtype(i)))
    } else if op == insts::OP_AMOMINU_W {
        Ok(TaggedInstruction::Rtype(Rtype(i)))
    } else if op == insts::OP_AMOMAXU_W {
        Ok(TaggedInstruction::Rtype(Rtype(i)))
    } else if op == insts::OP_LR_D {
        Ok(TaggedInstruction::Rtype(Rtype(i)))
    } else if op == insts::OP_SC_D {
        Ok(TaggedInstruction::Rtype(Rtype(i)))
    } else if op == insts::OP_AMOSWAP_D {
        Ok(TaggedInstruction::Rtype(Rtype(i)))
    } else if op == insts::OP_AMOADD_D {
        Ok(TaggedInstruction::Rtype(Rtype(i)))
    } else if op == insts::OP_AMOXOR_D {
        Ok(TaggedInstruction::Rtype(Rtype(i)))
    } else if op == insts::OP_AMOAND_D {
        Ok(TaggedInstruction::Rtype(Rtype(i)))
    } else if op == insts::OP_AMOOR_D {
        Ok(TaggedInstruction::Rtype(Rtype(i)))
    } else if op == insts::OP_AMOMIN_D {
        Ok(TaggedInstruction::Rtype(Rtype(i)))
    } else if op == insts::OP_AMOMAX_D {
        Ok(TaggedInstruction::Rtype(Rtype(i)))
    } else if op == insts::OP_AMOMINU_D {
        Ok(TaggedInstruction::Rtype(Rtype(i)))
    } else if op == insts::OP_AMOMAXU_D {
        Ok(TaggedInstruction::Rtype(Rtype(i)))
    } else if op == insts::OP_ADDUW {
        Ok(TaggedInstruction::Rtype(Rtype(i)))
    } else if op == insts::OP_ANDN {
        Ok(TaggedInstruction::Rtype(Rtype(i)))
    } else if op == insts::OP_BCLR {
        Ok(TaggedInstruction::Rtype(Rtype(i)))
    } else if op == insts::OP_BCLRI {
        Ok(TaggedInstruction::Itype(Itype(i)))
    } else if op == insts::OP_BEXT {
        Ok(TaggedInstruction::Rtype(Rtype(i)))
    } else if op == insts::OP_BEXTI {
        Ok(TaggedInstruction::Itype(Itype(i)))
    } else if op == insts::OP_BINV {
        Ok(TaggedInstruction::Rtype(Rtype(i)))
    } else if op == insts::OP_BINVI {
        Ok(TaggedInstruction::Itype(Itype(i)))
    } else if op == insts::OP_BSET {
        Ok(TaggedInstruction::Rtype(Rtype(i)))
    } else if op == insts::OP_BSETI {
        Ok(TaggedInstruction::Itype(Itype(i)))
    } else if op == insts::OP_CLMUL {
        Ok(TaggedInstruction::Rtype(Rtype(i)))
    } else if op == insts::OP_CLMULH {
        Ok(TaggedInstruction::Rtype(Rtype(i)))
    } else if op == insts::OP_CLMULR {
        Ok(TaggedInstruction::Rtype(Rtype(i)))
    } else if op == insts::OP_CLZ {
        Ok(TaggedInstruction::Rtype(Rtype(i)))
    } else if op == insts::OP_CLZW {
        Ok(TaggedInstruction::Rtype(Rtype(i)))
    } else if op == insts::OP_CPOP {
        Ok(TaggedInstruction::Rtype(Rtype(i)))
    } else if op == insts::OP_CPOPW {
        Ok(TaggedInstruction::Rtype(Rtype(i)))
    } else if op == insts::OP_CTZ {
        Ok(TaggedInstruction::Rtype(Rtype(i)))
    } else if op == insts::OP_CTZW {
        Ok(TaggedInstruction::Rtype(Rtype(i)))
    } else if op == insts::OP_MAX {
        Ok(TaggedInstruction::Rtype(Rtype(i)))
    } else if op == insts::OP_MAXU {
        Ok(TaggedInstruction::Rtype(Rtype(i)))
    } else if op == insts::OP_MIN {
        Ok(TaggedInstruction::Rtype(Rtype(i)))
    } else if op == insts::OP_MINU {
        Ok(TaggedInstruction::Rtype(Rtype(i)))
    } else if op == insts::OP_ORCB {
        Ok(TaggedInstruction::Rtype(Rtype(i)))
    } else if op == insts::OP_ORN {
        Ok(TaggedInstruction::Rtype(Rtype(i)))
    } else if op == insts::OP_REV8 {
        Ok(TaggedInstruction::Rtype(Rtype(i)))
    } else if op == insts::OP_ROL {
        Ok(TaggedInstruction::Rtype(Rtype(i)))
    } else if op == insts::OP_ROLW {
        Ok(TaggedInstruction::Rtype(Rtype(i)))
    } else if op == insts::OP_ROR {
        Ok(TaggedInstruction::Rtype(Rtype(i)))
    } else if op == insts::OP_RORI {
        Ok(TaggedInstruction::Itype(Itype(i)))
    } else if op == insts::OP_RORIW {
        Ok(TaggedInstruction::Itype(Itype(i)))
    } else if op == insts::OP_RORW {
        Ok(TaggedInstruction::Rtype(Rtype(i)))
    } else if op == insts::OP_SEXTB {
        Ok(TaggedInstruction::Rtype(Rtype(i)))
    } else if op == insts::OP_SEXTH {
        Ok(TaggedInstruction::Rtype(Rtype(i)))
    } else if op == insts::OP_SH1ADD {
        Ok(TaggedInstruction::Rtype(Rtype(i)))
    } else if op == insts::OP_SH1ADDUW {
        Ok(TaggedInstruction::Rtype(Rtype(i)))
    } else if op == insts::OP_SH2ADD {
        Ok(TaggedInstruction::Rtype(Rtype(i)))
    } else if op == insts::OP_SH2ADDUW {
        Ok(TaggedInstruction::Rtype(Rtype(i)))
    } else if op == insts::OP_SH3ADD {
        Ok(TaggedInstruction::Rtype(Rtype(i)))
    } else if op == insts::OP_SH3ADDUW {
        Ok(TaggedInstruction::Rtype(Rtype(i)))
    } else if op == insts::OP_SLLIUW {
        Ok(TaggedInstruction::Itype(Itype(i)))
    } else if op == insts::OP_XNOR {
        Ok(TaggedInstruction::Rtype(Rtype(i)))
    } else if op == insts::OP_ZEXTH {
        Ok(TaggedInstruction::Rtype(Rtype(i)))
    } else if op == insts::OP_WIDE_MUL {
        Ok(TaggedInstruction::R4type(R4type(i)))
    } else if op == insts::OP_WIDE_MULU {
        Ok(TaggedInstruction::R4type(R4type(i)))
    } else if op == insts::OP_WIDE_MULSU {
        Ok(TaggedInstruction::R4type(R4type(i)))
    } else if op == insts::OP_WIDE_DIV {
        Ok(TaggedInstruction::R4type(R4type(i)))
    } else if op == insts::OP_WIDE_DIVU {
        Ok(TaggedInstruction::R4type(R4type(i)))
    } else if op == insts::OP_ADC {
        Ok(TaggedInstruction::Rtype(Rtype(i)))
    } else if op == insts::OP_SBB {
        Ok(TaggedInstruction::R4type(R4type(i)))
    } else if op == insts::OP_ADCS {
        Ok(TaggedInstruction::R4type(R4type(i)))
    } else if op == insts::OP_SBBS {
        Ok(TaggedInstruction::R4type(R4type(i)))
    } else if op == insts::OP_ADD3A {
        Ok(TaggedInstruction::R5type(R5type(i)))
    } else if op == insts::OP_ADD3B {
        Ok(TaggedInstruction::R5type(R5type(i)))
    } else if op == insts::OP_ADD3C {
        Ok(TaggedInstruction::R5type(R5type(i)))
    } else if op == insts::OP_CUSTOM_LOAD_UIMM {
        Ok(TaggedInstruction::Utype(Utype(i)))
    } else if op == insts::OP_CUSTOM_LOAD_IMM {
        Ok(TaggedInstruction::Utype(Utype(i)))
    } else if op == insts::OP_AUIPC {
        Ok(TaggedInstruction::Utype(Utype(i)))
    } else if op == insts::OP_BEQ {
        Ok(TaggedInstruction::Stype(Stype(i)))
    } else if op == insts::OP_BGE {
        Ok(TaggedInstruction::Stype(Stype(i)))
    } else if op == insts::OP_BGEU {
        Ok(TaggedInstruction::Stype(Stype(i)))
    } else if op == insts::OP_BLT {
        Ok(TaggedInstruction::Stype(Stype(i)))
    } else if op == insts::OP_BLTU {
        Ok(TaggedInstruction::Stype(Stype(i)))
    } else if op == insts::OP_BNE {
        Ok(TaggedInstruction::Stype(Stype(i)))
    } else if op == insts::OP_EBREAK {
        Ok(TaggedInstruction::Rtype(Rtype(i)))
    } else if op == insts::OP_ECALL {
        Ok(TaggedInstruction::Rtype(Rtype(i)))
    } else if op == insts::OP_FENCE {
        Ok(TaggedInstruction::Rtype(Rtype(i)))
    } else if op == insts::OP_FENCEI {
        Ok(TaggedInstruction::Rtype(Rtype(i)))
    } else if op == insts::OP_JAL {
        Ok(TaggedInstruction::Utype(Utype(i)))
    } else if op == insts::OP_JALR_VERSION0 {
        Ok(TaggedInstruction::Itype(Itype(i)))
    } else if op == insts::OP_JALR_VERSION1 {
        Ok(TaggedInstruction::Itype(Itype(i)))
    } else if op == insts::OP_FAR_JUMP_REL {
        Ok(TaggedInstruction::Utype(Utype(i)))
    } else if op == insts::OP_FAR_JUMP_ABS {
        Ok(TaggedInstruction::Utype(Utype(i)))
    } else if op == insts::OP_CUSTOM_ASM_TRACE_JUMP {
        Ok(TaggedInstruction::Utype(Utype(i)))
    } else if op == insts::OP_CUSTOM_TRACE_END {
        Ok(TaggedInstruction::Rtype(Rtype(i)))
    } else {
        Err(Error::InvalidOp(op))
    }
}

impl TryFrom<Instruction> for TaggedInstruction {
    type Error = Error;

    fn try_from(i: Instruction) -> (r: Result<Self, Self::Error>) {
        let op: InstructionOpcode = extract_opcode(i);
        if op == insts::OP_UNLOADED {
            Ok(TaggedInstruction::Rtype(Rtype(i)))
        } else if op == insts::OP_ADD {
            Ok(TaggedInstruction::Rtype(Rtype(i)))
        } else if op == insts::OP_ADDI {
            Ok(TaggedInstruction::Itype(Itype(i)))
        } else if op == insts::OP_ADDIW {
            Ok(TaggedInstruction::Itype(Itype(i)))
        } else if op == insts::OP_ADDW {
            Ok(TaggedInstruction::Rtype(Rtype(i)))
        } else if op == insts::OP_AND {
            Ok(TaggedInstruction::Rtype(Rtype(i)))
        } else if op == insts::OP_ANDI {
            Ok(TaggedInstruction::Itype(Itype(i)))
        } else if op == insts::OP_DIV {
            Ok(TaggedInstruction::Rtype(Rtype(i)))
        } else if op == insts::OP_DIVU {
            Ok(TaggedInstruction::Rtype(Rtype(i)))
        } else if op == insts::OP_DIVUW {
            Ok(TaggedInstruction::Rtype(Rtype(i)))
        } else if op == insts::OP_DIVW {
            Ok(TaggedInstruction::Rtype(Rtype(i)))
        } else if op == insts::OP_LB_VERSION0 {
            Ok(TaggedInstruction::Itype(Itype(i)))
        } else if op == insts::OP_LB_VERSION1 {
            Ok(TaggedInstruction::Itype(Itype(i)))
        } else if op == insts::OP_LBU_VERSION0 {
            Ok(TaggedInstruction::Itype(Itype(i)))
        } else if op == insts::OP_LBU_VERSION1 {
            Ok(TaggedInstruction::Itype(Itype(i)))
        } else if op == insts::OP_LD_VERSION0 {
            Ok(TaggedInstruction::Itype(Itype(i)))
        } else if op == insts::OP_LD_VERSION1 {
            Ok(TaggedInstruction::Itype(Itype(i)))
        } else if op == insts::OP_LH_VERSION0 {
            Ok(TaggedInstruction::Itype(Itype(i)))
        } else if op == insts::OP_LH_VERSION1 {
            Ok(TaggedInstruction::Itype(Itype(i)))
        } else if op == insts::OP_LHU_VERSION0 {
            Ok(TaggedInstruction::Itype(Itype(i)))
        } else if op == insts::OP_LHU_VERSION1 {
            Ok(TaggedInstruction::Itype(Itype(i)))
        } else if op == insts::OP_LUI {
            Ok(TaggedInstruction::Utype(Utype(i)))
        } else if op == insts::OP_LW_VERSION0 {
            Ok(TaggedInstruction::Itype(Itype(i)))
        } else if op == insts::OP_LW_VERSION1 {
            Ok(TaggedInstruction::Itype(Itype(i)))
        } else if op == insts::OP_LWU_VERSION0 {
            Ok(TaggedInstruction::Itype(Itype(i)))
        } else if op == insts::OP_LWU_VERSION1 {
            Ok(TaggedInstruction::Itype(Itype(i)))
        } else if op == insts::OP_MUL {
            Ok(TaggedInstruction::Rtype(Rtype(i)))
        } else if op == insts::OP_MULH {
            Ok(TaggedInstruction::Rtype(Rtype(i)))
        } else if op == insts::OP_MULHSU {
            Ok(TaggedInstruction::Rtype(Rtype(i)))
        } else if op == insts::OP_MULHU {
            Ok(TaggedInstruction::Rtype(Rtype(i)))
        } else if op == insts::OP_MULW {
            Ok(TaggedInstruction::Rtype(Rtype(i)))
        } else if op == insts::OP_OR {
            Ok(TaggedInstruction::Rtype(Rtype(i)))
        } else if op == insts::OP_ORI {
            Ok(TaggedInstruction::Itype(Itype(i)))
        } else if op == insts::OP_REM {
            Ok(TaggedInstruction::Rtype(Rtype(i)))
        } else if op == insts::OP_REMU {
            Ok(TaggedInstruction::Rtype(Rtype(i)))
        } else if op == insts::OP_REMUW {
            Ok(TaggedInstruction::Rtype(Rtype(i)))
        } else if op == insts::OP_REMW {
            Ok(TaggedInstruction::Rtype(Rtype(i)))
        } else if op == insts::OP_SB {
            Ok(TaggedInstruction::Stype(Stype(i)))
        } else if op == insts::OP_SD {
            Ok(TaggedInstruction::Stype(Stype(i)))
        } else if op == insts::OP_SH {
            Ok(TaggedInstruction::Stype(Stype(i)))
        } else if op == insts::OP_SLL {
            Ok(TaggedInstruction::Rtype(Rtype(i)))
        } else if op == insts::OP_SLLI {
            Ok(TaggedInstruction::Itype(Itype(i)))
        } else if op == insts::OP_SLLIW {
            Ok(TaggedInstruction::Itype(Itype(i)))
        } else if op == insts::OP_SLLW {
            Ok(TaggedInstruction::Rtype(Rtype(i)))
        } else if op == insts::OP_SLT {
            Ok(TaggedInstruction::Rtype(Rtype(i)))
        } else if op == insts::OP_SLTI {
            Ok(TaggedInstruction::Itype(Itype(i)))
        } else if op == insts::OP_SLTIU {
            Ok(TaggedInstruction::Itype(Itype(i)))
        } else if op == insts::OP_SLTU {
            Ok(TaggedInstruction::Rtype(Rtype(i)))
        } else if op == insts::OP_SRA {
            Ok(TaggedInstruction::Rtype(Rtype(i)))
        } else if op == insts::OP_SRAI {
            Ok(TaggedInstruction::Itype(Itype(i)))
        } else if op == insts::OP_SRAIW {
            Ok(TaggedInstruction::Itype(Itype(i)))
        } else if op == insts::OP_SRAW {
            Ok(TaggedInstruction::Rtype(Rtype(i)))
        } else if op == insts::OP_SRL {
            Ok(TaggedInstruction::Rtype(Rtype(i)))
        } else if op == insts::OP_SRLI {
            Ok(TaggedInstruction::Itype(Itype(i)))
        } else if op == insts::OP_SRLIW {
            Ok(TaggedInstruction::Itype(Itype(i)))
        } else if op == insts::OP_SRLW {
            Ok(TaggedInstruction::Rtype(Rtype(i)))
        } else if op == insts::OP_SUB {
            Ok(TaggedInstruction::Rtype(Rtype(i)))
        } else if op == insts::OP_SUBW {
            Ok(TaggedInstruction::Rtype(Rtype(i)))
        } else if op == insts::OP_SW {
            Ok(TaggedInstruction::Stype(Stype(i)))
        } else if op == insts::OP_XOR {
            Ok(TaggedInstruction::Rtype(Rtype(i)))
        } else if op == insts::OP_XORI {
            Ok(TaggedInstruction::Itype(Itype(i)))
        } else if op == insts::OP_LR_W {
            Ok(TaggedInstruction::Rtype(Rtype(i)))
        } else if op == insts::OP_SC_W {
            Ok(TaggedInstruction::Rtype(Rtype(i)))
        } else if op == insts::OP_AMOSWAP_W {
            Ok(TaggedInstruction::Rtype(Rtype(i)))
        } else if op == insts::OP_AMOADD_W {
            Ok(TaggedInstruction::Rtype(Rtype(i)))
        } else if op == insts::OP_AMOXOR_W {
            Ok(TaggedInstruction::Rtype(Rtype(i)))
        } else if op == insts::OP_AMOAND_W {
            Ok(TaggedInstruction::Rtype(Rtype(i)))
        } else if op == insts::OP_AMOOR_W {
            Ok(TaggedInstruction::Rtype(Rtype(i)))
        } else if op == insts::OP_AMOMIN_W {
            Ok(TaggedInstruction::Rtype(Rtype(i)))
        } else if op == insts::OP_AMOMAX_W {
            Ok(TaggedInstruction::Rtype(Rtype(i)))
        } else if op == insts::OP_AMOMINU_W {
            Ok(TaggedInstruction::Rtype(Rtype(i)))
        } else if op == insts::OP_AMOMAXU_W {
            Ok(TaggedInstruction::Rtype(Rtype(i)))
        } else if op == insts::OP_LR_D {
            Ok(TaggedInstruction::Rtype(Rtype(i)))
        } else if op == insts::OP_SC_D {
            Ok(TaggedInstruction::Rtype(Rtype(i)))
        } else if op == insts::OP_AMOSWAP_D {
            Ok(TaggedInstruction::Rtype(Rtype(i)))
        } else if op == insts::OP_AMOADD_D {
            Ok(TaggedInstruction::Rtype(Rtype(i)))
        } else if op == insts::OP_AMOXOR_D {
            Ok(TaggedInstruction::Rtype(Rtype(i)))
        } else if op == insts::OP_AMOAND_D {
            Ok(TaggedInstruction::Rtype(Rtype(i)))
        } else if op == insts::OP_AMOOR_D {
            Ok(TaggedInstruction::Rtype(Rtype(i)))
        } else if op == insts::OP_AMOMIN_D {
            Ok(TaggedInstruction::Rtype(Rtype(i)))
        } else if op == insts::OP_AMOMAX_D {
            Ok(TaggedInstruction::Rtype(Rtype(i)))
        } else if op == insts::OP_AMOMINU_D {
            Ok(TaggedInstruction::Rtype(Rtype(i)))
        } else if op == insts::OP_AMOMAXU_D {
            Ok(TaggedInstruction::Rtype(Rtype(i)))
        } else if op == insts::OP_ADDUW {
            Ok(TaggedInstruction::Rtype(Rtype(i)))
        } else if op == insts::OP_ANDN {
            Ok(TaggedInstruction::Rtype(Rtype(i)))
        } else if op == insts::OP_BCLR {
            Ok(TaggedInstruction::Rtype(Rtype(i)))
        } else if op == insts::OP_BCLRI {
            Ok(TaggedInstruction::Itype(Itype(i)))
        } else if op == insts::OP_BEXT {
            Ok(TaggedInstruction::Rtype(Rtype(i)))
        } else if op == insts::OP_BEXTI {
            Ok(TaggedInstruction::Itype(Itype(i)))
        } else if op == insts::OP_BINV {
            Ok(TaggedInstruction::Rtype(Rtype(i)))
        } else if op == insts::OP_BINVI {
            Ok(TaggedInstruction::Itype(Itype(i)))
        } else if op == insts::OP_BSET {
            Ok(TaggedInstruction::Rtype(Rtype(i)))
        } else if op == insts::OP_BSETI {
            Ok(TaggedInstruction::Itype(Itype(i)))
        } else if op == insts::OP_CLMUL {
            Ok(TaggedInstruction::Rtype(Rtype(i)))
        } else if op == insts::OP_CLMULH {
            Ok(TaggedInstruction::Rtype(Rtype(i)))
        } else if op == insts::OP_CLMULR {
            Ok(TaggedInstruction::Rtype(Rtype(i)))
        } else if op == insts::OP_CLZ {
            Ok(TaggedInstruction::Rtype(Rtype(i)))
        } else if op == insts::OP_CLZW {
            Ok(TaggedInstruction::Rtype(Rtype(i)))
        } else if op == insts::OP_CPOP {
            Ok(TaggedInstruction::Rtype(Rtype(i)))
        } else if op == insts::OP_CPOPW {
            Ok(TaggedInstruction::Rtype(Rtype(i)))
        } else if op == insts::OP_CTZ {
            Ok(TaggedInstruction::Rtype(Rtype(i)))
        } else if op == insts::OP_CTZW {
            Ok(TaggedInstruction::Rtype(Rtype(i)))
        } else if op == insts::OP_MAX {
            Ok(TaggedInstruction::Rtype(Rtype(i)))
        } else if op == insts::OP_MAXU {
            Ok(TaggedInstruction::Rtype(Rtype(i)))
        } else if op == insts::OP_MIN {
            Ok(TaggedInstruction::Rtype(Rtype(i)))
        } else if op == insts::OP_MINU {
            Ok(TaggedInstruction::Rtype(Rtype(i)))
        } else if op == insts::OP_ORCB {
            Ok(TaggedInstruction::Rtype(Rtype(i)))
        } else if op == insts::OP_ORN {
            Ok(TaggedInstruction::Rtype(Rtype(i)))
        } else if op == insts::OP_REV8 {
            Ok(TaggedInstruction::Rtype(Rtype(i)))
        } else if op == insts::OP_ROL {
            Ok(TaggedInstruction::Rtype(Rtype(i)))
        } else if op == insts::OP_ROLW {
            Ok(TaggedInstruction::Rtype(Rtype(i)))
        } else if op == insts::OP_ROR {
            Ok(TaggedInstruction::Rtype(Rtype(i)))
        } else if op == insts::OP_RORI {
            Ok(TaggedInstruction::Itype(Itype(i)))
        } else if op == insts::OP_RORIW {
            Ok(TaggedInstruction::Itype(Itype(i)))
        } else if op == insts::OP_RORW {
            Ok(TaggedInstruction::Rtype(Rtype(i)))
        } else if op == insts::OP_SEXTB {
            Ok(TaggedInstruction::Rtype(Rtype(i)))
        } else if op == insts::OP_SEXTH {
            Ok(TaggedInstruction::Rtype(Rtype(i)))
        } else if op == insts::OP_SH1ADD {
            Ok(TaggedInstruction::Rtype(Rtype(i)))
        } else if op == insts::OP_SH1ADDUW {
            Ok(TaggedInstruction::Rtype(Rtype(i)))
        } else if op == insts::OP_SH2ADD {
            Ok(TaggedInstruction::Rtype(Rtype(i)))
        } else if op == insts::OP_SH2ADDUW {
            Ok(TaggedInstruction::Rtype(Rtype(i)))
        } else if op == insts::OP_SH3ADD {
            Ok(TaggedInstruction::Rtype(Rtype(i)))
        } else if op == insts::OP_SH3ADDUW {
            Ok(TaggedInstruction::Rtype(Rtype(i)))
        } else if op == insts::OP_SLLIUW {
            Ok(TaggedInstruction::Itype(Itype(i)))
        } else if op == insts::OP_XNOR {
            Ok(TaggedInstruction::Rtype(Rtype(i)))
        } else if op == insts::OP_ZEXTH {
            Ok(TaggedInstruction::Rtype(Rtype(i)))
        } else if op == insts::OP_WIDE_MUL {
            Ok(TaggedInstruction::R4type(R4type(i)))
        } else if op == insts::OP_WIDE_MULU {
            Ok(TaggedInstruction::R4type(R4type(i)))
        } else if op == insts::OP_WIDE_MULSU {
            Ok(TaggedInstruction::R4type(R4type(i)))
        } else if op == insts::OP_WIDE_DIV {
            Ok(TaggedInstruction::R4type(R4type(i)))
        } else if op == insts::OP_WIDE_DIVU {
            Ok(TaggedInstruction::R4type(R4type(i)))
        } else if op == insts::OP_ADC {
            Ok(TaggedInstruction::Rtype(Rtype(i)))
        } else if op == insts::OP_SBB {
            Ok(TaggedInstruction::R4type(R4type(i)))
        } else if op == insts::OP_ADCS {
            Ok(TaggedInstruction::R4type(R4type(i)))
        } else if op == insts::OP_SBBS {
            Ok(TaggedInstruction::R4type(R4type(i)))
        } else if op == insts::OP_ADD3A {
            Ok(TaggedInstruction::R5type(R5type(i)))
        } else if op == insts::OP_ADD3B {
            Ok(TaggedInstruction::R5type(R5type(i)))
        } else if op == insts::OP_ADD3C {
            Ok(TaggedInstruction::R5type(R5type(i)))
        } else if op == insts::OP_CUSTOM_LOAD_UIMM {
            Ok(TaggedInstruction::Utype(Utype(i)))
        } else if op == insts::OP_CUSTOM_LOAD_IMM {
            Ok(TaggedInstruction::Utype(Utype(i)))
        } else if op == insts::OP_AUIPC {
            Ok(TaggedInstruction::Utype(Utype(i)))
        } else if op == insts::OP_BEQ {
            Ok(TaggedInstruction::Stype(Stype(i)))
        } else if op == insts::OP_BGE {
            Ok(TaggedInstruction::Stype(Stype(i)))
        } else if op == insts::OP_BGEU {
            Ok(TaggedInstruction::Stype(Stype(i)))
        } else if op == insts::OP_BLT {
            Ok(TaggedInstruction::Stype(Stype(i)))
        } else if op == insts::OP_BLTU {
            Ok(TaggedInstruction::Stype(Stype(i)))
        } else if op == insts::OP_BNE {
            Ok(TaggedInstruction::Stype(Stype(i)))
        } else if op == insts::OP_EBREAK {
            Ok(TaggedInstruction::Rtype(Rtype(i)))
        } else if op == insts::OP_ECALL {
            Ok(TaggedInstruction::Rtype(Rtype(i)))
        } else if op == insts::OP_FENCE {
            Ok(TaggedInstruction::Rtype(Rtype(i)))
        } else if op == insts::OP_FENCEI {
            Ok(TaggedInstruction::Rtype(Rtype(i)))
        } else if op == insts::OP_JAL {
            Ok(TaggedInstruction::Utype(Utype(i)))
        } else if op == insts::OP_JALR_VERSION0 {
            Ok(TaggedInstruction::Itype(Itype(i)))
        } else if op == insts::OP_JALR_VERSION1 {
            Ok(TaggedInstruction::Itype(Itype(i)))
        } else if op == insts::OP_FAR_JUMP_REL {
            Ok(TaggedInstruction::Utype(Utype(i)))
        } else if op == insts::OP_FAR_JUMP_ABS {
            Ok(TaggedInstruction::Utype(Utype(i)))
        } else if op == insts::OP_CUSTOM_ASM_TRACE_JUMP {
            Ok(TaggedInstruction::Utype(Utype(i)))
        } else if op == insts::OP_CUSTOM_TRACE_END {
            Ok(TaggedInstruction::Rtype(Rtype(i)))
        } else {
            Err(Error::InvalidOp(op))
        }
    }
}

impl vstd::std_specs::convert::TryFromSpecImpl<Instruction> for TaggedInstruction {
    open spec fn obeys_try_from_spec() -> bool {
        true
    }

    open spec fn try_from_spec(i: Instruction) -> Result<TaggedInstruction, Error> {
        spec_tag(i)
    }
}

/// Tagging an instruction and taking the tag off again gives the
/// instruction back.
pub proof fn lemma_tag_untag(i: Instruction)
    ensures
        spec_tag(i) matches Ok(t) ==> spec_untag(t) == i,
{
}

} // verus!
