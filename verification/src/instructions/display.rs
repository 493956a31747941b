//! The assembly text of decoded instructions: the lower case mnemonic, then
//! the operands by ABI register name and signed decimal immediate.
use vstd::prelude::*;
use vstd::string::StringExecFns;
use crate::definitions::instructions::{
    spec_opcode_name, OP_BEQ, OP_BGE, OP_BGEU, OP_BLT, OP_BLTU, OP_BNE,
};
use crate::definitions::registers::{register_abi_name, spec_register_abi_name};
use super::{
    instruction_opcode_name, spec_byte_at, spec_extract_opcode, spec_immediate_at_32,
    spec_immediate_at_40, Instruction, Itype, R4type, R5type, Rtype, Stype, Utype,
};
use super::tagged::TaggedInstruction;

verus! {

/// What std's `str::to_lowercase` makes of `s`.
pub uninterp spec fn std_lowercase(s: Seq<char>) -> Seq<char>;

/// Every character of `s` is ASCII.
pub open spec fn is_ascii_text(s: Seq<char>) -> bool {
    forall|i: int| 0 <= i < s.len() ==> (s[i] as u32) < 128
}

/// `s` with each ASCII upper case letter turned into its lower case one.
pub open spec fn spec_ascii_lowercase(s: Seq<char>) -> Seq<char> {
    s.map_values(|c: char| if 'A' <= c && c <= 'Z' { ((c as u32) + 32) as char } else { c })
}

/// The lower case form of `s`, by std's `str::to_lowercase`. For text in
/// ASCII, Unicode's lower case mapping turns each upper case letter into
/// its lower case one and keeps every other character; beyond ASCII the
/// result is named, not stated, as the mapping takes pages.
#[verifier::external_body]
fn lowercase(s: &str) -> (r: String)
    ensures
        r@ == std_lowercase(s@),
        is_ascii_text(s@) ==> r@ == spec_ascii_lowercase(s@),
{
    s.to_lowercase()
}

/// The decimal digit `d`.
pub open spec fn digit_char(d: int) -> char {
    (('0' as int) + d) as char
}

/// The one-character text of the hexadecimal digit `d` (a decimal one
/// when below ten).
fn digit_text(d: u64) -> (s: &'static str)
    requires
        d < 16,
    ensures
        s@ == seq![hex_char(d as nat)],
        d < 10 ==> s@ == seq![digit_char(d as int)],
{
    proof {
        reveal_strlit("0");
        reveal_strlit("1");
        reveal_strlit("2");
        reveal_strlit("3");
        reveal_strlit("4");
        reveal_strlit("5");
        reveal_strlit("6");
        reveal_strlit("7");
        reveal_strlit("8");
        reveal_strlit("9");
        reveal_strlit("A");
        reveal_strlit("B");
        reveal_strlit("C");
        reveal_strlit("D");
        reveal_strlit("E");
        reveal_strlit("F");
    }
    let texts: [&'static str; 16] = [
        "0", "1", "2", "3", "4", "5", "6", "7", "8", "9", "A", "B", "C", "D", "E", "F",
    ];
    texts[d as usize]
}

/// The decimal digits of `n`, most significant first, with no leading
/// zero.
pub open spec fn spec_digits(n: nat) -> Seq<char>
    decreases n,
{
    if n < 10 {
        seq![digit_char(n as int)]
    } else {
        spec_digits(n / 10).push(digit_char((n % 10) as int))
    }
}

/// `v` written in decimal, with a minus sign when negative.
pub open spec fn spec_decimal(v: int) -> Seq<char> {
    if v < 0 {
        seq!['-'] + spec_digits((-v) as nat)
    } else {
        spec_digits(v as nat)
    }
}

/// Appends the decimal digits of `n` to `s`.
fn append_digits(s: &mut String, n: u64)
    ensures
        final(s)@ == old(s)@ + spec_digits(n as nat),
    decreases n,
{
    if n >= 10 {
        append_digits(s, n / 10);
    }
    s.append(digit_text(n % 10));
    proof {
        if n >= 10 {
            assert(spec_digits(n as nat) =~= spec_digits((n / 10) as nat) + seq![digit_char((n % 10) as int)]);
        }
    }
}

/// `v` in decimal, with a minus sign when negative.
fn decimal(v: i32) -> (r: String)
    ensures
        r@ == spec_decimal(v as int),
{
    let mut s = String::new();
    let magnitude: u64 = if v < 0 {
        proof {
            reveal_strlit("-");
        }
        s.append("-");
        (0i64 - (v as i64)) as u64
    } else {
        v as u64
    };
    append_digits(&mut s, magnitude);
    s
}

/// The mnemonic of opcode `op`: its name in lower case.
pub open spec fn spec_mnemonic(op: u16) -> Seq<char> {
    let name = spec_opcode_name(op)@;
    if is_ascii_text(name) {
        spec_ascii_lowercase(name)
    } else {
        std_lowercase(name)
    }
}

/// The ABI name of the register in the byte at `shift` of `i`.
pub open spec fn reg_text(i: Instruction, shift: u64) -> Seq<char> {
    spec_register_abi_name(spec_byte_at(i, shift))@
}

/// Whether an S-type instruction is a conditional branch.
pub open spec fn is_branch(op: u16) -> bool {
    op == OP_BEQ || op == OP_BNE || op == OP_BLT || op == OP_BGE || op == OP_BLTU || op == OP_BGEU
}

pub open spec fn spec_rtype_text(i: Instruction) -> Seq<char> {
    spec_mnemonic(spec_extract_opcode(i)) + " "@ + reg_text(i, 8) + ","@ + reg_text(i, 32) + ","@
        + reg_text(i, 40)
}

pub open spec fn spec_itype_text(i: Instruction) -> Seq<char> {
    spec_mnemonic(spec_extract_opcode(i)) + " "@ + reg_text(i, 8) + ","@ + spec_decimal(
        spec_immediate_at_40(i) as int,
    ) + "("@ + reg_text(i, 32) + ")"@
}

pub open spec fn spec_stype_text(i: Instruction) -> Seq<char> {
    if is_branch(spec_extract_opcode(i)) {
        spec_mnemonic(spec_extract_opcode(i)) + " "@ + reg_text(i, 32) + ","@ + reg_text(i, 8)
            + ","@ + spec_decimal(spec_immediate_at_40(i) as int)
    } else {
        spec_mnemonic(spec_extract_opcode(i)) + " "@ + reg_text(i, 8) + ","@ + spec_decimal(
            spec_immediate_at_40(i) as int,
        ) + "("@ + reg_text(i, 32) + ")"@
    }
}

pub open spec fn spec_utype_text(i: Instruction) -> Seq<char> {
    spec_mnemonic(spec_extract_opcode(i)) + " "@ + reg_text(i, 8) + ","@ + spec_decimal(
        spec_immediate_at_32(i) as int,
    )
}

pub open spec fn spec_r4type_text(i: Instruction) -> Seq<char> {
    spec_mnemonic(spec_extract_opcode(i)) + " "@ + reg_text(i, 8) + ","@ + reg_text(i, 32) + ","@
        + reg_text(i, 40) + ","@ + reg_text(i, 48)
}

pub open spec fn spec_r5type_text(i: Instruction) -> Seq<char> {
    spec_mnemonic(spec_extract_opcode(i)) + " "@ + reg_text(i, 8) + ","@ + reg_text(i, 32) + ","@
        + reg_text(i, 40) + ","@ + reg_text(i, 48) + ","@ + reg_text(i, 56)
}

impl Rtype {
    /// `op rd,rs1,rs2`.
    pub fn to_string(&self) -> (r: String)
        requires
            spec_byte_at(self.0, 8) < 32,
            spec_byte_at(self.0, 32) < 32,
            spec_byte_at(self.0, 40) < 32,
        ensures
            r@ == spec_rtype_text(self.0),
    {
        let mut s = lowercase(instruction_opcode_name(self.op()));
        s.append(" ");
        s.append(register_abi_name(self.rd()));
        s.append(",");
        s.append(register_abi_name(self.rs1()));
        s.append(",");
        s.append(register_abi_name(self.rs2()));
        s
    }
}

impl Itype {
    /// `op rd,imm(rs1)`, for every I-type instruction alike.
    pub fn to_string(&self) -> (r: String)
        requires
            spec_byte_at(self.0, 8) < 32,
            spec_byte_at(self.0, 32) < 32,
        ensures
            r@ == spec_itype_text(self.0),
    {
        let mut s = lowercase(instruction_opcode_name(self.op()));
        s.append(" ");
        s.append(register_abi_name(self.rd()));
        s.append(",");
        let imm = decimal(self.immediate_s());
        s.append(imm.as_str());
        s.append("(");
        s.append(register_abi_name(self.rs1()));
        s.append(")");
        s
    }
}

impl Stype {
    /// `op rs1,rs2,offset` for a branch, `op rs2,imm(rs1)` for a store.
    pub fn to_string(&self) -> (r: String)
        requires
            spec_byte_at(self.0, 8) < 32,
            spec_byte_at(self.0, 32) < 32,
        ensures
            r@ == spec_stype_text(self.0),
    {
        let op = self.op();
        let mut s = lowercase(instruction_opcode_name(op));
        s.append(" ");
        if op == OP_BEQ || op == OP_BNE || op == OP_BLT || op == OP_BGE || op == OP_BLTU || op
            == OP_BGEU {
            s.append(register_abi_name(self.rs1()));
            s.append(",");
            s.append(register_abi_name(self.rs2()));
            s.append(",");
            let imm = decimal(self.immediate_s());
            s.append(imm.as_str());
        } else {
            s.append(register_abi_name(self.rs2()));
            s.append(",");
            let imm = decimal(self.immediate_s());
            s.append(imm.as_str());
            s.append("(");
            s.append(register_abi_name(self.rs1()));
            s.append(")");
        }
        s
    }
}

impl Utype {
    /// `op rd,imm`.
    pub fn to_string(&self) -> (r: String)
        requires
            spec_byte_at(self.0, 8) < 32,
        ensures
            r@ == spec_utype_text(self.0),
    {
        let mut s = lowercase(instruction_opcode_name(self.op()));
        s.append(" ");
        s.append(register_abi_name(self.rd()));
        s.append(",");
        let imm = decimal(self.immediate_s());
        s.append(imm.as_str());
        s
    }
}

impl R4type {
    /// `op rd,rs1,rs2,rs3`.
    pub fn to_string(&self) -> (r: String)
        requires
            spec_byte_at(self.0, 8) < 32,
            spec_byte_at(self.0, 32) < 32,
            spec_byte_at(self.0, 40) < 32,
            spec_byte_at(self.0, 48) < 32,
        ensures
            r@ == spec_r4type_text(self.0),
    {
        let mut s = lowercase(instruction_opcode_name(self.op()));
        s.append(" ");
        s.append(register_abi_name(self.rd()));
        s.append(",");
        s.append(register_abi_name(self.rs1()));
        s.append(",");
        s.append(register_abi_name(self.rs2()));
        s.append(",");
        s.append(register_abi_name(self.rs3()));
        s
    }
}

impl R5type {
    /// `op rd,rs1,rs2,rs3,rs4`.
    pub fn to_string(&self) -> (r: String)
        requires
            spec_byte_at(self.0, 8) < 32,
            spec_byte_at(self.0, 32) < 32,
            spec_byte_at(self.0, 40) < 32,
            spec_byte_at(self.0, 48) < 32,
            spec_byte_at(self.0, 56) < 32,
        ensures
            r@ == spec_r5type_text(self.0),
    {
        let mut s = lowercase(instruction_opcode_name(self.op()));
        s.append(" ");
        s.append(register_abi_name(self.rd()));
        s.append(",");
        s.append(register_abi_name(self.rs1()));
        s.append(",");
        s.append(register_abi_name(self.rs2()));
        s.append(",");
        s.append(register_abi_name(self.rs3()));
        s.append(",");
        s.append(register_abi_name(self.rs4()));
        s
    }
}

/// The register bytes that the text of a tagged instruction names are small.
pub open spec fn tagged_text_registers_small(t: TaggedInstruction) -> bool {
    match t {
        TaggedInstruction::Rtype(i) => spec_byte_at(i.0, 8) < 32 && spec_byte_at(i.0, 32) < 32
            && spec_byte_at(i.0, 40) < 32,
        TaggedInstruction::Itype(i) => spec_byte_at(i.0, 8) < 32 && spec_byte_at(i.0, 32) < 32,
        TaggedInstruction::Stype(i) => spec_byte_at(i.0, 8) < 32 && spec_byte_at(i.0, 32) < 32,
        TaggedInstruction::Utype(i) => spec_byte_at(i.0, 8) < 32,
        TaggedInstruction::R4type(i) => spec_byte_at(i.0, 8) < 32 && spec_byte_at(i.0, 32) < 32
            && spec_byte_at(i.0, 40) < 32 && spec_byte_at(i.0, 48) < 32,
        TaggedInstruction::R5type(i) => spec_byte_at(i.0, 8) < 32 && spec_byte_at(i.0, 32) < 32
            && spec_byte_at(i.0, 40) < 32 && spec_byte_at(i.0, 48) < 32 && spec_byte_at(i.0, 56) < 32,
    }
}

/// The text of the instruction in its own format.
pub open spec fn spec_tagged_text(t: TaggedInstruction) -> Seq<char> {
    match t {
        TaggedInstruction::Rtype(i) => spec_rtype_text(i.0),
        TaggedInstruction::Itype(i) => spec_itype_text(i.0),
        TaggedInstruction::Stype(i) => spec_stype_text(i.0),
        TaggedInstruction::Utype(i) => spec_utype_text(i.0),
        TaggedInstruction::R4type(i) => spec_r4type_text(i.0),
        TaggedInstruction::R5type(i) => spec_r5type_text(i.0),
    }
}

impl TaggedInstruction {
    /// The assembly text of the instruction, by its format.
    pub fn to_string(&self) -> (r: String)
        requires
            tagged_text_registers_small(*self),
        ensures
            r@ == spec_tagged_text(*self),
    {
        match self {
            TaggedInstruction::Rtype(i) => i.to_string(),
            TaggedInstruction::Itype(i) => i.to_string(),
            TaggedInstruction::Stype(i) => i.to_string(),
            TaggedInstruction::Utype(i) => i.to_string(),
            TaggedInstruction::R4type(i) => i.to_string(),
            TaggedInstruction::R5type(i) => i.to_string(),
        }
    }
}

/// The upper case hexadecimal digit `d`.
pub open spec fn hex_char(d: nat) -> char {
    if d < 10 {
        (('0' as nat) + d) as char
    } else {
        (('A' as nat) + (d - 10)) as char
    }
}

/// The upper case hexadecimal digits of `v`, with no leading zero.
pub open spec fn spec_hex_digits(v: nat) -> Seq<char>
    decreases v,
{
    if v < 16 {
        seq![hex_char(v)]
    } else {
        spec_hex_digits(v / 16).push(hex_char(v % 16))
    }
}

/// `n` spaces.
pub open spec fn spaces(n: nat) -> Seq<char> {
    Seq::new(n, |_i: int| ' ')
}

/// `v` in upper case hexadecimal, right-aligned in 16 columns.
pub open spec fn spec_hex16(v: u64) -> Seq<char> {
    let d = spec_hex_digits(v as nat);
    if d.len() < 16 {
        spaces((16 - d.len()) as nat) + d
    } else {
        d
    }
}

/// Appends the upper case hexadecimal digits of `v` to `s`.
fn append_hex_digits(s: &mut String, v: u64)
    ensures
        final(s)@ == old(s)@ + spec_hex_digits(v as nat),
    decreases v,
{
    if v >= 16 {
        append_hex_digits(s, v / 16);
    }
    s.append(digit_text(v % 16));
    proof {
        if v >= 16 {
            assert(spec_hex_digits(v as nat) =~= spec_hex_digits((v / 16) as nat) + seq![hex_char((v % 16) as nat)]);
        }
    }
}

/// `16^k`.
pub open spec fn pow16(k: nat) -> nat
    decreases k,
{
    if k == 0 {
        1
    } else {
        16 * pow16((k - 1) as nat)
    }
}

/// A number below `16^k` has at most `k` hexadecimal digits.
proof fn lemma_hex_digits_below(v: nat, k: nat)
    requires
        1 <= k,
        v < pow16(k),
    ensures
        spec_hex_digits(v).len() <= k,
    decreases v,
{
    if v >= 16 {
        assert(pow16(0) == 1);
        let p = pow16((k - 1) as nat);
        assert(v / 16 < p) by (nonlinear_arith)
            requires
                v < 16 * p,
        ;
        if k > 1 {
            lemma_hex_digits_below(v / 16, (k - 1) as nat);
        }
    }
}

/// The hexadecimal digits of a 64 bit number are 16 at most.
proof fn lemma_hex_digits_len(v: nat)
    requires
        v < 0x1_0000_0000_0000_0000,
    ensures
        spec_hex_digits(v).len() <= 16,
{
    reveal_with_fuel(pow16, 17);
    assert(pow16(16) == 0x1_0000_0000_0000_0000);
    lemma_hex_digits_below(v, 16);
}

/// `v` in upper case hexadecimal right-aligned in 16 columns.
pub(crate) fn hex16(v: u64) -> (r: String)
    ensures
        r@ == spec_hex16(v),
{
    let mut digits = String::new();
    append_hex_digits(&mut digits, v);
    let len: usize = digits.as_str().unicode_len();
    proof {
        assert(digits@ =~= spec_hex_digits(v as nat));
        lemma_hex_digits_len(v as nat);
        reveal_strlit(" ");
    }
    let mut r = String::new();
    let mut k: usize = len;
    while k < 16
        invariant
            len <= k <= 16,
            len == spec_hex_digits(v as nat).len(),
            r@ =~= spaces((k - len) as nat),
            " "@ == seq![' '],
        decreases 16 - k,
    {
        r.append(" ");
        k = k + 1;
    }
    r.append(digits.as_str());
    r
}

/// The ABI name of register `i`, left-aligned in 4 columns.
pub open spec fn spec_padded_abi_name(i: usize) -> Seq<char> {
    spec_register_abi_name(i)@ + spaces((4 - spec_register_abi_name(i)@.len()) as nat)
}

/// The ABI names are four characters long at most.
proof fn lemma_abi_name_len(i: usize)
    requires
        i < 32,
    ensures
        spec_register_abi_name(i)@.len() == (if i == 0 {
            4int
        } else if i == 26 || i == 27 {
            3int
        } else {
            2int
        }),
{
    reveal_strlit("zero");
    reveal_strlit("ra");
    reveal_strlit("sp");
    reveal_strlit("gp");
    reveal_strlit("tp");
    reveal_strlit("t0");
    reveal_strlit("t1");
    reveal_strlit("t2");
    reveal_strlit("s0");
    reveal_strlit("s1");
    reveal_strlit("a0");
    reveal_strlit("a1");
    reveal_strlit("a2");
    reveal_strlit("a3");
    reveal_strlit("a4");
    reveal_strlit("a5");
    reveal_strlit("a6");
    reveal_strlit("a7");
    reveal_strlit("s2");
    reveal_strlit("s3");
    reveal_strlit("s4");
    reveal_strlit("s5");
    reveal_strlit("s6");
    reveal_strlit("s7");
    reveal_strlit("s8");
    reveal_strlit("s9");
    reveal_strlit("s10");
    reveal_strlit("s11");
    reveal_strlit("t3");
    reveal_strlit("t4");
    reveal_strlit("t5");
    reveal_strlit("t6");
}

/// Appends the ABI name of register `i` to `s`, left-aligned in 4 columns.
pub(crate) fn append_padded_abi_name(s: &mut String, i: usize)
    requires
        i < 32,
    ensures
        final(s)@ == old(s)@ + spec_padded_abi_name(i),
{
    proof {
        lemma_abi_name_len(i);
    }
    s.append(register_abi_name(i));
    let pad: usize = if i == 0 {
        0
    } else if i == 26 || i == 27 {
        1
    } else {
        2
    };
    let ghost start = s@;
    let mut k: usize = 0;
    while k < pad
        invariant
            k <= pad,
            pad <= 2,
            s@ == start + spaces(k as nat),
        decreases pad - k,
    {
        s.append(" ");
        proof {
            reveal_strlit(" ");
            assert(start + spaces((k + 1) as nat) =~= start + spaces(k as nat) + " "@);
        }
        k = k + 1;
    }
    proof {
        assert(spec_padded_abi_name(i) =~= spec_register_abi_name(i)@ + spaces(pad as nat));
    }
}

} // verus!
