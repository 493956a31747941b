//! Reading an ELF program into the plan of what to load where: the
//! headers come from goblin, the checks and the plan are this module's.
use vstd::prelude::*;
use crate::definitions::memory::{FLAG_EXECUTABLE, FLAG_FREEZED};
use crate::error::Error;
use crate::instructions::register::Register;
use crate::machine::{VERSION1, VERSION3};
use crate::memory::{round_page_down, round_page_up, spec_round_page_down, spec_round_page_up};
use core::ops::Range;
use goblin::container::{Container, Ctx};
use goblin::elf::header::{EI_CLASS, EI_DATA};
use scroll::Pread;
use vstd::bytes::{spec_u32_from_le_bytes, u32_from_le_bytes};
use vstd::slice::slice_subrange;


verus! {

/// The program header type of a loadable segment.
pub const PT_LOAD: u32 = 1;

/// The segment flag for executable.
pub const PF_X: u32 = 1;

/// The segment flag for writable.
pub const PF_W: u32 = 2;

/// The segment flag for readable.
pub const PF_R: u32 = 4;

/// The section flag for executable machine instructions.
pub const SHF_EXECINSTR: u32 = 0x4;

/// The `class` byte of the ELF identification for 32 bit files.
pub const ELFCLASS32: u8 = 1;

/// The `class` byte of the ELF identification for 64 bit files.
pub const ELFCLASS64: u8 = 2;

/// The `data` byte of the ELF identification for little endian files.
pub const ELFDATA2LSB: u8 = 1;

/// The `data` byte of the ELF identification for big endian files.
pub const ELFDATA2MSB: u8 = 2;

/// The GNU property that holds the RISC-V features of the program.
pub const GNU_PROPERTY_RISCV_FEATURE_1_AND: u32 = 0xC000_0000;

pub const GNU_PROPERTY_RISCV_FEATURE_1_CFI_LP_UNLABELED: u32 = 0b001;

pub const GNU_PROPERTY_RISCV_FEATURE_1_CFI_SS: u32 = 0b010;

pub const GNU_PROPERTY_RISCV_FEATURE_1_CFI_LP_FUNC_SIG: u32 = 0b100;

/// Whether a 64 bit container: goblin's `Header::container`, by the class
/// byte.
pub open spec fn spec_container_is_big(class: u8) -> Option<bool> {
    if class == ELFCLASS32 {
        Some(false)
    } else if class == ELFCLASS64 {
        Some(true)
    } else {
        None
    }
}

/// Whether little endian: goblin's `Header::endianness`, by the data byte.
pub open spec fn spec_is_little_endian(data: u8) -> Option<bool> {
    if data == ELFDATA2LSB {
        Some(true)
    } else if data == ELFDATA2MSB {
        Some(false)
    } else {
        None
    }
}

fn container_is_big(class: u8) -> (r: Option<bool>)
    ensures
        r == spec_container_is_big(class),
{
    if class == ELFCLASS32 {
        Some(false)
    } else if class == ELFCLASS64 {
        Some(true)
    } else {
        None
    }
}

fn is_little_endian(data: u8) -> (r: Option<bool>)
    ensures
        r == spec_is_little_endian(data),
{
    if data == ELFDATA2LSB {
        Some(true)
    } else if data == ELFDATA2MSB {
        Some(false)
    } else {
        None
    }
}

/// The page flags of a loadable segment with ELF flags `p_flags`: an
/// executable segment is frozen executable, a writable one stays writable
/// (frozen too, where `allow_freeze_writable`), a read-only one is frozen.
/// A segment that cannot be read, or is both writable and executable, is
/// refused.
pub open spec fn spec_convert_flags(p_flags: u32, allow_freeze_writable: bool, vaddr: u64) -> Result<u8, Error> {
    let readable: bool = p_flags & 4 != 0;
    let writable: bool = p_flags & 2 != 0;
    let executable: bool = p_flags & 1 != 0;
    if !readable {
        Err(Error::ElfSegmentUnreadable(vaddr))
    } else if writable && executable {
        Err(Error::ElfSegmentWritableAndExecutable(vaddr))
    } else if executable {
        Ok(FLAG_EXECUTABLE | FLAG_FREEZED)
    } else if writable && !allow_freeze_writable {
        Ok(0)
    } else {
        Ok(FLAG_FREEZED)
    }
}

/// Loadable segments never give pages that can be both written and run:
/// a segment that asks for both, or cannot be read, is refused; an
/// executable segment becomes frozen executable pages; a writable one stays
/// writable (not frozen, not executable) unless writable segments may be
/// frozen; and any other readable segment becomes frozen pages that cannot
/// be run.
pub proof fn lemma_flags_never_writable_and_executable(p_flags: u32, allow_freeze_writable: bool, vaddr: u64)
    ensures
        ({
            let readable = p_flags & PF_R != 0;
            let writable = p_flags & PF_W != 0;
            let executable = p_flags & PF_X != 0;
            match spec_convert_flags(p_flags, allow_freeze_writable, vaddr) {
                Err(e) => (!readable && e == Error::ElfSegmentUnreadable(vaddr)) || (readable
                    && writable && executable && e == Error::ElfSegmentWritableAndExecutable(vaddr)),
                Ok(f) => {
                    &&& readable
                    &&& !(writable && executable)
                    &&& executable ==> f == FLAG_EXECUTABLE | FLAG_FREEZED
                    &&& (!executable && writable && !allow_freeze_writable) ==> f == 0
                    &&& (!executable && !(writable && !allow_freeze_writable)) ==> f == FLAG_FREEZED
                },
            }
        }),
{
}

/// Converts the ELF flags of a segment into page flags.
pub fn convert_flags(p_flags: u32, allow_freeze_writable: bool, vaddr: u64) -> (r: Result<u8, Error>)
    ensures
        r == spec_convert_flags(p_flags, allow_freeze_writable, vaddr),
{
    let readable: bool = p_flags & PF_R != 0;
    let writable: bool = p_flags & PF_W != 0;
    let executable: bool = p_flags & PF_X != 0;
    if !readable {
        return Err(Error::ElfSegmentUnreadable(vaddr));
    }
    if writable && executable {
        return Err(Error::ElfSegmentWritableAndExecutable(vaddr));
    }
    if executable {
        Ok(FLAG_EXECUTABLE | FLAG_FREEZED)
    } else if writable && !allow_freeze_writable {
        Ok(0)
    } else {
        Ok(FLAG_FREEZED)
    }
}

/// A program header, with the fields of goblin's.
#[derive(Debug, Clone, Copy, PartialEq, Eq, Structural)]
pub struct ProgramHeader {
    pub p_type: u32,
    pub p_flags: u32,
    pub p_offset: u64,
    pub p_vaddr: u64,
    pub p_paddr: u64,
    pub p_filesz: u64,
    pub p_memsz: u64,
    pub p_align: u64,
}

/// A section header, with the fields of goblin's.
#[derive(Debug, Clone, Copy, PartialEq, Eq, Structural)]
pub struct SectionHeader {
    pub sh_name: usize,
    pub sh_type: u32,
    pub sh_flags: u64,
    pub sh_addr: u64,
    pub sh_offset: u64,
    pub sh_size: u64,
    pub sh_link: u32,
    pub sh_info: u32,
    pub sh_addralign: u64,
    pub sh_entsize: u64,
}

/// The fields of the ELF file header that loading reads.
#[derive(Debug, Clone, Copy, PartialEq, Eq, Structural)]
pub struct ElfHeaderFields {
    pub ident_class: u8,
    pub ident_data: u8,
    pub e_entry: u64,
    pub e_phoff: u64,
    pub e_phnum: u16,
    pub e_shoff: u64,
    pub e_shnum: u16,
    pub e_shstrndx: u16,
}

/// What goblin reads as the ELF file header at the start of `program`, or
/// the message of its error.
pub uninterp spec fn goblin_elf_header(program: Seq<u8>) -> Result<ElfHeaderFields, Seq<char>>;

/// Reads the ELF file header with goblin's `Header` through scroll's
/// `pread`. The result is named, not stated: it depends on the bytes alone.
#[verifier::external_body]
fn read_elf_header(program: &[u8]) -> (r: Result<ElfHeaderFields, String>)
    ensures
        match r {
            Ok(h) => goblin_elf_header(program@) == Ok::<ElfHeaderFields, Seq<char>>(h),
            Err(m) => goblin_elf_header(program@) == Err::<ElfHeaderFields, Seq<char>>(m@),
        },
{
    match program.pread::<goblin::elf::Header>(0) {
        Ok(h) => Ok(ElfHeaderFields { ident_class: h.e_ident[EI_CLASS], ident_data: h.e_ident[EI_DATA],
            e_entry: h.e_entry, e_phoff: h.e_phoff, e_phnum: h.e_phnum, e_shoff: h.e_shoff,
            e_shnum: h.e_shnum, e_shstrndx: h.e_shstrndx }),
        Err(e) => Err(e.to_string()),
    }
}

/// What goblin's `ProgramHeader::parse` reads as the `count` program
/// headers at `offset`, or the message of its error.
pub uninterp spec fn goblin_program_headers(
    program: Seq<u8>,
    offset: usize,
    count: usize,
    is_big: bool,
    is_little_endian: bool,
) -> Result<Seq<ProgramHeader>, Seq<char>>;

/// Reads the program headers with goblin's `ProgramHeader::parse`, in the
/// container and byte order given. The result is named, not stated.
#[verifier::external_body]
fn parse_program_headers(program: &[u8], offset: usize, count: usize, is_big: bool, little: bool) -> (r:
    Result<Vec<ProgramHeader>, String>)
    ensures
        match r {
            Ok(v) => goblin_program_headers(program@, offset, count, is_big, little) == Ok::<Seq<ProgramHeader>, Seq<char>>(v@),
            Err(m) => goblin_program_headers(program@, offset, count, is_big, little) == Err::<Seq<ProgramHeader>, Seq<char>>(m@),
        },
{
    let ctx = Ctx::new(if is_big { Container::Big } else { Container::Little }, if little { scroll::LE } else { scroll::BE });
    match goblin::elf::program_header::ProgramHeader::parse(program, offset, count, ctx) {
        Ok(v) => Ok(v.iter().map(|h| ProgramHeader { p_type: h.p_type, p_flags: h.p_flags, p_offset: h.p_offset,
            p_vaddr: h.p_vaddr, p_paddr: h.p_paddr, p_filesz: h.p_filesz, p_memsz: h.p_memsz, p_align: h.p_align }).collect()),
        Err(e) => Err(e.to_string()),
    }
}

/// What goblin's `SectionHeader::parse` reads as the `count` section
/// headers at `offset`, or the message of its error.
pub uninterp spec fn goblin_section_headers(
    program: Seq<u8>,
    offset: usize,
    count: usize,
    is_big: bool,
    is_little_endian: bool,
) -> Result<Seq<SectionHeader>, Seq<char>>;

/// Reads the section headers with goblin's `SectionHeader::parse`, in the
/// container and byte order given. The result is named, not stated.
#[verifier::external_body]
fn parse_section_headers(program: &[u8], offset: usize, count: usize, is_big: bool, little: bool) -> (r:
    Result<Vec<SectionHeader>, String>)
    ensures
        match r {
            Ok(v) => goblin_section_headers(program@, offset, count, is_big, little) == Ok::<Seq<SectionHeader>, Seq<char>>(v@),
            Err(m) => goblin_section_headers(program@, offset, count, is_big, little) == Err::<Seq<SectionHeader>, Seq<char>>(m@),
        },
{
    let ctx = Ctx::new(if is_big { Container::Big } else { Container::Little }, if little { scroll::LE } else { scroll::BE });
    match goblin::elf::section_header::SectionHeader::parse(program, offset, count, ctx) {
        Ok(v) => Ok(v.iter().map(|h| SectionHeader { sh_name: h.sh_name, sh_type: h.sh_type, sh_flags: h.sh_flags,
            sh_addr: h.sh_addr, sh_offset: h.sh_offset, sh_size: h.sh_size, sh_link: h.sh_link, sh_info: h.sh_info,
            sh_addralign: h.sh_addralign, sh_entsize: h.sh_entsize }).collect()),
        Err(e) => Err(e.to_string()),
    }
}

/// What loading is given to do for one segment: map `size` bytes at
/// `addr` with `flags`, filled from `source` of the program, starting
/// `offset_from_addr` bytes into the mapping.
#[derive(Debug, PartialEq, Eq)]
pub struct LoadingAction {
    pub addr: u64,
    pub size: u64,
    pub flags: u8,
    pub source: Range<u64>,
    pub offset_from_addr: u64,
}

impl Clone for LoadingAction {
    fn clone(&self) -> (r: Self)
        ensures
            r == *self,
    {
        LoadingAction {
            addr: self.addr,
            size: self.size,
            flags: self.flags,
            source: Range { start: self.source.start, end: self.source.end },
            offset_from_addr: self.offset_from_addr,
        }
    }
}

/// The control flow integrity features that a program asks for.
#[derive(Clone, Copy, Debug, Eq, PartialEq, Structural)]
pub struct CFI {
    pub lp_unlabeled: bool,
    pub ss: bool,
    pub lp_func_sig: bool,
}

/// No feature asked for.
pub open spec fn spec_cfi_none() -> CFI {
    CFI { lp_unlabeled: false, ss: false, lp_func_sig: false }
}

impl Default for CFI {
    fn default() -> (r: Self)
        ensures
            r == spec_cfi_none(),
    {
        CFI { lp_unlabeled: false, ss: false, lp_func_sig: false }
    }
}

impl CFI {
    /// Landing pads are allowed where either landing pad feature is on.
    pub fn allow_lpad(&self) -> (r: bool)
        ensures
            r == (self.lp_unlabeled || self.lp_func_sig),
    {
        self.lp_unlabeled || self.lp_func_sig
    }
}

/// The features of the low three bits of `byte`.
pub open spec fn spec_cfi_from_byte(byte: u8) -> CFI {
    CFI {
        lp_unlabeled: byte & 0b001 != 0,
        ss: byte & 0b010 != 0,
        lp_func_sig: byte & 0b100 != 0,
    }
}

/// The byte whose low three bits are the features.
pub open spec fn spec_cfi_to_byte(val: CFI) -> u8 {
    (if val.lp_unlabeled { 0b001u8 } else { 0u8 }) | (if val.ss { 0b010u8 } else { 0u8 }) | (
    if val.lp_func_sig {
        0b100u8
    } else {
        0u8
    })
}

impl From<u8> for CFI {
    fn from(byte: u8) -> (r: Self) {
        CFI {
            lp_unlabeled: byte & 0b0000_0001 != 0,
            ss: byte & 0b0000_0010 != 0,
            lp_func_sig: byte & 0b0000_0100 != 0,
        }
    }
}

impl vstd::std_specs::convert::FromSpecImpl<u8> for CFI {
    open spec fn obeys_from_spec() -> bool {
        true
    }

    open spec fn from_spec(byte: u8) -> CFI {
        spec_cfi_from_byte(byte)
    }
}

impl From<CFI> for u8 {
    fn from(val: CFI) -> (r: Self) {
        (if val.lp_unlabeled { 0b0000_0001 } else { 0 }) | (if val.ss { 0b0000_0010 } else { 0 }) | (
        if val.lp_func_sig {
            0b0000_0100
        } else {
            0
        })
    }
}

impl vstd::std_specs::convert::FromSpecImpl<CFI> for u8 {
    open spec fn obeys_from_spec() -> bool {
        true
    }

    open spec fn from_spec(val: CFI) -> u8 {
        spec_cfi_to_byte(val)
    }
}

/// Turning features into a byte and back gives the same features; turning
/// a byte into features and back keeps its low three bits.
pub proof fn lemma_cfi_byte_roundtrip(c: CFI, byte: u8)
    ensures
        spec_cfi_from_byte(spec_cfi_to_byte(c)) == c,
        spec_cfi_to_byte(spec_cfi_from_byte(byte)) == byte & 0b111,
{
    let l: bool = c.lp_unlabeled;
    let s: bool = c.ss;
    let f: bool = c.lp_func_sig;
    assert({
        let b: u8 = (if l { 0b001u8 } else { 0u8 }) | (if s { 0b010u8 } else { 0u8 }) | (if f {
            0b100u8
        } else {
            0u8
        });
        &&& (b & 0b001 != 0) == l
        &&& (b & 0b010 != 0) == s
        &&& (b & 0b100 != 0) == f
    }) by (bit_vector);
    assert((if byte & 0b001 != 0 { 0b001u8 } else { 0u8 }) | (if byte & 0b010 != 0 {
        0b010u8
    } else {
        0u8
    }) | (if byte & 0b100 != 0 { 0b100u8 } else { 0u8 }) == byte & 0b111) by (bit_vector);
}

/// How reading a program fails, as the contracts tell it: a parse error or
/// an unexpected error by its message, or any other error.
pub enum ElfFailure {
    Parse(Seq<char>),
    Unexpected(Seq<char>),
    Other(Error),
}

/// `e` is the error that `f` describes.
pub open spec fn error_matches(e: Error, f: ElfFailure) -> bool {
    match f {
        ElfFailure::Parse(m) => e matches Error::ElfParseError(s) && s@ == m,
        ElfFailure::Unexpected(m) => e matches Error::Unexpected(s) && s@ == m,
        ElfFailure::Other(o) => e == o,
    }
}

/// The parts of a program that loading reads, as goblin gives them.
pub struct ParseElfPortableData {
    pub entry: u64,
    pub program_headers: Vec<ProgramHeader>,
    pub section_headers: Vec<SectionHeader>,
    pub shstrtab_offset: usize,
}

/// The entry point, program headers, section headers and section name
/// table index of `program`, for registers of `bits` bits; the section
/// headers are read where `with_sections`, else there are none.
pub open spec fn spec_portable(program: Seq<u8>, bits: u8, with_sections: bool) -> Result<
    (u64, Seq<ProgramHeader>, Seq<SectionHeader>, usize),
    ElfFailure,
> {
    match goblin_elf_header(program) {
        Err(m) => Err(ElfFailure::Parse(m)),
        Ok(h) => match spec_container_is_big(h.ident_class) {
            None => Err(ElfFailure::Other(Error::ElfBits)),
            Some(big) => match spec_is_little_endian(h.ident_data) {
                None => Err(ElfFailure::Other(Error::ElfBits)),
                Some(little) => if bits != (if big { 64u8 } else { 32u8 }) {
                    Err(ElfFailure::Other(Error::ElfBits))
                } else {
                    match goblin_program_headers(program, h.e_phoff as usize, h.e_phnum as usize, big, little) {
                        Err(m) => Err(ElfFailure::Parse(m)),
                        Ok(phs) => if with_sections {
                            match goblin_section_headers(program, h.e_shoff as usize, h.e_shnum as usize, big, little) {
                                Err(m) => Err(ElfFailure::Parse(m)),
                                Ok(shs) => Ok((h.e_entry, phs, shs, h.e_shstrndx as usize)),
                            }
                        } else {
                            Ok((h.e_entry, phs, Seq::empty(), h.e_shstrndx as usize))
                        },
                    }
                },
            },
        },
    }
}

/// `r` is what `spec_portable` describes.
pub open spec fn portable_result_matches(
    r: Result<ParseElfPortableData, Error>,
    s: Result<(u64, Seq<ProgramHeader>, Seq<SectionHeader>, usize), ElfFailure>,
) -> bool {
    match s {
        Ok((entry, phs, shs, idx)) => r matches Ok(d) && d.entry == entry && d.program_headers@ == phs
            && d.section_headers@ == shs && d.shstrtab_offset == idx,
        Err(f) => r matches Err(e) && error_matches(e, f),
    }
}

/// The container size and byte order of a header for registers of `bits`
/// bits, or `None` when the header's class or data encoding is unknown or
/// its class does not fit the registers.
pub open spec fn spec_header_layout(h: ElfHeaderFields, bits: u8) -> Option<(bool, bool)> {
    match spec_container_is_big(h.ident_class) {
        None => None,
        Some(big) => match spec_is_little_endian(h.ident_data) {
            None => None,
            Some(little) => if bits != (if big { 64u8 } else { 32u8 }) {
                None
            } else {
                Some((big, little))
            },
        },
    }
}

/// Whether the header read describes a 64 bit container and little endian
/// data, refusing a class or encoding it does not know and a class that
/// does not fit registers `R`.
pub fn header_layout<R: Register>(header: &ElfHeaderFields) -> (r: Result<(bool, bool), Error>)
    ensures
        match spec_header_layout(*header, R::BITS) {
            Some(l) => r == Ok::<(bool, bool), Error>(l),
            None => r == Err::<(bool, bool), Error>(Error::ElfBits),
        },
{
    let big: bool = match container_is_big(header.ident_class) {
        Some(b) => b,
        None => {
            return Err(Error::ElfBits);
        },
    };
    let little: bool = match is_little_endian(header.ident_data) {
        Some(l) => l,
        None => {
            return Err(Error::ElfBits);
        },
    };
    let bits: u8 = if big { 64 } else { 32 };
    if R::BITS != bits {
        return Err(Error::ElfBits);
    }
    Ok((big, little))
}

impl ParseElfPortableData {
    fn read<R: Register>(program: &[u8], with_sections: bool) -> (r: Result<Self, Error>)
        ensures
            portable_result_matches(r, spec_portable(program@, R::BITS, with_sections)),
    {
        let header: ElfHeaderFields = match read_elf_header(program) {
            Ok(h) => h,
            Err(m) => {
                return Err(Error::ElfParseError(m));
            },
        };
        let (big, little): (bool, bool) = match header_layout::<R>(&header) {
            Ok(l) => l,
            Err(e) => {
                return Err(e);
            },
        };
        let program_headers: Vec<ProgramHeader> = match parse_program_headers(
            program,
            header.e_phoff as usize,
            header.e_phnum as usize,
            big,
            little,
        ) {
            Ok(v) => v,
            Err(m) => {
                return Err(Error::ElfParseError(m));
            },
        };
        let section_headers: Vec<SectionHeader> = if with_sections {
            match parse_section_headers(program, header.e_shoff as usize, header.e_shnum as usize, big, little) {
                Ok(v) => v,
                Err(m) => {
                    return Err(Error::ElfParseError(m));
                },
            }
        } else {
            Vec::new()
        };
        Ok(ParseElfPortableData {
            entry: header.e_entry,
            program_headers,
            section_headers,
            shstrtab_offset: header.e_shstrndx as usize,
        })
    }

    /// Reads the entry point and the program headers, as the first version
    /// does; there are no section headers.
    pub fn from_v0<R: Register>(program: &[u8]) -> (r: Result<Self, Error>)
        ensures
            portable_result_matches(r, spec_portable(program@, R::BITS, false)),
    {
        Self::read::<R>(program, false)
    }

    /// Reads the entry point and the program headers, as versions 1 and 2
    /// do; there are no section headers.
    pub fn from_v1<R: Register>(program: &[u8]) -> (r: Result<Self, Error>)
        ensures
            portable_result_matches(r, spec_portable(program@, R::BITS, false)),
    {
        Self::read::<R>(program, false)
    }

    /// Reads the entry point, the program headers and the section headers,
    /// as version 3 does.
    pub fn from_v3<R: Register>(program: &[u8]) -> (r: Result<Self, Error>)
        ensures
            portable_result_matches(r, spec_portable(program@, R::BITS, true)),
    {
        Self::read::<R>(program, true)
    }
}

/// The name of the section that holds the GNU property notes.
pub const NOTE_GNU_PROPERTY_NAME: [u8; 18] = [
    46, 110, 111, 116, 101, 46, 103, 110, 117, 46, 112, 114, 111, 112, 101, 114, 116, 121,
];

/// The header of a GNU property note: name size 4, descriptor size 16,
/// type `NT_GNU_PROPERTY_TYPE_0` (5), and the name "GNU".
pub const GNU_PROPERTY_NOTE_HEADER: [u8; 16] = [4, 0, 0, 0, 16, 0, 0, 0, 5, 0, 0, 0, 71, 78, 85, 0];

/// The features that the properties of `note`, from `offset` on, leave
/// set, starting from `cfi`: each property is a type and a size, each 4
/// bytes little endian, and data padded to 8 bytes; the RISC-V feature
/// property sets the features from its first 4 data bytes. A size larger
/// than the whole note is refused.
pub open spec fn spec_gnu_property_from(note: Seq<u8>, offset: int, cfi: CFI) -> Result<
    CFI,
    ElfFailure,
>
    decreases (if offset < note.len() {
        note.len() - offset
    } else {
        0
    }),
{
    if offset < 0 || offset + 8 > note.len() {
        Ok(cfi)
    } else {
        let pr_type: u32 = spec_u32_from_le_bytes(note.subrange(offset, offset + 4));
        let datasz: usize = spec_u32_from_le_bytes(note.subrange(offset + 4, offset + 8)) as usize;
        if datasz > note.len() {
            Err(ElfFailure::Parse("Unreasonable property data size"@))
        } else {
            let body: int = offset + 8;
            let next_cfi: CFI = if pr_type == GNU_PROPERTY_RISCV_FEATURE_1_AND && datasz >= 4 && body
                + 4 <= note.len() {
                let flags: u32 = spec_u32_from_le_bytes(note.subrange(body, body + 4));
                CFI {
                    lp_unlabeled: flags & GNU_PROPERTY_RISCV_FEATURE_1_CFI_LP_UNLABELED != 0,
                    ss: flags & GNU_PROPERTY_RISCV_FEATURE_1_CFI_SS != 0,
                    lp_func_sig: flags & GNU_PROPERTY_RISCV_FEATURE_1_CFI_LP_FUNC_SIG != 0,
                }
            } else {
                cfi
            };
            let aligned: int = (datasz + 7) / 8 * 8;
            spec_gnu_property_from(note, body + aligned, next_cfi)
        }
    }
}

/// `r` is the outcome that `s` describes.
pub open spec fn cfi_result_matches(r: Result<CFI, Error>, s: Result<CFI, ElfFailure>) -> bool {
    match s {
        Ok(c) => r == Ok::<CFI, Error>(c),
        Err(f) => r matches Err(e) && error_matches(e, f),
    }
}

/// Reads the RISC-V control flow integrity features out of the properties
/// of a GNU property note.
pub fn parse_gnu_property_note(note_data: &[u8]) -> (r: Result<CFI, Error>)
    requires
        note_data@.len() <= usize::MAX / 4,
    ensures
        cfi_result_matches(r, spec_gnu_property_from(note_data@, 0, spec_cfi_none())),
{
    let mut cfi = CFI { lp_unlabeled: false, ss: false, lp_func_sig: false };
    let mut offset: usize = 0;
    let len: usize = note_data.len();
    while offset <= len && len - offset >= 8
        invariant
            len == note_data@.len(),
            len <= usize::MAX / 4,
            offset <= 2 * len + 8,
            spec_gnu_property_from(note_data@, 0, spec_cfi_none()) == spec_gnu_property_from(
                note_data@,
                offset as int,
                cfi,
            ),
        decreases (if offset < len {
            len - offset
        } else {
            0
        }),
    {
        let pr_type: u32 = u32_from_le_bytes(slice_subrange(note_data, offset, offset + 4));
        let pr_datasz: usize = u32_from_le_bytes(slice_subrange(note_data, offset + 4, offset + 8)) as usize;
        // A size beyond the note is refused before it is used.
        if pr_datasz > len {
            return Err(Error::ElfParseError("Unreasonable property data size".to_owned()));
        }
        offset = offset + 8;
        if pr_type == GNU_PROPERTY_RISCV_FEATURE_1_AND && pr_datasz >= 4 && offset + 4 <= len {
            let feature_flags: u32 = u32_from_le_bytes(slice_subrange(note_data, offset, offset + 4));
            cfi.lp_unlabeled = feature_flags & GNU_PROPERTY_RISCV_FEATURE_1_CFI_LP_UNLABELED != 0;
            cfi.ss = feature_flags & GNU_PROPERTY_RISCV_FEATURE_1_CFI_SS != 0;
            cfi.lp_func_sig = feature_flags & GNU_PROPERTY_RISCV_FEATURE_1_CFI_LP_FUNC_SIG != 0;
        }
        // Properties are aligned to 8 bytes.
        let aligned_datasz: usize = (pr_datasz + 7) / 8 * 8;
        offset = offset + aligned_datasz;
    }
    Ok(cfi)
}

/// The index of the first zero byte of `s` from `from` on.
pub open spec fn spec_first_zero(s: Seq<u8>, from: int) -> Option<int>
    decreases s.len() - from,
{
    if from < 0 || from >= s.len() {
        None
    } else if s[from] == 0 {
        Some(from)
    } else {
        spec_first_zero(s, from + 1)
    }
}

proof fn lemma_first_zero_in_range(s: Seq<u8>, from: int)
    requires
        from >= 0,
    ensures
        spec_first_zero(s, from) matches Some(p) ==> from <= p < s.len() && s[p] == 0,
    decreases s.len() - from,
{
    if from < s.len() && s[from] != 0 {
        lemma_first_zero_in_range(s, from + 1);
    }
}

fn first_zero(s: &[u8]) -> (r: Option<usize>)
    ensures
        r matches Some(p) ==> spec_first_zero(s@, 0) == Some(p as int) && p < s@.len(),
        r is None ==> spec_first_zero(s@, 0) is None,
{
    proof {
        lemma_first_zero_in_range(s@, 0);
    }
    let mut j: usize = 0;
    while j < s.len()
        invariant
            j <= s@.len(),
            spec_first_zero(s@, 0) == spec_first_zero(s@, j as int),
        decreases s@.len() - j,
    {
        if s[j] == 0 {
            return Some(j);
        }
        j = j + 1;
    }
    None
}

fn bytes_equal(a: &[u8], b: &[u8]) -> (r: bool)
    ensures
        r == (a@ == b@),
{
    if a.len() != b.len() {
        return false;
    }
    let mut j: usize = 0;
    while j < a.len()
        invariant
            a@.len() == b@.len(),
            j <= a@.len(),
            forall|k: int| 0 <= k < j ==> a@[k] == b@[k],
        decreases a@.len() - j,
    {
        if a[j] != b[j] {
            return false;
        }
        j = j + 1;
    }
    assert(a@ =~= b@);
    true
}

/// The features found by looking at the sections of `sections` from `i`
/// on, whose names lie in `program[start..end]`: the first section named
/// `.note.gnu.property` decides. A note of the expected shape gives its
/// features (none where its properties are malformed); any other gives
/// none. A name out of the table, a name with no terminating zero, a note
/// section under 12 bytes or past the program is refused.
pub open spec fn spec_scan_sections(
    program: Seq<u8>,
    sections: Seq<SectionHeader>,
    i: int,
    start: usize,
    end: usize,
) -> Result<CFI, ElfFailure>
    decreases sections.len() - i,
{
    if i < 0 || i >= sections.len() {
        Ok(spec_cfi_none())
    } else {
        let s: SectionHeader = sections[i];
        let name_offset: usize = start.saturating_add(s.sh_name);
        if name_offset >= end {
            Err(ElfFailure::Parse("Invalid section name offset"@))
        } else {
            let names: Seq<u8> = program.subrange(name_offset as int, end as int);
            match spec_first_zero(names, 0) {
                None => Err(ElfFailure::Parse("Section name is not null-terminated"@)),
                Some(p) => if names.take(p) != NOTE_GNU_PROPERTY_NAME@ {
                    spec_scan_sections(program, sections, i + 1, start, end)
                } else if s.sh_size < 12 {
                    Err(ElfFailure::Parse(".note.gnu.property section too small"@))
                } else {
                    let note_start: usize = s.sh_offset as usize;
                    let note_end: usize = note_start.saturating_add(s.sh_size as usize);
                    if note_end > program.len() {
                        Err(ElfFailure::Parse(".note.gnu.property section exceeds program size"@))
                    } else {
                        let note: Seq<u8> = program.subrange(note_start as int, note_end as int);
                        if note.len() == 32 && note.take(16) == GNU_PROPERTY_NOTE_HEADER@ {
                            match spec_gnu_property_from(note.skip(16), 0, spec_cfi_none()) {
                                Ok(c) => Ok(c),
                                Err(_) => Ok(spec_cfi_none()),
                            }
                        } else {
                            Ok(spec_cfi_none())
                        }
                    }
                },
            }
        }
    }
}

/// The control flow integrity features of a program: read from version 3
/// on only, from the section header string table at `shstrndx`.
pub open spec fn spec_read_cfi(
    program: Seq<u8>,
    version: u32,
    sections: Seq<SectionHeader>,
    shstrndx: usize,
) -> Result<CFI, ElfFailure> {
    if version < VERSION3 {
        Ok(spec_cfi_none())
    } else if shstrndx >= sections.len() {
        Err(ElfFailure::Parse("Invalid section header string table offset"@))
    } else {
        let table: SectionHeader = sections[shstrndx as int];
        let start: usize = table.sh_offset as usize;
        let end: usize = table.sh_offset.saturating_add(table.sh_size) as usize;
        if end > program.len() {
            Err(ElfFailure::Parse("Section header string table exceeds program size"@))
        } else {
            spec_scan_sections(program, sections, 0, start, end)
        }
    }
}

pub fn read_cfi(program: &[u8], version: u32, sections: &Vec<SectionHeader>, shstrtab_offset: usize) -> (r:
    Result<CFI, Error>)
    ensures
        cfi_result_matches(r, spec_read_cfi(program@, version, sections@, shstrtab_offset)),
{
    if version < VERSION3 {
        return Ok(CFI { lp_unlabeled: false, ss: false, lp_func_sig: false });
    }
    if shstrtab_offset >= sections.len() {
        return Err(Error::ElfParseError("Invalid section header string table offset".to_owned()));
    }
    let shstrtab: SectionHeader = sections[shstrtab_offset];
    let shstrtab_start: usize = shstrtab.sh_offset as usize;
    let shstrtab_end: usize = shstrtab.sh_offset.saturating_add(shstrtab.sh_size) as usize;
    if shstrtab_end > program.len() {
        return Err(Error::ElfParseError("Section header string table exceeds program size".to_owned()));
    }
    let mut idx: usize = 0;
    while idx < sections.len()
        invariant
            idx <= sections@.len(),
            shstrtab_end <= program@.len(),
            spec_read_cfi(program@, version, sections@, shstrtab_offset) == spec_scan_sections(
                program@,
                sections@,
                idx as int,
                shstrtab_start,
                shstrtab_end,
            ),
        decreases sections@.len() - idx,
    {
        let section: SectionHeader = sections[idx];
        let name_offset: usize = shstrtab_start.saturating_add(section.sh_name);
        if name_offset >= shstrtab_end {
            return Err(Error::ElfParseError("Invalid section name offset".to_owned()));
        }
        let name_bytes: &[u8] = slice_subrange(program, name_offset, shstrtab_end);
        let null_pos: usize = match first_zero(name_bytes) {
            Some(p) => p,
            None => {
                return Err(Error::ElfParseError("Section name is not null-terminated".to_owned()));
            },
        };
        let section_name: &[u8] = slice_subrange(name_bytes, 0, null_pos);
        assert(section_name@ =~= name_bytes@.take(null_pos as int));
        if bytes_equal(section_name, NOTE_GNU_PROPERTY_NAME.as_slice()) {
            if section.sh_size < 12 {
                return Err(Error::ElfParseError(".note.gnu.property section too small".to_owned()));
            }
            let note_start: usize = section.sh_offset as usize;
            let note_end: usize = note_start.saturating_add(section.sh_size as usize);
            if note_end > program.len() {
                return Err(
                    Error::ElfParseError(".note.gnu.property section exceeds program size".to_owned()),
                );
            }
            let note_data: &[u8] = slice_subrange(program, note_start, note_end);
            if note_data.len() == 32 {
                let head: &[u8] = slice_subrange(note_data, 0, 16);
                assert(head@ =~= note_data@.take(16));
                if bytes_equal(head, GNU_PROPERTY_NOTE_HEADER.as_slice()) {
                    let properties: &[u8] = slice_subrange(note_data, 16, 32);
                    assert(properties@ =~= note_data@.skip(16));
                    return match parse_gnu_property_note(properties) {
                        Ok(c) => Ok(c),
                        Err(_) => Ok(CFI { lp_unlabeled: false, ss: false, lp_func_sig: false }),
                    };
                }
            }
            return Ok(CFI { lp_unlabeled: false, ss: false, lp_func_sig: false });
        }
        idx = idx + 1;
    }
    Ok(CFI { lp_unlabeled: false, ss: false, lp_func_sig: false })
}

/// The loading actions for the headers of `headers` from `i` on, for a
/// program of `program_len` bytes, with `bytes` source bytes counted so
/// far: one action per loadable segment, over its pages, filled from its
/// bytes in the program. A segment whose bytes lie outside the program, or
/// whose flags are refused, fails; so does a count of bytes past 64 bits.
pub open spec fn spec_actions_from(
    program_len: u64,
    version: u32,
    headers: Seq<ProgramHeader>,
    i: int,
    bytes: u64,
) -> Result<Seq<LoadingAction>, ElfFailure>
    decreases headers.len() - i,
{
    if i < 0 || i >= headers.len() {
        Ok(Seq::empty())
    } else {
        let h: ProgramHeader = headers[i];
        if h.p_type != PT_LOAD {
            spec_actions_from(program_len, version, headers, i + 1, bytes)
        } else {
            let aligned_start: u64 = spec_round_page_down(h.p_vaddr);
            let padding_start: u64 = h.p_vaddr.wrapping_sub(aligned_start);
            let size: u64 = spec_round_page_up(h.p_memsz.wrapping_add(padding_start));
            let slice_start: u64 = h.p_offset;
            let slice_end: u64 = h.p_offset.wrapping_add(h.p_filesz);
            if slice_start > slice_end || slice_end > program_len {
                Err(ElfFailure::Other(Error::ElfSegmentAddrOrSizeError(h.p_vaddr)))
            } else {
                match spec_convert_flags(h.p_flags, version < VERSION1, h.p_vaddr) {
                    Err(e) => Err(ElfFailure::Other(e)),
                    Ok(flags) => if bytes + (slice_end - slice_start) > u64::MAX {
                        Err(ElfFailure::Unexpected("The bytes count overflowed on loading elf"@))
                    } else {
                        let action = LoadingAction {
                            addr: aligned_start,
                            size,
                            flags,
                            source: Range { start: slice_start, end: slice_end },
                            offset_from_addr: padding_start,
                        };
                        match spec_actions_from(
                            program_len,
                            version,
                            headers,
                            i + 1,
                            (bytes + (slice_end - slice_start)) as u64,
                        ) {
                            Err(f) => Err(f),
                            Ok(rest) => Ok(seq![action] + rest),
                        }
                    },
                }
            }
        }
    }
}

/// The loadable segments among `headers` from index `i` on, in order.
pub open spec fn spec_load_headers(headers: Seq<ProgramHeader>, i: int) -> Seq<ProgramHeader>
    decreases headers.len() - i,
{
    if i < 0 || i >= headers.len() {
        Seq::empty()
    } else if headers[i].p_type == PT_LOAD {
        seq![headers[i]] + spec_load_headers(headers, i + 1)
    } else {
        spec_load_headers(headers, i + 1)
    }
}

/// Action `a` maps whole pages over the memory image of segment `h`: it
/// starts at the page that holds the segment's first byte, the segment
/// starts `offset_from_addr` bytes into it, its bytes come from the
/// segment's bytes in the program, and, where the segment's end is not
/// within a page of 2^64, its pages reach the segment's last byte and end
/// less than a page past it.
pub open spec fn covers_segment(a: LoadingAction, h: ProgramHeader) -> bool {
    &&& a.addr % 4096 == 0
    &&& a.addr <= h.p_vaddr
    &&& a.offset_from_addr == h.p_vaddr - a.addr
    &&& a.offset_from_addr < 4096
    &&& a.size % 4096 == 0
    &&& a.source.start == h.p_offset
    &&& a.source.end == h.p_offset + h.p_filesz
    &&& h.p_vaddr + h.p_memsz + 4096 <= u64::MAX ==> {
        &&& h.p_vaddr + h.p_memsz <= a.addr + a.size
        &&& a.addr + a.size < h.p_vaddr + h.p_memsz + 4096
    }
}

/// Page rounding of one segment, on bits.
proof fn lemma_segment_pages(vaddr: u64, memsz: u64)
    by (bit_vector)
    ensures
        spec_round_page_down(vaddr) % 4096 == 0,
        spec_round_page_down(vaddr) <= vaddr,
        vaddr - spec_round_page_down(vaddr) < 4096,
        spec_round_page_up(memsz.wrapping_add(vaddr.wrapping_sub(spec_round_page_down(vaddr)))) % 4096
            == 0,
        vaddr + memsz + 4096 <= 0xffff_ffff_ffff_ffff ==> {
            &&& vaddr + memsz <= spec_round_page_down(vaddr) + spec_round_page_up(
                memsz.wrapping_add(vaddr.wrapping_sub(spec_round_page_down(vaddr))),
            )
            &&& spec_round_page_down(vaddr) + spec_round_page_up(
                memsz.wrapping_add(vaddr.wrapping_sub(spec_round_page_down(vaddr))),
            ) < vaddr + memsz + 4096
        },
{
}

/// Loading plans cover their segments: where the plan is made, it holds one
/// action for each loadable segment, in order, and each action maps whole
/// pages over its segment's memory image (`covers_segment`).
pub proof fn lemma_actions_cover_segments(
    program_len: u64,
    version: u32,
    headers: Seq<ProgramHeader>,
    i: int,
    bytes: u64,
)
    requires
        0 <= i,
    ensures
        spec_actions_from(program_len, version, headers, i, bytes) matches Ok(actions) ==> {
            &&& actions.len() == spec_load_headers(headers, i).len()
            &&& forall|k: int|
                0 <= k < actions.len() ==> #[trigger] covers_segment(
                    actions[k],
                    spec_load_headers(headers, i)[k],
                )
        },
    decreases headers.len() - i,
{
    if i < headers.len() {
        let h = headers[i];
        let slice_end: u64 = h.p_offset.wrapping_add(h.p_filesz);
        let flags = spec_convert_flags(h.p_flags, version < VERSION1, h.p_vaddr);
        if h.p_type != PT_LOAD {
            lemma_actions_cover_segments(program_len, version, headers, i + 1, bytes);
        } else if h.p_offset <= slice_end && slice_end <= program_len && flags is Ok && bytes + (
        slice_end - h.p_offset) <= u64::MAX {
            let next_bytes = (bytes + (slice_end - h.p_offset)) as u64;
            lemma_actions_cover_segments(program_len, version, headers, i + 1, next_bytes);
            lemma_segment_pages(h.p_vaddr, h.p_memsz);
            if let Ok(actions) = spec_actions_from(program_len, version, headers, i, bytes) {
                let rest = spec_actions_from(program_len, version, headers, i + 1, next_bytes)->Ok_0;
                let loads = spec_load_headers(headers, i);
                assert(loads == seq![h] + spec_load_headers(headers, i + 1));
                assert forall|k: int| 0 <= k < actions.len() implies #[trigger] covers_segment(
                    actions[k],
                    loads[k],
                ) by {
                    if k > 0 {
                        assert(actions[k] == rest[k - 1]);
                        assert(loads[k] == spec_load_headers(headers, i + 1)[k - 1]);
                    }
                }
            }
        }
    }
}

/// `acc` followed by what `s` gives, or its failure.
pub open spec fn after(acc: Seq<LoadingAction>, s: Result<Seq<LoadingAction>, ElfFailure>) -> Result<
    Seq<LoadingAction>,
    ElfFailure,
> {
    match s {
        Ok(rest) => Ok(acc + rest),
        Err(f) => Err(f),
    }
}

pub fn loading_actions(program_len: usize, version: u32, headers: &Vec<ProgramHeader>) -> (r: Result<
    Vec<LoadingAction>,
    Error,
>)
    ensures
        match spec_actions_from(program_len as u64, version, headers@, 0, 0) {
            Ok(actions) => r matches Ok(v) && v@ == actions,
            Err(f) => r matches Err(e) && error_matches(e, f),
        },
{
    let mut bytes: u64 = 0;
    let mut actions: Vec<LoadingAction> = Vec::new();
    let mut idx: usize = 0;
    proof {
        if let Ok(all) = spec_actions_from(program_len as u64, version, headers@, 0, 0) {
            assert(actions@ + all =~= all);
        }
    }
    while idx < headers.len()
        invariant
            idx <= headers@.len(),
            spec_actions_from(program_len as u64, version, headers@, 0, 0) == after(
                actions@,
                spec_actions_from(program_len as u64, version, headers@, idx as int, bytes),
            ),
        decreases headers@.len() - idx,
    {
        let program_header: ProgramHeader = headers[idx];
        if program_header.p_type == PT_LOAD {
            let aligned_start: u64 = round_page_down(program_header.p_vaddr);
            let padding_start: u64 = program_header.p_vaddr.wrapping_sub(aligned_start);
            let size: u64 = round_page_up(program_header.p_memsz.wrapping_add(padding_start));
            let slice_start: u64 = program_header.p_offset;
            let slice_end: u64 = program_header.p_offset.wrapping_add(program_header.p_filesz);
            if slice_start > slice_end || slice_end > program_len as u64 {
                return Err(Error::ElfSegmentAddrOrSizeError(program_header.p_vaddr));
            }
            let flags: u8 = match convert_flags(
                program_header.p_flags,
                version < VERSION1,
                program_header.p_vaddr,
            ) {
                Ok(f) => f,
                Err(e) => {
                    return Err(e);
                },
            };
            let action = LoadingAction {
                addr: aligned_start,
                size,
                flags,
                source: Range { start: slice_start, end: slice_end },
                offset_from_addr: padding_start,
            };
            bytes = match bytes.checked_add(slice_end - slice_start) {
                Some(b) => b,
                None => {
                    return Err(
                        Error::Unexpected("The bytes count overflowed on loading elf".to_owned()),
                    );
                },
            };
            proof {
                if let Ok(rest) = spec_actions_from(program_len as u64, version, headers@, idx + 1, bytes) {
                    assert(actions@ + (seq![action] + rest) =~= actions@.push(action) + rest);
                }
            }
            actions.push(action);
        }
        idx = idx + 1;
    }
    assert(actions@ + Seq::<LoadingAction>::empty() =~= actions@);
    Ok(actions)
}

/// The plan for loading a program: its actions, its entry point and its
/// control flow integrity features.
#[derive(Clone, Debug, PartialEq, Eq)]
pub struct ProgramMetadata {
    pub actions: Vec<LoadingAction>,
    pub entry: u64,
    pub cfi: CFI,
}

/// What reading `program` for registers of `bits` bits under `version`
/// gives: the actions, the entry point and the features, or the failure.
pub open spec fn spec_parse_elf(program: Seq<u8>, bits: u8, version: u32) -> Result<
    (Seq<LoadingAction>, u64, CFI),
    ElfFailure,
> {
    match spec_portable(program, bits, version >= VERSION3) {
        Err(f) => Err(f),
        Ok((entry, phs, shs, shstrndx)) => match spec_read_cfi(program, version, shs, shstrndx) {
            Err(f) => Err(f),
            Ok(cfi) => match spec_actions_from(program.len() as u64, version, phs, 0, 0) {
                Err(f) => Err(f),
                Ok(actions) => Ok((actions, entry, cfi)),
            },
        },
    }
}

/// Reads `program` into the plan for loading it, for registers `R`: the
/// headers as `version` reads them (section headers and control flow
/// integrity features from version 3 on), then one action per loadable
/// segment. The program is not run through goblin's full ELF parser.
pub fn parse_elf<R: Register>(program: &[u8], version: u32) -> (r: Result<ProgramMetadata, Error>)
    ensures
        match spec_parse_elf(program@, R::BITS, version) {
            Ok((actions, entry, cfi)) => r matches Ok(m) && m.actions@ == actions && m.entry == entry
                && m.cfi == cfi,
            Err(f) => r matches Err(e) && error_matches(e, f),
        },
{
    let read = if version == 0 {
        ParseElfPortableData::from_v0::<R>(program)
    } else if version == VERSION1 || version == 2 {
        ParseElfPortableData::from_v1::<R>(program)
    } else {
        ParseElfPortableData::from_v3::<R>(program)
    };
    let pepd: ParseElfPortableData = match read {
        Ok(p) => p,
        Err(e) => {
            return Err(e);
        },
    };
    let cfi: CFI = match read_cfi(program, version, &pepd.section_headers, pepd.shstrtab_offset) {
        Ok(c) => c,
        Err(e) => {
            return Err(e);
        },
    };
    let actions: Vec<LoadingAction> = match loading_actions(program.len(), version, &pepd.program_headers) {
        Ok(a) => a,
        Err(e) => {
            return Err(e);
        },
    };
    Ok(ProgramMetadata { actions, entry: pepd.entry, cfi })
}

} // verus!
