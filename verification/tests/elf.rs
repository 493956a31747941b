use ckb_vm::definitions::memory::{FLAG_EXECUTABLE, FLAG_FREEZED};
use ckb_vm::elf::{
    convert_flags, header_layout, loading_actions, parse_elf, parse_gnu_property_note,
    ElfHeaderFields, ProgramHeader, CFI, PF_R, PF_W, PF_X, PT_LOAD,
};
use ckb_vm::machine::{VERSION0, VERSION1, VERSION3};
use ckb_vm::Error;

fn push16(v: &mut Vec<u8>, x: u16) {
    v.extend_from_slice(&x.to_le_bytes());
}

fn push32(v: &mut Vec<u8>, x: u32) {
    v.extend_from_slice(&x.to_le_bytes());
}

fn push64(v: &mut Vec<u8>, x: u64) {
    v.extend_from_slice(&x.to_le_bytes());
}

/// A 64 bit little endian RISC-V executable with one loadable segment that
/// covers the whole file.
fn tiny_elf(p_flags: u32, p_filesz: u64) -> Vec<u8> {
    let mut v = vec![0x7f, b'E', b'L', b'F', 2, 1, 1, 0, 0, 0, 0, 0, 0, 0, 0, 0];
    push16(&mut v, 2);
    push16(&mut v, 0xf3);
    push32(&mut v, 1);
    push64(&mut v, 0x1000);
    push64(&mut v, 64);
    push64(&mut v, 0);
    push32(&mut v, 0);
    push16(&mut v, 64);
    push16(&mut v, 56);
    push16(&mut v, 1);
    push16(&mut v, 64);
    push16(&mut v, 0);
    push16(&mut v, 0);
    push32(&mut v, PT_LOAD);
    push32(&mut v, p_flags);
    push64(&mut v, 0);
    push64(&mut v, 0x1000);
    push64(&mut v, 0x1000);
    push64(&mut v, p_filesz);
    push64(&mut v, 0x2000);
    push64(&mut v, 0x1000);
    assert_eq!(v.len(), 120);
    v
}

#[test]
fn test_parse_tiny_elf() {
    let program = tiny_elf(PF_R | PF_X, 120);
    for version in [VERSION0, VERSION1] {
        let meta = parse_elf::<u64>(&program, version).unwrap();
        assert_eq!(meta.entry, 0x1000);
        assert_eq!(meta.actions.len(), 1);
        let a = &meta.actions[0];
        assert_eq!(a.addr, 0x1000);
        assert_eq!(a.size, 0x2000);
        assert_eq!(a.flags, FLAG_EXECUTABLE | FLAG_FREEZED);
        assert_eq!(a.source, 0..120);
        assert_eq!(a.offset_from_addr, 0);
        assert_eq!(meta.cfi, CFI::default());
    }
}

#[test]
fn test_version3_needs_section_names() {
    let program = tiny_elf(PF_R | PF_X, 120);
    assert_eq!(
        parse_elf::<u64>(&program, VERSION3),
        Err(Error::ElfParseError("Invalid section header string table offset".to_string()))
    );
}

#[test]
fn test_parse_elf_errors() {
    let program = tiny_elf(PF_R | PF_X, 120);
    assert_eq!(parse_elf::<u32>(&program, VERSION1), Err(Error::ElfBits));
    assert!(matches!(parse_elf::<u64>(&program[..10], VERSION1), Err(Error::ElfParseError(_))));
    assert_eq!(
        parse_elf::<u64>(&tiny_elf(PF_R | PF_W | PF_X, 120), VERSION1),
        Err(Error::ElfSegmentWritableAndExecutable(0x1000))
    );
    assert_eq!(
        parse_elf::<u64>(&tiny_elf(PF_X, 120), VERSION1),
        Err(Error::ElfSegmentUnreadable(0x1000))
    );
    assert_eq!(
        parse_elf::<u64>(&tiny_elf(PF_R, 121), VERSION1),
        Err(Error::ElfSegmentAddrOrSizeError(0x1000))
    );
}

#[test]
fn test_convert_flags() {
    assert_eq!(convert_flags(PF_R | PF_X, false, 0), Ok(FLAG_EXECUTABLE | FLAG_FREEZED));
    assert_eq!(convert_flags(PF_R | PF_W, false, 0), Ok(0));
    assert_eq!(convert_flags(PF_R | PF_W, true, 0), Ok(FLAG_FREEZED));
    assert_eq!(convert_flags(PF_R, false, 0), Ok(FLAG_FREEZED));
    assert_eq!(convert_flags(PF_W, false, 7), Err(Error::ElfSegmentUnreadable(7)));
    assert_eq!(
        convert_flags(PF_R | PF_W | PF_X, false, 9),
        Err(Error::ElfSegmentWritableAndExecutable(9))
    );
}

#[test]
fn test_loading_actions_from_headers() {
    let header = ProgramHeader {
        p_type: PT_LOAD,
        p_flags: PF_R | PF_W,
        p_offset: 0x10,
        p_vaddr: 0x1234,
        p_paddr: 0x1234,
        p_filesz: 0x20,
        p_memsz: 0x100,
        p_align: 0x1000,
    };
    let skipped = ProgramHeader { p_type: 0, ..header };
    let actions = loading_actions(0x100, VERSION1, &vec![skipped, header]).unwrap();
    assert_eq!(actions.len(), 1);
    assert_eq!(actions[0].addr, 0x1000);
    assert_eq!(actions[0].offset_from_addr, 0x234);
    assert_eq!(actions[0].size, 0x1000);
    assert_eq!(actions[0].source, 0x10..0x30);
    assert_eq!(actions[0].flags, 0);
    // Version 0 freezes writable segments too.
    assert_eq!(loading_actions(0x100, VERSION0, &vec![header]).unwrap()[0].flags, FLAG_FREEZED);
    assert_eq!(
        loading_actions(0x20, VERSION1, &vec![header]),
        Err(Error::ElfSegmentAddrOrSizeError(0x1234))
    );
}

#[test]
fn test_header_layout() {
    let h = ElfHeaderFields {
        ident_class: 2,
        ident_data: 1,
        e_entry: 0,
        e_phoff: 0,
        e_phnum: 0,
        e_shoff: 0,
        e_shnum: 0,
        e_shstrndx: 0,
    };
    assert_eq!(header_layout::<u64>(&h), Ok((true, true)));
    assert_eq!(header_layout::<u32>(&h), Err(Error::ElfBits));
    assert_eq!(header_layout::<u32>(&ElfHeaderFields { ident_class: 1, ident_data: 2, ..h }), Ok((false, false)));
    assert_eq!(header_layout::<u64>(&ElfHeaderFields { ident_class: 3, ..h }), Err(Error::ElfBits));
}

#[test]
fn test_parse_gnu_property_note() {
    let note = [0, 0, 0, 0xc0, 4, 0, 0, 0, 3, 0, 0, 0, 0, 0, 0, 0];
    assert_eq!(
        parse_gnu_property_note(&note),
        Ok(CFI { lp_unlabeled: true, ss: true, lp_func_sig: false })
    );
    let other = [1, 0, 0, 0, 4, 0, 0, 0, 3, 0, 0, 0, 0, 0, 0, 0];
    assert_eq!(parse_gnu_property_note(&other), Ok(CFI::default()));
    let too_big = [0, 0, 0, 0xc0, 0xff, 0, 0, 0];
    assert_eq!(
        parse_gnu_property_note(&too_big),
        Err(Error::ElfParseError("Unreasonable property data size".to_string()))
    );
}

#[test]
fn test_cfi_byte_roundtrip() {
    for b in 0u8..8 {
        assert_eq!(u8::from(CFI::from(b)), b);
    }
    assert!(CFI::from(0b001).allow_lpad());
    assert!(CFI::from(0b100).allow_lpad());
    assert!(!CFI::from(0b010).allow_lpad());
}
