//! Tests for the program header table decoders: entry layout, entry
//! count and order, reserved ranges, and the segment-level errors.

use elf_parser::parser::prog_header::{
    decode_prog_header, parse_seg_32_bit, parse_seg_64_bit,
};
use elf_parser::parser::{
    DecodeError, ElfHeader, Endianness, PlatformBits, ProgHeadFlag, ProgHeader, ProgSegmentType,
};

/// Header describing a little-endian ELF64 table of `n` entries.
fn elf64_table_header(n: u16) -> ElfHeader {
    let mut h = ElfHeader::new();
    h.platform_bits = PlatformBits::Bits64;
    h.endianness = Endianness::Little;
    h.prog_size_hentr = 56;
    h.prog_no_hentr = n;
    h
}

/// One 56-byte little-endian ELF64 entry with the given type and flag
/// codes and recognizable field values derived from `tag`.
fn entry64_le(type_code: u32, flag_code: u32, tag: u64) -> Vec<u8> {
    let mut b = vec![0u8; 56];
    b[0..4].copy_from_slice(&type_code.to_le_bytes());
    b[4..8].copy_from_slice(&flag_code.to_le_bytes());
    b[8..16].copy_from_slice(&(tag + 1).to_le_bytes()); // data offset
    b[16..24].copy_from_slice(&(tag + 2).to_le_bytes()); // virtual address
    b[24..32].copy_from_slice(&(tag + 3).to_le_bytes()); // physical address
    b[32..40].copy_from_slice(&(tag + 4).to_le_bytes()); // file size
    b[40..48].copy_from_slice(&(tag + 5).to_le_bytes()); // memory size
    b[48..56].copy_from_slice(&(tag + 6).to_le_bytes()); // alignment
    b
}

#[test]
fn three_entries_decode_in_order_from_their_ranges() {
    let mut buf = Vec::new();
    buf.extend_from_slice(&entry64_le(1, 4, 100)); // loadable, readable
    buf.extend_from_slice(&entry64_le(2, 6, 200)); // dynamic, read-write
    buf.extend_from_slice(&entry64_le(3, 5, 300)); // interp, read-exec
    assert_eq!(buf.len(), 168);

    let h = elf64_table_header(3);
    let prog_h = decode_prog_header(&buf, &h).expect("three valid entries must decode");
    assert_eq!(prog_h.entr.len(), 3);

    assert_eq!(prog_h.entr[0].s_type, ProgSegmentType::Loadable);
    assert_eq!(prog_h.entr[0].flags, ProgHeadFlag::Readable);
    assert_eq!(prog_h.entr[0].d_off, 101);
    assert_eq!(prog_h.entr[0].align, 106);

    assert_eq!(prog_h.entr[1].s_type, ProgSegmentType::DynLinkInfo);
    assert_eq!(prog_h.entr[1].flags, ProgHeadFlag::ReadWritable);
    assert_eq!(prog_h.entr[1].v_addr, 202);

    assert_eq!(prog_h.entr[2].s_type, ProgSegmentType::InterpInfo);
    assert_eq!(prog_h.entr[2].flags, ProgHeadFlag::ReadExecutable);
    assert_eq!(prog_h.entr[2].p_addr, 303);
    assert_eq!(prog_h.entr[2].f_size, 304);
    assert_eq!(prog_h.entr[2].mem_size, 305);
}

#[test]
fn unknown_segment_type_is_rejected() {
    let buf = entry64_le(0x12345678, 1, 0);
    let h = elf64_table_header(1);
    assert!(matches!(
        decode_prog_header(&buf, &h),
        Err(DecodeError::UnknownSegmentType(0x12345678))
    ));
}

#[test]
fn reserved_ranges_decode_to_reserved_types() {
    let mut buf = Vec::new();
    buf.extend_from_slice(&entry64_le(0x6000_0000, 1, 0));
    buf.extend_from_slice(&entry64_le(0x6FFF_FFFF, 1, 0));
    buf.extend_from_slice(&entry64_le(0x7000_0000, 1, 0));
    buf.extend_from_slice(&entry64_le(0x7FFF_FFFF, 1, 0));
    let h = elf64_table_header(4);
    let prog_h = decode_prog_header(&buf, &h).unwrap();
    assert_eq!(prog_h.entr[0].s_type, ProgSegmentType::OSReserved);
    assert_eq!(prog_h.entr[1].s_type, ProgSegmentType::OSReserved);
    assert_eq!(prog_h.entr[2].s_type, ProgSegmentType::CPUReserved);
    assert_eq!(prog_h.entr[3].s_type, ProgSegmentType::CPUReserved);
}

#[test]
fn code_just_outside_reserved_range_is_rejected() {
    let buf = entry64_le(0x5FFF_FFFF, 1, 0);
    let h = elf64_table_header(1);
    assert!(matches!(
        decode_prog_header(&buf, &h),
        Err(DecodeError::UnknownSegmentType(0x5FFF_FFFF))
    ));
}

#[test]
fn unknown_segment_flag_is_rejected() {
    let buf = entry64_le(1, 8, 0);
    let h = elf64_table_header(1);
    assert!(matches!(
        decode_prog_header(&buf, &h),
        Err(DecodeError::UnknownSegmentFlag(8))
    ));
}

#[test]
fn error_in_later_entry_stops_decoding() {
    let mut buf = Vec::new();
    buf.extend_from_slice(&entry64_le(1, 1, 0));
    buf.extend_from_slice(&entry64_le(7, 1, 0)); // 7 is no segment type
    let h = elf64_table_header(2);
    assert!(matches!(
        decode_prog_header(&buf, &h),
        Err(DecodeError::UnknownSegmentType(7))
    ));
}

#[test]
fn empty_table_decodes_to_no_entries() {
    let buf: Vec<u8> = vec![];
    let h = elf64_table_header(0);
    let prog_h = decode_prog_header(&buf, &h).unwrap();
    assert_eq!(prog_h.entr.len(), 0);
}

#[test]
fn table_buffer_too_short_is_rejected() {
    let buf = entry64_le(1, 1, 0); // one entry's worth of bytes
    let h = elf64_table_header(2); // but two entries promised
    assert!(matches!(
        decode_prog_header(&buf, &h),
        Err(DecodeError::BufferTooShort)
    ));
}

#[test]
fn entry_size_below_layout_minimum_is_rejected() {
    let buf = vec![0u8; 560];
    let mut h = elf64_table_header(2);
    h.prog_size_hentr = 40; // shorter than the 56-byte 64-bit layout
    assert!(matches!(
        decode_prog_header(&buf, &h),
        Err(DecodeError::BufferTooShort)
    ));
}

#[test]
fn undetermined_endianness_in_table_is_rejected() {
    let buf = entry64_le(1, 1, 0);
    let mut h = elf64_table_header(1);
    h.endianness = Endianness::Unknown;
    assert!(matches!(
        decode_prog_header(&buf, &h),
        Err(DecodeError::UndeterminedEndianness)
    ));
}

#[test]
fn single_64bit_entry_appends_to_table() {
    let buf = entry64_le(6, 7, 40); // prog header segment, rwx
    let h = elf64_table_header(1);
    let mut prog_h = ProgHeader::new();
    parse_seg_64_bit(&buf, &h, &mut prog_h, 0).unwrap();
    assert_eq!(prog_h.entr.len(), 1);
    assert_eq!(prog_h.entr[0].s_type, ProgSegmentType::ProgHeader);
    assert_eq!(prog_h.entr[0].flags, ProgHeadFlag::ReadWriteExecutable);
    assert_eq!(prog_h.entr[0].d_off, 41);
    assert_eq!(prog_h.entr[0].mem_size, 45);
}

/// One 32-byte little-endian ELF32 entry: flags sit at byte 24, after
/// the size fields.
fn entry32_le(type_code: u32, flag_code: u32, tag: u32) -> Vec<u8> {
    let mut b = vec![0u8; 32];
    b[0..4].copy_from_slice(&type_code.to_le_bytes());
    b[4..8].copy_from_slice(&(tag + 1).to_le_bytes()); // data offset
    b[8..12].copy_from_slice(&(tag + 2).to_le_bytes()); // virtual address
    b[12..16].copy_from_slice(&(tag + 3).to_le_bytes()); // physical address
    b[16..20].copy_from_slice(&(tag + 4).to_le_bytes()); // file size
    b[20..24].copy_from_slice(&(tag + 5).to_le_bytes()); // memory size
    b[24..28].copy_from_slice(&flag_code.to_le_bytes());
    b[28..32].copy_from_slice(&(tag + 6).to_le_bytes()); // alignment
    b
}

#[test]
fn single_32bit_entry_uses_the_elf32_field_order() {
    let buf = entry32_le(1, 5, 500);
    let mut h = ElfHeader::new();
    h.platform_bits = PlatformBits::Bits32;
    h.endianness = Endianness::Little;
    h.prog_size_hentr = 32;
    h.prog_no_hentr = 1;
    let mut prog_h = ProgHeader::new();
    parse_seg_32_bit(&buf, &h, &mut prog_h, 0).unwrap();
    assert_eq!(prog_h.entr.len(), 1);
    assert_eq!(prog_h.entr[0].s_type, ProgSegmentType::Loadable);
    assert_eq!(prog_h.entr[0].flags, ProgHeadFlag::ReadExecutable);
    assert_eq!(prog_h.entr[0].d_off, 501);
    assert_eq!(prog_h.entr[0].v_addr, 502);
    assert_eq!(prog_h.entr[0].p_addr, 503);
    assert_eq!(prog_h.entr[0].f_size, 504);
    assert_eq!(prog_h.entr[0].mem_size, 505);
    assert_eq!(prog_h.entr[0].align, 506);
}

#[test]
fn table_of_32bit_entries_decodes_in_order() {
    let mut buf = Vec::new();
    buf.extend_from_slice(&entry32_le(0, 1, 0)); // unused entry
    buf.extend_from_slice(&entry32_le(4, 2, 10)); // aux info, writable
    let mut h = ElfHeader::new();
    h.platform_bits = PlatformBits::Bits32;
    h.endianness = Endianness::Little;
    h.prog_size_hentr = 32;
    h.prog_no_hentr = 2;
    let prog_h = decode_prog_header(&buf, &h).unwrap();
    assert_eq!(prog_h.entr.len(), 2);
    assert_eq!(prog_h.entr[0].s_type, ProgSegmentType::EntryUnused);
    assert_eq!(prog_h.entr[1].s_type, ProgSegmentType::AuxInfo);
    assert_eq!(prog_h.entr[1].flags, ProgHeadFlag::Writable);
    assert_eq!(prog_h.entr[1].align, 16);
}

#[test]
fn unresolved_platform_decodes_nothing() {
    let buf = vec![0u8; 112];
    let mut h = ElfHeader::new(); // platform still Unknown
    h.endianness = Endianness::Little;
    h.prog_size_hentr = 56;
    h.prog_no_hentr = 2;
    let prog_h = decode_prog_header(&buf, &h).unwrap();
    assert_eq!(prog_h.entr.len(), 0);
}

#[test]
fn new_entry_starts_all_default() {
    let e = elf_parser::parser::ProgHeadEntry::new();
    assert_eq!(e.s_type, ProgSegmentType::EntryUnused);
    assert_eq!(e.flags, ProgHeadFlag::Executable);
    assert_eq!(e.d_off, 0);
    assert_eq!(e.align, 0);
}
