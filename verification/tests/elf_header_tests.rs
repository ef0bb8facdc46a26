//! Tests for the ELF header decoders: whole-buffer decoding, per-offset
//! dispatch, validation, and every header-level error.

use elf_parser::parser::elf_header::{self, bits_32, bits_64};
use elf_parser::parser::{
    DecodeError, ElfHeader, ElfType, Endianness, InstructionSet, PlatformBits, TargetABI,
};

/// A well-formed little-endian ELF64 header buffer with distinct values
/// in every field.
fn sample_elf64_le() -> Vec<u8> {
    let mut b = vec![0u8; 64];
    b[0] = 0x7f;
    b[1] = 0x45;
    b[2] = 0x4c;
    b[3] = 0x46;
    b[4] = 2; // 64-bit
    b[5] = 1; // little-endian
    b[6] = 1; // header version
    b[7] = 0x03; // Linux
    // bytes 8..16 padding
    b[16..18].copy_from_slice(&2u16.to_le_bytes()); // executable
    b[18..20].copy_from_slice(&0x3eu16.to_le_bytes()); // x86-64
    b[20..24].copy_from_slice(&1u32.to_le_bytes()); // ELF version
    b[24..32].copy_from_slice(&0x401000u64.to_le_bytes()); // entry
    b[32..40].copy_from_slice(&0x40u64.to_le_bytes()); // prog table
    b[40..48].copy_from_slice(&0x2000u64.to_le_bytes()); // sec table
    b[48..52].copy_from_slice(&0u32.to_le_bytes()); // flags (skipped)
    b[52..54].copy_from_slice(&0x40u16.to_le_bytes()); // header size
    b[54..56].copy_from_slice(&56u16.to_le_bytes()); // prog entry size
    b[56..58].copy_from_slice(&3u16.to_le_bytes()); // prog entry count
    b[58..60].copy_from_slice(&64u16.to_le_bytes()); // sec entry size
    b[60..62].copy_from_slice(&5u16.to_le_bytes()); // sec entry count
    b[62..64].copy_from_slice(&4u16.to_le_bytes()); // sec names index
    b
}

#[test]
fn decode_elf64_le_header_fields() {
    let buf = sample_elf64_le();
    let h = elf_header::decode_elf_header(&buf).expect("valid header must decode");
    assert_eq!(h.file_size, 0);
    assert_eq!(h.platform_bits, PlatformBits::Bits64);
    assert_eq!(h.endianness, Endianness::Little);
    assert_eq!(h.header_version, 1);
    assert_eq!(h.abi, TargetABI::Linux);
    assert_eq!(h.elf_type, ElfType::Executable);
    assert_eq!(h.instruction_set, InstructionSet::X86_64);
    assert_eq!(h.version, 1);
    assert_eq!(h.flags, 0);
    assert_eq!(h.prog_entry_pos, 0x401000);
    assert_eq!(h.prog_tbl_pos, 0x40);
    assert_eq!(h.sec_tbl_pos, 0x2000);
    assert_eq!(h.header_size, 0x40);
    assert_eq!(h.prog_size_hentr, 56);
    assert_eq!(h.prog_no_hentr, 3);
    assert_eq!(h.sec_size_hentr, 64);
    assert_eq!(h.sec_no_entr, 5);
    assert_eq!(h.sec_tbl_names_pos, 4);
}

#[test]
fn decode_common_then_64bit_consumes_all_bytes() {
    let buf = sample_elf64_le();
    let mut h = ElfHeader::new();
    let after_common = elf_header::decode_common_header(&buf, &mut h).unwrap();
    assert_eq!(after_common, 24);
    let after_suffix = bits_64::decode_64bit_header(&buf, &mut h).unwrap();
    assert_eq!(after_suffix, 64);
    assert_eq!(h.prog_entry_pos, 0x401000);
    assert_eq!(h.sec_tbl_names_pos, 4);
}

#[test]
fn decode_elf64_be_header() {
    let mut b = vec![0u8; 64];
    b[0] = 0x7f;
    b[1] = 0x45;
    b[2] = 0x4c;
    b[3] = 0x46;
    b[4] = 2;
    b[5] = 2; // big-endian
    b[6] = 0;
    b[7] = 0x00; // System V
    b[16..18].copy_from_slice(&3u16.to_be_bytes()); // shared
    b[18..20].copy_from_slice(&0x16u16.to_be_bytes()); // S390
    b[20..24].copy_from_slice(&1u32.to_be_bytes());
    b[24..32].copy_from_slice(&0x1000u64.to_be_bytes());
    b[32..40].copy_from_slice(&0x40u64.to_be_bytes());
    b[40..48].copy_from_slice(&0x3000u64.to_be_bytes());
    b[52..54].copy_from_slice(&0x40u16.to_be_bytes());
    b[54..56].copy_from_slice(&56u16.to_be_bytes());
    b[56..58].copy_from_slice(&2u16.to_be_bytes());
    let h = elf_header::decode_elf_header(&b).expect("valid big-endian header must decode");
    assert_eq!(h.endianness, Endianness::Big);
    assert_eq!(h.elf_type, ElfType::Shared);
    assert_eq!(h.instruction_set, InstructionSet::S390);
    assert_eq!(h.prog_entry_pos, 0x1000);
    assert_eq!(h.prog_no_hentr, 2);
    assert_eq!(h.header_size, 0x40);
}

#[test]
fn decode_elf32_le_header() {
    let mut b = vec![0u8; 64];
    b[0] = 0x7f;
    b[1] = 0x45;
    b[2] = 0x4c;
    b[3] = 0x46;
    b[4] = 1; // 32-bit
    b[5] = 1;
    b[6] = 1;
    b[7] = 0x09; // FreeBSD
    b[16..18].copy_from_slice(&1u16.to_le_bytes()); // relocatable
    b[18..20].copy_from_slice(&0x03u16.to_le_bytes()); // x86
    b[20..24].copy_from_slice(&1u32.to_le_bytes());
    b[24..28].copy_from_slice(&0x8048000u32.to_le_bytes()); // entry
    b[28..32].copy_from_slice(&0x34u32.to_le_bytes()); // prog table
    b[32..36].copy_from_slice(&0x1500u32.to_le_bytes()); // sec table
    b[36..40].copy_from_slice(&0u32.to_le_bytes()); // flags (skipped)
    b[40..42].copy_from_slice(&0x34u16.to_le_bytes()); // header size
    b[42..44].copy_from_slice(&32u16.to_le_bytes());
    b[44..46].copy_from_slice(&4u16.to_le_bytes());
    b[46..48].copy_from_slice(&40u16.to_le_bytes());
    b[48..50].copy_from_slice(&7u16.to_le_bytes());
    b[50..52].copy_from_slice(&6u16.to_le_bytes());
    let h = elf_header::decode_elf_header(&b).expect("valid 32-bit header must decode");
    assert_eq!(h.platform_bits, PlatformBits::Bits32);
    assert_eq!(h.abi, TargetABI::FreeBSD);
    assert_eq!(h.elf_type, ElfType::Relocatable);
    assert_eq!(h.instruction_set, InstructionSet::X86);
    assert_eq!(h.prog_entry_pos, 0x8048000);
    assert_eq!(h.prog_tbl_pos, 0x34);
    assert_eq!(h.sec_tbl_pos, 0x1500);
    assert_eq!(h.header_size, 0x34);
    assert_eq!(h.prog_size_hentr, 32);
    assert_eq!(h.prog_no_hentr, 4);
    assert_eq!(h.sec_size_hentr, 40);
    assert_eq!(h.sec_no_entr, 7);
    assert_eq!(h.sec_tbl_names_pos, 6);
}

#[test]
fn wrong_magic_first_byte_is_rejected() {
    let mut buf = sample_elf64_le();
    buf[0] = 0x7e; // wrong first byte, "ELF" intact
    assert_eq!(elf_header::decode_elf_header(&buf), Err(DecodeError::BadMagic));
}

#[test]
fn wrong_magic_name_byte_is_rejected() {
    let mut buf = sample_elf64_le();
    buf[2] = b'X';
    assert_eq!(elf_header::decode_elf_header(&buf), Err(DecodeError::BadMagic));
}

#[test]
fn unknown_platform_is_rejected() {
    let mut buf = sample_elf64_le();
    buf[4] = 3;
    assert_eq!(elf_header::decode_elf_header(&buf), Err(DecodeError::UnknownPlatform(3)));
}

#[test]
fn unknown_endianness_is_rejected() {
    let mut buf = sample_elf64_le();
    buf[5] = 0;
    assert_eq!(elf_header::decode_elf_header(&buf), Err(DecodeError::UnknownEndianness(0)));
}

#[test]
fn unknown_abi_gap_code_is_rejected() {
    let mut buf = sample_elf64_le();
    buf[7] = 0x05; // the gap in the ABI table
    assert_eq!(elf_header::decode_elf_header(&buf), Err(DecodeError::UnknownABI(0x05)));
}

#[test]
fn unknown_elf_type_is_rejected() {
    let mut buf = sample_elf64_le();
    buf[16..18].copy_from_slice(&5u16.to_le_bytes());
    assert_eq!(elf_header::decode_elf_header(&buf), Err(DecodeError::UnknownElfType(5)));
}

#[test]
fn unknown_instruction_set_is_rejected() {
    let mut buf = sample_elf64_le();
    buf[18..20].copy_from_slice(&0x99u16.to_le_bytes());
    assert_eq!(
        elf_header::decode_elf_header(&buf),
        Err(DecodeError::UnknownInstructionSet(0x99))
    );
}

#[test]
fn short_buffer_is_rejected() {
    let buf = vec![0x7f, 0x45, 0x4c, 0x46];
    assert_eq!(elf_header::decode_elf_header(&buf), Err(DecodeError::BufferTooShort));
}

#[test]
fn empty_buffer_is_rejected() {
    let buf: Vec<u8> = vec![];
    assert_eq!(elf_header::decode_elf_header(&buf), Err(DecodeError::BufferTooShort));
}

#[test]
fn parse_outside_common_range_is_not_applicable() {
    let buf = sample_elf64_le();
    let mut h = ElfHeader::new();
    assert_eq!(elf_header::parse(&buf, 24, &mut h), Ok(None));
    assert_eq!(elf_header::parse(&buf, 1000, &mut h), Ok(None));
}

#[test]
fn parse_unrecognized_common_offset_consumes_one_byte() {
    let buf = sample_elf64_le();
    let mut h = ElfHeader::new();
    assert_eq!(elf_header::parse(&buf, 9, &mut h), Ok(Some(1)));
    assert_eq!(elf_header::parse(&buf, 17, &mut h), Ok(Some(1)));
    assert_eq!(h, ElfHeader::new());
}

#[test]
fn multi_byte_field_before_endianness_fails() {
    let buf = sample_elf64_le();
    let mut h = ElfHeader::new(); // endianness still Unknown
    assert_eq!(
        elf_header::parse(&buf, 16, &mut h),
        Err(DecodeError::UndeterminedEndianness)
    );
}

#[test]
fn suffix_decoder_of_other_platform_is_not_applicable() {
    let buf = sample_elf64_le();
    let mut h = ElfHeader::new();
    h.platform_bits = PlatformBits::Bits64;
    h.endianness = Endianness::Little;
    // a 64-bit header is not the 32-bit decoder's business, and both
    // ignore the common region
    assert_eq!(bits_32::parse(&buf, 24, &mut h), Ok(None));
    assert_eq!(bits_64::parse(&buf, 4, &mut h), Ok(None));
    let mut h32 = ElfHeader::new();
    h32.platform_bits = PlatformBits::Bits32;
    h32.endianness = Endianness::Little;
    assert_eq!(bits_64::parse(&buf, 24, &mut h32), Ok(None));
}

#[test]
fn validate_accepts_matching_header_sizes() {
    let mut h = ElfHeader::new();
    h.platform_bits = PlatformBits::Bits64;
    h.header_size = 0x40;
    assert!(h.validate());
    h.platform_bits = PlatformBits::Bits32;
    h.header_size = 0x34;
    assert!(h.validate());
}

#[test]
fn validate_rejects_corrupted_header_size() {
    let mut h = ElfHeader::new();
    h.platform_bits = PlatformBits::Bits64;
    h.header_size = 0x41;
    assert!(!h.validate());
    h.header_size = 0x34;
    assert!(!h.validate());
    h.platform_bits = PlatformBits::Bits32;
    h.header_size = 0x40;
    assert!(!h.validate());
}

#[test]
fn validate_passes_trivially_for_unresolved_platform() {
    let mut h = ElfHeader::new();
    h.header_size = 0x1234;
    assert!(h.validate());
}

#[test]
fn new_header_starts_all_default() {
    let h = ElfHeader::new();
    assert_eq!(h.platform_bits, PlatformBits::Unknown);
    assert_eq!(h.endianness, Endianness::Unknown);
    assert_eq!(h.elf_type, ElfType::Unknown);
    assert_eq!(h.abi, TargetABI::NoSpecific);
    assert_eq!(h.instruction_set, InstructionSet::NoSpecific);
    assert_eq!(h.file_size, 0);
    assert_eq!(h.version, 0);
    assert_eq!(h.header_size, 0);
    assert_eq!(h.prog_no_hentr, 0);
}
