//! The encoding side of the header layout, stated as specification
//! functions, and the round-trip law: decoding an encoded header yields
//! the header back.
//!
//! The encoder exists only at the specification level — the library never
//! writes ELF files — but it pins the decoder down: every decodable field
//! value survives the trip through its byte representation.

use vstd::prelude::*;

use crate::parser::elf_header::{
    abi_of, common_result, elf_type_of, endianness_of, header_result, instruction_set_of,
    magic_ok, platform_of,
};
use crate::parser::{
    DecodeError, ElfHeader, ElfType, Endianness, InstructionSet, PlatformBits, TargetABI,
};
use crate::utils::{u16_at, u32_at, u64_at};

verus! {

/// The byte that decodes to platform width `p`.
pub open spec fn platform_code(p: PlatformBits) -> u8 {
    match p {
        PlatformBits::Bits32 => 1,
        PlatformBits::Bits64 => 2,
        PlatformBits::Unknown => 0,
    }
}

/// The byte that decodes to byte order `e`.
pub open spec fn endianness_code(e: Endianness) -> u8 {
    match e {
        Endianness::Little => 1,
        Endianness::Big => 2,
        Endianness::Unknown => 0,
    }
}

/// The 16-bit code that decodes to object file kind `t`.
pub open spec fn elf_type_code(t: ElfType) -> u16 {
    match t {
        ElfType::Relocatable => 1,
        ElfType::Executable => 2,
        ElfType::Shared => 3,
        ElfType::Core => 4,
        ElfType::Unknown => 0,
    }
}

/// The 16-bit code that decodes to instruction set `i`.
pub open spec fn instruction_set_code(i: InstructionSet) -> u16 {
    match i {
        InstructionSet::NoSpecific => 0x00,
        InstructionSet::Sparc => 0x02,
        InstructionSet::X86 => 0x03,
        InstructionSet::MIPS => 0x08,
        InstructionSet::PowerPC => 0x14,
        InstructionSet::S390 => 0x16,
        InstructionSet::ARM => 0x28,
        InstructionSet::SuperH => 0x2a,
        InstructionSet::IA64 => 0x32,
        InstructionSet::X86_64 => 0x3e,
        InstructionSet::AArch64 => 0xb7,
        InstructionSet::RISCV => 0xf3,
    }
}

/// The byte that decodes to ABI `a`. `NoSpecific` is the pre-decode
/// state and has no code of its own.
pub open spec fn abi_code(a: TargetABI) -> u8 {
    match a {
        TargetABI::NoSpecific => 0xff,
        TargetABI::SystemV => 0x00,
        TargetABI::HPUX => 0x01,
        TargetABI::NetBSD => 0x02,
        TargetABI::Linux => 0x03,
        TargetABI::GNUHurd => 0x04,
        TargetABI::Solaris => 0x06,
        TargetABI::AIX => 0x07,
        TargetABI::IRIX => 0x08,
        TargetABI::FreeBSD => 0x09,
        TargetABI::Tru64 => 0x0a,
        TargetABI::NovellModesto => 0x0b,
        TargetABI::OpenBSD => 0x0c,
        TargetABI::OpenVMS => 0x0d,
        TargetABI::NonStop => 0x0e,
        TargetABI::AROS => 0x0f,
        TargetABI::FenixOS => 0x10,
        TargetABI::CloudABI => 0x11,
    }
}

/// The two bytes of `v` in little-endian order.
pub open spec fn le16(v: u16) -> Seq<u8> {
    seq![(v % 0x100) as u8, (v / 0x100) as u8]
}

/// The four bytes of `v` in little-endian order.
pub open spec fn le32(v: u32) -> Seq<u8> {
    seq![
        (v % 0x100) as u8,
        (v / 0x100 % 0x100) as u8,
        (v / 0x1_0000 % 0x100) as u8,
        (v / 0x100_0000) as u8,
    ]
}

/// The eight bytes of `v` in little-endian order.
pub open spec fn le64(v: u64) -> Seq<u8> {
    seq![
        (v % 0x100) as u8,
        (v / 0x100 % 0x100) as u8,
        (v / 0x1_0000 % 0x100) as u8,
        (v / 0x100_0000 % 0x100) as u8,
        (v / 0x1_0000_0000 % 0x100) as u8,
        (v / 0x100_0000_0000 % 0x100) as u8,
        (v / 0x1_0000_0000_0000 % 0x100) as u8,
        (v / 0x100_0000_0000_0000) as u8,
    ]
}

/// The two bytes of `v` in byte order `e`.
pub open spec fn enc16(e: Endianness, v: u16) -> Seq<u8>
    recommends
        e !is Unknown,
{
    if e is Big {
        seq![(v / 0x100) as u8, (v % 0x100) as u8]
    } else {
        le16(v)
    }
}

/// The four bytes of `v` in byte order `e`.
pub open spec fn enc32(e: Endianness, v: u32) -> Seq<u8>
    recommends
        e !is Unknown,
{
    if e is Big {
        seq![
            (v / 0x100_0000) as u8,
            (v / 0x1_0000 % 0x100) as u8,
            (v / 0x100 % 0x100) as u8,
            (v % 0x100) as u8,
        ]
    } else {
        le32(v)
    }
}

/// The eight bytes of `v` in byte order `e`.
pub open spec fn enc64(e: Endianness, v: u64) -> Seq<u8>
    recommends
        e !is Unknown,
{
    if e is Big {
        seq![
            (v / 0x100_0000_0000_0000) as u8,
            (v / 0x1_0000_0000_0000 % 0x100) as u8,
            (v / 0x100_0000_0000 % 0x100) as u8,
            (v / 0x1_0000_0000 % 0x100) as u8,
            (v / 0x100_0000 % 0x100) as u8,
            (v / 0x1_0000 % 0x100) as u8,
            (v / 0x100 % 0x100) as u8,
            (v % 0x100) as u8,
        ]
    } else {
        le64(v)
    }
}

/// Whether `h` holds only values the byte layout can carry: every enum
/// field has a code, the never-decoded fields hold their initial zero,
/// and a 32-bit header's positions fit their 4-byte fields.
pub open spec fn encodable(h: ElfHeader) -> bool {
    &&& h.platform_bits !is Unknown
    &&& h.endianness !is Unknown
    &&& h.elf_type !is Unknown
    &&& h.abi !is NoSpecific
    &&& h.file_size == 0
    &&& h.flags == 0
    &&& h.platform_bits is Bits32 ==> {
        &&& h.prog_entry_pos < 0x1_0000_0000
        &&& h.prog_tbl_pos < 0x1_0000_0000
        &&& h.sec_tbl_pos < 0x1_0000_0000
    }
}

/// The common region of the encoding: offsets 0 through 23.
pub open spec fn encode_common(h: ElfHeader) -> Seq<u8>
    recommends
        encodable(h),
{
    seq![0x7fu8, 0x45u8, 0x4cu8, 0x46u8] + seq![
        platform_code(h.platform_bits),
        endianness_code(h.endianness),
        h.header_version,
        abi_code(h.abi),
    ] + seq![0u8, 0u8, 0u8, 0u8, 0u8, 0u8, 0u8, 0u8] + enc16(
        h.endianness,
        elf_type_code(h.elf_type),
    ) + enc16(h.endianness, instruction_set_code(h.instruction_set)) + enc32(
        h.endianness,
        h.version,
    )
}

/// The 64-bit suffix of the encoding: offsets 24 through 63. The flags
/// field at offset 48 is never decoded and is written as zeros.
pub open spec fn encode_suffix64(h: ElfHeader) -> Seq<u8>
    recommends
        encodable(h),
{
    enc64(h.endianness, h.prog_entry_pos) + enc64(h.endianness, h.prog_tbl_pos) + enc64(
        h.endianness,
        h.sec_tbl_pos,
    ) + seq![0u8, 0u8, 0u8, 0u8] + enc16(h.endianness, h.header_size) + enc16(
        h.endianness,
        h.prog_size_hentr,
    ) + enc16(h.endianness, h.prog_no_hentr) + enc16(h.endianness, h.sec_size_hentr) + enc16(
        h.endianness,
        h.sec_no_entr,
    ) + enc16(h.endianness, h.sec_tbl_names_pos)
}

/// The 32-bit suffix of the encoding: the fields end at offset 51 and
/// the bytes up to 63 are padding. The flags field at offset 36 is never
/// decoded and is written as zeros.
pub open spec fn encode_suffix32(h: ElfHeader) -> Seq<u8>
    recommends
        encodable(h),
{
    enc32(h.endianness, h.prog_entry_pos as u32) + enc32(h.endianness, h.prog_tbl_pos as u32)
        + enc32(h.endianness, h.sec_tbl_pos as u32) + seq![0u8, 0u8, 0u8, 0u8] + enc16(
        h.endianness,
        h.header_size,
    ) + enc16(h.endianness, h.prog_size_hentr) + enc16(h.endianness, h.prog_no_hentr) + enc16(
        h.endianness,
        h.sec_size_hentr,
    ) + enc16(h.endianness, h.sec_no_entr) + enc16(h.endianness, h.sec_tbl_names_pos) + seq![
        0u8, 0u8, 0u8, 0u8, 0u8, 0u8, 0u8, 0u8, 0u8, 0u8, 0u8, 0u8,
    ]
}

/// The full 64-byte encoding of `h` in the on-disk header layout.
pub open spec fn encode_elf_header(h: ElfHeader) -> Seq<u8>
    recommends
        encodable(h),
{
    if h.platform_bits is Bits64 {
        encode_common(h) + encode_suffix64(h)
    } else {
        encode_common(h) + encode_suffix32(h)
    }
}

/// Reading two encoded bytes back in the same byte order yields the
/// encoded value.
proof fn lemma_u16_extract(b: Seq<u8>, e: Endianness, off: int, v: u16)
    requires
        e !is Unknown,
        b[off] == enc16(e, v)[0],
        b[off + 1] == enc16(e, v)[1],
    ensures
        u16_at(b, e, off) == v,
{
    assert(v % 0x100 + (v / 0x100) * 0x100 == v) by (bit_vector);
}

/// Reading four encoded bytes back in the same byte order yields the
/// encoded value.
proof fn lemma_u32_extract(b: Seq<u8>, e: Endianness, off: int, v: u32)
    requires
        e !is Unknown,
        b[off] == enc32(e, v)[0],
        b[off + 1] == enc32(e, v)[1],
        b[off + 2] == enc32(e, v)[2],
        b[off + 3] == enc32(e, v)[3],
    ensures
        u32_at(b, e, off) == v,
{
    assert(v % 0x100 + (v / 0x100 % 0x100) * 0x100 + (v / 0x1_0000 % 0x100) * 0x1_0000 + (v
        / 0x100_0000) * 0x100_0000 == v) by (bit_vector);
}

/// Reading eight encoded bytes back in the same byte order yields the
/// encoded value.
proof fn lemma_u64_extract(b: Seq<u8>, e: Endianness, off: int, v: u64)
    requires
        e !is Unknown,
        b[off] == enc64(e, v)[0],
        b[off + 1] == enc64(e, v)[1],
        b[off + 2] == enc64(e, v)[2],
        b[off + 3] == enc64(e, v)[3],
        b[off + 4] == enc64(e, v)[4],
        b[off + 5] == enc64(e, v)[5],
        b[off + 6] == enc64(e, v)[6],
        b[off + 7] == enc64(e, v)[7],
    ensures
        u64_at(b, e, off) == v,
{
    assert(v % 0x100 + (v / 0x100 % 0x100) * 0x100 + (v / 0x1_0000 % 0x100) * 0x1_0000 + (v
        / 0x100_0000 % 0x100) * 0x100_0000 + (v / 0x1_0000_0000 % 0x100) * 0x1_0000_0000 + (v
        / 0x100_0000_0000 % 0x100) * 0x100_0000_0000 + (v / 0x1_0000_0000_0000 % 0x100)
        * 0x1_0000_0000_0000 + (v / 0x100_0000_0000_0000) * 0x100_0000_0000_0000 == v)
        by (bit_vector);
}

/// Where each common field's bytes sit in the full encoding.
#[verifier::rlimit(100)]
proof fn lemma_bytes_common(h: ElfHeader)
    requires
        encodable(h),
    ensures
        encode_elf_header(h).len() == 64,
        encode_elf_header(h)[0] == 0x7f,
        encode_elf_header(h)[1] == 0x45,
        encode_elf_header(h)[2] == 0x4c,
        encode_elf_header(h)[3] == 0x46,
        encode_elf_header(h)[4] == platform_code(h.platform_bits),
        encode_elf_header(h)[5] == endianness_code(h.endianness),
        encode_elf_header(h)[6] == h.header_version,
        encode_elf_header(h)[7] == abi_code(h.abi),
        encode_elf_header(h)[16] == enc16(h.endianness, elf_type_code(h.elf_type))[0],
        encode_elf_header(h)[17] == enc16(h.endianness, elf_type_code(h.elf_type))[1],
        encode_elf_header(h)[18] == enc16(h.endianness, instruction_set_code(h.instruction_set))[0],
        encode_elf_header(h)[19] == enc16(h.endianness, instruction_set_code(h.instruction_set))[1],
        encode_elf_header(h)[20] == enc32(h.endianness, h.version)[0],
        encode_elf_header(h)[21] == enc32(h.endianness, h.version)[1],
        encode_elf_header(h)[22] == enc32(h.endianness, h.version)[2],
        encode_elf_header(h)[23] == enc32(h.endianness, h.version)[3],
{
    let c = encode_common(h);
    assert(c.len() == 24);
    assert(encode_suffix64(h).len() == 40);
    assert(encode_suffix32(h).len() == 40);
    assert forall|i: int| 0 <= i < 24 implies encode_elf_header(h)[i] == c[i] by {}
}

/// Where each 64-bit suffix field's bytes sit in the full encoding.
#[verifier::rlimit(100)]
proof fn lemma_bytes_suffix64(h: ElfHeader)
    requires
        encodable(h),
        h.platform_bits is Bits64,
    ensures
        encode_elf_header(h)[24] == enc64(h.endianness, h.prog_entry_pos)[0],
        encode_elf_header(h)[25] == enc64(h.endianness, h.prog_entry_pos)[1],
        encode_elf_header(h)[26] == enc64(h.endianness, h.prog_entry_pos)[2],
        encode_elf_header(h)[27] == enc64(h.endianness, h.prog_entry_pos)[3],
        encode_elf_header(h)[28] == enc64(h.endianness, h.prog_entry_pos)[4],
        encode_elf_header(h)[29] == enc64(h.endianness, h.prog_entry_pos)[5],
        encode_elf_header(h)[30] == enc64(h.endianness, h.prog_entry_pos)[6],
        encode_elf_header(h)[31] == enc64(h.endianness, h.prog_entry_pos)[7],
        encode_elf_header(h)[32] == enc64(h.endianness, h.prog_tbl_pos)[0],
        encode_elf_header(h)[33] == enc64(h.endianness, h.prog_tbl_pos)[1],
        encode_elf_header(h)[34] == enc64(h.endianness, h.prog_tbl_pos)[2],
        encode_elf_header(h)[35] == enc64(h.endianness, h.prog_tbl_pos)[3],
        encode_elf_header(h)[36] == enc64(h.endianness, h.prog_tbl_pos)[4],
        encode_elf_header(h)[37] == enc64(h.endianness, h.prog_tbl_pos)[5],
        encode_elf_header(h)[38] == enc64(h.endianness, h.prog_tbl_pos)[6],
        encode_elf_header(h)[39] == enc64(h.endianness, h.prog_tbl_pos)[7],
        encode_elf_header(h)[40] == enc64(h.endianness, h.sec_tbl_pos)[0],
        encode_elf_header(h)[41] == enc64(h.endianness, h.sec_tbl_pos)[1],
        encode_elf_header(h)[42] == enc64(h.endianness, h.sec_tbl_pos)[2],
        encode_elf_header(h)[43] == enc64(h.endianness, h.sec_tbl_pos)[3],
        encode_elf_header(h)[44] == enc64(h.endianness, h.sec_tbl_pos)[4],
        encode_elf_header(h)[45] == enc64(h.endianness, h.sec_tbl_pos)[5],
        encode_elf_header(h)[46] == enc64(h.endianness, h.sec_tbl_pos)[6],
        encode_elf_header(h)[47] == enc64(h.endianness, h.sec_tbl_pos)[7],
        encode_elf_header(h)[52] == enc16(h.endianness, h.header_size)[0],
        encode_elf_header(h)[53] == enc16(h.endianness, h.header_size)[1],
        encode_elf_header(h)[54] == enc16(h.endianness, h.prog_size_hentr)[0],
        encode_elf_header(h)[55] == enc16(h.endianness, h.prog_size_hentr)[1],
        encode_elf_header(h)[56] == enc16(h.endianness, h.prog_no_hentr)[0],
        encode_elf_header(h)[57] == enc16(h.endianness, h.prog_no_hentr)[1],
        encode_elf_header(h)[58] == enc16(h.endianness, h.sec_size_hentr)[0],
        encode_elf_header(h)[59] == enc16(h.endianness, h.sec_size_hentr)[1],
        encode_elf_header(h)[60] == enc16(h.endianness, h.sec_no_entr)[0],
        encode_elf_header(h)[61] == enc16(h.endianness, h.sec_no_entr)[1],
        encode_elf_header(h)[62] == enc16(h.endianness, h.sec_tbl_names_pos)[0],
        encode_elf_header(h)[63] == enc16(h.endianness, h.sec_tbl_names_pos)[1],
{
    let s = encode_suffix64(h);
    assert(encode_common(h).len() == 24);
    assert(s.len() == 40);
}

/// Where each 32-bit suffix field's bytes sit in the full encoding.
#[verifier::rlimit(100)]
proof fn lemma_bytes_suffix32(h: ElfHeader)
    requires
        encodable(h),
        h.platform_bits is Bits32,
    ensures
        encode_elf_header(h)[24] == enc32(h.endianness, h.prog_entry_pos as u32)[0],
        encode_elf_header(h)[25] == enc32(h.endianness, h.prog_entry_pos as u32)[1],
        encode_elf_header(h)[26] == enc32(h.endianness, h.prog_entry_pos as u32)[2],
        encode_elf_header(h)[27] == enc32(h.endianness, h.prog_entry_pos as u32)[3],
        encode_elf_header(h)[28] == enc32(h.endianness, h.prog_tbl_pos as u32)[0],
        encode_elf_header(h)[29] == enc32(h.endianness, h.prog_tbl_pos as u32)[1],
        encode_elf_header(h)[30] == enc32(h.endianness, h.prog_tbl_pos as u32)[2],
        encode_elf_header(h)[31] == enc32(h.endianness, h.prog_tbl_pos as u32)[3],
        encode_elf_header(h)[32] == enc32(h.endianness, h.sec_tbl_pos as u32)[0],
        encode_elf_header(h)[33] == enc32(h.endianness, h.sec_tbl_pos as u32)[1],
        encode_elf_header(h)[34] == enc32(h.endianness, h.sec_tbl_pos as u32)[2],
        encode_elf_header(h)[35] == enc32(h.endianness, h.sec_tbl_pos as u32)[3],
        encode_elf_header(h)[40] == enc16(h.endianness, h.header_size)[0],
        encode_elf_header(h)[41] == enc16(h.endianness, h.header_size)[1],
        encode_elf_header(h)[42] == enc16(h.endianness, h.prog_size_hentr)[0],
        encode_elf_header(h)[43] == enc16(h.endianness, h.prog_size_hentr)[1],
        encode_elf_header(h)[44] == enc16(h.endianness, h.prog_no_hentr)[0],
        encode_elf_header(h)[45] == enc16(h.endianness, h.prog_no_hentr)[1],
        encode_elf_header(h)[46] == enc16(h.endianness, h.sec_size_hentr)[0],
        encode_elf_header(h)[47] == enc16(h.endianness, h.sec_size_hentr)[1],
        encode_elf_header(h)[48] == enc16(h.endianness, h.sec_no_entr)[0],
        encode_elf_header(h)[49] == enc16(h.endianness, h.sec_no_entr)[1],
        encode_elf_header(h)[50] == enc16(h.endianness, h.sec_tbl_names_pos)[0],
        encode_elf_header(h)[51] == enc16(h.endianness, h.sec_tbl_names_pos)[1],
{
    let s = encode_suffix32(h);
    assert(encode_common(h).len() == 24);
    assert(s.len() == 40);
}

/// The header value the common region of the encoding decodes to: the
/// seven common fields of `h` over the all-default start.
pub open spec fn common_decoded(h: ElfHeader) -> ElfHeader {
    ElfHeader {
        platform_bits: h.platform_bits,
        endianness: h.endianness,
        header_version: h.header_version,
        abi: h.abi,
        elf_type: h.elf_type,
        instruction_set: h.instruction_set,
        version: h.version,
        ..ElfHeader::initial()
    }
}

/// The common region of the encoding decodes back to the common fields
/// of `h`.
#[verifier::rlimit(100)]
proof fn lemma_round_trip_common(h: ElfHeader)
    requires
        encodable(h),
    ensures
        encode_elf_header(h).len() == 64,
        common_result(encode_elf_header(h), ElfHeader::initial()) == Ok::<ElfHeader, DecodeError>(
            common_decoded(h),
        ),
{
    let b = encode_elf_header(h);
    let e = h.endianness;

    lemma_bytes_common(h);
    assert(magic_ok(b));
    assert(platform_of(b[4]) == Some(h.platform_bits));
    assert(endianness_of(b[5]) == Some(e));
    assert(abi_of(b[7]) == Some(h.abi));

    lemma_u16_extract(b, e, 16, elf_type_code(h.elf_type));
    lemma_u16_extract(b, e, 18, instruction_set_code(h.instruction_set));
    lemma_u32_extract(b, e, 20, h.version);
    assert(elf_type_of(u16_at(b, e, 16)) == Some(h.elf_type));
    assert(instruction_set_of(u16_at(b, e, 18)) == Some(h.instruction_set));
}

/// The 64-bit suffix of the encoding decodes back to the suffix fields
/// of `h`.
#[verifier::rlimit(100)]
proof fn lemma_round_trip_suffix64(h: ElfHeader)
    requires
        encodable(h),
        h.platform_bits is Bits64,
    ensures
        crate::parser::elf_header::bits_64::fill64(encode_elf_header(h), common_decoded(h)) == h,
{
    let b = encode_elf_header(h);
    let e = h.endianness;

    lemma_bytes_suffix64(h);
    lemma_u64_extract(b, e, 24, h.prog_entry_pos);
    lemma_u64_extract(b, e, 32, h.prog_tbl_pos);
    lemma_u64_extract(b, e, 40, h.sec_tbl_pos);
    lemma_u16_extract(b, e, 52, h.header_size);
    lemma_u16_extract(b, e, 54, h.prog_size_hentr);
    lemma_u16_extract(b, e, 56, h.prog_no_hentr);
    lemma_u16_extract(b, e, 58, h.sec_size_hentr);
    lemma_u16_extract(b, e, 60, h.sec_no_entr);
    lemma_u16_extract(b, e, 62, h.sec_tbl_names_pos);
}

/// The 32-bit suffix of the encoding decodes back to the suffix fields
/// of `h`, widened to their 64-bit storage.
#[verifier::rlimit(100)]
proof fn lemma_round_trip_suffix32(h: ElfHeader)
    requires
        encodable(h),
        h.platform_bits is Bits32,
    ensures
        crate::parser::elf_header::bits_32::fill32(encode_elf_header(h), common_decoded(h)) == h,
{
    let b = encode_elf_header(h);
    let e = h.endianness;

    lemma_bytes_suffix32(h);
    lemma_u32_extract(b, e, 24, h.prog_entry_pos as u32);
    lemma_u32_extract(b, e, 28, h.prog_tbl_pos as u32);
    lemma_u32_extract(b, e, 32, h.sec_tbl_pos as u32);
    lemma_u16_extract(b, e, 40, h.header_size);
    lemma_u16_extract(b, e, 42, h.prog_size_hentr);
    lemma_u16_extract(b, e, 44, h.prog_no_hentr);
    lemma_u16_extract(b, e, 46, h.sec_size_hentr);
    lemma_u16_extract(b, e, 48, h.sec_no_entr);
    lemma_u16_extract(b, e, 50, h.sec_tbl_names_pos);
}

/// Round trip: encoding a header in the on-disk layout and decoding the
/// bytes back yields the identical header, for every header the layout
/// can carry.
pub proof fn lemma_header_round_trip(h: ElfHeader)
    requires
        encodable(h),
    ensures
        header_result(encode_elf_header(h)) == Ok::<ElfHeader, DecodeError>(h),
{
    lemma_round_trip_common(h);
    if h.platform_bits is Bits64 {
        lemma_round_trip_suffix64(h);
    } else {
        lemma_round_trip_suffix32(h);
    }
}

} // verus!
