//! Endian codec and small shared helpers.
//!
//! Every multi-byte field of an ELF file from offset 16 onward is encoded
//! in the byte order declared at offset 5. The functions here decode 2-,
//! 4- and 8-byte unsigned integers from a byte buffer under a given
//! `Endianness`, and fail with `DecodeError::UndeterminedEndianness` when
//! the byte order is still in its pre-decode state — resolving it first is
//! part of the header decoder's contract.

use vstd::prelude::*;

use crate::parser::{DecodeError, Endianness};

verus! {

/// The two bytes at `off` read as a little-endian 16-bit integer.
pub open spec fn u16_le(b: Seq<u8>, off: int) -> u16 {
    (b[off] + b[off + 1] * 0x100) as u16
}

/// The two bytes at `off` read as a big-endian 16-bit integer.
pub open spec fn u16_be(b: Seq<u8>, off: int) -> u16 {
    (b[off + 1] + b[off] * 0x100) as u16
}

/// The four bytes at `off` read as a little-endian 32-bit integer.
pub open spec fn u32_le(b: Seq<u8>, off: int) -> u32 {
    (b[off] + b[off + 1] * 0x100 + b[off + 2] * 0x1_0000 + b[off + 3] * 0x100_0000) as u32
}

/// The four bytes at `off` read as a big-endian 32-bit integer.
pub open spec fn u32_be(b: Seq<u8>, off: int) -> u32 {
    (b[off + 3] + b[off + 2] * 0x100 + b[off + 1] * 0x1_0000 + b[off] * 0x100_0000) as u32
}

/// The eight bytes at `off` read as a little-endian 64-bit integer.
pub open spec fn u64_le(b: Seq<u8>, off: int) -> u64 {
    (b[off] + b[off + 1] * 0x100 + b[off + 2] * 0x1_0000 + b[off + 3] * 0x100_0000
        + b[off + 4] * 0x1_0000_0000 + b[off + 5] * 0x100_0000_0000
        + b[off + 6] * 0x1_0000_0000_0000 + b[off + 7] * 0x100_0000_0000_0000) as u64
}

/// The eight bytes at `off` read as a big-endian 64-bit integer.
pub open spec fn u64_be(b: Seq<u8>, off: int) -> u64 {
    (b[off + 7] + b[off + 6] * 0x100 + b[off + 5] * 0x1_0000 + b[off + 4] * 0x100_0000
        + b[off + 3] * 0x1_0000_0000 + b[off + 2] * 0x100_0000_0000
        + b[off + 1] * 0x1_0000_0000_0000 + b[off] * 0x100_0000_0000_0000) as u64
}

/// The two bytes at `off` read in byte order `e`.
pub open spec fn u16_at(b: Seq<u8>, e: Endianness, off: int) -> u16
    recommends
        e !is Unknown,
{
    match e {
        Endianness::Little => u16_le(b, off),
        Endianness::Big => u16_be(b, off),
        Endianness::Unknown => 0,
    }
}

/// The four bytes at `off` read in byte order `e`.
pub open spec fn u32_at(b: Seq<u8>, e: Endianness, off: int) -> u32
    recommends
        e !is Unknown,
{
    match e {
        Endianness::Little => u32_le(b, off),
        Endianness::Big => u32_be(b, off),
        Endianness::Unknown => 0,
    }
}

/// The eight bytes at `off` read in byte order `e`.
pub open spec fn u64_at(b: Seq<u8>, e: Endianness, off: int) -> u64
    recommends
        e !is Unknown,
{
    match e {
        Endianness::Little => u64_le(b, off),
        Endianness::Big => u64_be(b, off),
        Endianness::Unknown => 0,
    }
}

/// Decode the 2-byte field at `offset` of `buf` in byte order `e`.
pub fn unwrap_endian_u16(e: Endianness, buf: &[u8], offset: usize) -> (r: Result<u16, DecodeError>)
    requires
        offset + 2 <= buf.len(),
    ensures
        e !is Unknown ==> r == Ok::<u16, DecodeError>(u16_at(buf@, e, offset as int)),
        e is Unknown ==> r == Err::<u16, DecodeError>(DecodeError::UndeterminedEndianness),
{
    match e {
        Endianness::Little => Ok((buf[offset] as u16) + (buf[offset + 1] as u16) * 0x100),
        Endianness::Big => Ok((buf[offset + 1] as u16) + (buf[offset] as u16) * 0x100),
        Endianness::Unknown => Err(DecodeError::UndeterminedEndianness),
    }
}

/// Decode the 4-byte field at `offset` of `buf` in byte order `e`.
pub fn unwrap_endian_u32(e: Endianness, buf: &[u8], offset: usize) -> (r: Result<u32, DecodeError>)
    requires
        offset + 4 <= buf.len(),
    ensures
        e !is Unknown ==> r == Ok::<u32, DecodeError>(u32_at(buf@, e, offset as int)),
        e is Unknown ==> r == Err::<u32, DecodeError>(DecodeError::UndeterminedEndianness),
{
    match e {
        Endianness::Little => Ok(
            (buf[offset] as u32) + (buf[offset + 1] as u32) * 0x100
                + (buf[offset + 2] as u32) * 0x1_0000 + (buf[offset + 3] as u32) * 0x100_0000,
        ),
        Endianness::Big => Ok(
            (buf[offset + 3] as u32) + (buf[offset + 2] as u32) * 0x100
                + (buf[offset + 1] as u32) * 0x1_0000 + (buf[offset] as u32) * 0x100_0000,
        ),
        Endianness::Unknown => Err(DecodeError::UndeterminedEndianness),
    }
}

/// Decode the 8-byte field at `offset` of `buf` in byte order `e`.
pub fn unwrap_endian_u64(e: Endianness, buf: &[u8], offset: usize) -> (r: Result<u64, DecodeError>)
    requires
        offset + 8 <= buf.len(),
    ensures
        e !is Unknown ==> r == Ok::<u64, DecodeError>(u64_at(buf@, e, offset as int)),
        e is Unknown ==> r == Err::<u64, DecodeError>(DecodeError::UndeterminedEndianness),
{
    match e {
        Endianness::Little => Ok(
            (buf[offset] as u64) + (buf[offset + 1] as u64) * 0x100
                + (buf[offset + 2] as u64) * 0x1_0000 + (buf[offset + 3] as u64) * 0x100_0000
                + (buf[offset + 4] as u64) * 0x1_0000_0000
                + (buf[offset + 5] as u64) * 0x100_0000_0000
                + (buf[offset + 6] as u64) * 0x1_0000_0000_0000
                + (buf[offset + 7] as u64) * 0x100_0000_0000_0000,
        ),
        Endianness::Big => Ok(
            (buf[offset + 7] as u64) + (buf[offset + 6] as u64) * 0x100
                + (buf[offset + 5] as u64) * 0x1_0000 + (buf[offset + 4] as u64) * 0x100_0000
                + (buf[offset + 3] as u64) * 0x1_0000_0000
                + (buf[offset + 2] as u64) * 0x100_0000_0000
                + (buf[offset + 1] as u64) * 0x1_0000_0000_0000
                + (buf[offset] as u64) * 0x100_0000_0000_0000,
        ),
        Endianness::Unknown => Err(DecodeError::UndeterminedEndianness),
    }
}

/// Configuration shared by the decoding subroutines' callers: where the
/// file lives and which reports to print.
pub struct Config<'a> {
    pub elf_path: &'a str,
    pub debug_mode: bool,
    pub print_header: bool,
}

/// A read that filled a header buffer must have produced exactly the
/// expected number of bytes; callers check the counts and fail before
/// calling.
pub fn validate_read(total: usize, file_len: usize)
    requires
        total == file_len,
{
}

} // verus!
