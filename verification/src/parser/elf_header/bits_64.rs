//! Decoder for the platform-specific part of the ELF header (offsets 24
//! through 63) when a 64-bit file was detected at offset 4.

use vstd::prelude::*;

use crate::parser::{DecodeError, ElfHeader, PlatformBits, ELF_HEADER_LEN};
use crate::utils::{u16_at, u64_at, unwrap_endian_u16, unwrap_endian_u64};

verus! {

/// The 64-bit suffix fields of `h` filled from the bytes of `b`, read in
/// the byte order already recorded in `h`. The 4-byte flags field at
/// offset 48 is skipped, so `flags` keeps its value.
pub open spec fn fill64(b: Seq<u8>, h: ElfHeader) -> ElfHeader {
    ElfHeader {
        prog_entry_pos: u64_at(b, h.endianness, 24),
        prog_tbl_pos: u64_at(b, h.endianness, 32),
        sec_tbl_pos: u64_at(b, h.endianness, 40),
        header_size: u16_at(b, h.endianness, 52),
        prog_size_hentr: u16_at(b, h.endianness, 54),
        prog_no_hentr: u16_at(b, h.endianness, 56),
        sec_size_hentr: u16_at(b, h.endianness, 58),
        sec_no_entr: u16_at(b, h.endianness, 60),
        sec_tbl_names_pos: u16_at(b, h.endianness, 62),
        ..h
    }
}

/// What one call of `parse` does at `offset`: the returned value and the
/// header it leaves behind. Offsets outside 24 through 63, and any offset
/// at all when the header is not 64-bit, are not this decoder's business;
/// unrecognized offsets inside the range are one-byte no-ops.
pub open spec fn step64(b: Seq<u8>, offset: int, h: ElfHeader) -> (Result<
    Option<usize>,
    DecodeError,
>, ElfHeader) {
    if offset < 24 || offset > 63 || !(h.platform_bits is Bits64) {
        (Ok(None), h)
    } else if h.endianness is Unknown && (offset == 24 || offset == 32 || offset == 40
        || offset == 52 || offset == 54 || offset == 56 || offset == 58 || offset == 60
        || offset == 62) {
        (Err(DecodeError::UndeterminedEndianness), h)
    } else if offset == 24 {
        (Ok(Some(8usize)), ElfHeader { prog_entry_pos: u64_at(b, h.endianness, 24), ..h })
    } else if offset == 32 {
        (Ok(Some(8usize)), ElfHeader { prog_tbl_pos: u64_at(b, h.endianness, 32), ..h })
    } else if offset == 40 {
        (Ok(Some(8usize)), ElfHeader { sec_tbl_pos: u64_at(b, h.endianness, 40), ..h })
    } else if offset == 48 {
        (Ok(Some(4usize)), h)
    } else if offset == 52 {
        (Ok(Some(2usize)), ElfHeader { header_size: u16_at(b, h.endianness, 52), ..h })
    } else if offset == 54 {
        (Ok(Some(2usize)), ElfHeader { prog_size_hentr: u16_at(b, h.endianness, 54), ..h })
    } else if offset == 56 {
        (Ok(Some(2usize)), ElfHeader { prog_no_hentr: u16_at(b, h.endianness, 56), ..h })
    } else if offset == 58 {
        (Ok(Some(2usize)), ElfHeader { sec_size_hentr: u16_at(b, h.endianness, 58), ..h })
    } else if offset == 60 {
        (Ok(Some(2usize)), ElfHeader { sec_no_entr: u16_at(b, h.endianness, 60), ..h })
    } else if offset == 62 {
        (Ok(Some(2usize)), ElfHeader { sec_tbl_names_pos: u16_at(b, h.endianness, 62), ..h })
    } else {
        (Ok(Some(1usize)), h)
    }
}

/// Decode the 64-bit header field at `offset` of `buf` into `header`.
///
/// Same calling convention as the common `parse`: the returned count
/// advances the caller's offset, `None` means the offset is not this
/// decoder's responsibility (including every offset of a non-64-bit
/// header).
pub fn parse(buf: &[u8], offset: usize, header: &mut ElfHeader) -> (r: Result<
    Option<usize>,
    DecodeError,
>)
    requires
        buf@.len() >= ELF_HEADER_LEN,
    ensures
        (r, *final(header)) == step64(buf@, offset as int, *old(header)),
{
    if offset < 24 || offset > 63 || header.platform_bits != PlatformBits::Bits64 {
        return Ok(None);
    }

    match offset {
        24 => {
            let val = match unwrap_endian_u64(header.endianness, buf, 24) {
                Ok(v) => v,
                Err(e) => {
                    return Err(e);
                },
            };
            header.prog_entry_pos = val;
            Ok(Some(8))
        },
        32 => {
            let val = match unwrap_endian_u64(header.endianness, buf, 32) {
                Ok(v) => v,
                Err(e) => {
                    return Err(e);
                },
            };
            header.prog_tbl_pos = val;
            Ok(Some(8))
        },
        40 => {
            let val = match unwrap_endian_u64(header.endianness, buf, 40) {
                Ok(v) => v,
                Err(e) => {
                    return Err(e);
                },
            };
            header.sec_tbl_pos = val;
            Ok(Some(8))
        },
        48 => Ok(Some(4)),  // architecture-dependent flags, skipped
        52 => {
            let val = match unwrap_endian_u16(header.endianness, buf, 52) {
                Ok(v) => v,
                Err(e) => {
                    return Err(e);
                },
            };
            header.header_size = val;
            Ok(Some(2))
        },
        54 => {
            let val = match unwrap_endian_u16(header.endianness, buf, 54) {
                Ok(v) => v,
                Err(e) => {
                    return Err(e);
                },
            };
            header.prog_size_hentr = val;
            Ok(Some(2))
        },
        56 => {
            let val = match unwrap_endian_u16(header.endianness, buf, 56) {
                Ok(v) => v,
                Err(e) => {
                    return Err(e);
                },
            };
            header.prog_no_hentr = val;
            Ok(Some(2))
        },
        58 => {
            let val = match unwrap_endian_u16(header.endianness, buf, 58) {
                Ok(v) => v,
                Err(e) => {
                    return Err(e);
                },
            };
            header.sec_size_hentr = val;
            Ok(Some(2))
        },
        60 => {
            let val = match unwrap_endian_u16(header.endianness, buf, 60) {
                Ok(v) => v,
                Err(e) => {
                    return Err(e);
                },
            };
            header.sec_no_entr = val;
            Ok(Some(2))
        },
        62 => {
            let val = match unwrap_endian_u16(header.endianness, buf, 62) {
                Ok(v) => v,
                Err(e) => {
                    return Err(e);
                },
            };
            header.sec_tbl_names_pos = val;
            Ok(Some(2))
        },
        _ => Ok(Some(1)),
    }
}

/// Walk the 64-bit suffix of `buf` offset by offset, starting at 24, and
/// fill the platform-specific fields of `header`.
///
/// Returns the offset reached, 64: after the final 2-byte field at
/// offset 62 no byte of the header region is left unconsumed. Requires
/// a header whose platform width resolved to 64 bits; if its byte order
/// is still undetermined the first multi-byte field reports it and the
/// header is left untouched.
pub fn decode_64bit_header(buf: &[u8], header: &mut ElfHeader) -> (r: Result<usize, DecodeError>)
    requires
        buf@.len() >= ELF_HEADER_LEN,
        old(header).platform_bits is Bits64,
    ensures
        old(header).endianness is Unknown ==> r == Err::<usize, DecodeError>(
            DecodeError::UndeterminedEndianness,
        ) && *final(header) == *old(header),
        old(header).endianness !is Unknown ==> r == Ok::<usize, DecodeError>(64usize)
            && *final(header) == fill64(buf@, *old(header)),
{
    let mut h = *header;
    let mut offset: usize = 24;

    if let Some(inc) = parse(buf, offset, &mut h)? {
        offset += inc;
    }
    if let Some(inc) = parse(buf, offset, &mut h)? {
        offset += inc;
    }
    if let Some(inc) = parse(buf, offset, &mut h)? {
        offset += inc;
    }
    if let Some(inc) = parse(buf, offset, &mut h)? {
        offset += inc;
    }
    if let Some(inc) = parse(buf, offset, &mut h)? {
        offset += inc;
    }
    if let Some(inc) = parse(buf, offset, &mut h)? {
        offset += inc;
    }
    if let Some(inc) = parse(buf, offset, &mut h)? {
        offset += inc;
    }
    if let Some(inc) = parse(buf, offset, &mut h)? {
        offset += inc;
    }
    if let Some(inc) = parse(buf, offset, &mut h)? {
        offset += inc;
    }
    if let Some(inc) = parse(buf, offset, &mut h)? {
        offset += inc;
    }

    *header = h;
    Ok(offset)
}

} // verus!
