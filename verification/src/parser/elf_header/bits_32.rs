//! Decoder for the platform-specific part of the ELF header when a
//! 32-bit file was detected at offset 4. The field order parallels the
//! 64-bit layout, but the three position fields are 4 bytes wide and are
//! widened to the header's 64-bit storage without sign extension, so the
//! region of interest ends at offset 51.

use vstd::prelude::*;

use crate::parser::{DecodeError, ElfHeader, PlatformBits, ELF_HEADER_LEN};
use crate::utils::{u16_at, u32_at, unwrap_endian_u16, unwrap_endian_u32};

verus! {

/// The 32-bit suffix fields of `h` filled from the bytes of `b`, read in
/// the byte order already recorded in `h`. Position fields are widened to
/// 64 bits; the 4-byte flags field at offset 36 is skipped.
pub open spec fn fill32(b: Seq<u8>, h: ElfHeader) -> ElfHeader {
    ElfHeader {
        prog_entry_pos: u32_at(b, h.endianness, 24) as u64,
        prog_tbl_pos: u32_at(b, h.endianness, 28) as u64,
        sec_tbl_pos: u32_at(b, h.endianness, 32) as u64,
        header_size: u16_at(b, h.endianness, 40),
        prog_size_hentr: u16_at(b, h.endianness, 42),
        prog_no_hentr: u16_at(b, h.endianness, 44),
        sec_size_hentr: u16_at(b, h.endianness, 46),
        sec_no_entr: u16_at(b, h.endianness, 48),
        sec_tbl_names_pos: u16_at(b, h.endianness, 50),
        ..h
    }
}

/// What one call of `parse` does at `offset`: the returned value and the
/// header it leaves behind. Offsets outside 24 through 63, and any offset
/// at all when the header is not 32-bit, are not this decoder's business;
/// unrecognized offsets inside the range are one-byte no-ops.
pub open spec fn step32(b: Seq<u8>, offset: int, h: ElfHeader) -> (Result<
    Option<usize>,
    DecodeError,
>, ElfHeader) {
    if offset < 24 || offset > 63 || !(h.platform_bits is Bits32) {
        (Ok(None), h)
    } else if h.endianness is Unknown && (offset == 24 || offset == 28 || offset == 32
        || offset == 40 || offset == 42 || offset == 44 || offset == 46 || offset == 48
        || offset == 50) {
        (Err(DecodeError::UndeterminedEndianness), h)
    } else if offset == 24 {
        (Ok(Some(4usize)), ElfHeader { prog_entry_pos: u32_at(b, h.endianness, 24) as u64, ..h })
    } else if offset == 28 {
        (Ok(Some(4usize)), ElfHeader { prog_tbl_pos: u32_at(b, h.endianness, 28) as u64, ..h })
    } else if offset == 32 {
        (Ok(Some(4usize)), ElfHeader { sec_tbl_pos: u32_at(b, h.endianness, 32) as u64, ..h })
    } else if offset == 36 {
        (Ok(Some(4usize)), h)
    } else if offset == 40 {
        (Ok(Some(2usize)), ElfHeader { header_size: u16_at(b, h.endianness, 40), ..h })
    } else if offset == 42 {
        (Ok(Some(2usize)), ElfHeader { prog_size_hentr: u16_at(b, h.endianness, 42), ..h })
    } else if offset == 44 {
        (Ok(Some(2usize)), ElfHeader { prog_no_hentr: u16_at(b, h.endianness, 44), ..h })
    } else if offset == 46 {
        (Ok(Some(2usize)), ElfHeader { sec_size_hentr: u16_at(b, h.endianness, 46), ..h })
    } else if offset == 48 {
        (Ok(Some(2usize)), ElfHeader { sec_no_entr: u16_at(b, h.endianness, 48), ..h })
    } else if offset == 50 {
        (Ok(Some(2usize)), ElfHeader { sec_tbl_names_pos: u16_at(b, h.endianness, 50), ..h })
    } else {
        (Ok(Some(1usize)), h)
    }
}

/// Decode the 32-bit header field at `offset` of `buf` into `header`.
///
/// Same calling convention as the common `parse`: the returned count
/// advances the caller's offset, `None` means the offset is not this
/// decoder's responsibility (including every offset of a non-32-bit
/// header).
pub fn parse(buf: &[u8], offset: usize, header: &mut ElfHeader) -> (r: Result<
    Option<usize>,
    DecodeError,
>)
    requires
        buf@.len() >= ELF_HEADER_LEN,
    ensures
        (r, *final(header)) == step32(buf@, offset as int, *old(header)),
{
    if offset < 24 || offset > 63 || header.platform_bits != PlatformBits::Bits32 {
        return Ok(None);
    }

    match offset {
        24 => {
            let val = match unwrap_endian_u32(header.endianness, buf, 24) {
                Ok(v) => v,
                Err(e) => {
                    return Err(e);
                },
            };
            header.prog_entry_pos = val as u64;
            Ok(Some(4))
        },
        28 => {
            let val = match unwrap_endian_u32(header.endianness, buf, 28) {
                Ok(v) => v,
                Err(e) => {
                    return Err(e);
                },
            };
            header.prog_tbl_pos = val as u64;
            Ok(Some(4))
        },
        32 => {
            let val = match unwrap_endian_u32(header.endianness, buf, 32) {
                Ok(v) => v,
                Err(e) => {
                    return Err(e);
                },
            };
            header.sec_tbl_pos = val as u64;
            Ok(Some(4))
        },
        36 => Ok(Some(4)),  // architecture-dependent flags, skipped
        40 => {
            let val = match unwrap_endian_u16(header.endianness, buf, 40) {
                Ok(v) => v,
                Err(e) => {
                    return Err(e);
                },
            };
            header.header_size = val;
            Ok(Some(2))
        },
        42 => {
            let val = match unwrap_endian_u16(header.endianness, buf, 42) {
                Ok(v) => v,
                Err(e) => {
                    return Err(e);
                },
            };
            header.prog_size_hentr = val;
            Ok(Some(2))
        },
        44 => {
            let val = match unwrap_endian_u16(header.endianness, buf, 44) {
                Ok(v) => v,
                Err(e) => {
                    return Err(e);
                },
            };
            header.prog_no_hentr = val;
            Ok(Some(2))
        },
        46 => {
            let val = match unwrap_endian_u16(header.endianness, buf, 46) {
                Ok(v) => v,
                Err(e) => {
                    return Err(e);
                },
            };
            header.sec_size_hentr = val;
            Ok(Some(2))
        },
        48 => {
            let val = match unwrap_endian_u16(header.endianness, buf, 48) {
                Ok(v) => v,
                Err(e) => {
                    return Err(e);
                },
            };
            header.sec_no_entr = val;
            Ok(Some(2))
        },
        50 => {
            let val = match unwrap_endian_u16(header.endianness, buf, 50) {
                Ok(v) => v,
                Err(e) => {
                    return Err(e);
                },
            };
            header.sec_tbl_names_pos = val;
            Ok(Some(2))
        },
        _ => Ok(Some(1)),
    }
}

/// Walk the 32-bit suffix of `buf` offset by offset, starting at 24, and
/// fill the platform-specific fields of `header`.
///
/// Returns the offset reached, 64: the last 32-bit field ends at offset
/// 51, and the bytes from 52 to 63 are walked one at a time as no-ops,
/// so no byte of the header region is left unconsumed. Requires a header
/// whose platform width resolved to 32 bits; if its byte order is still
/// undetermined the first multi-byte field reports it and the header is
/// left untouched.
pub fn decode_32bit_header(buf: &[u8], header: &mut ElfHeader) -> (r: Result<usize, DecodeError>)
    requires
        buf@.len() >= ELF_HEADER_LEN,
        old(header).platform_bits is Bits32,
    ensures
        old(header).endianness is Unknown ==> r == Err::<usize, DecodeError>(
            DecodeError::UndeterminedEndianness,
        ) && *final(header) == *old(header),
        old(header).endianness !is Unknown ==> r == Ok::<usize, DecodeError>(64usize)
            && *final(header) == fill32(buf@, *old(header)),
{
    let mut h = *header;
    let ghost h0 = h;
    let mut offset: usize = 24;

    if let Some(inc) = parse(buf, offset, &mut h)? {
        offset += inc;
    }
    if let Some(inc) = parse(buf, offset, &mut h)? {
        offset += inc;
    }
    if let Some(inc) = parse(buf, offset, &mut h)? {
        offset += inc;
    }
    if let Some(inc) = parse(buf, offset, &mut h)? {
        offset += inc;
    }
    if let Some(inc) = parse(buf, offset, &mut h)? {
        offset += inc;
    }
    if let Some(inc) = parse(buf, offset, &mut h)? {
        offset += inc;
    }
    if let Some(inc) = parse(buf, offset, &mut h)? {
        offset += inc;
    }
    if let Some(inc) = parse(buf, offset, &mut h)? {
        offset += inc;
    }
    if let Some(inc) = parse(buf, offset, &mut h)? {
        offset += inc;
    }
    if let Some(inc) = parse(buf, offset, &mut h)? {
        offset += inc;
    }

    while offset < 64
        invariant
            52 <= offset <= 64,
            buf@.len() >= ELF_HEADER_LEN,
            h == fill32(buf@, h0),
            h.platform_bits is Bits32,
        decreases 64 - offset,
    {
        if let Some(inc) = parse(buf, offset, &mut h)? {
            offset += inc;
        }
    }

    *header = h;
    Ok(offset)
}

} // verus!
