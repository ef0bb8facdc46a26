//! Decoder for the platform-independent prefix of the ELF header
//! (offsets 0 through 23). The platform-specific suffixes are decoded by
//! the `bits_32` and `bits_64` submodules, selected by the platform width
//! discovered here at offset 4.

pub mod bits_32;
pub mod bits_64;

use vstd::prelude::*;

use crate::parser::{
    DecodeError, ElfHeader, ElfType, Endianness, InstructionSet, PlatformBits, TargetABI,
    ELF_HEADER_LEN, ELF_MAGIC_NUM,
};
use crate::utils::{u16_at, u32_at, unwrap_endian_u16, unwrap_endian_u32};

verus! {

/// Whether `b` starts with the four identification bytes: the magic
/// number 0x7f, then "ELF" in ASCII.
pub open spec fn magic_ok(b: Seq<u8>) -> bool {
    &&& b[0] == ELF_MAGIC_NUM
    &&& b[1] == 0x45
    &&& b[2] == 0x4c
    &&& b[3] == 0x46
}

/// Platform width for the code at byte 4: 1 is 32-bit, 2 is 64-bit.
pub open spec fn platform_of(code: u8) -> Option<PlatformBits> {
    if code == 1 {
        Some(PlatformBits::Bits32)
    } else if code == 2 {
        Some(PlatformBits::Bits64)
    } else {
        None
    }
}

/// Byte order for the code at byte 5: 1 is little-endian, 2 is big-endian.
pub open spec fn endianness_of(code: u8) -> Option<Endianness> {
    if code == 1 {
        Some(Endianness::Little)
    } else if code == 2 {
        Some(Endianness::Big)
    } else {
        None
    }
}

/// Operating system ABI for the code at byte 7. The table runs from 0x00
/// to 0x11 with a gap at 0x05.
pub open spec fn abi_of(code: u8) -> Option<TargetABI> {
    match code {
        0x00 => Some(TargetABI::SystemV),
        0x01 => Some(TargetABI::HPUX),
        0x02 => Some(TargetABI::NetBSD),
        0x03 => Some(TargetABI::Linux),
        0x04 => Some(TargetABI::GNUHurd),
        0x06 => Some(TargetABI::Solaris),
        0x07 => Some(TargetABI::AIX),
        0x08 => Some(TargetABI::IRIX),
        0x09 => Some(TargetABI::FreeBSD),
        0x0a => Some(TargetABI::Tru64),
        0x0b => Some(TargetABI::NovellModesto),
        0x0c => Some(TargetABI::OpenBSD),
        0x0d => Some(TargetABI::OpenVMS),
        0x0e => Some(TargetABI::NonStop),
        0x0f => Some(TargetABI::AROS),
        0x10 => Some(TargetABI::FenixOS),
        0x11 => Some(TargetABI::CloudABI),
        _ => None,
    }
}

/// Object file kind for the 16-bit field at offset 16: codes 1 through 4.
pub open spec fn elf_type_of(code: u16) -> Option<ElfType> {
    match code {
        1 => Some(ElfType::Relocatable),
        2 => Some(ElfType::Executable),
        3 => Some(ElfType::Shared),
        4 => Some(ElfType::Core),
        _ => None,
    }
}

/// Instruction set for the 16-bit field at offset 18.
pub open spec fn instruction_set_of(code: u16) -> Option<InstructionSet> {
    match code {
        0x00 => Some(InstructionSet::NoSpecific),
        0x02 => Some(InstructionSet::Sparc),
        0x03 => Some(InstructionSet::X86),
        0x08 => Some(InstructionSet::MIPS),
        0x14 => Some(InstructionSet::PowerPC),
        0x16 => Some(InstructionSet::S390),
        0x28 => Some(InstructionSet::ARM),
        0x2a => Some(InstructionSet::SuperH),
        0x32 => Some(InstructionSet::IA64),
        0x3e => Some(InstructionSet::X86_64),
        0xb7 => Some(InstructionSet::AArch64),
        0xf3 => Some(InstructionSet::RISCV),
        _ => None,
    }
}

/// End-to-end result of walking the common region, offsets 0 through 23,
/// of `b` starting from header value `h`: either the header with the seven
/// common fields filled, or the first error met in offset order — magic,
/// platform, byte order, ABI, object file type, instruction set.
pub open spec fn common_result(b: Seq<u8>, h: ElfHeader) -> Result<ElfHeader, DecodeError> {
    if !magic_ok(b) {
        Err(DecodeError::BadMagic)
    } else {
        match platform_of(b[4]) {
            None => Err(DecodeError::UnknownPlatform(b[4])),
            Some(p) => match endianness_of(b[5]) {
                None => Err(DecodeError::UnknownEndianness(b[5])),
                Some(e) => match abi_of(b[7]) {
                    None => Err(DecodeError::UnknownABI(b[7])),
                    Some(a) => match elf_type_of(u16_at(b, e, 16)) {
                        None => Err(DecodeError::UnknownElfType(u16_at(b, e, 16))),
                        Some(t) => match instruction_set_of(u16_at(b, e, 18)) {
                            None => Err(DecodeError::UnknownInstructionSet(u16_at(b, e, 18))),
                            Some(i) => Ok(
                                ElfHeader {
                                    platform_bits: p,
                                    endianness: e,
                                    header_version: b[6],
                                    abi: a,
                                    elf_type: t,
                                    instruction_set: i,
                                    version: u32_at(b, e, 20),
                                    ..h
                                },
                            ),
                        },
                    },
                },
            },
        }
    }
}

/// End-to-end result of decoding a full 64-byte header buffer from the
/// all-default starting value: the common region first, then the suffix
/// of the platform it discovered.
pub open spec fn header_result(b: Seq<u8>) -> Result<ElfHeader, DecodeError> {
    match common_result(b, ElfHeader::initial()) {
        Err(e) => Err(e),
        Ok(h) => if h.platform_bits is Bits64 {
            Ok(bits_64::fill64(b, h))
        } else {
            Ok(bits_32::fill32(b, h))
        },
    }
}

/// What one call of `parse` does at `offset`: the returned value and the
/// header it leaves behind. This is the offset-keyed dispatch table of the
/// common region — each recognized offset names the field decoded there
/// and the number of bytes consumed; unrecognized offsets inside the
/// region are one-byte no-ops.
pub open spec fn common_step(b: Seq<u8>, offset: int, h: ElfHeader) -> (Result<
    Option<usize>,
    DecodeError,
>, ElfHeader) {
    if offset > 23 {
        (Ok(None), h)
    } else if offset == 0 {
        if magic_ok(b) {
            (Ok(Some(4usize)), h)
        } else {
            (Err(DecodeError::BadMagic), h)
        }
    } else if offset == 4 {
        match platform_of(b[4]) {
            Some(p) => (Ok(Some(1usize)), ElfHeader { platform_bits: p, ..h }),
            None => (Err(DecodeError::UnknownPlatform(b[4])), h),
        }
    } else if offset == 5 {
        match endianness_of(b[5]) {
            Some(e) => (Ok(Some(1usize)), ElfHeader { endianness: e, ..h }),
            None => (Err(DecodeError::UnknownEndianness(b[5])), h),
        }
    } else if offset == 6 {
        (Ok(Some(1usize)), ElfHeader { header_version: b[6], ..h })
    } else if offset == 7 {
        match abi_of(b[7]) {
            Some(a) => (Ok(Some(1usize)), ElfHeader { abi: a, ..h }),
            None => (Err(DecodeError::UnknownABI(b[7])), h),
        }
    } else if offset == 8 {
        (Ok(Some(8usize)), h)
    } else if offset == 16 {
        if h.endianness is Unknown {
            (Err(DecodeError::UndeterminedEndianness), h)
        } else {
            match elf_type_of(u16_at(b, h.endianness, 16)) {
                Some(t) => (Ok(Some(2usize)), ElfHeader { elf_type: t, ..h }),
                None => (Err(DecodeError::UnknownElfType(u16_at(b, h.endianness, 16))), h),
            }
        }
    } else if offset == 18 {
        if h.endianness is Unknown {
            (Err(DecodeError::UndeterminedEndianness), h)
        } else {
            match instruction_set_of(u16_at(b, h.endianness, 18)) {
                Some(i) => (Ok(Some(2usize)), ElfHeader { instruction_set: i, ..h }),
                None => (
                    Err(DecodeError::UnknownInstructionSet(u16_at(b, h.endianness, 18))),
                    h,
                ),
            }
        }
    } else if offset == 20 {
        if h.endianness is Unknown {
            (Err(DecodeError::UndeterminedEndianness), h)
        } else {
            (Ok(Some(4usize)), ElfHeader { version: u32_at(b, h.endianness, 20), ..h })
        }
    } else {
        (Ok(Some(1usize)), h)
    }
}

/// Decode the common header field at `offset` of `buf` into `header`.
///
/// Returns the number of bytes consumed, to be added to the running
/// offset by the caller, or `None` when the offset lies outside this
/// decoder's range of 0 through 23. On an unrecognized code the matching
/// error is returned and the header is left unchanged.
pub fn parse(buf: &[u8], offset: usize, header: &mut ElfHeader) -> (r: Result<
    Option<usize>,
    DecodeError,
>)
    requires
        buf@.len() >= ELF_HEADER_LEN,
    ensures
        (r, *final(header)) == common_step(buf@, offset as int, *old(header)),
{
    if offset > 23 {
        return Ok(None);
    }

    match offset {
        0 => {
            // every valid ELF file starts with the magic number and "ELF"
            if buf[0] != ELF_MAGIC_NUM || buf[1] != 0x45 || buf[2] != 0x4c || buf[3] != 0x46 {
                return Err(DecodeError::BadMagic);
            }
            Ok(Some(4))
        },
        4 => {
            let code = buf[4];
            let platform = match code {
                1 => PlatformBits::Bits32,
                2 => PlatformBits::Bits64,
                _ => {
                    return Err(DecodeError::UnknownPlatform(code));
                },
            };
            header.platform_bits = platform;
            Ok(Some(1))
        },
        5 => {
            let code = buf[5];
            let endian = match code {
                1 => Endianness::Little,
                2 => Endianness::Big,
                _ => {
                    return Err(DecodeError::UnknownEndianness(code));
                },
            };
            header.endianness = endian;
            Ok(Some(1))
        },
        6 => {
            header.header_version = buf[6];
            Ok(Some(1))
        },
        7 => {
            let code = buf[7];
            let abi = match code {
                0x00 => TargetABI::SystemV,
                0x01 => TargetABI::HPUX,
                0x02 => TargetABI::NetBSD,
                0x03 => TargetABI::Linux,
                0x04 => TargetABI::GNUHurd,
                0x06 => TargetABI::Solaris,
                0x07 => TargetABI::AIX,
                0x08 => TargetABI::IRIX,
                0x09 => TargetABI::FreeBSD,
                0x0a => TargetABI::Tru64,
                0x0b => TargetABI::NovellModesto,
                0x0c => TargetABI::OpenBSD,
                0x0d => TargetABI::OpenVMS,
                0x0e => TargetABI::NonStop,
                0x0f => TargetABI::AROS,
                0x10 => TargetABI::FenixOS,
                0x11 => TargetABI::CloudABI,
                _ => {
                    return Err(DecodeError::UnknownABI(code));
                },
            };
            header.abi = abi;
            Ok(Some(1))
        },
        8 => Ok(Some(8)),  // padding, skipped without decoding
        16 => {
            let code = match unwrap_endian_u16(header.endianness, buf, 16) {
                Ok(c) => c,
                Err(e) => {
                    return Err(e);
                },
            };
            let elf_type = match code {
                1 => ElfType::Relocatable,
                2 => ElfType::Executable,
                3 => ElfType::Shared,
                4 => ElfType::Core,
                _ => {
                    return Err(DecodeError::UnknownElfType(code));
                },
            };
            header.elf_type = elf_type;
            Ok(Some(2))
        },
        18 => {
            let code = match unwrap_endian_u16(header.endianness, buf, 18) {
                Ok(c) => c,
                Err(e) => {
                    return Err(e);
                },
            };
            let iset = match code {
                0x00 => InstructionSet::NoSpecific,
                0x02 => InstructionSet::Sparc,
                0x03 => InstructionSet::X86,
                0x08 => InstructionSet::MIPS,
                0x14 => InstructionSet::PowerPC,
                0x16 => InstructionSet::S390,
                0x28 => InstructionSet::ARM,
                0x2a => InstructionSet::SuperH,
                0x32 => InstructionSet::IA64,
                0x3e => InstructionSet::X86_64,
                0xb7 => InstructionSet::AArch64,
                0xf3 => InstructionSet::RISCV,
                _ => {
                    return Err(DecodeError::UnknownInstructionSet(code));
                },
            };
            header.instruction_set = iset;
            Ok(Some(2))
        },
        20 => {
            let version = match unwrap_endian_u32(header.endianness, buf, 20) {
                Ok(v) => v,
                Err(e) => {
                    return Err(e);
                },
            };
            header.version = version;
            Ok(Some(4))
        },
        _ => Ok(Some(1)),
    }
}

/// Walk the common region of `buf` offset by offset, each step adding the
/// consumed width, and fill the common fields of `header`.
///
/// Returns the offset reached, 24, so the caller can continue with the
/// platform-specific decoder selected by the now-known platform width.
/// On failure the header is left untouched: a decode either succeeds as
/// a whole or reports the first error, never a partial success.
pub fn decode_common_header(buf: &[u8], header: &mut ElfHeader) -> (r: Result<usize, DecodeError>)
    requires
        buf@.len() >= ELF_HEADER_LEN,
    ensures
        (match common_result(buf@, *old(header)) {
            Ok(h) => r == Ok::<usize, DecodeError>(24usize) && *final(header) == h,
            Err(e) => r == Err::<usize, DecodeError>(e) && *final(header) == *old(header),
        }),
{
    let mut h = *header;
    let mut offset: usize = 0;

    if let Some(inc) = parse(buf, offset, &mut h)? {
        offset += inc;
    }
    if let Some(inc) = parse(buf, offset, &mut h)? {
        offset += inc;
    }
    if let Some(inc) = parse(buf, offset, &mut h)? {
        offset += inc;
    }
    if let Some(inc) = parse(buf, offset, &mut h)? {
        offset += inc;
    }
    if let Some(inc) = parse(buf, offset, &mut h)? {
        offset += inc;
    }
    if let Some(inc) = parse(buf, offset, &mut h)? {
        offset += inc;
    }
    if let Some(inc) = parse(buf, offset, &mut h)? {
        offset += inc;
    }
    if let Some(inc) = parse(buf, offset, &mut h)? {
        offset += inc;
    }
    if let Some(inc) = parse(buf, offset, &mut h)? {
        offset += inc;
    }

    *header = h;
    Ok(offset)
}

/// Decode a full 64-byte header buffer: the common region first, then the
/// platform-specific suffix selected by the platform width it discovered.
///
/// The one public entry point that needs no prior knowledge of the
/// buffer: a buffer shorter than the 64-byte header region is rejected
/// with `BufferTooShort`.
pub fn decode_elf_header(buf: &[u8]) -> (r: Result<ElfHeader, DecodeError>)
    ensures
        buf@.len() < ELF_HEADER_LEN ==> r == Err::<ElfHeader, DecodeError>(
            DecodeError::BufferTooShort,
        ),
        buf@.len() >= ELF_HEADER_LEN ==> r == header_result(buf@),
{
    if buf.len() < ELF_HEADER_LEN {
        return Err(DecodeError::BufferTooShort);
    }

    let mut header = ElfHeader::new();
    match decode_common_header(buf, &mut header) {
        Ok(_) => {},
        Err(e) => {
            return Err(e);
        },
    }

    if header.platform_bits == PlatformBits::Bits64 {
        match bits_64::decode_64bit_header(buf, &mut header) {
            Ok(_) => {},
            Err(e) => {
                return Err(e);
            },
        }
    } else {
        match bits_32::decode_32bit_header(buf, &mut header) {
            Ok(_) => {},
            Err(e) => {
                return Err(e);
            },
        }
    }

    Ok(header)
}

} // verus!
