//! Decoder for the program header table of an ELF file. Decoding one
//! entry requires a sufficiently populated `ElfHeader`: the byte order,
//! the platform width and the entry size all come from it. The buffer
//! handed in here is the file content from the table position onward.

use vstd::prelude::*;

use crate::parser::{
    DecodeError, ElfHeader, PlatformBits, ProgHeadEntry, ProgHeadFlag, ProgHeader, ProgSegmentType,
};
use crate::utils::{u32_at, u64_at, unwrap_endian_u32, unwrap_endian_u64};

verus! {

/// Fewest bytes a 64-bit table entry can have: the eight fields of the
/// layout end at byte 56.
pub const SEG_64_MIN_LEN: u16 = 56;

/// Fewest bytes a 32-bit table entry can have: the eight fields of the
/// layout end at byte 32.
pub const SEG_32_MIN_LEN: u16 = 32;

/// Segment type for the 32-bit code at entry offset 0: a fixed table for
/// 0 through 6, then the reserved ranges of the operating system and of
/// the processor.
pub open spec fn seg_type_of(code: u32) -> Option<ProgSegmentType> {
    if code == 0 {
        Some(ProgSegmentType::EntryUnused)
    } else if code == 1 {
        Some(ProgSegmentType::Loadable)
    } else if code == 2 {
        Some(ProgSegmentType::DynLinkInfo)
    } else if code == 3 {
        Some(ProgSegmentType::InterpInfo)
    } else if code == 4 {
        Some(ProgSegmentType::AuxInfo)
    } else if code == 5 {
        Some(ProgSegmentType::Reserved)
    } else if code == 6 {
        Some(ProgSegmentType::ProgHeader)
    } else if 0x6000_0000 <= code && code <= 0x6FFF_FFFF {
        Some(ProgSegmentType::OSReserved)
    } else if 0x7000_0000 <= code && code <= 0x7FFF_FFFF {
        Some(ProgSegmentType::CPUReserved)
    } else {
        None
    }
}

/// Permission flags for the 32-bit code at the entry's flag field:
/// exact matches for 1 through 7.
pub open spec fn head_flag_of(code: u32) -> Option<ProgHeadFlag> {
    if code == 1 {
        Some(ProgHeadFlag::Executable)
    } else if code == 2 {
        Some(ProgHeadFlag::Writable)
    } else if code == 3 {
        Some(ProgHeadFlag::WriteExecutable)
    } else if code == 4 {
        Some(ProgHeadFlag::Readable)
    } else if code == 5 {
        Some(ProgHeadFlag::ReadExecutable)
    } else if code == 6 {
        Some(ProgHeadFlag::ReadWritable)
    } else if code == 7 {
        Some(ProgHeadFlag::ReadWriteExecutable)
    } else {
        None
    }
}

/// The 64-bit table entry starting at byte `base` of `b`, read in byte
/// order `e`: type at 0, flags at 4, then six 8-byte fields from 8 to 55.
/// Failures come in the order the fields are walked: byte order first,
/// then the type code, then the flag code.
pub open spec fn seg64_result(b: Seq<u8>, e: crate::parser::Endianness, base: int) -> Result<
    ProgHeadEntry,
    DecodeError,
> {
    if e is Unknown {
        Err(DecodeError::UndeterminedEndianness)
    } else {
        match seg_type_of(u32_at(b, e, base)) {
            None => Err(DecodeError::UnknownSegmentType(u32_at(b, e, base))),
            Some(s_type) => match head_flag_of(u32_at(b, e, base + 4)) {
                None => Err(DecodeError::UnknownSegmentFlag(u32_at(b, e, base + 4))),
                Some(flags) => Ok(
                    ProgHeadEntry {
                        s_type,
                        flags,
                        d_off: u64_at(b, e, base + 8),
                        v_addr: u64_at(b, e, base + 16),
                        p_addr: u64_at(b, e, base + 24),
                        f_size: u64_at(b, e, base + 32),
                        mem_size: u64_at(b, e, base + 40),
                        align: u64_at(b, e, base + 48),
                    },
                ),
            },
        }
    }
}

/// The 32-bit table entry starting at byte `base` of `b`: all eight
/// fields are 4 bytes wide and the flags sit at byte 24, after the size
/// fields, unlike the 64-bit layout. Address and size fields are widened
/// to 64 bits without sign extension.
pub open spec fn seg32_result(b: Seq<u8>, e: crate::parser::Endianness, base: int) -> Result<
    ProgHeadEntry,
    DecodeError,
> {
    if e is Unknown {
        Err(DecodeError::UndeterminedEndianness)
    } else {
        match seg_type_of(u32_at(b, e, base)) {
            None => Err(DecodeError::UnknownSegmentType(u32_at(b, e, base))),
            Some(s_type) => match head_flag_of(u32_at(b, e, base + 24)) {
                None => Err(DecodeError::UnknownSegmentFlag(u32_at(b, e, base + 24))),
                Some(flags) => Ok(
                    ProgHeadEntry {
                        s_type,
                        flags,
                        d_off: u32_at(b, e, base + 4) as u64,
                        v_addr: u32_at(b, e, base + 8) as u64,
                        p_addr: u32_at(b, e, base + 12) as u64,
                        f_size: u32_at(b, e, base + 16) as u64,
                        mem_size: u32_at(b, e, base + 20) as u64,
                        align: u32_at(b, e, base + 28) as u64,
                    },
                ),
            },
        }
    }
}

/// The table entry starting at byte `base` of `b`, decoded in the entry
/// layout of the header's platform width.
pub open spec fn seg_result(b: Seq<u8>, h: ElfHeader, base: int) -> Result<
    ProgHeadEntry,
    DecodeError,
>
    recommends
        h.platform_bits !is Unknown,
{
    if h.platform_bits is Bits64 {
        seg64_result(b, h.endianness, base)
    } else {
        seg32_result(b, h.endianness, base)
    }
}

/// The first `n` entries of the program header table in `b`, decoded in
/// ascending index order — entry `i` from the byte range starting at
/// `i * prog_size_hentr` — or the first error met. A header whose
/// platform width never resolved decodes nothing.
pub open spec fn table_result(b: Seq<u8>, h: ElfHeader, n: int) -> Result<
    Seq<ProgHeadEntry>,
    DecodeError,
>
    decreases n,
{
    if n <= 0 {
        Ok(Seq::empty())
    } else {
        match table_result(b, h, n - 1) {
            Err(e) => Err(e),
            Ok(s) => if h.platform_bits is Unknown {
                Ok(s)
            } else {
                match seg_result(b, h, (n - 1) * h.prog_size_hentr) {
                    Err(e) => Err(e),
                    Ok(entry) => Ok(s.push(entry)),
                }
            },
        }
    }
}

/// The caller's buffer guarantee for decoding the whole table: the
/// buffer covers every entry's byte extent, and one entry is at least as
/// long as its platform's field layout. Trivial when there is nothing to
/// decode.
pub open spec fn table_in_bounds(b: Seq<u8>, h: ElfHeader) -> bool {
    h.prog_no_hentr == 0 || (match h.platform_bits {
        PlatformBits::Bits64 => h.prog_size_hentr >= SEG_64_MIN_LEN && h.prog_no_hentr
            * h.prog_size_hentr <= b.len(),
        PlatformBits::Bits32 => h.prog_size_hentr >= SEG_32_MIN_LEN && h.prog_no_hentr
            * h.prog_size_hentr <= b.len(),
        PlatformBits::Unknown => true,
    })
}

/// An error among the first `i` entries is the error of every longer
/// prefix as well: decoding stops at the first failure.
proof fn lemma_table_err(b: Seq<u8>, h: ElfHeader, i: int, n: int)
    requires
        0 <= i <= n,
        table_result(b, h, i) is Err,
    ensures
        table_result(b, h, n) == table_result(b, h, i),
    decreases n,
{
    if n > i {
        lemma_table_err(b, h, i, n - 1);
    }
}

/// A successfully decoded table of `n` entries holds exactly `n` of
/// them, entry `i` decoded from the byte range starting at
/// `i * prog_size_hentr`, in ascending index order.
pub proof fn lemma_table_entries(b: Seq<u8>, h: ElfHeader, n: int)
    requires
        0 <= n,
        h.platform_bits !is Unknown,
        table_result(b, h, n) is Ok,
    ensures
        table_result(b, h, n)->Ok_0.len() == n,
        forall|i: int|
            0 <= i < n ==> #[trigger] seg_result(b, h, i * h.prog_size_hentr) is Ok
                && table_result(b, h, n)->Ok_0[i] == seg_result(b, h, i * h.prog_size_hentr)->Ok_0,
    decreases n,
{
    if n > 0 {
        lemma_table_entries(b, h, n - 1);
        assert(seg_result(b, h, (n - 1) * h.prog_size_hentr) is Ok);
        assert forall|i: int|
            0 <= i < n implies #[trigger] seg_result(b, h, i * h.prog_size_hentr) is Ok
                && table_result(b, h, n)->Ok_0[i] == seg_result(b, h, i * h.prog_size_hentr)->Ok_0 by {
            if i < n - 1 {
                assert(table_result(b, h, n)->Ok_0[i] == table_result(b, h, n - 1)->Ok_0[i]);
            } else {
                assert(i * h.prog_size_hentr == (n - 1) * h.prog_size_hentr) by (nonlinear_arith)
                    requires
                        i == n - 1,
                ;
            }
        }
    }
}

/// Decode the whole program header table described by `elf_h` from
/// `buf`, the file content from the table position onward.
///
/// The buffer guarantee is checked here, not required: a buffer that
/// does not cover `prog_no_hentr` entries of `prog_size_hentr` bytes
/// (or entries too short for the platform's field layout) is rejected
/// with `BufferTooShort` before anything is decoded.
#[verifier::rlimit(50)]
pub fn decode_prog_header(buf: &[u8], elf_h: &ElfHeader) -> (r: Result<ProgHeader, DecodeError>)
    ensures
        !table_in_bounds(buf@, *elf_h) ==> (r matches Err(e) && e == DecodeError::BufferTooShort),
        table_in_bounds(buf@, *elf_h) ==> (match table_result(
            buf@,
            *elf_h,
            elf_h.prog_no_hentr as int,
        ) {
            Ok(s) => r matches Ok(ph) && ph.entr@ == s,
            Err(e) => r matches Err(e2) && e2 == e,
        }),
{
    proof {
        assert((elf_h.prog_no_hentr as int) * (elf_h.prog_size_hentr as int) <= 0xffff * 0xffff)
            by (nonlinear_arith)
            requires
                elf_h.prog_no_hentr <= 0xffff && elf_h.prog_size_hentr <= 0xffff,
        ;
    }
    if elf_h.prog_no_hentr > 0 {
        if elf_h.platform_bits == PlatformBits::Bits64 {
            if elf_h.prog_size_hentr < SEG_64_MIN_LEN {
                return Err(DecodeError::BufferTooShort);
            }
            if (elf_h.prog_no_hentr as usize) * (elf_h.prog_size_hentr as usize) > buf.len() {
                return Err(DecodeError::BufferTooShort);
            }
        } else if elf_h.platform_bits == PlatformBits::Bits32 {
            if elf_h.prog_size_hentr < SEG_32_MIN_LEN {
                return Err(DecodeError::BufferTooShort);
            }
            if (elf_h.prog_no_hentr as usize) * (elf_h.prog_size_hentr as usize) > buf.len() {
                return Err(DecodeError::BufferTooShort);
            }
        }
    }

    let mut prog_h = ProgHeader::new();
    let mut seg: u16 = 0;

    while seg < elf_h.prog_no_hentr
        invariant
            seg <= elf_h.prog_no_hentr,
            table_in_bounds(buf@, *elf_h),
            table_result(buf@, *elf_h, seg as int) == Ok::<Seq<ProgHeadEntry>, DecodeError>(
                prog_h.entr@,
            ),
        decreases elf_h.prog_no_hentr - seg,
    {
        proof {
            assert((seg + 1) * elf_h.prog_size_hentr <= elf_h.prog_no_hentr
                * elf_h.prog_size_hentr) by (nonlinear_arith)
                requires
                    seg < elf_h.prog_no_hentr,
            ;
        }
        if elf_h.platform_bits == PlatformBits::Bits64 {
            match parse_seg_64_bit(buf, elf_h, &mut prog_h, seg) {
                Ok(()) => {},
                Err(e) => {
                    proof {
                        lemma_table_err(buf@, *elf_h, seg + 1, elf_h.prog_no_hentr as int);
                    }
                    return Err(e);
                },
            }
        } else if elf_h.platform_bits == PlatformBits::Bits32 {
            match parse_seg_32_bit(buf, elf_h, &mut prog_h, seg) {
                Ok(()) => {},
                Err(e) => {
                    proof {
                        lemma_table_err(buf@, *elf_h, seg + 1, elf_h.prog_no_hentr as int);
                    }
                    return Err(e);
                },
            }
        }
        seg += 1;
    }

    Ok(prog_h)
}

/// Decode the 64-bit table entry with index `s_no` from `buf` and append
/// it to `prog_h`. On failure the table is left unchanged.
pub fn parse_seg_64_bit(
    buf: &[u8],
    elf_h: &ElfHeader,
    prog_h: &mut ProgHeader,
    s_no: u16,
) -> (r: Result<(), DecodeError>)
    requires
        elf_h.prog_size_hentr >= SEG_64_MIN_LEN,
        (s_no + 1) * elf_h.prog_size_hentr <= buf.len(),
    ensures
        (match seg64_result(buf@, elf_h.endianness, s_no * elf_h.prog_size_hentr) {
            Ok(entry) => r == Ok::<(), DecodeError>(()) && final(prog_h).entr@ == old(
                prog_h,
            ).entr@.push(entry),
            Err(e) => r == Err::<(), DecodeError>(e) && final(prog_h).entr@ == old(prog_h).entr@,
        }),
{
    proof {
        assert((s_no + 1) * elf_h.prog_size_hentr == s_no * elf_h.prog_size_hentr
            + elf_h.prog_size_hentr) by (nonlinear_arith);
    }
    let start = (s_no as usize) * (elf_h.prog_size_hentr as usize);

    let type_code = match unwrap_endian_u32(elf_h.endianness, buf, start) {
        Ok(v) => v,
        Err(e) => {
            return Err(e);
        },
    };
    let s_type = match decode_seg_type(type_code) {
        Ok(t) => t,
        Err(e) => {
            return Err(e);
        },
    };

    let flag_code = match unwrap_endian_u32(elf_h.endianness, buf, start + 4) {
        Ok(v) => v,
        Err(e) => {
            return Err(e);
        },
    };
    let flags = match decode_head_flag(flag_code) {
        Ok(f) => f,
        Err(e) => {
            return Err(e);
        },
    };

    let mut entr = ProgHeadEntry::new();
    entr.s_type = s_type;
    entr.flags = flags;
    entr.d_off = match unwrap_endian_u64(elf_h.endianness, buf, start + 8) {
        Ok(v) => v,
        Err(e) => {
            return Err(e);
        },
    };
    entr.v_addr = match unwrap_endian_u64(elf_h.endianness, buf, start + 16) {
        Ok(v) => v,
        Err(e) => {
            return Err(e);
        },
    };
    entr.p_addr = match unwrap_endian_u64(elf_h.endianness, buf, start + 24) {
        Ok(v) => v,
        Err(e) => {
            return Err(e);
        },
    };
    entr.f_size = match unwrap_endian_u64(elf_h.endianness, buf, start + 32) {
        Ok(v) => v,
        Err(e) => {
            return Err(e);
        },
    };
    entr.mem_size = match unwrap_endian_u64(elf_h.endianness, buf, start + 40) {
        Ok(v) => v,
        Err(e) => {
            return Err(e);
        },
    };
    entr.align = match unwrap_endian_u64(elf_h.endianness, buf, start + 48) {
        Ok(v) => v,
        Err(e) => {
            return Err(e);
        },
    };

    prog_h.entr.push(entr);
    Ok(())
}

/// Decode the 32-bit table entry with index `s_no` from `buf` and append
/// it to `prog_h`. On failure the table is left unchanged.
pub fn parse_seg_32_bit(
    buf: &[u8],
    elf_h: &ElfHeader,
    prog_h: &mut ProgHeader,
    s_no: u16,
) -> (r: Result<(), DecodeError>)
    requires
        elf_h.prog_size_hentr >= SEG_32_MIN_LEN,
        (s_no + 1) * elf_h.prog_size_hentr <= buf.len(),
    ensures
        (match seg32_result(buf@, elf_h.endianness, s_no * elf_h.prog_size_hentr) {
            Ok(entry) => r == Ok::<(), DecodeError>(()) && final(prog_h).entr@ == old(
                prog_h,
            ).entr@.push(entry),
            Err(e) => r == Err::<(), DecodeError>(e) && final(prog_h).entr@ == old(prog_h).entr@,
        }),
{
    proof {
        assert((s_no + 1) * elf_h.prog_size_hentr == s_no * elf_h.prog_size_hentr
            + elf_h.prog_size_hentr) by (nonlinear_arith);
    }
    let start = (s_no as usize) * (elf_h.prog_size_hentr as usize);

    let type_code = match unwrap_endian_u32(elf_h.endianness, buf, start) {
        Ok(v) => v,
        Err(e) => {
            return Err(e);
        },
    };
    let s_type = match decode_seg_type(type_code) {
        Ok(t) => t,
        Err(e) => {
            return Err(e);
        },
    };

    let flag_code = match unwrap_endian_u32(elf_h.endianness, buf, start + 24) {
        Ok(v) => v,
        Err(e) => {
            return Err(e);
        },
    };
    let flags = match decode_head_flag(flag_code) {
        Ok(f) => f,
        Err(e) => {
            return Err(e);
        },
    };

    let mut entr = ProgHeadEntry::new();
    entr.s_type = s_type;
    entr.flags = flags;
    entr.d_off = match unwrap_endian_u32(elf_h.endianness, buf, start + 4) {
        Ok(v) => v as u64,
        Err(e) => {
            return Err(e);
        },
    };
    entr.v_addr = match unwrap_endian_u32(elf_h.endianness, buf, start + 8) {
        Ok(v) => v as u64,
        Err(e) => {
            return Err(e);
        },
    };
    entr.p_addr = match unwrap_endian_u32(elf_h.endianness, buf, start + 12) {
        Ok(v) => v as u64,
        Err(e) => {
            return Err(e);
        },
    };
    entr.f_size = match unwrap_endian_u32(elf_h.endianness, buf, start + 16) {
        Ok(v) => v as u64,
        Err(e) => {
            return Err(e);
        },
    };
    entr.mem_size = match unwrap_endian_u32(elf_h.endianness, buf, start + 20) {
        Ok(v) => v as u64,
        Err(e) => {
            return Err(e);
        },
    };
    entr.align = match unwrap_endian_u32(elf_h.endianness, buf, start + 28) {
        Ok(v) => v as u64,
        Err(e) => {
            return Err(e);
        },
    };

    prog_h.entr.push(entr);
    Ok(())
}

/// Map a raw segment type code to its variant, or the typed error.
fn decode_seg_type(code: u32) -> (r: Result<ProgSegmentType, DecodeError>)
    ensures
        (match seg_type_of(code) {
            Some(t) => r == Ok::<ProgSegmentType, DecodeError>(t),
            None => r == Err::<ProgSegmentType, DecodeError>(DecodeError::UnknownSegmentType(code)),
        }),
{
    if code == 0 {
        Ok(ProgSegmentType::EntryUnused)
    } else if code == 1 {
        Ok(ProgSegmentType::Loadable)
    } else if code == 2 {
        Ok(ProgSegmentType::DynLinkInfo)
    } else if code == 3 {
        Ok(ProgSegmentType::InterpInfo)
    } else if code == 4 {
        Ok(ProgSegmentType::AuxInfo)
    } else if code == 5 {
        Ok(ProgSegmentType::Reserved)
    } else if code == 6 {
        Ok(ProgSegmentType::ProgHeader)
    } else if 0x6000_0000 <= code && code <= 0x6FFF_FFFF {
        Ok(ProgSegmentType::OSReserved)
    } else if 0x7000_0000 <= code && code <= 0x7FFF_FFFF {
        Ok(ProgSegmentType::CPUReserved)
    } else {
        Err(DecodeError::UnknownSegmentType(code))
    }
}

/// Map a raw permission flag code to its variant, or the typed error.
fn decode_head_flag(code: u32) -> (r: Result<ProgHeadFlag, DecodeError>)
    ensures
        (match head_flag_of(code) {
            Some(f) => r == Ok::<ProgHeadFlag, DecodeError>(f),
            None => r == Err::<ProgHeadFlag, DecodeError>(DecodeError::UnknownSegmentFlag(code)),
        }),
{
    match code {
        1 => Ok(ProgHeadFlag::Executable),
        2 => Ok(ProgHeadFlag::Writable),
        3 => Ok(ProgHeadFlag::WriteExecutable),
        4 => Ok(ProgHeadFlag::Readable),
        5 => Ok(ProgHeadFlag::ReadExecutable),
        6 => Ok(ProgHeadFlag::ReadWritable),
        7 => Ok(ProgHeadFlag::ReadWriteExecutable),
        _ => Err(DecodeError::UnknownSegmentFlag(code)),
    }
}

} // verus!
