//! Data model for the ELF header and the program header table.
//!
//! An `ElfHeader` starts out with all fields unknown/zero and is filled
//! field by field by the decoders in `elf_header` and its submodules.
//! A `ProgHeader` collects the decoded program header table entries in
//! on-disk order.

pub mod elf_header;
pub mod prog_header;

use vstd::prelude::*;

verus! {

/// Length of the identification-plus-header region handed to the header
/// decoders: 64 bytes, enough for either platform width.
pub const ELF_HEADER_LEN: usize = 0x40;

/// First byte of every valid ELF file.
pub const ELF_MAGIC_NUM: u8 = 0x7f;

pub const FIELD_SIZE_16: usize = 2;
pub const FIELD_SIZE_32: usize = 4;
pub const FIELD_SIZE_64: usize = 8;

/// Platform word width declared at byte 4 of the file.
/// `Unknown` is the pre-decode initial state, never a decode result.
#[derive(Clone, Copy, Debug, PartialEq, Eq, Structural)]
pub enum PlatformBits {
    Bits64,
    Bits32,
    Unknown,
}

/// Byte order declared at byte 5 of the file; it governs every multi-byte
/// field from offset 16 onward. `Unknown` is the pre-decode initial state.
#[derive(Clone, Copy, Debug, PartialEq, Eq, Structural)]
pub enum Endianness {
    Little,
    Big,
    Unknown,
}

/// Object file kind, decoded from the 16-bit field at offset 16.
/// `Unknown` is the pre-decode initial state, never a decode result.
#[derive(Clone, Copy, Debug, PartialEq, Eq, Structural)]
pub enum ElfType {
    Relocatable,
    Executable,
    Shared,
    Core,
    Unknown,
}

/// Instruction set architecture, decoded from the 16-bit field at offset 18.
#[derive(Clone, Copy, Debug, PartialEq, Eq, Structural)]
pub enum InstructionSet {
    NoSpecific,
    Sparc,
    X86,
    MIPS,
    PowerPC,
    S390,
    ARM,
    SuperH,
    IA64,
    X86_64,
    AArch64,
    RISCV,
}

/// Operating system ABI, decoded from the byte at offset 7.
#[derive(Clone, Copy, Debug, PartialEq, Eq, Structural)]
pub enum TargetABI {
    NoSpecific,
    SystemV,
    HPUX,
    NetBSD,
    Linux,
    GNUHurd,
    Solaris,
    AIX,
    IRIX,
    FreeBSD,
    Tru64,
    NovellModesto,
    OpenBSD,
    OpenVMS,
    NonStop,
    AROS,
    FenixOS,
    CloudABI,
}

/// Decoding failure, carrying the offending raw code where there is one.
/// Malformed input is surfaced as one of these, never as a panic and never
/// coerced to an `Unknown` enum state.
#[derive(Clone, Copy, Debug, PartialEq, Eq, Structural)]
pub enum DecodeError {
    /// The four identification bytes are not 0x7f "ELF".
    BadMagic,
    /// Byte 4 is neither 1 (32-bit) nor 2 (64-bit).
    UnknownPlatform(u8),
    /// Byte 5 is neither 1 (little-endian) nor 2 (big-endian).
    UnknownEndianness(u8),
    /// Byte 7 is outside the fixed ABI code table.
    UnknownABI(u8),
    /// The object file type field is outside 1..=4.
    UnknownElfType(u16),
    /// The instruction set field is outside the fixed code table.
    UnknownInstructionSet(u16),
    /// A segment type code outside the fixed table and both reserved ranges.
    UnknownSegmentType(u32),
    /// A segment flag code outside 1..=7.
    UnknownSegmentFlag(u32),
    /// A multi-byte field was decoded before byte 5 resolved the byte order.
    UndeterminedEndianness,
    /// The supplied buffer does not cover the bytes to be decoded.
    BufferTooShort,
    /// The decoded header size disagrees with the platform's mandated value.
    HeaderSizeMismatch,
}

/// Header data is decoded into and available through this struct.
#[derive(Clone, Copy, Debug, PartialEq, Eq, Structural)]
pub struct ElfHeader {
    /// Set by the caller from filesystem metadata, never decoded from bytes.
    pub file_size: u64,
    pub elf_type: ElfType,
    pub platform_bits: PlatformBits,
    pub endianness: Endianness,
    pub version: u32,
    pub header_version: u8,
    pub abi: TargetABI,
    pub instruction_set: InstructionSet,
    /// Architecture-dependent flags; the decoders skip this field, so it
    /// keeps its initial value.
    pub flags: u32,
    /// 0x40 bytes on a 64-bit platform, 0x34 bytes on a 32-bit platform.
    pub header_size: u16,
    /// Program entry position (widened from 32 bits on a 32-bit platform).
    pub prog_entry_pos: u64,
    /// Program header table position.
    pub prog_tbl_pos: u64,
    /// Section header table position.
    pub sec_tbl_pos: u64,
    /// Size of one entry in the program header table.
    pub prog_size_hentr: u16,
    /// Number of entries in the program header table.
    pub prog_no_hentr: u16,
    /// Size of one entry in the section header table.
    pub sec_size_hentr: u16,
    /// Number of entries in the section header table.
    pub sec_no_entr: u16,
    /// Index of the section holding section names.
    pub sec_tbl_names_pos: u16,
}

impl ElfHeader {
    /// The all-default value every decode pass starts from: numeric fields
    /// zero, enum fields in their pre-decode state.
    pub open spec fn initial() -> ElfHeader {
        ElfHeader {
            file_size: 0,
            elf_type: ElfType::Unknown,
            platform_bits: PlatformBits::Unknown,
            endianness: Endianness::Unknown,
            version: 0,
            header_version: 0,
            abi: TargetABI::NoSpecific,
            instruction_set: InstructionSet::NoSpecific,
            flags: 0,
            header_size: 0,
            prog_entry_pos: 0,
            prog_tbl_pos: 0,
            sec_tbl_pos: 0,
            prog_size_hentr: 0,
            prog_no_hentr: 0,
            sec_size_hentr: 0,
            sec_no_entr: 0,
            sec_tbl_names_pos: 0,
        }
    }

    /// Create a new `ElfHeader` with default values.
    pub fn new() -> (h: ElfHeader)
        ensures
            h == ElfHeader::initial(),
    {
        ElfHeader {
            file_size: 0,
            elf_type: ElfType::Unknown,
            platform_bits: PlatformBits::Unknown,
            endianness: Endianness::Unknown,
            version: 0,
            header_version: 0,
            abi: TargetABI::NoSpecific,
            instruction_set: InstructionSet::NoSpecific,
            flags: 0,
            header_size: 0,
            prog_entry_pos: 0,
            prog_tbl_pos: 0,
            sec_tbl_pos: 0,
            prog_size_hentr: 0,
            prog_no_hentr: 0,
            sec_size_hentr: 0,
            sec_no_entr: 0,
            sec_tbl_names_pos: 0,
        }
    }

    /// Whether `header_size` matches the architecturally mandated header
    /// length for the decoded platform width. Platforms still in the
    /// pre-decode state pass trivially.
    pub open spec fn spec_valid(self) -> bool {
        &&& self.platform_bits is Bits64 ==> self.header_size == 0x40
        &&& self.platform_bits is Bits32 ==> self.header_size == 0x34
    }

    /// Validate header length against the platform's mandated constant.
    pub fn validate(&self) -> (r: bool)
        ensures
            r == self.spec_valid(),
    {
        if self.platform_bits == PlatformBits::Bits64 {
            if self.header_size != 0x40 {
                return false;
            }
        } else if self.platform_bits == PlatformBits::Bits32 {
            if self.header_size != 0x34 {
                return false;
            }
        }
        true
    }
}

/// One decoded program header table entry, all address and size fields
/// widened to 64 bits.
#[derive(Clone, Copy, Debug, PartialEq, Eq, Structural)]
pub struct ProgHeadEntry {
    pub s_type: ProgSegmentType,
    pub flags: ProgHeadFlag,
    /// File offset of the segment's data.
    pub d_off: u64,
    /// Where to place the segment in virtual memory.
    pub v_addr: u64,
    /// Physical address, not relevant for the System V ABI.
    pub p_addr: u64,
    /// Size of the segment in the file.
    pub f_size: u64,
    /// Size of the segment in memory.
    pub mem_size: u64,
    /// Required alignment as a power of two.
    pub align: u64,
}

impl ProgHeadEntry {
    /// The all-default entry that decoding starts from.
    pub open spec fn initial() -> ProgHeadEntry {
        ProgHeadEntry {
            s_type: ProgSegmentType::EntryUnused,
            flags: ProgHeadFlag::Executable,
            d_off: 0,
            v_addr: 0,
            p_addr: 0,
            f_size: 0,
            mem_size: 0,
            align: 0,
        }
    }

    pub fn new() -> (e: ProgHeadEntry)
        ensures
            e == ProgHeadEntry::initial(),
    {
        ProgHeadEntry {
            s_type: ProgSegmentType::EntryUnused,
            flags: ProgHeadFlag::Executable,
            d_off: 0,
            v_addr: 0,
            p_addr: 0,
            f_size: 0,
            mem_size: 0,
            align: 0,
        }
    }
}

/// The decoded program header table: entries in on-disk order, final
/// length equal to `ElfHeader::prog_no_hentr`.
#[derive(Debug)]
pub struct ProgHeader {
    pub entr: Vec<ProgHeadEntry>,
}

impl ProgHeader {
    /// Create a new, empty table.
    pub fn new() -> (h: ProgHeader)
        ensures
            h.entr@ == Seq::<ProgHeadEntry>::empty(),
    {
        let entr: Vec<ProgHeadEntry> = Vec::new();
        ProgHeader { entr }
    }
}

/// Segment type of one program header entry.
#[derive(Clone, Copy, Debug, PartialEq, Eq, Structural)]
pub enum ProgSegmentType {
    /// Unused table entry, to be ignored.
    EntryUnused,
    /// Loadable segment.
    Loadable,
    /// Dynamic linking information.
    DynLinkInfo,
    /// Interpreter information.
    InterpInfo,
    /// Auxiliary information.
    AuxInfo,
    Reserved,
    /// Segment containing a program header table.
    ProgHeader,
    /// Reserved range for the operating system.
    OSReserved,
    /// Reserved range for the processor.
    CPUReserved,
}

/// Permission flags of one program header entry.
#[derive(Clone, Copy, Debug, PartialEq, Eq, Structural)]
pub enum ProgHeadFlag {
    Executable,
    Writable,
    Readable,
    WriteExecutable,
    ReadExecutable,
    ReadWritable,
    ReadWriteExecutable,
}

} // verus!
