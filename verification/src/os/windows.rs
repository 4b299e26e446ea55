//! What is read of a Windows guest: its version, the structures of its
//! processor control region, the kernel's image and its debug information.

use crate::os::memory::{GuestMemory, MemoryError};
use crate::os::text::{latin1, push_hex, spec_hex, spec_latin1};
use vstd::prelude::*;

verus! {

/// What is known of the processor that runs the guest.
#[derive(Clone, Copy, Debug, PartialEq, Eq, Structural)]
pub struct Processor {
    /// The width of a logical address, in bits.
    pub address_width: u64,
    /// The register `ia32_gs_base`.
    pub ia32_gs_base: u64,
    /// The register `ia32_kernel_gs_base`.
    pub ia32_kernel_gs_base: u64,
    /// The base of the interrupt descriptor table, as the processor holds it.
    pub idtr_base: u64,
}

impl Processor {
    /// The size of a pointer, in bytes.
    pub open spec fn spec_pointer_size(&self) -> u64 {
        self.address_width / 8
    }

    /// The size of a pointer, in bytes.
    pub fn pointer_size(&self) -> (size: u64)
        ensures
            size == self.spec_pointer_size(),
    {
        self.address_width / 8
    }
}

/// Why a structure of the guest could not be read.
#[derive(Clone, Copy, Debug, PartialEq, Eq, Structural)]
pub enum WindowsError {
    /// A read of the guest's memory gave no value.
    Memory(MemoryError),
    /// The major version is none that Windows has had.
    InvalidMajorVersion(u32),
    /// The minor version is none that Windows has had.
    InvalidMinorVersion(u32),
    /// The control region does not point to itself.
    KpcrSelfMismatch,
    /// The control region names another interrupt descriptor table than the
    /// processor.
    IdtBaseMismatch,
    /// No page under the interrupt handlers holds the kernel's image.
    KernelNotFound,
    /// The debug record does not begin with its signature.
    InvalidCvSignature(u32),
    /// The image names no debug record.
    PdbNotFound,
    /// The image file could not be read as an executable.
    MalformedImage,
}

/// The first error of a row of reads: `so_far`, or else that of `next`.
pub open spec fn or_error(so_far: Option<MemoryError>, next: Result<int, MemoryError>) -> Option<
    MemoryError,
> {
    match so_far {
        Some(e) => Some(e),
        None => match next {
            Err(e) => Some(e),
            Ok(_) => None,
        },
    }
}

/// The version numbers in the data that the kernel shares with user code.
#[derive(Clone, Copy, Debug, PartialEq, Eq, Structural)]
pub struct KUserSharedData {
    /// The major version: 3 to 6, or 10.
    pub nt_major_version: u32,
    /// The minor version.
    pub nt_minor_version: u32,
    /// The build number, which only major version 10 has.
    pub nt_build_number: Option<u32>,
}

/// Whether Windows has had the major version.
pub open spec fn spec_major_is_known(major: int) -> bool {
    major == 3 || major == 4 || major == 5 || major == 6 || major == 10
}

/// Whether Windows has had the minor version.
pub open spec fn spec_minor_is_known(minor: int) -> bool {
    minor == 10 || minor == 50 || minor == 51 || minor == 0 || minor == 1 || minor == 2 || minor
        == 3
}

impl KUserSharedData {
    pub const KUSER_SHARED_DATA_ADDRESS_X86: u64 = 0xFFDF0000;

    pub const KUSER_SHARED_DATA_ADDRESS_X86_64: u64 = 0xFFFFF78000000000;

    pub const NT_BUILD_NUMBER_OFFSET: u64 = 0x26c;

    pub const NT_MAJOR_VERSION_OFFSET: u64 = 0x26c;

    pub const NT_MINOR_VERSION_OFFSET: u64 = 0x270;

    /// The address of the shared data for a width of logical addresses.
    pub open spec fn spec_address(address_width: u64) -> u64 {
        if address_width == 64 {
            0xFFFFF78000000000
        } else {
            0xFFDF0000
        }
    }

    /// What `new` gives for a processor and a memory.
    pub open spec fn spec_new(processor: &Processor, memory: &GuestMemory) -> Result<
        KUserSharedData,
        WindowsError,
    > {
        let base = Self::spec_address(processor.address_width);
        match memory.spec_u32(base + Self::NT_MAJOR_VERSION_OFFSET) {
            Err(e) => Err(WindowsError::Memory(e)),
            Ok(major) => if !spec_major_is_known(major) {
                Err(WindowsError::InvalidMajorVersion(major as u32))
            } else {
                match memory.spec_u32(base + Self::NT_MINOR_VERSION_OFFSET) {
                    Err(e) => Err(WindowsError::Memory(e)),
                    Ok(minor) => if !spec_minor_is_known(minor) {
                        Err(WindowsError::InvalidMinorVersion(minor as u32))
                    } else if major < 10 {
                        Ok(
                            KUserSharedData {
                                nt_major_version: major as u32,
                                nt_minor_version: minor as u32,
                                nt_build_number: None,
                            },
                        )
                    } else {
                        match memory.spec_u32(base + Self::NT_BUILD_NUMBER_OFFSET) {
                            Err(e) => Err(WindowsError::Memory(e)),
                            Ok(build) => Ok(
                                KUserSharedData {
                                    nt_major_version: major as u32,
                                    nt_minor_version: minor as u32,
                                    nt_build_number: Some(build as u32),
                                },
                            ),
                        }
                    },
                }
            },
        }
    }

    /// Reads the version numbers. The shared data lies at a fixed address
    /// that depends on the width of logical addresses; a major or minor
    /// version that Windows never had is refused. The build number is read
    /// for major version 10 only, at `NT_BUILD_NUMBER_OFFSET`.
    pub fn new(processor: &Processor, memory: &GuestMemory) -> (r: Result<
        KUserSharedData,
        WindowsError,
    >)
        ensures
            r == Self::spec_new(processor, memory),
    {
        let base: u64 = if processor.address_width == 64 {
            Self::KUSER_SHARED_DATA_ADDRESS_X86_64
        } else {
            Self::KUSER_SHARED_DATA_ADDRESS_X86
        };
        let major: u32 = match memory.read_u32(base + Self::NT_MAJOR_VERSION_OFFSET) {
            Ok(value) => value,
            Err(e) => {
                return Err(WindowsError::Memory(e));
            },
        };
        if !(major == 3 || major == 4 || major == 5 || major == 6 || major == 10) {
            return Err(WindowsError::InvalidMajorVersion(major));
        }
        let minor: u32 = match memory.read_u32(base + Self::NT_MINOR_VERSION_OFFSET) {
            Ok(value) => value,
            Err(e) => {
                return Err(WindowsError::Memory(e));
            },
        };
        if !(minor == 10 || minor == 50 || minor == 51 || minor == 0 || minor == 1 || minor == 2
            || minor == 3) {
            return Err(WindowsError::InvalidMinorVersion(minor));
        }
        let nt_build_number: Option<u32> = if major >= 10 {
            match memory.read_u32(base + Self::NT_BUILD_NUMBER_OFFSET) {
                Ok(value) => Some(value),
                Err(e) => {
                    return Err(WindowsError::Memory(e));
                },
            }
        } else {
            None
        };
        Ok(KUserSharedData { nt_major_version: major, nt_minor_version: minor, nt_build_number })
    }
}

/// The processor control region of the kernel.
#[derive(Clone, Copy, Debug, PartialEq, Eq, Structural)]
pub struct Kpcr {
    /// The address of the region itself, as the region holds it.
    pub slf: u64,
    /// The address of the current processor control block.
    pub current_prcb: u64,
    /// The base of the interrupt descriptor table.
    pub idt_base: u64,
}

impl Kpcr {
    pub const MSR_IA32_GS_BASE_NAME: &'static str = "ia32_gs_base";

    pub const MSR_IA32_KERNEL_GS_BASE_NAME: &'static str = "ia32_kernel_gs_base";

    pub const KPCR_SELF_OFFSET: u64 = 0x18;

    pub const KPCR_CURRENT_PRCB_OFFSET: u64 = 0x20;

    pub const KPCR_IDT_BASE_OFFSET: u64 = 0x38;

    /// The address of the region: the larger of the two base registers.
    pub open spec fn spec_address(processor: &Processor) -> u64 {
        if processor.ia32_gs_base >= processor.ia32_kernel_gs_base {
            processor.ia32_gs_base
        } else {
            processor.ia32_kernel_gs_base
        }
    }

    /// What `new` gives for a processor and a memory.
    pub open spec fn spec_new(processor: &Processor, memory: &GuestMemory) -> Result<
        Kpcr,
        WindowsError,
    > {
        let at = Self::spec_address(processor);
        let size = processor.spec_pointer_size();
        match memory.spec_read(at + 0x18, size) {
            Err(e) => Err(WindowsError::Memory(e)),
            Ok(slf) => if slf != at {
                Err(WindowsError::KpcrSelfMismatch)
            } else {
                match memory.spec_read(at + 0x20, size) {
                    Err(e) => Err(WindowsError::Memory(e)),
                    Ok(current_prcb) => match memory.spec_read(at + 0x38, size) {
                        Err(e) => Err(WindowsError::Memory(e)),
                        Ok(idt_base) => if idt_base != processor.idtr_base {
                            Err(WindowsError::IdtBaseMismatch)
                        } else {
                            Ok(
                                Kpcr {
                                    slf: slf as u64,
                                    current_prcb: current_prcb as u64,
                                    idt_base: idt_base as u64,
                                },
                            )
                        },
                    },
                }
            },
        }
    }

    /// Reads the control region, which lies at the larger of the two base
    /// registers. The region must point to itself, and the table of
    /// interrupt descriptors that it names must be the processor's.
    pub fn new(processor: &Processor, memory: &GuestMemory) -> (r: Result<Kpcr, WindowsError>)
        ensures
            r == Self::spec_new(processor, memory),
    {
        let at: u64 = if processor.ia32_gs_base >= processor.ia32_kernel_gs_base {
            processor.ia32_gs_base
        } else {
            processor.ia32_kernel_gs_base
        };
        let size: u64 = processor.pointer_size();
        let slf: u64 = match read_at(memory, at, Self::KPCR_SELF_OFFSET, size) {
            Ok(value) => value,
            Err(e) => {
                return Err(WindowsError::Memory(e));
            },
        };
        if slf != at {
            return Err(WindowsError::KpcrSelfMismatch);
        }
        let current_prcb: u64 = match read_at(memory, at, Self::KPCR_CURRENT_PRCB_OFFSET, size) {
            Ok(value) => value,
            Err(e) => {
                return Err(WindowsError::Memory(e));
            },
        };
        let idt_base: u64 = match read_at(memory, at, Self::KPCR_IDT_BASE_OFFSET, size) {
            Ok(value) => value,
            Err(e) => {
                return Err(WindowsError::Memory(e));
            },
        };
        if idt_base != processor.idtr_base {
            return Err(WindowsError::IdtBaseMismatch);
        }
        Ok(Kpcr { slf, current_prcb, idt_base })
    }
}

/// The little-endian value of the `size` bytes that lie `offset` bytes after
/// `base`.
pub fn read_at(memory: &GuestMemory, base: u64, offset: u64, size: u64) -> (r: Result<
    u64,
    MemoryError,
>)
    ensures
        match r {
            Ok(value) => memory.spec_read(base + offset, size) == Ok::<int, MemoryError>(
                value as int,
            ),
            Err(e) => memory.spec_read(base + offset, size) == Err::<int, MemoryError>(e),
        },
{
    match base.checked_add(offset) {
        Some(at) => memory.read(at, size),
        None => if size == 1 || size == 2 || size == 4 || size == 8 {
            Err(MemoryError::AddressOverflow)
        } else {
            Err(MemoryError::UnsupportedSize { size })
        },
    }
}

/// The processor control block of the kernel.
#[derive(Clone, Copy, Debug, PartialEq, Eq, Structural)]
pub struct Kprcb {
    /// The address of the current thread.
    pub current_thread: u64,
}

impl Kprcb {
    pub const KPRCB_CURRENT_THREAD_OFFSET: u64 = 0x8;

    /// Reads the control block that the control region names.
    pub fn new(processor: &Processor, memory: &GuestMemory, kpcr: &Kpcr) -> (r: Result<
        Kprcb,
        WindowsError,
    >)
        ensures
            match r {
                Ok(block) => memory.spec_read(
                    kpcr.current_prcb + 0x8,
                    processor.spec_pointer_size(),
                ) == Ok::<int, MemoryError>(block.current_thread as int),
                Err(e) => e matches WindowsError::Memory(m) && memory.spec_read(
                    kpcr.current_prcb + 0x8,
                    processor.spec_pointer_size(),
                ) == Err::<int, MemoryError>(m),
            },
    {
        match read_at(
            memory,
            kpcr.current_prcb,
            Self::KPRCB_CURRENT_THREAD_OFFSET,
            processor.pointer_size(),
        ) {
            Ok(current_thread) => Ok(Kprcb { current_thread }),
            Err(e) => Err(WindowsError::Memory(e)),
        }
    }
}

/// What every entry of an interrupt descriptor table says.
pub trait IDTDescriptor {
    /// The address of the handler.
    spec fn spec_offset(&self) -> int;

    /// The byte that holds the descriptor type, the privilege level and the
    /// present bit.
    spec fn spec_type_attributes(&self) -> u8;

    /// The selector of the handler's code segment.
    spec fn spec_selector(&self) -> u16;

    /// The address of the handler.
    fn offset(&self) -> (o: u64)
        ensures
            o == self.spec_offset(),
    ;

    /// The selector of the handler's code segment.
    fn selector(&self) -> (s: u16)
        ensures
            s == self.spec_selector(),
    ;

    /// The type of the descriptor: the low 4 bits of the type attributes.
    fn gate_type(&self) -> (t: u8)
        ensures
            t == self.spec_type_attributes() % 16,
    ;

    /// The privilege level: bits 5 and 6 of the type attributes.
    fn descriptor_privilege_level(&self) -> (l: u8)
        ensures
            l == (self.spec_type_attributes() / 32) % 4,
    ;

    /// The present bit: bit 7 of the type attributes.
    fn present(&self) -> (p: u8)
        ensures
            p == self.spec_type_attributes() / 128,
    ;
}

/// The low 4 bits of a byte.
fn low_nibble(byte: u8) -> (n: u8)
    ensures
        n == byte % 16,
{
    let n: u8 = byte & 0b1111;
    assert(byte & 0b1111 == byte % 16) by (bit_vector);
    n
}

/// Bits 5 and 6 of a byte.
fn bits_5_and_6(byte: u8) -> (n: u8)
    ensures
        n == (byte / 32) % 4,
{
    let n: u8 = (byte >> 5) & 0b11;
    assert((byte >> 5) & 0b11 == (byte / 32) % 4) by (bit_vector);
    n
}

/// Bit 7 of a byte.
fn bit_7(byte: u8) -> (n: u8)
    ensures
        n == byte / 128,
{
    let n: u8 = (byte >> 7) & 0b1;
    assert((byte >> 7) & 0b1 == byte / 128) by (bit_vector);
    n
}

/// An entry of the interrupt descriptor table of a 32-bit processor.
#[derive(Clone, Copy, Debug, PartialEq, Eq, Structural)]
pub struct IDTDescriptor32 {
    /// Bits 0 to 15 of the handler's address.
    pub offset_1: u16,
    /// The selector of the handler's code segment.
    pub selector: u16,
    /// Not used.
    pub zero: u8,
    /// The descriptor type, the privilege level and the present bit.
    pub type_attributes: u8,
    /// Bits 16 to 31 of the handler's address.
    pub offset_2: u16,
}

impl IDTDescriptor32 {
    /// The size of an entry, in bytes.
    pub const SIZE: u64 = 8;

    /// Reads the entry at `index` of the table at `idt_base`: its five
    /// fields lie one after the other, in little-endian order. Where a read
    /// fails, the error is that of the first field that could not be read.
    pub fn new(memory: &GuestMemory, idt_base: u64, index: u16) -> (r: Result<
        IDTDescriptor32,
        MemoryError,
    >)
        ensures
            ({
                let at = idt_base + index * 8;
                let offset_1 = memory.spec_u16(at);
                let selector = memory.spec_u16(at + 2);
                let zero = memory.spec_u8(at + 4);
                let type_attributes = memory.spec_u8(at + 5);
                let offset_2 = memory.spec_u16(at + 6);
                match r {
                    Ok(entry) => {
                        &&& offset_1 == Ok::<int, MemoryError>(entry.offset_1 as int)
                        &&& selector == Ok::<int, MemoryError>(entry.selector as int)
                        &&& zero == Ok::<int, MemoryError>(entry.zero as int)
                        &&& type_attributes == Ok::<int, MemoryError>(
                            entry.type_attributes as int,
                        )
                        &&& offset_2 == Ok::<int, MemoryError>(entry.offset_2 as int)
                    },
                    Err(e) => Some(e) == or_error(
                        or_error(
                            or_error(or_error(or_error(None, offset_1), selector), zero),
                            type_attributes,
                        ),
                        offset_2,
                    ),
                }
            }),
    {
        let at: u64 = match idt_base.checked_add(index as u64 * Self::SIZE) {
            Some(at) => at,
            None => {
                return Err(MemoryError::AddressOverflow);
            },
        };
        let offset_1: u16 = read_u16_at(memory, at, 0)?;
        let selector: u16 = read_u16_at(memory, at, 2)?;
        let zero: u8 = read_u8_at(memory, at, 4)?;
        let type_attributes: u8 = read_u8_at(memory, at, 5)?;
        let offset_2: u16 = read_u16_at(memory, at, 6)?;
        Ok(IDTDescriptor32 { offset_1, selector, zero, type_attributes, offset_2 })
    }
}

impl IDTDescriptor for IDTDescriptor32 {
    open spec fn spec_offset(&self) -> int {
        self.offset_2 * 0x1_0000 + self.offset_1
    }

    open spec fn spec_type_attributes(&self) -> u8 {
        self.type_attributes
    }

    open spec fn spec_selector(&self) -> u16 {
        self.selector
    }

    fn offset(&self) -> (o: u64) {
        (self.offset_2 as u64) * 0x1_0000 + self.offset_1 as u64
    }

    fn selector(&self) -> (s: u16) {
        self.selector
    }

    fn gate_type(&self) -> (t: u8) {
        low_nibble(self.type_attributes)
    }

    fn descriptor_privilege_level(&self) -> (l: u8) {
        bits_5_and_6(self.type_attributes)
    }

    fn present(&self) -> (p: u8) {
        bit_7(self.type_attributes)
    }
}

/// An entry of the interrupt descriptor table of a 64-bit processor.
#[derive(Clone, Copy, Debug, PartialEq, Eq, Structural)]
pub struct IDTDescriptor64 {
    /// Bits 0 to 15 of the handler's address.
    pub offset_1: u16,
    /// The selector of the handler's code segment.
    pub selector: u16,
    /// The index into the interrupt stack table.
    pub ist: u8,
    /// The descriptor type, the privilege level and the present bit.
    pub type_attributes: u8,
    /// Bits 16 to 31 of the handler's address.
    pub offset_2: u16,
    /// Bits 32 to 63 of the handler's address.
    pub offset_3: u32,
    /// Not used.
    pub reserved: u32,
}

impl IDTDescriptor64 {
    /// The size of an entry, in bytes.
    pub const SIZE: u64 = 16;

    /// Reads the entry at `index` of the table at `idt_base`: its seven
    /// fields lie one after the other, in little-endian order. Where a read
    /// fails, the error is that of the first field that could not be read.
    pub fn new(memory: &GuestMemory, idt_base: u64, index: u16) -> (r: Result<
        IDTDescriptor64,
        MemoryError,
    >)
        ensures
            ({
                let at = idt_base + index * 16;
                let offset_1 = memory.spec_u16(at);
                let selector = memory.spec_u16(at + 2);
                let ist = memory.spec_u8(at + 4);
                let type_attributes = memory.spec_u8(at + 5);
                let offset_2 = memory.spec_u16(at + 6);
                let offset_3 = memory.spec_u32(at + 8);
                let reserved = memory.spec_u32(at + 12);
                match r {
                    Ok(entry) => {
                        &&& offset_1 == Ok::<int, MemoryError>(entry.offset_1 as int)
                        &&& selector == Ok::<int, MemoryError>(entry.selector as int)
                        &&& ist == Ok::<int, MemoryError>(entry.ist as int)
                        &&& type_attributes == Ok::<int, MemoryError>(
                            entry.type_attributes as int,
                        )
                        &&& offset_2 == Ok::<int, MemoryError>(entry.offset_2 as int)
                        &&& offset_3 == Ok::<int, MemoryError>(entry.offset_3 as int)
                        &&& reserved == Ok::<int, MemoryError>(entry.reserved as int)
                    },
                    Err(e) => Some(e) == or_error(
                        or_error(
                            or_error(
                                or_error(
                                    or_error(or_error(or_error(None, offset_1), selector), ist),
                                    type_attributes,
                                ),
                                offset_2,
                            ),
                            offset_3,
                        ),
                        reserved,
                    ),
                }
            }),
    {
        let at: u64 = match idt_base.checked_add(index as u64 * Self::SIZE) {
            Some(at) => at,
            None => {
                return Err(MemoryError::AddressOverflow);
            },
        };
        let offset_1: u16 = read_u16_at(memory, at, 0)?;
        let selector: u16 = read_u16_at(memory, at, 2)?;
        let ist: u8 = read_u8_at(memory, at, 4)?;
        let type_attributes: u8 = read_u8_at(memory, at, 5)?;
        let offset_2: u16 = read_u16_at(memory, at, 6)?;
        let offset_3: u32 = read_u32_at(memory, at, 8)?;
        let reserved: u32 = read_u32_at(memory, at, 12)?;
        Ok(
            IDTDescriptor64 {
                offset_1,
                selector,
                ist,
                type_attributes,
                offset_2,
                offset_3,
                reserved,
            },
        )
    }
}

impl IDTDescriptor for IDTDescriptor64 {
    open spec fn spec_offset(&self) -> int {
        self.offset_3 * 0x1_0000_0000 + self.offset_2 * 0x1_0000 + self.offset_1
    }

    open spec fn spec_type_attributes(&self) -> u8 {
        self.type_attributes
    }

    open spec fn spec_selector(&self) -> u16 {
        self.selector
    }

    fn offset(&self) -> (o: u64) {
        (self.offset_3 as u64) * 0x1_0000_0000 + (self.offset_2 as u64) * 0x1_0000
            + self.offset_1 as u64
    }

    fn selector(&self) -> (s: u16) {
        self.selector
    }

    fn gate_type(&self) -> (t: u8) {
        low_nibble(self.type_attributes)
    }

    fn descriptor_privilege_level(&self) -> (l: u8) {
        bits_5_and_6(self.type_attributes)
    }

    fn present(&self) -> (p: u8) {
        bit_7(self.type_attributes)
    }
}

/// The byte that lies `offset` bytes after `base`.
pub fn read_u8_at(memory: &GuestMemory, base: u64, offset: u64) -> (r: Result<u8, MemoryError>)
    ensures
        match r {
            Ok(value) => memory.spec_u8(base + offset) == Ok::<int, MemoryError>(value as int),
            Err(e) => memory.spec_u8(base + offset) == Err::<int, MemoryError>(e),
        },
{
    match base.checked_add(offset) {
        Some(at) => memory.read_u8(at),
        None => Err(MemoryError::AddressOverflow),
    }
}

/// The little-endian value of the 2 bytes that lie `offset` bytes after
/// `base`.
pub fn read_u16_at(memory: &GuestMemory, base: u64, offset: u64) -> (r: Result<u16, MemoryError>)
    ensures
        match r {
            Ok(value) => memory.spec_u16(base + offset) == Ok::<int, MemoryError>(value as int),
            Err(e) => memory.spec_u16(base + offset) == Err::<int, MemoryError>(e),
        },
{
    match base.checked_add(offset) {
        Some(at) => memory.read_u16(at),
        None => Err(MemoryError::AddressOverflow),
    }
}

/// The little-endian value of the 4 bytes that lie `offset` bytes after
/// `base`.
pub fn read_u32_at(memory: &GuestMemory, base: u64, offset: u64) -> (r: Result<u32, MemoryError>)
    ensures
        match r {
            Ok(value) => memory.spec_u32(base + offset) == Ok::<int, MemoryError>(value as int),
            Err(e) => memory.spec_u32(base + offset) == Err::<int, MemoryError>(e),
        },
{
    match base.checked_add(offset) {
        Some(at) => memory.read_u32(at),
        None => Err(MemoryError::AddressOverflow),
    }
}

/// Numbers of the format of portable executables, as far as the kernel's
/// image is read.
#[derive(Clone, Copy, Debug)]
pub struct PEConstants {}

impl PEConstants {
    pub const DOS_HEADER_OFFSET_E_MAGIC: u64 = 0x0;

    pub const DOS_HEADER_OFFSET_E_LFANEW: u64 = 0x3C;

    pub const DOS_MAGIC: u16 = 0x5A4D;

    pub const NT_HEADER_OFFSET_SIGNATURE: u64 = 0x0;

    pub const NT_HEADER_OFFSET_FILE_HEADER: u64 = 0x4;

    pub const NT_HEADER_OFFSET_OPTIONAL_HEADER: u64 = 0x18;

    pub const NT_SIGNATURE: u16 = 0x4550;

    pub const FILE_HEADER_OFFSET_NUMBER_OF_SECTIONS: u64 = 0x2;

    pub const FILE_HEADER_OFFSET_TIME_DATE_STAMP: u64 = 0x4;

    pub const FILE_HEADER_OFFSET_POINTER_TO_SYMBOL_TABLE: u64 = 0x8;

    pub const FILE_HEADER_OFFSET_NUMBER_OF_SYMBOLS: u64 = 0xC;

    pub const FILE_HEADER_OFFSET_SIZE_OF_OPTIONAL_HEADER: u64 = 0x10;

    pub const OPTIONAL_HEADER_OFFSET_MAGIC: u64 = 0x0;

    pub const OPTIONAL_HEADER_OFFSET_SIZE_OF_CODE: u64 = 0x4;

    pub const OPTIONAL_HEADER_OFFSET_SIZE_OF_INITIALIZED_DATA: u64 = 0x8;

    pub const OPTIONAL_HEADER_OFFSET_SIZE_OF_UNINITIALIZED_DATA: u64 = 0xC;

    pub const OPTIONAL_HEADER_OFFSET_ADDRESS_OF_ENTRY_POINT: u64 = 0x10;

    pub const OPTIONAL_HEADER_OFFSET_BASE_OF_CODE: u64 = 0x14;

    pub const OPTIONAL_HEADER_OFFSET_IMAGE_BASE: u64 = 0x18;

    pub const OPTIONAL_HEADER_OFFSET_SIZE_OF_IMAGE: u64 = 0x38;

    pub const OPTIONAL_HEADER_OFFSET_SIZE_OF_HEADERS: u64 = 0x3C;

    pub const OPTIONAL_HEADER_OFFSET_DATA_DIRECTORY: u64 = 0x70;

    pub const OPTIONAL_HEADER_SIGNATURE_PE32: u16 = 0x10B;

    pub const OPTIONAL_HEADER_SIGNATURE_PE32_PLUS: u16 = 0x20B;

    pub const OPTIONAL_HEADER_SIZE: u64 = 0xf0;

    pub const DATA_DIRECTORY_SIZE: u64 = 0x8;

    pub const DATA_DIRECTORY_INDEX_EXPORT: u64 = 0x0;

    pub const DATA_DIRECTORY_INDEX_IMPORT: u64 = 0x1;

    pub const DATA_DIRECTORY_INDEX_RESOURCE: u64 = 0x2;

    pub const DATA_DIRECTORY_INDEX_EXCEPTION: u64 = 0x3;

    pub const DATA_DIRECTORY_INDEX_CERTIFICATE: u64 = 0x4;

    pub const DATA_DIRECTORY_INDEX_RELOCATION: u64 = 0x5;

    pub const DATA_DIRECTORY_INDEX_DEBUG: u64 = 0x6;

    pub const DATA_DIRECTORY_INDEX_ARCHITECTURE: u64 = 0x7;

    pub const DATA_DIRECTORY_INDEX_GLOBAL_PTR: u64 = 0x8;

    pub const DATA_DIRECTORY_INDEX_TLS: u64 = 0x9;

    pub const DATA_DIRECTORY_INDEX_LOAD_CONFIG: u64 = 0xA;

    pub const DATA_DIRECTORY_INDEX_BOUND_IMPORT: u64 = 0xB;

    pub const DATA_DIRECTORY_INDEX_IAT: u64 = 0xC;

    pub const DATA_DIRECTORY_INDEX_DELAY_IMPORT: u64 = 0xD;

    pub const DATA_DIRECTORY_INDEX_COM_DESCRIPTOR: u64 = 0xE;

    pub const DATA_DIRECTORY_OFFSET_VIRTUAL_ADDRESS: u64 = 0x0;

    pub const DATA_DIRECTORY_OFFSET_SIZE: u64 = 0x4;

    pub const DEBUG_DIRECTORY_SIZE: u64 = 0x1c;

    pub const DEBUG_DIRECTORY_OFFSET_TIME_DATE_STAMP: u64 = 0x4;

    pub const DEBUG_DIRECTORY_OFFSET_MAJOR_VERSION: u64 = 0x8;

    pub const DEBUG_DIRECTORY_OFFSET_MINOR_VERSION: u64 = 0xA;

    pub const DEBUG_DIRECTORY_OFFSET_TYPE: u64 = 0xC;

    pub const DEBUG_DIRECTORY_OFFSET_SIZE_OF_DATA: u64 = 0x10;

    pub const DEBUG_DIRECTORY_OFFSET_ADDRESS_OF_RAW_DATA: u64 = 0x14;

    pub const DEBUG_DIRECTORY_OFFSET_POINTER_TO_RAW_DATA: u64 = 0x18;

    pub const DEBUG_DIRECTORY_TYPE_UNKNOWN: u32 = 0x0;

    pub const DEBUG_DIRECTORY_TYPE_COFF: u32 = 0x1;

    pub const DEBUG_DIRECTORY_TYPE_CODEVIEW: u32 = 0x2;

    pub const DEBUG_DIRECTORY_TYPE_FPO: u32 = 0x3;

    pub const DEBUG_DIRECTORY_TYPE_MISC: u32 = 0x4;

    pub const DEBUG_DIRECTORY_TYPE_EXCEPTION: u32 = 0x5;

    pub const DEBUG_DIRECTORY_TYPE_FIXUP: u32 = 0x6;

    pub const DEBUG_DIRECTORY_TYPE_BORLAND: u32 = 0x9;

    pub const EXPORT_DIRECTORY_TABLE_OFFSET_NAME_RVA: u64 = 0xc;
}

/// The bytes of the name under which the kernel's image exports itself,
/// `ntoskrnl.exe`.
pub open spec fn spec_kernel_name() -> Seq<u8> {
    seq![110u8, 116u8, 111u8, 115u8, 107u8, 114u8, 110u8, 108u8, 46u8, 101u8, 120u8, 101u8]
}

/// Whether `name` is the name under which the kernel's image exports itself.
pub fn is_kernel_name(name: &Vec<u8>) -> (b: bool)
    ensures
        b == (name@ == spec_kernel_name()),
{
    let b: bool = name.len() == 12 && name[0] == 110 && name[1] == 116 && name[2] == 111 && name[3]
        == 115 && name[4] == 107 && name[5] == 114 && name[6] == 110 && name[7] == 108 && name[8]
        == 46 && name[9] == 101 && name[10] == 120 && name[11] == 101;
    if b {
        assert(name@ =~= spec_kernel_name());
    }
    b
}

/// The kernel's image in the guest's memory.
#[derive(Clone, Copy, Debug, PartialEq, Eq, Structural)]
pub struct Kernel {
    base: u64,
}

impl Kernel {
    pub const PAGE_SIZE: u64 = 0x1000;

    pub const HUGE_PAGE_SIZE: u64 = 0x200000;

    /// The address of the image.
    pub closed spec fn spec_base(&self) -> u64 {
        self.base
    }

    /// The address of the image.
    pub fn base(&self) -> (b: u64)
        ensures
            b == self.spec_base(),
    {
        self.base
    }

    /// The image at `base`, taken on trust.
    pub fn at(base: u64) -> (k: Kernel)
        ensures
            k.spec_base() == base,
    {
        Kernel { base }
    }

    /// Whether the export directory of the image at `page` carries the
    /// kernel's name. The directory lies `export_rva` bytes into the image
    /// and names its image by an offset at its byte 12.
    pub open spec fn spec_export_name_is_kernel(
        memory: &GuestMemory,
        page: int,
        export_rva: int,
    ) -> Result<bool, MemoryError> {
        match memory.spec_u32(page + export_rva + 0xc) {
            Err(e) => Err(e),
            Ok(name_rva) => match memory.spec_cstring(page + name_rva) {
                Err(e) => Err(e),
                Ok(name) => Ok(name == spec_kernel_name()),
            },
        }
    }

    /// Whether the optional header of the image at `page`, whose headers
    /// begin at `nt`, names a non-empty export directory inside the image,
    /// and that directory carries the kernel's name.
    pub open spec fn spec_exports_are_kernel(memory: &GuestMemory, page: int, nt: int) -> Result<
        bool,
        MemoryError,
    > {
        match memory.spec_u32(nt + 0x50) {
            Err(e) => Err(e),
            Ok(image_size) => match memory.spec_u32(nt + 0x88) {
                Err(e) => Err(e),
                Ok(export_rva) => if export_rva == 0 {
                    Ok(false)
                } else {
                    match memory.spec_u32(nt + 0x8c) {
                        Err(e) => Err(e),
                        Ok(export_size) => if export_size == 0 || export_rva + export_size
                            > image_size {
                            Ok(false)
                        } else {
                            Self::spec_export_name_is_kernel(memory, page, export_rva)
                        },
                    }
                },
            },
        }
    }

    /// Whether the headers at `nt` are those of an executable with an
    /// optional header of 240 bytes for 32 or 64 bits, whose exports are the
    /// kernel's.
    pub open spec fn spec_headers_are_kernel(memory: &GuestMemory, page: int, nt: int) -> Result<
        bool,
        MemoryError,
    > {
        match memory.spec_u16(nt) {
            Err(e) => Err(e),
            Ok(signature) => if signature != 0x4550 {
                Ok(false)
            } else {
                match memory.spec_u16(nt + 0x14) {
                    Err(e) => Err(e),
                    Ok(optional_size) => if optional_size != 0xf0 {
                        Ok(false)
                    } else {
                        match memory.spec_u16(nt + 0x18) {
                            Err(e) => Err(e),
                            Ok(magic) => if magic != 0x10B && magic != 0x20B {
                                Ok(false)
                            } else {
                                Self::spec_exports_are_kernel(memory, page, nt)
                            },
                        }
                    },
                }
            },
        }
    }

    /// Whether the kernel's image begins at `page`: the page begins with the
    /// mark `MZ`, the headers that it points to are those of an executable,
    /// and the image exports itself as `ntoskrnl.exe`. An error is that of
    /// the first read that gave no value; what is not needed is not read.
    pub open spec fn spec_page_is_kernel(memory: &GuestMemory, page: int) -> Result<
        bool,
        MemoryError,
    > {
        match memory.spec_u16(page) {
            Err(e) => Err(e),
            Ok(dos_magic) => if dos_magic != 0x5A4D {
                Ok(false)
            } else {
                match memory.spec_u32(page + 0x3C) {
                    Err(e) => Err(e),
                    Ok(nt_offset) => Self::spec_headers_are_kernel(memory, page, page + nt_offset),
                }
            },
        }
    }

    fn export_name_is_kernel(memory: &GuestMemory, page: u64, export_rva: u32) -> (r: Result<
        bool,
        MemoryError,
    >)
        ensures
            r == Self::spec_export_name_is_kernel(memory, page as int, export_rva as int),
    {
        let directory: u64 = match page.checked_add(export_rva as u64) {
            Some(at) => at,
            None => {
                return Err(MemoryError::AddressOverflow);
            },
        };
        let name_rva: u32 = read_u32_at(
            memory,
            directory,
            PEConstants::EXPORT_DIRECTORY_TABLE_OFFSET_NAME_RVA,
        )?;
        let name_at: u64 = match page.checked_add(name_rva as u64) {
            Some(at) => at,
            None => {
                return Err(MemoryError::AddressOverflow);
            },
        };
        let name = memory.read_cstring(name_at)?;
        Ok(is_kernel_name(&name))
    }

    fn exports_are_kernel(memory: &GuestMemory, page: u64, nt: u64) -> (r: Result<
        bool,
        MemoryError,
    >)
        ensures
            r == Self::spec_exports_are_kernel(memory, page as int, nt as int),
    {
        let image_size: u32 = read_u32_at(memory, nt, 0x50)?;
        let export_rva: u32 = read_u32_at(memory, nt, 0x88)?;
        if export_rva == 0 {
            return Ok(false);
        }
        let export_size: u32 = read_u32_at(memory, nt, 0x8c)?;
        if export_size == 0 {
            return Ok(false);
        }
        if export_rva as u64 + export_size as u64 > image_size as u64 {
            return Ok(false);
        }
        Self::export_name_is_kernel(memory, page, export_rva)
    }

    fn headers_are_kernel(memory: &GuestMemory, page: u64, nt: u64) -> (r: Result<
        bool,
        MemoryError,
    >)
        ensures
            r == Self::spec_headers_are_kernel(memory, page as int, nt as int),
    {
        let signature: u16 = memory.read_u16(nt)?;
        if signature != PEConstants::NT_SIGNATURE {
            return Ok(false);
        }
        let optional_size: u16 = read_u16_at(memory, nt, 0x14)?;
        if optional_size as u64 != PEConstants::OPTIONAL_HEADER_SIZE {
            return Ok(false);
        }
        let magic: u16 = read_u16_at(memory, nt, 0x18)?;
        if magic != PEConstants::OPTIONAL_HEADER_SIGNATURE_PE32 && magic
            != PEConstants::OPTIONAL_HEADER_SIGNATURE_PE32_PLUS {
            return Ok(false);
        }
        Self::exports_are_kernel(memory, page, nt)
    }

    /// Whether the kernel's image begins at `page`.
    pub fn page_is_kernel(memory: &GuestMemory, page: u64) -> (r: Result<bool, MemoryError>)
        ensures
            r == Self::spec_page_is_kernel(memory, page as int),
    {
        let dos_magic: u16 = memory.read_u16(page)?;
        if dos_magic != PEConstants::DOS_MAGIC {
            return Ok(false);
        }
        let nt_offset: u32 = read_u32_at(memory, page, PEConstants::DOS_HEADER_OFFSET_E_LFANEW)?;
        match page.checked_add(nt_offset as u64) {
            Some(nt) => Self::headers_are_kernel(memory, page, nt),
            None => {
                proof {
                    Self::lemma_headers_past_the_end(memory, page as int, page + nt_offset);
                }
                Err(MemoryError::AddressOverflow)
            },
        }
    }

    /// Headers past the last address cannot be read.
    proof fn lemma_headers_past_the_end(memory: &GuestMemory, page: int, nt: int)
        requires
            nt > u64::MAX,
        ensures
            Self::spec_headers_are_kernel(memory, page, nt) == Err::<bool, MemoryError>(
                MemoryError::AddressOverflow,
            ),
    {
    }

    /// The time stamp of the image at `base` and the size of the image, as
    /// they stand in its headers.
    pub open spec fn spec_stamp_and_size(memory: &GuestMemory, base: int) -> Result<
        (int, int),
        MemoryError,
    > {
        match memory.spec_u32(base + 0x3C) {
            Err(e) => Err(e),
            Ok(nt_offset) => match memory.spec_u32(base + nt_offset + 0x8) {
                Err(e) => Err(e),
                Ok(stamp) => match memory.spec_u32(base + nt_offset + 0x50) {
                    Err(e) => Err(e),
                    Ok(size) => Ok((stamp, size)),
                },
            },
        }
    }

    /// The name under which the symbol server knows the image at `base`: the
    /// time stamp of the image in 8 hexadecimal digits, then the size of the
    /// image in at least 5.
    pub fn pe_guid(memory: &GuestMemory, base: u64) -> (r: Result<String, MemoryError>)
        ensures
            match r {
                Ok(name) => Self::spec_stamp_and_size(memory, base as int) matches Ok(
                    (stamp, size),
                ) && name@ == spec_hex(stamp as nat, 8) + spec_hex(size as nat, 5),
                Err(e) => Self::spec_stamp_and_size(memory, base as int) == Err::<
                    (int, int),
                    MemoryError,
                >(e),
            },
    {
        let nt_offset: u32 = read_u32_at(memory, base, PEConstants::DOS_HEADER_OFFSET_E_LFANEW)?;
        let nt: u64 = match base.checked_add(nt_offset as u64) {
            Some(at) => at,
            None => {
                return Err(MemoryError::AddressOverflow);
            },
        };
        let stamp: u32 = read_u32_at(memory, nt, 0x8)?;
        let size: u32 = read_u32_at(memory, nt, 0x50)?;
        let mut name = String::new();
        push_hex(&mut name, stamp as u64, 8);
        push_hex(&mut name, size as u64, 5);
        assert(name@ =~= spec_hex(stamp as nat, 8) + spec_hex(size as nat, 5));
        Ok(name)
    }

    /// The highest of the addresses `from`, `from - step`, `from - 2 step`
    /// and so on, down to `stop`, at which the kernel's image begins; the
    /// error of the first page on the way that cannot be read; or that the
    /// kernel is not found.
    pub open spec fn spec_scan(memory: &GuestMemory, from: int, stop: int, step: int) -> Result<
        int,
        WindowsError,
    >
        decreases from,
    {
        if from < stop || from < 0 || step <= 0 {
            Err(WindowsError::KernelNotFound)
        } else {
            match Self::spec_page_is_kernel(memory, from) {
                Err(e) => Err(WindowsError::Memory(e)),
                Ok(true) => Ok(from),
                Ok(false) => if from < step {
                    Err(WindowsError::KernelNotFound)
                } else {
                    Self::spec_scan(memory, from - step, stop, step)
                },
            }
        }
    }

    /// The step of the scan for the kernel: huge pages from build 19000 of
    /// major version 10 on, else small pages.
    pub open spec fn spec_step(version: KUserSharedData) -> u64 {
        if version.nt_major_version >= 10 && (version.nt_build_number matches Some(build) && build
            >= 19000) {
            0x200000
        } else {
            0x1000
        }
    }

    /// Scans down from `from` in steps of `step` for the kernel's image.
    pub fn scan(memory: &GuestMemory, from: u64, stop: u64, step: u64) -> (r: Result<
        Kernel,
        WindowsError,
    >)
        ensures
            match r {
                Ok(kernel) => Self::spec_scan(memory, from as int, stop as int, step as int)
                    == Ok::<int, WindowsError>(kernel.spec_base() as int),
                Err(e) => Self::spec_scan(memory, from as int, stop as int, step as int) == Err::<
                    int,
                    WindowsError,
                >(e),
            },
    {
        if step == 0 {
            return Err(WindowsError::KernelNotFound);
        }
        let mut at: u64 = from;
        while at >= stop
            invariant
                step > 0,
                Self::spec_scan(memory, from as int, stop as int, step as int) == Self::spec_scan(
                    memory,
                    at as int,
                    stop as int,
                    step as int,
                ),
            decreases at,
        {
            match Self::page_is_kernel(memory, at) {
                Err(e) => {
                    return Err(WindowsError::Memory(e));
                },
                Ok(true) => {
                    return Ok(Kernel { base: at });
                },
                Ok(false) => {},
            }
            if at < step {
                return Err(WindowsError::KernelNotFound);
            }
            at -= step;
        }
        Err(WindowsError::KernelNotFound)
    }

    /// What `find` gives for a processor and a memory.
    pub open spec fn spec_find(processor: &Processor, memory: &GuestMemory) -> Result<
        int,
        WindowsError,
    > {
        match KUserSharedData::spec_new(processor, memory) {
            Err(e) => Err(e),
            Ok(version) => match Kpcr::spec_new(processor, memory) {
                Err(e) => Err(e),
                Ok(kpcr) => {
                    let at = kpcr.idt_base + 0;
                    let low = memory.spec_u16(at);
                    let selector = memory.spec_u16(at + 2);
                    let zero = memory.spec_u8(at + 4);
                    let attributes = memory.spec_u8(at + 5);
                    let high = memory.spec_u16(at + 6);
                    match or_error(
                        or_error(
                            or_error(or_error(or_error(None, low), selector), zero),
                            attributes,
                        ),
                        high,
                    ) {
                        Some(e) => Err(WindowsError::Memory(e)),
                        None => {
                            let handler = high.unwrap() * 0x1_0000 + low.unwrap();
                            let step = Self::spec_step(version);
                            Self::spec_scan(
                                memory,
                                handler - handler % (step as int),
                                handler - handler % 0x1_0000_0000_0000,
                                step as int,
                            )
                        },
                    }
                },
            },
        }
    }

    /// Finds the kernel's image. The handler of interrupt 0 lies in the
    /// kernel: its address is taken from the first entry of the interrupt
    /// descriptor table, read as a 32-bit entry, and the pages from the one
    /// that holds it downwards are tried, down to the address that has the
    /// low 48 bits of the handler's address cleared.
    pub fn find(processor: &Processor, memory: &GuestMemory) -> (r: Result<Kernel, WindowsError>)
        ensures
            match r {
                Ok(kernel) => Self::spec_find(processor, memory) == Ok::<int, WindowsError>(
                    kernel.spec_base() as int,
                ),
                Err(e) => Self::spec_find(processor, memory) == Err::<int, WindowsError>(e),
            },
    {
        let version = KUserSharedData::new(processor, memory)?;
        let huge: bool = version.nt_major_version >= 10 && match version.nt_build_number {
            Some(build) => build >= 19000,
            None => false,
        };
        let step: u64 = if huge {
            Self::HUGE_PAGE_SIZE
        } else {
            Self::PAGE_SIZE
        };
        let kpcr = Kpcr::new(processor, memory)?;
        let entry = match IDTDescriptor32::new(memory, kpcr.idt_base, 0) {
            Ok(entry) => entry,
            Err(e) => {
                return Err(WindowsError::Memory(e));
            },
        };
        let handler: u64 = entry.offset();
        let from: u64 = handler - handler % step;
        let stop: u64 = handler - handler % 0x1_0000_0000_0000;
        Self::scan(memory, from, stop, step)
    }
}

/// The identifier of a debug record.
#[derive(Clone, Copy, Debug, PartialEq, Eq, Structural)]
pub struct Guid {
    pub data0: u32,
    pub data1: u16,
    pub data2: u16,
    pub data3: u64,
}

/// A debug record of the kind `RSDS`, which names the file of the debug
/// information of an image.
#[derive(Debug)]
pub struct CvInfoPdb70 {
    /// The signature of the record, `RSDS`.
    pub cv_signature: u32,
    /// The identifier of the debug information.
    pub signature: Guid,
    /// The age of the debug information.
    pub age: u8,
    /// The name of its file.
    pub file_name: String,
}

/// The signature `RSDS`, read as a little-endian number.
pub const CV_SIGNATURE_RSDS: u32 = 0x53445352;

impl CvInfoPdb70 {
    /// The numbers of the record at `at`: the signature, the four parts of
    /// the identifier and the age, or the first error of their reads. The
    /// last part of the identifier is read in big-endian order.
    pub open spec fn spec_numbers(memory: &GuestMemory, at: int) -> Result<
        (int, int, int, int, int),
        MemoryError,
    > {
        let data0 = memory.spec_u32(at + 4);
        let data1 = memory.spec_u16(at + 8);
        let data2 = memory.spec_u16(at + 10);
        let data3 = memory.spec_u64_be(at + 12);
        let age = memory.spec_u8(at + 20);
        match or_error(or_error(or_error(or_error(or_error(None, data0), data1), data2), data3), age) {
            Some(e) => Err(e),
            None => Ok((data0.unwrap(), data1.unwrap(), data2.unwrap(), data3.unwrap(), age.unwrap())),
        }
    }

    /// The error that reading the record at `at` ends with, if it does: that
    /// of the signature's read, a signature that is not `RSDS`, the first
    /// error among the numbers, or that of the name's read.
    pub open spec fn spec_error(memory: &GuestMemory, at: int) -> Option<WindowsError> {
        match memory.spec_u32(at) {
            Err(e) => Some(WindowsError::Memory(e)),
            Ok(found) => if found != CV_SIGNATURE_RSDS {
                Some(WindowsError::InvalidCvSignature(found as u32))
            } else {
                match Self::spec_numbers(memory, at) {
                    Err(e) => Some(WindowsError::Memory(e)),
                    Ok(_) => match memory.spec_cstring(at + 21) {
                        Err(e) => Some(WindowsError::Memory(e)),
                        Ok(_) => None,
                    },
                }
            },
        }
    }

    /// Whether `self` is what the memory holds at `at`: the signature
    /// `RSDS`, the numbers, and the name that follows them up to its zero
    /// byte, each byte of it taken as one character.
    pub open spec fn spec_is_at(&self, memory: &GuestMemory, at: int) -> bool {
        &&& self.cv_signature == CV_SIGNATURE_RSDS
        &&& Self::spec_numbers(memory, at) == Ok::<(int, int, int, int, int), MemoryError>(
            (
                self.signature.data0 as int,
                self.signature.data1 as int,
                self.signature.data2 as int,
                self.signature.data3 as int,
                self.age as int,
            ),
        )
        &&& memory.spec_cstring(at + 21) matches Ok(name) && self.file_name@ == spec_latin1(name)
    }

    /// Reads the debug record at `header_address`. A record that does not
    /// begin with `RSDS` is refused. The name of the file follows the age and
    /// ends with a zero byte.
    pub fn new(memory: &GuestMemory, header_address: u64) -> (r: Result<CvInfoPdb70, WindowsError>)
        ensures
            match r {
                Ok(record) => Self::spec_error(memory, header_address as int) is None
                    && record.spec_is_at(memory, header_address as int),
                Err(e) => Self::spec_error(memory, header_address as int) == Some(e),
            },
    {
        let cv_signature: u32 = match memory.read_u32(header_address) {
            Ok(value) => value,
            Err(e) => {
                return Err(WindowsError::Memory(e));
            },
        };
        if cv_signature != CV_SIGNATURE_RSDS {
            return Err(WindowsError::InvalidCvSignature(cv_signature));
        }
        let numbers = Self::numbers(memory, header_address);
        let (data0, data1, data2, data3, age) = match numbers {
            Ok(numbers) => numbers,
            Err(e) => {
                return Err(WindowsError::Memory(e));
            },
        };
        let name_at: u64 = match header_address.checked_add(21) {
            Some(at) => at,
            None => {
                return Err(WindowsError::Memory(MemoryError::AddressOverflow));
            },
        };
        let name = match memory.read_cstring(name_at) {
            Ok(name) => name,
            Err(e) => {
                return Err(WindowsError::Memory(e));
            },
        };
        Ok(
            CvInfoPdb70 {
                cv_signature,
                signature: Guid { data0, data1, data2, data3 },
                age,
                file_name: latin1(&name),
            },
        )
    }

    fn numbers(memory: &GuestMemory, at: u64) -> (r: Result<(u32, u16, u16, u64, u8), MemoryError>)
        ensures
            match r {
                Ok((data0, data1, data2, data3, age)) => Self::spec_numbers(memory, at as int)
                    == Ok::<(int, int, int, int, int), MemoryError>(
                    (data0 as int, data1 as int, data2 as int, data3 as int, age as int),
                ),
                Err(e) => Self::spec_numbers(memory, at as int) == Err::<
                    (int, int, int, int, int),
                    MemoryError,
                >(e),
            },
    {
        let data0: u32 = read_u32_at(memory, at, 4)?;
        let data1: u16 = read_u16_at(memory, at, 8)?;
        let data2: u16 = read_u16_at(memory, at, 10)?;
        let data3: u64 = match at.checked_add(12) {
            Some(third) => memory.read_u64_be(third)?,
            None => {
                return Err(MemoryError::AddressOverflow);
            },
        };
        let age: u8 = read_u8_at(memory, at, 20)?;
        Ok((data0, data1, data2, data3, age))
    }

    /// The identifier and the age as the symbol server writes them.
    pub open spec fn spec_guid(&self) -> Seq<char> {
        spec_hex(self.signature.data0 as nat, 8) + spec_hex(self.signature.data1 as nat, 4)
            + spec_hex(self.signature.data2 as nat, 4) + spec_hex(self.signature.data3 as nat, 16)
            + spec_hex(self.age as nat, 1)
    }

    /// The identifier and the age as the symbol server writes them: the
    /// parts of the identifier in 8, 4, 4 and 16 upper-case hexadecimal
    /// digits, then the age in as many digits as it needs.
    pub fn guid(&self) -> (text: String)
        ensures
            text@ == self.spec_guid(),
    {
        let mut text = String::new();
        push_hex(&mut text, self.signature.data0 as u64, 8);
        push_hex(&mut text, self.signature.data1 as u64, 4);
        push_hex(&mut text, self.signature.data2 as u64, 4);
        push_hex(&mut text, self.signature.data3, 16);
        push_hex(&mut text, self.age as u64, 1);
        assert(text@ =~= self.spec_guid());
        text
    }

    /// The name of the file of the debug information.
    pub fn file_name(&self) -> (name: String)
        ensures
            name@ == self.file_name@,
    {
        self.file_name.clone()
    }
}

/// One symbol that an image exports.
#[derive(Clone, Debug, PartialEq, Eq)]
pub struct Export {
    /// The name of the symbol, if it has one.
    pub name: Option<String>,
    /// The offset of the symbol in the file of the image.
    pub offset: Option<usize>,
    /// The offset of the symbol in the loaded image.
    pub rva: usize,
    /// The size of the symbol.
    pub size: usize,
}

/// An export as a plain value.
pub struct ExportView {
    pub name: Option<Seq<char>>,
    pub offset: Option<usize>,
    pub rva: usize,
    pub size: usize,
}

impl View for Export {
    type V = ExportView;

    open spec fn view(&self) -> ExportView {
        ExportView {
            name: match self.name {
                Some(name) => Some(name@),
                None => None,
            },
            offset: self.offset,
            rva: self.rva,
            size: self.size,
        }
    }
}

/// The exports as plain values.
pub open spec fn export_views(exports: Seq<Export>) -> Seq<ExportView> {
    Seq::new(exports.len(), |i: int| exports[i]@)
}

/// The error type of the parser of executables, carried through unread.
#[verifier::external_type_specification]
#[verifier::external_body]
pub struct ExGoblinError(goblin::error::Error);

/// The symbols that the parser of executables finds exported by the image
/// file `bytes`, in its order; `None` where it cannot read the file.
pub uninterp spec fn pe_exports(bytes: Seq<u8>) -> Option<Seq<ExportView>>;

/// `goblin::pe::PE::parse` on the bytes of an image file, and of what it
/// finds the field `exports`: name, offset, address and size of each
/// exported symbol, in the parser's order. The parser's debug lines, one of
/// which adds two fields of a section header, are compiled out: this crate
/// caps the level of the `log` crate at `info`.
#[verifier::external_body]
fn parse_exports(bytes: &Vec<u8>) -> (r: Result<Vec<Export>, goblin::error::Error>)
    ensures
        match r {
            Ok(exports) => pe_exports(bytes@) == Some(export_views(exports@)),
            Err(_) => pe_exports(bytes@) is None,
        },
{
    let image = goblin::pe::PE::parse(bytes)?;
    Ok(
        image.exports.iter().map(
            |e| Export { name: e.name.map(|s| s.to_string()), offset: e.offset, rva: e.rva, size: e.size },
        ).collect(),
    )
}

/// The server that holds the debug information of Windows.
pub const SYMBOL_SERVER: &'static str = "https://msdl.microsoft.com/download/symbols/";

/// The name of the kernel's image file.
pub const KERNEL_FILE_NAME: &'static str = "ntoskrnl.exe";

/// The address at which the symbol server holds a file: the server, the
/// name of the file, its identifier, and the name again, with a stroke
/// between them.
pub open spec fn spec_symbol_url(file_name: Seq<char>, id: Seq<char>) -> Seq<char> {
    SYMBOL_SERVER@ + file_name + seq!['/'] + id + seq!['/'] + file_name
}

/// The address at which the symbol server holds a file.
pub fn symbol_url(file_name: &str, id: &str) -> (url: String)
    ensures
        url@ == spec_symbol_url(file_name@, id@),
{
    let mut url = SYMBOL_SERVER.to_owned();
    url.append(file_name);
    url.push('/');
    url.append(id);
    url.push('/');
    url.append(file_name);
    assert(url@ =~= spec_symbol_url(file_name@, id@));
    url
}

/// Where the debug record of an image lies: the offset and the size that
/// the first entry of the kind CodeView names, among the entries of 28 bytes
/// from `entry` up to `end`; both are 0 where there is no such entry.
pub open spec fn spec_codeview(memory: &GuestMemory, entry: int, end: int) -> Result<
    (int, int),
    MemoryError,
>
    decreases
            (if entry < end {
                end - entry
            } else {
                0
            }),
{
    if entry >= end {
        Ok((0, 0))
    } else {
        match memory.spec_u32(entry + 0xc) {
            Err(e) => Err(e),
            Ok(kind) => if kind != 2 {
                spec_codeview(memory, entry + 0x1c, end)
            } else {
                match memory.spec_u32(entry + 0x18) {
                    Err(e) => Err(e),
                    Ok(offset) => match memory.spec_u32(entry + 0x10) {
                        Err(e) => Err(e),
                        Ok(size) => Ok((offset, size)),
                    },
                }
            },
        }
    }
}

/// Where the debug record of an image lies, among the entries of the debug
/// directory from `entry` up to `end`.
pub fn codeview(memory: &GuestMemory, entry: u64, end: u64) -> (r: Result<(u32, u32), MemoryError>)
    ensures
        match r {
            Ok((offset, size)) => spec_codeview(memory, entry as int, end as int) == Ok::<
                (int, int),
                MemoryError,
            >((offset as int, size as int)),
            Err(e) => spec_codeview(memory, entry as int, end as int) == Err::<
                (int, int),
                MemoryError,
            >(e),
        },
{
    let mut at: u64 = entry;
    while at < end
        invariant
            spec_codeview(memory, entry as int, end as int) == spec_codeview(
                memory,
                at as int,
                end as int,
            ),
        decreases
                (if at < end {
                    end - at
                } else {
                    0
                }),
    {
        let kind: u32 = read_u32_at(memory, at, PEConstants::DEBUG_DIRECTORY_OFFSET_TYPE)?;
        if kind == PEConstants::DEBUG_DIRECTORY_TYPE_CODEVIEW {
            let offset: u32 = read_u32_at(
                memory,
                at,
                PEConstants::DEBUG_DIRECTORY_OFFSET_POINTER_TO_RAW_DATA,
            )?;
            let size: u32 = read_u32_at(
                memory,
                at,
                PEConstants::DEBUG_DIRECTORY_OFFSET_SIZE_OF_DATA,
            )?;
            return Ok((offset, size));
        }
        at = match at.checked_add(PEConstants::DEBUG_DIRECTORY_SIZE) {
            Some(next) => next,
            None => {
                assert(spec_codeview(memory, at + 0x1c, end as int) == Ok::<
                    (int, int),
                    MemoryError,
                >((0, 0)));
                return Ok((0, 0));
            },
        };
    }
    Ok((0, 0))
}

/// What is needed to fetch the debug information of the kernel.
#[derive(Debug)]
pub struct KernelSymbols {
    /// The kernel's image.
    pub kernel: Kernel,
    /// The debug record of the image.
    pub record: CvInfoPdb70,
    /// The name under which the symbol server knows the image.
    pub image_id: String,
}

impl KernelSymbols {
    /// The address of the debug record of the image at `base`: the debug
    /// directory is the seventh data directory of the optional header, and
    /// the record lies where its first entry of the kind CodeView points. An
    /// image without such an entry, or with one of no size or at no offset,
    /// has no record.
    pub open spec fn spec_record_address(memory: &GuestMemory, base: int) -> Result<
        int,
        WindowsError,
    > {
        match memory.spec_u32(base + 0x3C) {
            Err(e) => Err(WindowsError::Memory(e)),
            Ok(nt_offset) => match memory.spec_u32(base + nt_offset + 0xb8) {
                Err(e) => Err(WindowsError::Memory(e)),
                Ok(directory) => match memory.spec_u32(base + nt_offset + 0xbc) {
                    Err(e) => Err(WindowsError::Memory(e)),
                    Ok(size) => if base + directory + size > u64::MAX {
                        Err(WindowsError::Memory(MemoryError::AddressOverflow))
                    } else {
                        match spec_codeview(memory, base + directory, base + directory + size) {
                            Err(e) => Err(WindowsError::Memory(e)),
                            Ok((offset, length)) => if offset == 0 || length == 0 {
                                Err(WindowsError::PdbNotFound)
                            } else if base + offset > u64::MAX {
                                Err(WindowsError::Memory(MemoryError::AddressOverflow))
                            } else {
                                Ok(base + offset)
                            },
                        }
                    },
                },
            },
        }
    }

    /// The debug record of the image at `base`.
    pub fn record_of(memory: &GuestMemory, base: u64) -> (r: Result<CvInfoPdb70, WindowsError>)
        ensures
            match Self::spec_record_address(memory, base as int) {
                Err(e) => r matches Err(found) && found == e,
                Ok(at) => match r {
                    Ok(record) => CvInfoPdb70::spec_error(memory, at) is None && record.spec_is_at(
                        memory,
                        at,
                    ),
                    Err(e) => CvInfoPdb70::spec_error(memory, at) == Some(e),
                },
            },
    {
        let nt_offset: u32 = match read_u32_at(
            memory,
            base,
            PEConstants::DOS_HEADER_OFFSET_E_LFANEW,
        ) {
            Ok(value) => value,
            Err(e) => {
                return Err(WindowsError::Memory(e));
            },
        };
        let nt: u64 = match base.checked_add(nt_offset as u64) {
            Some(at) => at,
            None => {
                return Err(WindowsError::Memory(MemoryError::AddressOverflow));
            },
        };
        let directory: u32 = match read_u32_at(memory, nt, 0xb8) {
            Ok(value) => value,
            Err(e) => {
                return Err(WindowsError::Memory(e));
            },
        };
        let size: u32 = match read_u32_at(memory, nt, 0xbc) {
            Ok(value) => value,
            Err(e) => {
                return Err(WindowsError::Memory(e));
            },
        };
        let first: u64 = match base.checked_add(directory as u64) {
            Some(at) => at,
            None => {
                return Err(WindowsError::Memory(MemoryError::AddressOverflow));
            },
        };
        let end: u64 = match first.checked_add(size as u64) {
            Some(at) => at,
            None => {
                return Err(WindowsError::Memory(MemoryError::AddressOverflow));
            },
        };
        let (offset, length) = match codeview(memory, first, end) {
            Ok(found) => found,
            Err(e) => {
                return Err(WindowsError::Memory(e));
            },
        };
        if offset == 0 || length == 0 {
            return Err(WindowsError::PdbNotFound);
        }
        match base.checked_add(offset as u64) {
            Some(at) => CvInfoPdb70::new(memory, at),
            None => Err(WindowsError::Memory(MemoryError::AddressOverflow)),
        }
    }

    /// Where the kernel and its debug record lie, or the first reason for
    /// which what names the kernel's debug information cannot be read: the
    /// kernel is not found, its record is not found or cannot be read, or
    /// the time stamp and the size of its image cannot be read.
    pub open spec fn spec_find(processor: &Processor, memory: &GuestMemory) -> Result<
        (int, int),
        WindowsError,
    > {
        match Kernel::spec_find(processor, memory) {
            Err(e) => Err(e),
            Ok(base) => match Self::spec_record_address(memory, base) {
                Err(e) => Err(e),
                Ok(at) => match CvInfoPdb70::spec_error(memory, at) {
                    Some(e) => Err(e),
                    None => match Kernel::spec_stamp_and_size(memory, base) {
                        Err(e) => Err(WindowsError::Memory(e)),
                        Ok(_) => Ok((base, at)),
                    },
                },
            },
        }
    }

    /// Finds the kernel and reads what names its debug information: its
    /// debug record, and the time stamp and the size of its image.
    pub fn find(processor: &Processor, memory: &GuestMemory) -> (r: Result<
        KernelSymbols,
        WindowsError,
    >)
        ensures
            match r {
                Ok(symbols) => {
                    &&& Self::spec_find(processor, memory) matches Ok((base, at))
                        && symbols.kernel.spec_base() == base && symbols.record.spec_is_at(
                        memory,
                        at,
                    )
                    &&& Kernel::spec_stamp_and_size(
                        memory,
                        symbols.kernel.spec_base() as int,
                    ) matches Ok((stamp, size)) && symbols.image_id@ == spec_hex(stamp as nat, 8)
                        + spec_hex(size as nat, 5)
                },
                Err(e) => Self::spec_find(processor, memory) == Err::<(int, int), WindowsError>(e),
            },
    {
        let kernel = Kernel::find(processor, memory)?;
        let record = Self::record_of(memory, kernel.base())?;
        let image_id = match Kernel::pe_guid(memory, kernel.base()) {
            Ok(id) => id,
            Err(e) => {
                return Err(WindowsError::Memory(e));
            },
        };
        Ok(KernelSymbols { kernel, record, image_id })
    }

    /// The address at which the symbol server holds the debug information.
    pub fn pdb_url(&self) -> (url: String)
        ensures
            url@ == spec_symbol_url(self.record.file_name@, self.record.spec_guid()),
    {
        let id = self.record.guid();
        symbol_url(self.record.file_name.as_str(), id.as_str())
    }

    /// The address at which the symbol server holds the kernel's image.
    pub fn exe_url(&self) -> (url: String)
        ensures
            url@ == spec_symbol_url(KERNEL_FILE_NAME@, self.image_id@),
    {
        symbol_url(KERNEL_FILE_NAME, self.image_id.as_str())
    }

    /// The name of the file in which the debug information is kept: the
    /// record's identifier with the ending `.pdb`.
    pub fn pdb_file_name(&self) -> (name: String)
        ensures
            name@ == self.record.spec_guid() + ".pdb"@,
    {
        let mut name = self.record.guid();
        name.append(".pdb");
        name
    }

    /// The name of the file in which the kernel's image is kept: the
    /// image's identifier with the ending `.exe`.
    pub fn exe_file_name(&self) -> (name: String)
        ensures
            name@ == self.image_id@ + ".exe"@,
    {
        let mut name = self.image_id.clone();
        name.append(".exe");
        name
    }
}

/// The kernel with the symbols that its image exports.
#[derive(Debug)]
pub struct KernelDebugInfo {
    kernel: Kernel,
    exports: Vec<Export>,
}

impl KernelDebugInfo {
    /// The kernel.
    pub closed spec fn spec_kernel(&self) -> Kernel {
        self.kernel
    }

    /// The symbols that the kernel's image exports.
    pub closed spec fn spec_exports(&self) -> Seq<ExportView> {
        export_views(self.exports@)
    }

    /// What `new` gives for what the parser made of the image file.
    pub open spec fn spec_new(kernel: Kernel, parsed: Option<Seq<ExportView>>) -> Result<
        (Kernel, Seq<ExportView>),
        WindowsError,
    > {
        match parsed {
            Some(exports) => Ok((kernel, exports)),
            None => Err(WindowsError::MalformedImage),
        }
    }

    /// Joins the kernel with the symbols that its image file, whose bytes
    /// are `image`, exports. A file that cannot be read as an executable is
    /// refused.
    pub fn new(kernel: Kernel, image: &Vec<u8>) -> (r: Result<KernelDebugInfo, WindowsError>)
        ensures
            match r {
                Ok(info) => Self::spec_new(kernel, pe_exports(image@)) == Ok::<
                    (Kernel, Seq<ExportView>),
                    WindowsError,
                >((info.spec_kernel(), info.spec_exports())),
                Err(e) => Self::spec_new(kernel, pe_exports(image@)) == Err::<
                    (Kernel, Seq<ExportView>),
                    WindowsError,
                >(e),
            },
    {
        Self::with_exports(kernel, parse_exports(image))
    }

    /// Joins the kernel with what the parser of executables made of its
    /// image file.
    pub fn with_exports(kernel: Kernel, parsed: Result<Vec<Export>, goblin::error::Error>) -> (r:
        Result<KernelDebugInfo, WindowsError>)
        ensures
            match r {
                Ok(info) => parsed matches Ok(exports) && info.spec_kernel() == kernel
                    && info.spec_exports() == export_views(exports@),
                Err(e) => parsed is Err && e == WindowsError::MalformedImage,
            },
    {
        match parsed {
            Ok(exports) => Ok(KernelDebugInfo { kernel, exports }),
            Err(_) => Err(WindowsError::MalformedImage),
        }
    }

    /// The kernel.
    pub fn kernel(&self) -> (k: Kernel)
        ensures
            k == self.spec_kernel(),
    {
        self.kernel
    }

    /// The symbols that the kernel's image exports.
    pub fn exports(&self) -> (e: &Vec<Export>)
        ensures
            export_views(e@) == self.spec_exports(),
    {
        &self.exports
    }

    /// Whether the export at `i` has the name and lies at an address of the
    /// guest.
    pub open spec fn spec_names(&self, i: int, name: Seq<char>) -> bool {
        &&& self.spec_exports()[i].name == Some(name)
        &&& self.spec_kernel().spec_base() + self.spec_exports()[i].rva <= u64::MAX
    }

    /// The address in the guest of the first exported symbol of the given
    /// name that lies at an address of the guest.
    pub fn address_of(&self, name: &String) -> (address: Option<u64>)
        ensures
            match address {
                Some(a) => exists|i: int|
                    {
                        &&& 0 <= i < self.spec_exports().len()
                        &&& #[trigger] self.spec_names(i, name@)
                        &&& a == self.spec_kernel().spec_base() + self.spec_exports()[i].rva
                        &&& forall|j: int| 0 <= j < i ==> !#[trigger] self.spec_names(j, name@)
                    },
                None => forall|i: int|
                    0 <= i < self.spec_exports().len() ==> !#[trigger] self.spec_names(i, name@),
            },
    {
        let mut i: usize = 0;
        while i < self.exports.len()
            invariant
                i <= self.exports.len(),
                forall|j: int| 0 <= j < i ==> !#[trigger] self.spec_names(j, name@),
            decreases self.exports.len() - i,
        {
            let export = &self.exports[i];
            let named: bool = match &export.name {
                Some(found) => *found == *name,
                None => false,
            };
            assert(named == (self.spec_exports()[i as int].name == Some(name@)));
            if named {
                match self.kernel.base.checked_add(export.rva as u64) {
                    Some(a) => {
                        assert(self.spec_names(i as int, name@));
                        return Some(a);
                    },
                    None => {},
                }
            }
            i += 1;
        }
        None
    }
}

} // verus!
