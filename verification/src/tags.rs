//! Record shapes of the handoff protocol and their 64-bit identifiers.
//!
//! Every record on the wire begins with a [`BaseTag`]: a protocol-assigned
//! magic identifier and the address of the next record (0 ends the chain).
//! Fixed records carry a statically sized payload; variable records carry a
//! count and then that many fixed-size elements. The identifier constants
//! are wire contract and must not change.

use vstd::prelude::*;

verus! {

/// Common prefix of every record: identity and link.
#[derive(Clone, Copy, PartialEq, Eq, Structural, Debug)]
pub struct BaseTag {
    pub identifier: u64,
    pub next: u64,
}

/// How a decode can fail. An unrecognized identifier is recoverable
/// (skip the record via its link); the other two kinds report untrustworthy
/// chain memory and must not be read past.
#[derive(Clone, Copy, PartialEq, Eq, Structural, Debug)]
pub enum TagTryFromError {
    /// The record's identifier matches no registered shape.
    NoMatch,
    /// A record header or fixed payload does not fit inside the region,
    /// or a variable record's count implies a payload larger than the
    /// memory the region owns, or an element carries an illegal encoding.
    Inconsistent,
    /// A chain link points outside the region, or the chain does not
    /// terminate within the walker's hop bound.
    MalformedChain,
}

pub const ANY_VIDEO_HEADER_ID: u64 = 0xc75c9fa92a44c4db;

pub const FRAMEBUFFER_HEADER_ID: u64 = 0x3ecc1bc43d0f7971;

pub const TERMINAL_HEADER_ID: u64 = 0xa85d499b1823be72;

pub const LEVEL_5_PAGING_ID: u64 = 0x932f477032007e8f;

pub const SLIDE_HHDM_ID: u64 = 0xdc29269c2af53d1d;

pub const UNMAP_NULL_ID: u64 = 0x92919432b16fe7e7;

pub const SMP_HEADER_ID: u64 = 0x1ab015085f3273df;

pub const PMR_STRUCTURE_ID: u64 = 0x5df266a64047b6bd;

pub const KERNEL_BASE_ADDRESS_ID: u64 = 0x060d78874a2a8af0;

pub const COMMAND_LINE_ID: u64 = 0xe5e76a1b4597a781;

pub const MEMORY_MAP_ID: u64 = 0x2187f79e8612de07;

pub const FRAMEBUFFER_STRUCTURE_ID: u64 = 0x506461d2950408fa;

pub const TEXT_MODE_ID: u64 = 0x38d74c23e0dca893;

pub const EDID_ID: u64 = 0x968609d7af96b845;

pub const TERMINAL_STRUCTURE_ID: u64 = 0xc2b3f4c3233b0974;

pub const MODULE_STRUCTURE_ID: u64 = 0x4b6fe466aade04ce;

pub const RSDP_ID: u64 = 0x9e1786930a375e78;

pub const SMBIOS_ID: u64 = 0x274bd246c62bf7d1;

pub const EPOCH_ID: u64 = 0x566a7bed888e1407;

pub const FIRMWARE_ID: u64 = 0x359d837855e3858c;

pub const EFI_SYSTEM_TABLE_ID: u64 = 0x4bc5ec15845b558e;

pub const KERNEL_FILE_ID: u64 = 0xe599d90c2975584a;

pub const KERNEL_FILE_V2_ID: u64 = 0x37c13018a02c6ea2;

pub const BOOT_VOLUME_ID: u64 = 0x9b4358364c19ee62;

pub const KERNEL_SLIDE_ID: u64 = 0xee80847d01506c57;

/// Shares its identifier with [`KernelSlideStructure`]; the registry
/// resolves the collision in favour of the first-registered shape, so
/// `identify` never produces this one: a consumer that resolves the
/// collision itself decodes it with
/// [`crate::registry::decode_smp_structure`].
pub const SMP_STRUCTURE_ID: u64 = 0xee80847d01506c57;

pub const PXE_SERVER_INFO_ID: u64 = 0x29d1e96239247032;

/// Shares its identifier with [`PXEServerInfoStructure`]; the registry
/// resolves the collision in favour of the first-registered shape, so
/// `identify` never produces this one: a consumer that resolves the
/// collision itself decodes it with
/// [`crate::registry::decode_mmio_uart`].
pub const MMIO_UART_ID: u64 = 0x29d1e96239247032;

pub const DEVICE_TREE_BLOB_ID: u64 = 0xabb29bd49a2833fa;

pub const HIGHER_HALF_DIRECT_MAP_ID: u64 = 0xb0ed257db18cb58f;

/// Request tag: the preferred video type (0 prefers a linear framebuffer,
/// 1 prefers no framebuffer and CGA text mode if available).
#[derive(Clone, Copy, PartialEq, Eq, Structural, Debug)]
pub struct AnyVideoHeader {
    pub preference: u64,
}

/// Request tag asking for a framebuffer; all fields 0 lets the bootloader
/// decide.
#[derive(Clone, Copy, PartialEq, Eq, Structural, Debug)]
pub struct FramebufferHeader {
    pub width: u16,
    pub height: u16,
    pub bpp: u16,
}

/// Request tag asking for a bootloader terminal; bit 0 of `flags` says a
/// callback is supplied at `callback`.
#[derive(Clone, Copy, PartialEq, Eq, Structural, Debug)]
pub struct TerminalHeader {
    pub flags: u64,
    pub callback: u64,
}

/// Request tag asking for level 5 paging where available.
#[derive(Clone, Copy, PartialEq, Eq, Structural, Debug)]
pub struct Level5Paging {}

/// Request tag asking for a random slide of the higher-half direct map;
/// the alignment must be non-zero and 2 MiB aligned.
#[derive(Clone, Copy, PartialEq, Eq, Structural, Debug)]
pub struct SlideHHDM {
    pub alignment: u64,
}

/// Request tag asking the bootloader to unmap the null page.
#[derive(Clone, Copy, PartialEq, Eq, Structural, Debug)]
pub struct UnmapNull {}

/// Request tag asking for multiprocessor startup; bit 1 of `flags` selects
/// x2APIC over xAPIC.
#[derive(Clone, Copy, PartialEq, Eq, Structural, Debug)]
pub struct SMP {
    pub flags: u64,
}

/// Variable response record: the protected memory regions created while
/// mapping the kernel image.
#[derive(Clone, PartialEq, Debug)]
pub struct PMRStructure {
    /// The number of entries in `pmrs`.
    pub length: u64,
    pub pmrs: Vec<Pmr>,
}

/// One protected memory region: bit 0 of `permissions` is executable,
/// bit 1 writable, bit 3 readable.
#[derive(Clone, Copy, PartialEq, Eq, Structural, Debug)]
pub struct Pmr {
    pub base: u64,
    pub length: u64,
    pub permissions: u64,
}

/// Fixed response record giving the kernel's physical and virtual base
/// when fully virtual kernel mappings are in effect.
#[derive(Clone, Copy, PartialEq, Eq, Structural, Debug)]
pub struct KernelBaseAddressStructure {
    pub phys_base: u64,
    pub virt_base: u64,
}

/// Fixed response record: address of the null-terminated command line.
#[derive(Clone, Copy, PartialEq, Eq, Structural, Debug)]
pub struct CommandLineStructure {
    pub cmdline: u64,
}

/// Variable response record: the memory map.
#[derive(Clone, PartialEq, Debug)]
pub struct MemoryMapStructure {
    /// The number of entries in `memmap`.
    pub length: u64,
    pub memmap: Vec<MMapEntry>,
}

/// Kind of a memory-map entry. On the wire each kind is a 32-bit code;
/// see [`MMapEntryKind::code`] for the mapping.
#[derive(Clone, Copy, PartialEq, Eq, Structural, Debug)]
pub enum MMapEntryKind {
    Usable,
    Reserved,
    ACPIReclaimable,
    ACPINvs,
    BadMemory,
    BootloaderReclaimable,
    KernelAndModules,
    Framebuffer,
}

/// The wire code of a memory-map entry kind.
pub open spec fn spec_kind_code(k: MMapEntryKind) -> u32 {
    match k {
        MMapEntryKind::Usable => 1,
        MMapEntryKind::Reserved => 2,
        MMapEntryKind::ACPIReclaimable => 3,
        MMapEntryKind::ACPINvs => 4,
        MMapEntryKind::BadMemory => 5,
        MMapEntryKind::BootloaderReclaimable => 0x1000,
        MMapEntryKind::KernelAndModules => 0x1001,
        MMapEntryKind::Framebuffer => 0x1002,
    }
}

/// The memory-map entry kind a wire code stands for, if any.
pub open spec fn spec_kind_from_code(c: u32) -> Option<MMapEntryKind> {
    if c == 1 {
        Some(MMapEntryKind::Usable)
    } else if c == 2 {
        Some(MMapEntryKind::Reserved)
    } else if c == 3 {
        Some(MMapEntryKind::ACPIReclaimable)
    } else if c == 4 {
        Some(MMapEntryKind::ACPINvs)
    } else if c == 5 {
        Some(MMapEntryKind::BadMemory)
    } else if c == 0x1000 {
        Some(MMapEntryKind::BootloaderReclaimable)
    } else if c == 0x1001 {
        Some(MMapEntryKind::KernelAndModules)
    } else if c == 0x1002 {
        Some(MMapEntryKind::Framebuffer)
    } else {
        None
    }
}

impl MMapEntryKind {
    pub fn code(&self) -> (r: u32)
        ensures
            r == spec_kind_code(*self),
    {
        match self {
            MMapEntryKind::Usable => 1,
            MMapEntryKind::Reserved => 2,
            MMapEntryKind::ACPIReclaimable => 3,
            MMapEntryKind::ACPINvs => 4,
            MMapEntryKind::BadMemory => 5,
            MMapEntryKind::BootloaderReclaimable => 0x1000,
            MMapEntryKind::KernelAndModules => 0x1001,
            MMapEntryKind::Framebuffer => 0x1002,
        }
    }

    pub fn from_code(c: u32) -> (r: Option<MMapEntryKind>)
        ensures
            r == spec_kind_from_code(c),
    {
        if c == 1 {
            Some(MMapEntryKind::Usable)
        } else if c == 2 {
            Some(MMapEntryKind::Reserved)
        } else if c == 3 {
            Some(MMapEntryKind::ACPIReclaimable)
        } else if c == 4 {
            Some(MMapEntryKind::ACPINvs)
        } else if c == 5 {
            Some(MMapEntryKind::BadMemory)
        } else if c == 0x1000 {
            Some(MMapEntryKind::BootloaderReclaimable)
        } else if c == 0x1001 {
            Some(MMapEntryKind::KernelAndModules)
        } else if c == 0x1002 {
            Some(MMapEntryKind::Framebuffer)
        } else {
            None
        }
    }
}

/// One memory-map entry: a region of `length` bytes starting at `base`.
#[derive(Clone, Copy, PartialEq, Eq, Structural, Debug)]
pub struct MMapEntry {
    pub base: u64,
    pub length: u64,
    pub kind: MMapEntryKind,
}

impl MMapEntry {
    /// First address past the region: `base + length`, saturating at
    /// `u64::MAX` instead of wrapping when the sum does not fit.
    pub fn end(&self) -> (r: u64)
        ensures
            self.base + self.length <= u64::MAX ==> r == self.base + self.length,
            self.base + self.length > u64::MAX ==> r == u64::MAX,
    {
        if self.length <= u64::MAX - self.base {
            self.base + self.length
        } else {
            u64::MAX
        }
    }
}

/// Fixed response record describing the linear framebuffer.
#[derive(Clone, Copy, PartialEq, Eq, Structural, Debug)]
pub struct FramebufferStructure {
    pub address: u64,
    pub width: u64,
    pub height: u64,
    pub pitch: u64,
    /// Bits per pixel.
    pub bpp: u64,
    /// 1 means RGB; every other value is undefined.
    pub memory_model: u8,
    pub red_mask_size: u8,
    pub red_mask_shift: u8,
    pub green_mask_size: u8,
    pub green_mask_shift: u8,
    pub blue_mask_size: u8,
    pub blue_mask_shift: u8,
}

/// Fixed response record describing the CGA text-mode terminal.
#[derive(Clone, Copy, PartialEq, Eq, Structural, Debug)]
pub struct TextModeStructure {
    pub address: u64,
    pub rows: u16,
    pub cols: u16,
    pub bytes_per_char: u16,
}

/// Fixed response record with the display's EDID information.
#[derive(Clone, Copy, PartialEq, Eq, Structural, Debug)]
pub struct EDIDStructure {
    pub size: u64,
    pub info: u8,
}

/// Fixed response record describing the bootloader terminal. Bits of
/// `flags`: 0 columns and rows provided, 1 max length provided (assume
/// 1024 otherwise), 2 a requested callback is supported, 3 context
/// control available.
#[derive(Clone, Copy, PartialEq, Eq, Structural, Debug)]
pub struct TerminalStructure {
    pub flags: u32,
    pub cols: u16,
    pub rows: u16,
    /// Address of the terminal write routine.
    pub write: u64,
    pub max_len: u64,
}

/// Callback kinds a bootloader terminal may report to the kernel.
#[derive(Clone, Copy, PartialEq, Eq, Structural, Debug)]
pub enum TerminalCallbackTypes {
    /// DEC private mode (DECSET/DECRST) sequence.
    Dec,
    /// BELL character encountered.
    Bell,
    /// The kernel must answer a DEC private identification request.
    PrivateId,
    /// The kernel must answer an ECMA-48 status report request.
    StatusReport,
    /// The kernel must answer an ECMA-48 cursor position request.
    PositionReport,
    /// The kernel must answer a keyboard LED state change request.
    KeyboardLED,
    /// An ECMA-48 mode switch the terminal cannot handle on its own.
    TerminalMode,
    /// A private Linux escape sequence the terminal cannot handle.
    LinuxEscape,
}

/// Variable response record: the modules the bootloader loaded.
#[derive(Clone, PartialEq, Debug)]
pub struct ModuleStructure {
    /// The number of entries in `pmrs`.
    pub count: u64,
    pub pmrs: Vec<Module>,
}

/// One loaded module: its memory span and the address of its
/// null-terminated name string.
#[derive(Clone, Copy, PartialEq, Eq, Structural, Debug)]
pub struct Module {
    pub begin: u64,
    pub end: u64,
    pub string: u64,
}

/// Fixed response record: address of the ACPI RSDP structure.
#[derive(Clone, Copy, PartialEq, Eq, Structural, Debug)]
pub struct RSDP {
    pub rsdp: u64,
}

/// Fixed response record: the SMBIOS entry points, 0 where unavailable.
#[derive(Clone, Copy, PartialEq, Eq, Structural, Debug)]
pub struct SMBIOS {
    pub smbios_32: u64,
    pub smbios_64: u64,
}

/// Fixed response record: the boot time as a Unix epoch.
#[derive(Clone, Copy, PartialEq, Eq, Structural, Debug)]
pub struct Epoch {
    pub epoch: u64,
}

/// Fixed response record: firmware kind (bit 0 clear means UEFI, set
/// means BIOS).
#[derive(Clone, Copy, PartialEq, Eq, Structural, Debug)]
pub struct FirmwareStructure {
    pub flags: u64,
}

/// Fixed response record: address of the UEFI system table.
#[derive(Clone, Copy, PartialEq, Eq, Structural, Debug)]
pub struct EFISystemTable {
    pub system_table: u64,
}

/// Fixed response record: address of the raw kernel file.
#[derive(Clone, Copy, PartialEq, Eq, Structural, Debug)]
pub struct KernelFileStructure {
    pub kernel_file: u64,
}

/// Fixed response record: address and size of the raw kernel file.
#[derive(Clone, Copy, PartialEq, Eq, Structural, Debug)]
pub struct KernelFileStructureV2 {
    pub kernel_file: u64,
    pub kernel_size: u64,
}

/// Fixed response record describing the boot volume; `flags == 0` says
/// `guid` is valid, `flags == 1` says `part_guid` is.
#[derive(Clone, Copy, PartialEq, Eq, Debug)]
pub struct BootVolumeStructure {
    pub flags: u64,
    pub guid: Guid,
    pub part_guid: Guid,
}

/// A globally unique identifier in its usual mixed-endian field layout.
#[derive(Clone, Copy, PartialEq, Eq, Debug)]
pub struct Guid {
    pub a: u32,
    pub b: u16,
    pub c: u16,
    pub d: [u8; 8],
}

/// Fixed response record: the kernel's positive load offset.
#[derive(Clone, Copy, PartialEq, Eq, Structural, Debug)]
pub struct KernelSlideStructure {
    pub slide: u64,
}

/// Variable response record describing the multiprocessor environment;
/// bit 0 of `flags` reports that x2APIC was requested and enabled.
#[derive(Clone, PartialEq, Debug)]
pub struct SMPStructure {
    pub flags: u64,
    /// LAPIC ID of the bootstrap processor.
    pub lapic_id: u32,
    /// The number of entries in `smp_info`.
    pub cpu_count: u64,
    pub smp_info: Vec<SMPInfo>,
}

/// Startup descriptor for one processor: the stack to load (at least 256
/// bytes, 16-byte aligned) and the address to jump to after an atomic
/// write to `goto_address`.
#[derive(Clone, Copy, PartialEq, Eq, Structural, Debug)]
pub struct SMPInfo {
    pub processor_id: u32,
    pub lapic_id: u32,
    pub target_stack: u64,
    pub goto_address: u64,
    pub args: u64,
}

/// Fixed response record: the PXE server's IP, big-endian in its 32 bits.
#[derive(Clone, Copy, PartialEq, Eq, Structural, Debug)]
pub struct PXEServerInfoStructure {
    pub server_ip: u32,
}

/// Fixed response record: address of the memory-mapped UART. Its
/// identifier collides with [`PXEServerInfoStructure`]'s, so `identify`
/// never produces it; a consumer that resolves the collision itself
/// decodes it with [`crate::registry::decode_mmio_uart`].
#[derive(Clone, Copy, PartialEq, Eq, Structural, Debug)]
pub struct MMIOUart {
    pub addr: u64,
}

/// Fixed response record: address and size of the device tree blob.
#[derive(Clone, Copy, PartialEq, Eq, Structural, Debug)]
pub struct DeviceTreeBlobStructure {
    pub address: u64,
    pub size: u64,
}

/// Fixed response record: virtual base of the higher-half direct map.
#[derive(Clone, Copy, PartialEq, Eq, Structural, Debug)]
pub struct HigherHalfDirectMapStructure {
    pub addr: u64,
}

} // verus!
