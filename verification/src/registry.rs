//! Identifier dispatch: decoding one record into a strongly typed view.
//!
//! `identify` looks the record's 64-bit identifier up in the registered
//! shape table and parses the matched shape out of the region's bytes:
//! fixed shapes after a bounds check on their static size, variable shapes
//! after reading their count and validating the implied trailing-array
//! size against the memory the region owns. An unrecognized identifier is
//! `NoMatch`, never fatal, so the caller can skip the record via its link.
//! Two identifier collisions exist in the shape table
//! ([`crate::tags::SMP_STRUCTURE_ID`] and [`crate::tags::MMIO_UART_ID`]);
//! each resolves to the first-registered shape.

use vstd::prelude::*;

use crate::bytes::read_u16;
use crate::bytes::read_u32;
use crate::bytes::read_u64;
use crate::bytes::u16_le;
use crate::bytes::u32_le;
use crate::bytes::u64_le;
use crate::chain::ChainRegion;
use crate::tags::ANY_VIDEO_HEADER_ID;
use crate::tags::AnyVideoHeader;
use crate::tags::BOOT_VOLUME_ID;
use crate::tags::BootVolumeStructure;
use crate::tags::COMMAND_LINE_ID;
use crate::tags::CommandLineStructure;
use crate::tags::DEVICE_TREE_BLOB_ID;
use crate::tags::DeviceTreeBlobStructure;
use crate::tags::EDID_ID;
use crate::tags::EDIDStructure;
use crate::tags::EFI_SYSTEM_TABLE_ID;
use crate::tags::EFISystemTable;
use crate::tags::EPOCH_ID;
use crate::tags::Epoch;
use crate::tags::FIRMWARE_ID;
use crate::tags::FRAMEBUFFER_HEADER_ID;
use crate::tags::FRAMEBUFFER_STRUCTURE_ID;
use crate::tags::FirmwareStructure;
use crate::tags::FramebufferHeader;
use crate::tags::FramebufferStructure;
use crate::tags::Guid;
use crate::tags::HIGHER_HALF_DIRECT_MAP_ID;
use crate::tags::HigherHalfDirectMapStructure;
use crate::tags::KERNEL_BASE_ADDRESS_ID;
use crate::tags::KERNEL_FILE_ID;
use crate::tags::KERNEL_FILE_V2_ID;
use crate::tags::KERNEL_SLIDE_ID;
use crate::tags::KernelBaseAddressStructure;
use crate::tags::KernelFileStructure;
use crate::tags::KernelFileStructureV2;
use crate::tags::KernelSlideStructure;
use crate::tags::LEVEL_5_PAGING_ID;
use crate::tags::Level5Paging;
use crate::tags::MEMORY_MAP_ID;
use crate::tags::MMIOUart;
use crate::tags::MMIO_UART_ID;
use crate::tags::MMapEntry;
use crate::tags::MMapEntryKind;
use crate::tags::MODULE_STRUCTURE_ID;
use crate::tags::MemoryMapStructure;
use crate::tags::Module;
use crate::tags::ModuleStructure;
use crate::tags::PMR_STRUCTURE_ID;
use crate::tags::PMRStructure;
use crate::tags::PXE_SERVER_INFO_ID;
use crate::tags::PXEServerInfoStructure;
use crate::tags::Pmr;
use crate::tags::RSDP;
use crate::tags::RSDP_ID;
use crate::tags::SLIDE_HHDM_ID;
use crate::tags::SMBIOS;
use crate::tags::SMBIOS_ID;
use crate::tags::SMP;
use crate::tags::SMP_HEADER_ID;
use crate::tags::SMPInfo;
use crate::tags::SMPStructure;
use crate::tags::SMP_STRUCTURE_ID;
use crate::tags::SlideHHDM;
use crate::tags::TERMINAL_HEADER_ID;
use crate::tags::TERMINAL_STRUCTURE_ID;
use crate::tags::TEXT_MODE_ID;
use crate::tags::TagTryFromError;
use crate::tags::TerminalHeader;
use crate::tags::TerminalStructure;
use crate::tags::TextModeStructure;
use crate::tags::UNMAP_NULL_ID;
use crate::tags::UnmapNull;
use crate::tags::spec_kind_from_code;

verus! {

/// Spec view of a [`Guid`]: the trailing bytes as a sequence.
pub struct GuidView {
    pub a: u32,
    pub b: u16,
    pub c: u16,
    pub d: Seq<u8>,
}

impl View for Guid {
    type V = GuidView;

    open spec fn view(&self) -> GuidView {
        GuidView { a: self.a, b: self.b, c: self.c, d: self.d@ }
    }
}

/// Spec view of a [`BootVolumeStructure`].
pub struct BootVolumeStructureView {
    pub flags: u64,
    pub guid: GuidView,
    pub part_guid: GuidView,
}

impl View for BootVolumeStructure {
    type V = BootVolumeStructureView;

    open spec fn view(&self) -> BootVolumeStructureView {
        BootVolumeStructureView { flags: self.flags, guid: self.guid@, part_guid: self.part_guid@ }
    }
}

/// Spec view of a [`PMRStructure`]: its trailing array as a sequence.
pub struct PMRStructureView {
    pub length: u64,
    pub pmrs: Seq<Pmr>,
}

impl View for PMRStructure {
    type V = PMRStructureView;

    open spec fn view(&self) -> PMRStructureView {
        PMRStructureView { length: self.length, pmrs: self.pmrs@ }
    }
}

/// Spec view of a [`MemoryMapStructure`]: its trailing array as a sequence.
pub struct MemoryMapStructureView {
    pub length: u64,
    pub memmap: Seq<MMapEntry>,
}

impl View for MemoryMapStructure {
    type V = MemoryMapStructureView;

    open spec fn view(&self) -> MemoryMapStructureView {
        MemoryMapStructureView { length: self.length, memmap: self.memmap@ }
    }
}

/// Spec view of a [`ModuleStructure`]: its trailing array as a sequence.
pub struct ModuleStructureView {
    pub count: u64,
    pub pmrs: Seq<Module>,
}

impl View for ModuleStructure {
    type V = ModuleStructureView;

    open spec fn view(&self) -> ModuleStructureView {
        ModuleStructureView { count: self.count, pmrs: self.pmrs@ }
    }
}

/// Spec view of an [`SMPStructure`]: its trailing array as a sequence.
pub struct SMPStructureView {
    pub flags: u64,
    pub lapic_id: u32,
    pub cpu_count: u64,
    pub smp_info: Seq<SMPInfo>,
}

impl View for SMPStructure {
    type V = SMPStructureView;

    open spec fn view(&self) -> SMPStructureView {
        SMPStructureView {
            flags: self.flags,
            lapic_id: self.lapic_id,
            cpu_count: self.cpu_count,
            smp_info: self.smp_info@,
        }
    }
}

/// A decoded record: the tagged sum of every registered shape.
#[derive(Clone, PartialEq, Debug)]
pub enum TypedTag {
    AnyVideo(AnyVideoHeader),
    FramebufferRequest(FramebufferHeader),
    TerminalRequest(TerminalHeader),
    Level5Paging(Level5Paging),
    SlideHhdm(SlideHHDM),
    UnmapNull(UnmapNull),
    SmpRequest(SMP),
    Pmrs(PMRStructure),
    KernelBaseAddress(KernelBaseAddressStructure),
    CommandLine(CommandLineStructure),
    MemoryMap(MemoryMapStructure),
    Framebuffer(FramebufferStructure),
    TextMode(TextModeStructure),
    Edid(EDIDStructure),
    Terminal(TerminalStructure),
    Modules(ModuleStructure),
    Rsdp(RSDP),
    Smbios(SMBIOS),
    Epoch(Epoch),
    Firmware(FirmwareStructure),
    EfiSystemTable(EFISystemTable),
    KernelFile(KernelFileStructure),
    KernelFileV2(KernelFileStructureV2),
    BootVolume(BootVolumeStructure),
    KernelSlide(KernelSlideStructure),
    PxeServerInfo(PXEServerInfoStructure),
    DeviceTreeBlob(DeviceTreeBlobStructure),
    HigherHalfDirectMap(HigherHalfDirectMapStructure),
}

/// Spec view of a [`TypedTag`]: variable shapes appear through their views.
pub enum TypedTagView {
    AnyVideo(AnyVideoHeader),
    FramebufferRequest(FramebufferHeader),
    TerminalRequest(TerminalHeader),
    Level5Paging(Level5Paging),
    SlideHhdm(SlideHHDM),
    UnmapNull(UnmapNull),
    SmpRequest(SMP),
    Pmrs(PMRStructureView),
    KernelBaseAddress(KernelBaseAddressStructure),
    CommandLine(CommandLineStructure),
    MemoryMap(MemoryMapStructureView),
    Framebuffer(FramebufferStructure),
    TextMode(TextModeStructure),
    Edid(EDIDStructure),
    Terminal(TerminalStructure),
    Modules(ModuleStructureView),
    Rsdp(RSDP),
    Smbios(SMBIOS),
    Epoch(Epoch),
    Firmware(FirmwareStructure),
    EfiSystemTable(EFISystemTable),
    KernelFile(KernelFileStructure),
    KernelFileV2(KernelFileStructureV2),
    BootVolume(BootVolumeStructureView),
    KernelSlide(KernelSlideStructure),
    PxeServerInfo(PXEServerInfoStructure),
    DeviceTreeBlob(DeviceTreeBlobStructure),
    HigherHalfDirectMap(HigherHalfDirectMapStructure),
}

impl View for TypedTag {
    type V = TypedTagView;

    open spec fn view(&self) -> TypedTagView {
        match self {
            TypedTag::AnyVideo(x) => TypedTagView::AnyVideo(*x),
            TypedTag::FramebufferRequest(x) => TypedTagView::FramebufferRequest(*x),
            TypedTag::TerminalRequest(x) => TypedTagView::TerminalRequest(*x),
            TypedTag::Level5Paging(x) => TypedTagView::Level5Paging(*x),
            TypedTag::SlideHhdm(x) => TypedTagView::SlideHhdm(*x),
            TypedTag::UnmapNull(x) => TypedTagView::UnmapNull(*x),
            TypedTag::SmpRequest(x) => TypedTagView::SmpRequest(*x),
            TypedTag::Pmrs(x) => TypedTagView::Pmrs(x@),
            TypedTag::KernelBaseAddress(x) => TypedTagView::KernelBaseAddress(*x),
            TypedTag::CommandLine(x) => TypedTagView::CommandLine(*x),
            TypedTag::MemoryMap(x) => TypedTagView::MemoryMap(x@),
            TypedTag::Framebuffer(x) => TypedTagView::Framebuffer(*x),
            TypedTag::TextMode(x) => TypedTagView::TextMode(*x),
            TypedTag::Edid(x) => TypedTagView::Edid(*x),
            TypedTag::Terminal(x) => TypedTagView::Terminal(*x),
            TypedTag::Modules(x) => TypedTagView::Modules(x@),
            TypedTag::Rsdp(x) => TypedTagView::Rsdp(*x),
            TypedTag::Smbios(x) => TypedTagView::Smbios(*x),
            TypedTag::Epoch(x) => TypedTagView::Epoch(*x),
            TypedTag::Firmware(x) => TypedTagView::Firmware(*x),
            TypedTag::EfiSystemTable(x) => TypedTagView::EfiSystemTable(*x),
            TypedTag::KernelFile(x) => TypedTagView::KernelFile(*x),
            TypedTag::KernelFileV2(x) => TypedTagView::KernelFileV2(*x),
            TypedTag::BootVolume(x) => TypedTagView::BootVolume(x@),
            TypedTag::KernelSlide(x) => TypedTagView::KernelSlide(*x),
            TypedTag::PxeServerInfo(x) => TypedTagView::PxeServerInfo(*x),
            TypedTag::DeviceTreeBlob(x) => TypedTagView::DeviceTreeBlob(*x),
            TypedTag::HigherHalfDirectMap(x) => TypedTagView::HigherHalfDirectMap(*x),
        }
    }
}

// Spec-level parses. `off` is the record's start; the 16-byte header comes
// first, so payload fields begin at `off + 16`.

pub open spec fn spec_parse_any_video(b: Seq<u8>, off: int) -> AnyVideoHeader {
    AnyVideoHeader { preference: u64_le(b, off + 16) as u64 }
}

pub open spec fn spec_parse_framebuffer_request(b: Seq<u8>, off: int) -> FramebufferHeader {
    FramebufferHeader {
        width: u16_le(b, off + 16) as u16,
        height: u16_le(b, off + 18) as u16,
        bpp: u16_le(b, off + 20) as u16,
    }
}

pub open spec fn spec_parse_terminal_request(b: Seq<u8>, off: int) -> TerminalHeader {
    TerminalHeader { flags: u64_le(b, off + 16) as u64, callback: u64_le(b, off + 24) as u64 }
}

pub open spec fn spec_parse_slide_hhdm(b: Seq<u8>, off: int) -> SlideHHDM {
    SlideHHDM { alignment: u64_le(b, off + 24) as u64 }
}

pub open spec fn spec_parse_smp_request(b: Seq<u8>, off: int) -> SMP {
    SMP { flags: u64_le(b, off + 16) as u64 }
}

pub open spec fn spec_parse_kernel_base_address(b: Seq<u8>, off: int) -> KernelBaseAddressStructure {
    KernelBaseAddressStructure {
        phys_base: u64_le(b, off + 16) as u64,
        virt_base: u64_le(b, off + 24) as u64,
    }
}

pub open spec fn spec_parse_command_line(b: Seq<u8>, off: int) -> CommandLineStructure {
    CommandLineStructure { cmdline: u64_le(b, off + 16) as u64 }
}

pub open spec fn spec_parse_framebuffer_structure(b: Seq<u8>, off: int) -> FramebufferStructure {
    FramebufferStructure {
        address: u64_le(b, off + 16) as u64,
        width: u64_le(b, off + 24) as u64,
        height: u64_le(b, off + 32) as u64,
        pitch: u64_le(b, off + 40) as u64,
        bpp: u64_le(b, off + 48) as u64,
        memory_model: b[off + 56],
        red_mask_size: b[off + 57],
        red_mask_shift: b[off + 58],
        green_mask_size: b[off + 59],
        green_mask_shift: b[off + 60],
        blue_mask_size: b[off + 61],
        blue_mask_shift: b[off + 62],
    }
}

pub open spec fn spec_parse_text_mode(b: Seq<u8>, off: int) -> TextModeStructure {
    TextModeStructure {
        address: u64_le(b, off + 16) as u64,
        rows: u16_le(b, off + 26) as u16,
        cols: u16_le(b, off + 28) as u16,
        bytes_per_char: u16_le(b, off + 30) as u16,
    }
}

pub open spec fn spec_parse_edid(b: Seq<u8>, off: int) -> EDIDStructure {
    EDIDStructure { size: u64_le(b, off + 16) as u64, info: b[off + 24] }
}

pub open spec fn spec_parse_terminal_structure(b: Seq<u8>, off: int) -> TerminalStructure {
    TerminalStructure {
        flags: u32_le(b, off + 16) as u32,
        cols: u16_le(b, off + 20) as u16,
        rows: u16_le(b, off + 22) as u16,
        write: u64_le(b, off + 24) as u64,
        max_len: u64_le(b, off + 32) as u64,
    }
}

pub open spec fn spec_parse_rsdp(b: Seq<u8>, off: int) -> RSDP {
    RSDP { rsdp: u64_le(b, off + 16) as u64 }
}

pub open spec fn spec_parse_smbios(b: Seq<u8>, off: int) -> SMBIOS {
    SMBIOS { smbios_32: u64_le(b, off + 24) as u64, smbios_64: u64_le(b, off + 32) as u64 }
}

pub open spec fn spec_parse_epoch(b: Seq<u8>, off: int) -> Epoch {
    Epoch { epoch: u64_le(b, off + 16) as u64 }
}

pub open spec fn spec_parse_firmware(b: Seq<u8>, off: int) -> FirmwareStructure {
    FirmwareStructure { flags: u64_le(b, off + 16) as u64 }
}

pub open spec fn spec_parse_efi_system_table(b: Seq<u8>, off: int) -> EFISystemTable {
    EFISystemTable { system_table: u64_le(b, off + 16) as u64 }
}

pub open spec fn spec_parse_kernel_file(b: Seq<u8>, off: int) -> KernelFileStructure {
    KernelFileStructure { kernel_file: u64_le(b, off + 16) as u64 }
}

pub open spec fn spec_parse_kernel_file_v2(b: Seq<u8>, off: int) -> KernelFileStructureV2 {
    KernelFileStructureV2 {
        kernel_file: u64_le(b, off + 16) as u64,
        kernel_size: u64_le(b, off + 24) as u64,
    }
}

/// Parse of a GUID at `off`: mixed-endian fields, then 8 raw bytes.
pub open spec fn spec_parse_guid(b: Seq<u8>, off: int) -> GuidView {
    GuidView {
        a: u32_le(b, off) as u32,
        b: u16_le(b, off + 4) as u16,
        c: u16_le(b, off + 6) as u16,
        d: b.subrange(off + 8, off + 16),
    }
}

pub open spec fn spec_parse_boot_volume(b: Seq<u8>, off: int) -> BootVolumeStructureView {
    BootVolumeStructureView {
        flags: u64_le(b, off + 16) as u64,
        guid: spec_parse_guid(b, off + 24),
        part_guid: spec_parse_guid(b, off + 40),
    }
}

pub open spec fn spec_parse_kernel_slide(b: Seq<u8>, off: int) -> KernelSlideStructure {
    KernelSlideStructure { slide: u64_le(b, off + 16) as u64 }
}

pub open spec fn spec_parse_pxe_server_info(b: Seq<u8>, off: int) -> PXEServerInfoStructure {
    PXEServerInfoStructure { server_ip: u32_le(b, off + 16) as u32 }
}

pub open spec fn spec_parse_device_tree_blob(b: Seq<u8>, off: int) -> DeviceTreeBlobStructure {
    DeviceTreeBlobStructure { address: u64_le(b, off + 16) as u64, size: u64_le(b, off + 24) as u64 }
}

pub open spec fn spec_parse_higher_half_direct_map(b: Seq<u8>, off: int) -> HigherHalfDirectMapStructure {
    HigherHalfDirectMapStructure { addr: u64_le(b, off + 16) as u64 }
}

// Variable-record elements: 24-byte entries starting right after the
// count field at `off + 16`.

pub open spec fn spec_parse_pmr_entry(b: Seq<u8>, off: int) -> Pmr {
    Pmr {
        base: u64_le(b, off) as u64,
        length: u64_le(b, off + 8) as u64,
        permissions: u64_le(b, off + 16) as u64,
    }
}

/// The `n` protected-memory-region entries laid out from `off`.
pub open spec fn spec_pmr_entries(b: Seq<u8>, off: int, n: nat) -> Seq<Pmr> {
    Seq::new(n, |j: int| spec_parse_pmr_entry(b, off + 24 * j))
}

pub open spec fn spec_parse_module_entry(b: Seq<u8>, off: int) -> Module {
    Module {
        begin: u64_le(b, off) as u64,
        end: u64_le(b, off + 8) as u64,
        string: u64_le(b, off + 16) as u64,
    }
}

/// The `n` module entries laid out from `off`.
pub open spec fn spec_module_entries(b: Seq<u8>, off: int, n: nat) -> Seq<Module> {
    Seq::new(n, |j: int| spec_parse_module_entry(b, off + 24 * j))
}

/// One memory-map entry, if its 32-bit kind code is a legal encoding.
pub open spec fn spec_parse_mmap_entry(b: Seq<u8>, off: int) -> Option<MMapEntry> {
    match spec_kind_from_code(u32_le(b, off + 16) as u32) {
        Some(k) => Some(
            MMapEntry { base: u64_le(b, off) as u64, length: u64_le(b, off + 8) as u64, kind: k },
        ),
        None => None,
    }
}

/// Every one of the `n` memory-map entries from `off` has a legal kind code.
pub open spec fn spec_mmap_entries_ok(b: Seq<u8>, off: int, n: nat) -> bool {
    forall|j: int| 0 <= j < n ==> #[trigger] spec_parse_mmap_entry(b, off + 24 * j) is Some
}

/// The `n` memory-map entries laid out from `off`.
pub open spec fn spec_mmap_entries(b: Seq<u8>, off: int, n: nat) -> Seq<MMapEntry> {
    Seq::new(n, |j: int| spec_parse_mmap_entry(b, off + 24 * j).unwrap())
}

/// An identifier some shape is registered under.
pub open spec fn is_registered(id: u64) -> bool {
    ||| id == ANY_VIDEO_HEADER_ID
    ||| id == FRAMEBUFFER_HEADER_ID
    ||| id == TERMINAL_HEADER_ID
    ||| id == LEVEL_5_PAGING_ID
    ||| id == SLIDE_HHDM_ID
    ||| id == UNMAP_NULL_ID
    ||| id == SMP_HEADER_ID
    ||| id == PMR_STRUCTURE_ID
    ||| id == KERNEL_BASE_ADDRESS_ID
    ||| id == COMMAND_LINE_ID
    ||| id == MEMORY_MAP_ID
    ||| id == FRAMEBUFFER_STRUCTURE_ID
    ||| id == TEXT_MODE_ID
    ||| id == EDID_ID
    ||| id == TERMINAL_STRUCTURE_ID
    ||| id == MODULE_STRUCTURE_ID
    ||| id == RSDP_ID
    ||| id == SMBIOS_ID
    ||| id == EPOCH_ID
    ||| id == FIRMWARE_ID
    ||| id == EFI_SYSTEM_TABLE_ID
    ||| id == KERNEL_FILE_ID
    ||| id == KERNEL_FILE_V2_ID
    ||| id == BOOT_VOLUME_ID
    ||| id == KERNEL_SLIDE_ID
    ||| id == PXE_SERVER_INFO_ID
    ||| id == DEVICE_TREE_BLOB_ID
    ||| id == HIGHER_HALF_DIRECT_MAP_ID
}

/// What `identify` returns for the record at `addr`: the typed view of the
/// matched shape, `NoMatch` for an unregistered identifier, `Inconsistent`
/// for a payload that does not fit the region or carries an illegal
/// encoding, `MalformedChain` when not even a header lies at `addr`.
pub open spec fn spec_identify(region: ChainRegion, addr: u64) -> Result<
    TypedTagView,
    TagTryFromError,
> {
    if !region.contains_range(addr, 16) {
        Err(TagTryFromError::MalformedChain)
    } else {
        let b = region.bytes@;
        let off = region.spec_off(addr);
        let id = u64_le(b, off) as u64;
        if id == ANY_VIDEO_HEADER_ID {
            if region.contains_range(addr, 24) {
                Ok(TypedTagView::AnyVideo(spec_parse_any_video(b, off)))
            } else {
                Err(TagTryFromError::Inconsistent)
            }
        } else if id == FRAMEBUFFER_HEADER_ID {
            if region.contains_range(addr, 24) {
                Ok(TypedTagView::FramebufferRequest(spec_parse_framebuffer_request(b, off)))
            } else {
                Err(TagTryFromError::Inconsistent)
            }
        } else if id == TERMINAL_HEADER_ID {
            if region.contains_range(addr, 32) {
                Ok(TypedTagView::TerminalRequest(spec_parse_terminal_request(b, off)))
            } else {
                Err(TagTryFromError::Inconsistent)
            }
        } else if id == LEVEL_5_PAGING_ID {
            Ok(TypedTagView::Level5Paging(Level5Paging {  }))
        } else if id == SLIDE_HHDM_ID {
            if region.contains_range(addr, 32) {
                Ok(TypedTagView::SlideHhdm(spec_parse_slide_hhdm(b, off)))
            } else {
                Err(TagTryFromError::Inconsistent)
            }
        } else if id == UNMAP_NULL_ID {
            Ok(TypedTagView::UnmapNull(UnmapNull {  }))
        } else if id == SMP_HEADER_ID {
            if region.contains_range(addr, 24) {
                Ok(TypedTagView::SmpRequest(spec_parse_smp_request(b, off)))
            } else {
                Err(TagTryFromError::Inconsistent)
            }
        } else if id == PMR_STRUCTURE_ID {
            if !region.contains_range(addr, 24) {
                Err(TagTryFromError::Inconsistent)
            } else {
                let n = u64_le(b, off + 16);
                if region.contains_range(addr, 24 + 24 * n) {
                    Ok(
                        TypedTagView::Pmrs(
                            PMRStructureView {
                                length: n as u64,
                                pmrs: spec_pmr_entries(b, off + 24, n as nat),
                            },
                        ),
                    )
                } else {
                    Err(TagTryFromError::Inconsistent)
                }
            }
        } else if id == KERNEL_BASE_ADDRESS_ID {
            if region.contains_range(addr, 32) {
                Ok(TypedTagView::KernelBaseAddress(spec_parse_kernel_base_address(b, off)))
            } else {
                Err(TagTryFromError::Inconsistent)
            }
        } else if id == COMMAND_LINE_ID {
            if region.contains_range(addr, 24) {
                Ok(TypedTagView::CommandLine(spec_parse_command_line(b, off)))
            } else {
                Err(TagTryFromError::Inconsistent)
            }
        } else if id == MEMORY_MAP_ID {
            if !region.contains_range(addr, 24) {
                Err(TagTryFromError::Inconsistent)
            } else {
                let n = u64_le(b, off + 16);
                if region.contains_range(addr, 24 + 24 * n) && spec_mmap_entries_ok(
                    b,
                    off + 24,
                    n as nat,
                ) {
                    Ok(
                        TypedTagView::MemoryMap(
                            MemoryMapStructureView {
                                length: n as u64,
                                memmap: spec_mmap_entries(b, off + 24, n as nat),
                            },
                        ),
                    )
                } else {
                    Err(TagTryFromError::Inconsistent)
                }
            }
        } else if id == FRAMEBUFFER_STRUCTURE_ID {
            if region.contains_range(addr, 64) {
                Ok(TypedTagView::Framebuffer(spec_parse_framebuffer_structure(b, off)))
            } else {
                Err(TagTryFromError::Inconsistent)
            }
        } else if id == TEXT_MODE_ID {
            if region.contains_range(addr, 32) {
                Ok(TypedTagView::TextMode(spec_parse_text_mode(b, off)))
            } else {
                Err(TagTryFromError::Inconsistent)
            }
        } else if id == EDID_ID {
            if region.contains_range(addr, 25) {
                Ok(TypedTagView::Edid(spec_parse_edid(b, off)))
            } else {
                Err(TagTryFromError::Inconsistent)
            }
        } else if id == TERMINAL_STRUCTURE_ID {
            if region.contains_range(addr, 40) {
                Ok(TypedTagView::Terminal(spec_parse_terminal_structure(b, off)))
            } else {
                Err(TagTryFromError::Inconsistent)
            }
        } else if id == MODULE_STRUCTURE_ID {
            if !region.contains_range(addr, 24) {
                Err(TagTryFromError::Inconsistent)
            } else {
                let n = u64_le(b, off + 16);
                if region.contains_range(addr, 24 + 24 * n) {
                    Ok(
                        TypedTagView::Modules(
                            ModuleStructureView {
                                count: n as u64,
                                pmrs: spec_module_entries(b, off + 24, n as nat),
                            },
                        ),
                    )
                } else {
                    Err(TagTryFromError::Inconsistent)
                }
            }
        } else if id == RSDP_ID {
            if region.contains_range(addr, 24) {
                Ok(TypedTagView::Rsdp(spec_parse_rsdp(b, off)))
            } else {
                Err(TagTryFromError::Inconsistent)
            }
        } else if id == SMBIOS_ID {
            if region.contains_range(addr, 40) {
                Ok(TypedTagView::Smbios(spec_parse_smbios(b, off)))
            } else {
                Err(TagTryFromError::Inconsistent)
            }
        } else if id == EPOCH_ID {
            if region.contains_range(addr, 24) {
                Ok(TypedTagView::Epoch(spec_parse_epoch(b, off)))
            } else {
                Err(TagTryFromError::Inconsistent)
            }
        } else if id == FIRMWARE_ID {
            if region.contains_range(addr, 24) {
                Ok(TypedTagView::Firmware(spec_parse_firmware(b, off)))
            } else {
                Err(TagTryFromError::Inconsistent)
            }
        } else if id == EFI_SYSTEM_TABLE_ID {
            if region.contains_range(addr, 24) {
                Ok(TypedTagView::EfiSystemTable(spec_parse_efi_system_table(b, off)))
            } else {
                Err(TagTryFromError::Inconsistent)
            }
        } else if id == KERNEL_FILE_ID {
            if region.contains_range(addr, 24) {
                Ok(TypedTagView::KernelFile(spec_parse_kernel_file(b, off)))
            } else {
                Err(TagTryFromError::Inconsistent)
            }
        } else if id == KERNEL_FILE_V2_ID {
            if region.contains_range(addr, 32) {
                Ok(TypedTagView::KernelFileV2(spec_parse_kernel_file_v2(b, off)))
            } else {
                Err(TagTryFromError::Inconsistent)
            }
        } else if id == BOOT_VOLUME_ID {
            if region.contains_range(addr, 56) {
                Ok(TypedTagView::BootVolume(spec_parse_boot_volume(b, off)))
            } else {
                Err(TagTryFromError::Inconsistent)
            }
        } else if id == KERNEL_SLIDE_ID {
            if region.contains_range(addr, 24) {
                Ok(TypedTagView::KernelSlide(spec_parse_kernel_slide(b, off)))
            } else {
                Err(TagTryFromError::Inconsistent)
            }
        } else if id == PXE_SERVER_INFO_ID {
            if region.contains_range(addr, 20) {
                Ok(TypedTagView::PxeServerInfo(spec_parse_pxe_server_info(b, off)))
            } else {
                Err(TagTryFromError::Inconsistent)
            }
        } else if id == DEVICE_TREE_BLOB_ID {
            if region.contains_range(addr, 32) {
                Ok(TypedTagView::DeviceTreeBlob(spec_parse_device_tree_blob(b, off)))
            } else {
                Err(TagTryFromError::Inconsistent)
            }
        } else if id == HIGHER_HALF_DIRECT_MAP_ID {
            if region.contains_range(addr, 24) {
                Ok(TypedTagView::HigherHalfDirectMap(spec_parse_higher_half_direct_map(b, off)))
            } else {
                Err(TagTryFromError::Inconsistent)
            }
        } else {
            Err(TagTryFromError::NoMatch)
        }
    }
}


// Exec parses, each proved equal to its spec-level parse.

fn parse_any_video(b: &[u8], off: usize) -> (r: AnyVideoHeader)
    requires
        off + 24 <= b@.len(),
    ensures
        r == spec_parse_any_video(b@, off as int),
{
    let len: usize = b.len();
    proof {
        assert(off + 24 <= len as int);
    }
    AnyVideoHeader { preference: read_u64(b, off + 16) }
}

fn parse_framebuffer_request(b: &[u8], off: usize) -> (r: FramebufferHeader)
    requires
        off + 24 <= b@.len(),
    ensures
        r == spec_parse_framebuffer_request(b@, off as int),
{
    let len: usize = b.len();
    proof {
        assert(off + 24 <= len as int);
    }
    FramebufferHeader {
        width: read_u16(b, off + 16),
        height: read_u16(b, off + 18),
        bpp: read_u16(b, off + 20),
    }
}

fn parse_terminal_request(b: &[u8], off: usize) -> (r: TerminalHeader)
    requires
        off + 32 <= b@.len(),
    ensures
        r == spec_parse_terminal_request(b@, off as int),
{
    let len: usize = b.len();
    proof {
        assert(off + 32 <= len as int);
    }
    TerminalHeader { flags: read_u64(b, off + 16), callback: read_u64(b, off + 24) }
}

fn parse_slide_hhdm(b: &[u8], off: usize) -> (r: SlideHHDM)
    requires
        off + 32 <= b@.len(),
    ensures
        r == spec_parse_slide_hhdm(b@, off as int),
{
    let len: usize = b.len();
    proof {
        assert(off + 32 <= len as int);
    }
    SlideHHDM { alignment: read_u64(b, off + 24) }
}

fn parse_smp_request(b: &[u8], off: usize) -> (r: SMP)
    requires
        off + 24 <= b@.len(),
    ensures
        r == spec_parse_smp_request(b@, off as int),
{
    let len: usize = b.len();
    proof {
        assert(off + 24 <= len as int);
    }
    SMP { flags: read_u64(b, off + 16) }
}

fn parse_kernel_base_address(b: &[u8], off: usize) -> (r: KernelBaseAddressStructure)
    requires
        off + 32 <= b@.len(),
    ensures
        r == spec_parse_kernel_base_address(b@, off as int),
{
    let len: usize = b.len();
    proof {
        assert(off + 32 <= len as int);
    }
    KernelBaseAddressStructure {
        phys_base: read_u64(b, off + 16),
        virt_base: read_u64(b, off + 24),
    }
}

fn parse_command_line(b: &[u8], off: usize) -> (r: CommandLineStructure)
    requires
        off + 24 <= b@.len(),
    ensures
        r == spec_parse_command_line(b@, off as int),
{
    let len: usize = b.len();
    proof {
        assert(off + 24 <= len as int);
    }
    CommandLineStructure { cmdline: read_u64(b, off + 16) }
}

fn parse_framebuffer_structure(b: &[u8], off: usize) -> (r: FramebufferStructure)
    requires
        off + 64 <= b@.len(),
    ensures
        r == spec_parse_framebuffer_structure(b@, off as int),
{
    let len: usize = b.len();
    proof {
        assert(off + 64 <= len as int);
    }
    FramebufferStructure {
        address: read_u64(b, off + 16),
        width: read_u64(b, off + 24),
        height: read_u64(b, off + 32),
        pitch: read_u64(b, off + 40),
        bpp: read_u64(b, off + 48),
        memory_model: b[off + 56],
        red_mask_size: b[off + 57],
        red_mask_shift: b[off + 58],
        green_mask_size: b[off + 59],
        green_mask_shift: b[off + 60],
        blue_mask_size: b[off + 61],
        blue_mask_shift: b[off + 62],
    }
}

fn parse_text_mode(b: &[u8], off: usize) -> (r: TextModeStructure)
    requires
        off + 32 <= b@.len(),
    ensures
        r == spec_parse_text_mode(b@, off as int),
{
    let len: usize = b.len();
    proof {
        assert(off + 32 <= len as int);
    }
    TextModeStructure {
        address: read_u64(b, off + 16),
        rows: read_u16(b, off + 26),
        cols: read_u16(b, off + 28),
        bytes_per_char: read_u16(b, off + 30),
    }
}

fn parse_edid(b: &[u8], off: usize) -> (r: EDIDStructure)
    requires
        off + 25 <= b@.len(),
    ensures
        r == spec_parse_edid(b@, off as int),
{
    let len: usize = b.len();
    proof {
        assert(off + 25 <= len as int);
    }
    EDIDStructure { size: read_u64(b, off + 16), info: b[off + 24] }
}

fn parse_terminal_structure(b: &[u8], off: usize) -> (r: TerminalStructure)
    requires
        off + 40 <= b@.len(),
    ensures
        r == spec_parse_terminal_structure(b@, off as int),
{
    let len: usize = b.len();
    proof {
        assert(off + 40 <= len as int);
    }
    TerminalStructure {
        flags: read_u32(b, off + 16),
        cols: read_u16(b, off + 20),
        rows: read_u16(b, off + 22),
        write: read_u64(b, off + 24),
        max_len: read_u64(b, off + 32),
    }
}

fn parse_rsdp(b: &[u8], off: usize) -> (r: RSDP)
    requires
        off + 24 <= b@.len(),
    ensures
        r == spec_parse_rsdp(b@, off as int),
{
    let len: usize = b.len();
    proof {
        assert(off + 24 <= len as int);
    }
    RSDP { rsdp: read_u64(b, off + 16) }
}

fn parse_smbios(b: &[u8], off: usize) -> (r: SMBIOS)
    requires
        off + 40 <= b@.len(),
    ensures
        r == spec_parse_smbios(b@, off as int),
{
    let len: usize = b.len();
    proof {
        assert(off + 40 <= len as int);
    }
    SMBIOS { smbios_32: read_u64(b, off + 24), smbios_64: read_u64(b, off + 32) }
}

fn parse_epoch(b: &[u8], off: usize) -> (r: Epoch)
    requires
        off + 24 <= b@.len(),
    ensures
        r == spec_parse_epoch(b@, off as int),
{
    let len: usize = b.len();
    proof {
        assert(off + 24 <= len as int);
    }
    Epoch { epoch: read_u64(b, off + 16) }
}

fn parse_firmware(b: &[u8], off: usize) -> (r: FirmwareStructure)
    requires
        off + 24 <= b@.len(),
    ensures
        r == spec_parse_firmware(b@, off as int),
{
    let len: usize = b.len();
    proof {
        assert(off + 24 <= len as int);
    }
    FirmwareStructure { flags: read_u64(b, off + 16) }
}

fn parse_efi_system_table(b: &[u8], off: usize) -> (r: EFISystemTable)
    requires
        off + 24 <= b@.len(),
    ensures
        r == spec_parse_efi_system_table(b@, off as int),
{
    let len: usize = b.len();
    proof {
        assert(off + 24 <= len as int);
    }
    EFISystemTable { system_table: read_u64(b, off + 16) }
}

fn parse_kernel_file(b: &[u8], off: usize) -> (r: KernelFileStructure)
    requires
        off + 24 <= b@.len(),
    ensures
        r == spec_parse_kernel_file(b@, off as int),
{
    let len: usize = b.len();
    proof {
        assert(off + 24 <= len as int);
    }
    KernelFileStructure { kernel_file: read_u64(b, off + 16) }
}

fn parse_kernel_file_v2(b: &[u8], off: usize) -> (r: KernelFileStructureV2)
    requires
        off + 32 <= b@.len(),
    ensures
        r == spec_parse_kernel_file_v2(b@, off as int),
{
    let len: usize = b.len();
    proof {
        assert(off + 32 <= len as int);
    }
    KernelFileStructureV2 { kernel_file: read_u64(b, off + 16), kernel_size: read_u64(b, off + 24) }
}

fn parse_guid(b: &[u8], off: usize) -> (r: Guid)
    requires
        off + 16 <= b@.len(),
    ensures
        r@ == spec_parse_guid(b@, off as int),
{
    let len: usize = b.len();
    proof {
        assert(off + 16 <= len as int);
    }
    let a = read_u32(b, off);
    let gb = read_u16(b, off + 4);
    let gc = read_u16(b, off + 6);
    let d: [u8; 8] = [
        b[off + 8],
        b[off + 9],
        b[off + 10],
        b[off + 11],
        b[off + 12],
        b[off + 13],
        b[off + 14],
        b[off + 15],
    ];
    proof {
        assert(d@ =~= b@.subrange(off + 8, off + 16));
    }
    Guid { a, b: gb, c: gc, d }
}

fn parse_boot_volume(b: &[u8], off: usize) -> (r: BootVolumeStructure)
    requires
        off + 56 <= b@.len(),
    ensures
        r@ == spec_parse_boot_volume(b@, off as int),
{
    let len: usize = b.len();
    proof {
        assert(off + 56 <= len as int);
    }
    let flags = read_u64(b, off + 16);
    let guid = parse_guid(b, off + 24);
    let part_guid = parse_guid(b, off + 40);
    BootVolumeStructure { flags, guid, part_guid }
}

fn parse_kernel_slide(b: &[u8], off: usize) -> (r: KernelSlideStructure)
    requires
        off + 24 <= b@.len(),
    ensures
        r == spec_parse_kernel_slide(b@, off as int),
{
    let len: usize = b.len();
    proof {
        assert(off + 24 <= len as int);
    }
    KernelSlideStructure { slide: read_u64(b, off + 16) }
}

fn parse_pxe_server_info(b: &[u8], off: usize) -> (r: PXEServerInfoStructure)
    requires
        off + 20 <= b@.len(),
    ensures
        r == spec_parse_pxe_server_info(b@, off as int),
{
    let len: usize = b.len();
    proof {
        assert(off + 20 <= len as int);
    }
    PXEServerInfoStructure { server_ip: read_u32(b, off + 16) }
}

fn parse_device_tree_blob(b: &[u8], off: usize) -> (r: DeviceTreeBlobStructure)
    requires
        off + 32 <= b@.len(),
    ensures
        r == spec_parse_device_tree_blob(b@, off as int),
{
    let len: usize = b.len();
    proof {
        assert(off + 32 <= len as int);
    }
    DeviceTreeBlobStructure { address: read_u64(b, off + 16), size: read_u64(b, off + 24) }
}

fn parse_higher_half_direct_map(b: &[u8], off: usize) -> (r: HigherHalfDirectMapStructure)
    requires
        off + 24 <= b@.len(),
    ensures
        r == spec_parse_higher_half_direct_map(b@, off as int),
{
    let len: usize = b.len();
    proof {
        assert(off + 24 <= len as int);
    }
    HigherHalfDirectMapStructure { addr: read_u64(b, off + 16) }
}


/// Decodes a protected-memory-regions record: count, then that many
/// 24-byte entries, validated against the bytes available past `off`.
fn parse_pmr_structure(b: &[u8], off: usize) -> (r: Result<PMRStructure, TagTryFromError>)
    requires
        off + 24 <= b@.len(),
    ensures
        ({
            let n = u64_le(b@, off + 16);
            match r {
                Ok(m) => {
                    &&& off + 24 + 24 * n <= b@.len()
                    &&& m.length == n
                    &&& m.pmrs@ == spec_pmr_entries(b@, off + 24, n as nat)
                },
                Err(e) => {
                    &&& e == TagTryFromError::Inconsistent
                    &&& off + 24 + 24 * n > b@.len()
                },
            }
        }),
{
    let len: usize = b.len();
    proof {
        assert(off + 24 <= len as int);
    }
    let n = read_u64(b, off + 16);
    let avail: u64 = (len - (off + 24)) as u64;
    let total = match n.checked_mul(24) {
        Some(t) => t,
        None => {
            return Err(TagTryFromError::Inconsistent);
        },
    };
    if total > avail {
        return Err(TagTryFromError::Inconsistent);
    }
    let count = n as usize;
    let mut entries: Vec<Pmr> = Vec::new();
    let mut j: usize = 0;
    while j < count
        invariant
            b@.len() <= usize::MAX,
            off + 24 + 24 * (count as int) <= b@.len(),
            j <= count,
            entries@.len() == j,
            forall|k: int|
                0 <= k < j ==> entries@[k] == #[trigger] spec_parse_pmr_entry(
                    b@,
                    off + 24 + 24 * k,
                ),
        decreases count - j,
    {
        let epos = off + 24 + 24 * j;
        let base = read_u64(b, epos);
        let length = read_u64(b, epos + 8);
        let permissions = read_u64(b, epos + 16);
        entries.push(Pmr { base, length, permissions });
        j = j + 1;
    }
    proof {
        assert(entries@ =~= spec_pmr_entries(b@, off + 24, n as nat));
    }
    Ok(PMRStructure { length: n, pmrs: entries })
}

/// Decodes a module-list record: count, then that many 24-byte entries,
/// validated against the bytes available past `off`.
fn parse_module_structure(b: &[u8], off: usize) -> (r: Result<ModuleStructure, TagTryFromError>)
    requires
        off + 24 <= b@.len(),
    ensures
        ({
            let n = u64_le(b@, off + 16);
            match r {
                Ok(m) => {
                    &&& off + 24 + 24 * n <= b@.len()
                    &&& m.count == n
                    &&& m.pmrs@ == spec_module_entries(b@, off + 24, n as nat)
                },
                Err(e) => {
                    &&& e == TagTryFromError::Inconsistent
                    &&& off + 24 + 24 * n > b@.len()
                },
            }
        }),
{
    let len: usize = b.len();
    proof {
        assert(off + 24 <= len as int);
    }
    let n = read_u64(b, off + 16);
    let avail: u64 = (len - (off + 24)) as u64;
    let total = match n.checked_mul(24) {
        Some(t) => t,
        None => {
            return Err(TagTryFromError::Inconsistent);
        },
    };
    if total > avail {
        return Err(TagTryFromError::Inconsistent);
    }
    let count = n as usize;
    let mut entries: Vec<Module> = Vec::new();
    let mut j: usize = 0;
    while j < count
        invariant
            b@.len() <= usize::MAX,
            off + 24 + 24 * (count as int) <= b@.len(),
            j <= count,
            entries@.len() == j,
            forall|k: int|
                0 <= k < j ==> entries@[k] == #[trigger] spec_parse_module_entry(
                    b@,
                    off + 24 + 24 * k,
                ),
        decreases count - j,
    {
        let epos = off + 24 + 24 * j;
        let begin = read_u64(b, epos);
        let end = read_u64(b, epos + 8);
        let string = read_u64(b, epos + 16);
        entries.push(Module { begin, end, string });
        j = j + 1;
    }
    proof {
        assert(entries@ =~= spec_module_entries(b@, off + 24, n as nat));
    }
    Ok(ModuleStructure { count: n, pmrs: entries })
}

/// Decodes a memory-map record: count, then that many 24-byte entries,
/// each with a kind code that must be a legal encoding, validated against
/// the bytes available past `off`.
fn parse_memory_map(b: &[u8], off: usize) -> (r: Result<MemoryMapStructure, TagTryFromError>)
    requires
        off + 24 <= b@.len(),
    ensures
        ({
            let n = u64_le(b@, off + 16);
            match r {
                Ok(m) => {
                    &&& off + 24 + 24 * n <= b@.len()
                    &&& spec_mmap_entries_ok(b@, off + 24, n as nat)
                    &&& m.length == n
                    &&& m.memmap@ == spec_mmap_entries(b@, off + 24, n as nat)
                },
                Err(e) => {
                    &&& e == TagTryFromError::Inconsistent
                    &&& (off + 24 + 24 * n > b@.len() || !spec_mmap_entries_ok(
                        b@,
                        off + 24,
                        n as nat,
                    ))
                },
            }
        }),
{
    let len: usize = b.len();
    proof {
        assert(off + 24 <= len as int);
    }
    let n = read_u64(b, off + 16);
    let avail: u64 = (len - (off + 24)) as u64;
    let total = match n.checked_mul(24) {
        Some(t) => t,
        None => {
            return Err(TagTryFromError::Inconsistent);
        },
    };
    if total > avail {
        return Err(TagTryFromError::Inconsistent);
    }
    let count = n as usize;
    let mut entries: Vec<MMapEntry> = Vec::new();
    let mut j: usize = 0;
    while j < count
        invariant
            b@.len() <= usize::MAX,
            off + 24 + 24 * (count as int) <= b@.len(),
            count == u64_le(b@, off + 16),
            j <= count,
            entries@.len() == j,
            forall|k: int|
                0 <= k < j ==> #[trigger] spec_parse_mmap_entry(b@, off + 24 + 24 * k) is Some,
            forall|k: int|
                0 <= k < j ==> entries@[k] == #[trigger] spec_parse_mmap_entry(
                    b@,
                    off + 24 + 24 * k,
                ).unwrap(),
        decreases count - j,
    {
        let epos = off + 24 + 24 * j;
        let base = read_u64(b, epos);
        let length = read_u64(b, epos + 8);
        let code = read_u32(b, epos + 16);
        match MMapEntryKind::from_code(code) {
            Some(kind) => {
                entries.push(MMapEntry { base, length, kind });
            },
            None => {
                proof {
                    assert(spec_parse_mmap_entry(b@, off + 24 + 24 * (j as int)) is None);
                }
                return Err(TagTryFromError::Inconsistent);
            },
        }
        j = j + 1;
    }
    proof {
        assert(entries@ =~= spec_mmap_entries(b@, off + 24, n as nat));
    }
    Ok(MemoryMapStructure { length: n, memmap: entries })
}


/// Looks the record at `addr` up in the shape table and decodes it.
/// Exactly [`spec_identify`] at the spec level: a typed view on a hit,
/// `NoMatch` on an unregistered identifier, `Inconsistent` on a payload
/// the region's memory cannot back, `MalformedChain` when no header
/// lies at `addr`. Never mutates the region.
pub fn identify(region: &ChainRegion, addr: u64) -> (r: Result<TypedTag, TagTryFromError>)
    requires
        region.wf(),
    ensures
        match r {
            Ok(t) => spec_identify(*region, addr) == Ok::<TypedTagView, TagTryFromError>(t@),
            Err(e) => spec_identify(*region, addr) == Err::<TypedTagView, TagTryFromError>(e),
        },
{
    if !region.check_range(addr, 16) {
        return Err(TagTryFromError::MalformedChain);
    }
    let off = region.offset_of(addr, 16);
    let b = region.bytes.as_slice();
    let id = read_u64(b, off);
    proof {
        crate::bytes::lemma_u64_le_bound(b@, off as int);
    }
    if id == ANY_VIDEO_HEADER_ID {
        if region.check_range(addr, 24) {
            Ok(TypedTag::AnyVideo(parse_any_video(b, region.offset_of(addr, 24))))
        } else {
            Err(TagTryFromError::Inconsistent)
        }
    } else if id == FRAMEBUFFER_HEADER_ID {
        if region.check_range(addr, 24) {
            Ok(TypedTag::FramebufferRequest(parse_framebuffer_request(b, region.offset_of(addr, 24))))
        } else {
            Err(TagTryFromError::Inconsistent)
        }
    } else if id == TERMINAL_HEADER_ID {
        if region.check_range(addr, 32) {
            Ok(TypedTag::TerminalRequest(parse_terminal_request(b, region.offset_of(addr, 32))))
        } else {
            Err(TagTryFromError::Inconsistent)
        }
    } else if id == LEVEL_5_PAGING_ID {
        Ok(TypedTag::Level5Paging(Level5Paging {  }))
    } else if id == SLIDE_HHDM_ID {
        if region.check_range(addr, 32) {
            Ok(TypedTag::SlideHhdm(parse_slide_hhdm(b, region.offset_of(addr, 32))))
        } else {
            Err(TagTryFromError::Inconsistent)
        }
    } else if id == UNMAP_NULL_ID {
        Ok(TypedTag::UnmapNull(UnmapNull {  }))
    } else if id == SMP_HEADER_ID {
        if region.check_range(addr, 24) {
            Ok(TypedTag::SmpRequest(parse_smp_request(b, region.offset_of(addr, 24))))
        } else {
            Err(TagTryFromError::Inconsistent)
        }
    } else if id == PMR_STRUCTURE_ID {
        if region.check_range(addr, 24) {
            match parse_pmr_structure(b, region.offset_of(addr, 24)) {
                Ok(m) => Ok(TypedTag::Pmrs(m)),
                Err(e) => Err(e),
            }
        } else {
            Err(TagTryFromError::Inconsistent)
        }
    } else if id == KERNEL_BASE_ADDRESS_ID {
        if region.check_range(addr, 32) {
            Ok(TypedTag::KernelBaseAddress(parse_kernel_base_address(b, region.offset_of(addr, 32))))
        } else {
            Err(TagTryFromError::Inconsistent)
        }
    } else if id == COMMAND_LINE_ID {
        if region.check_range(addr, 24) {
            Ok(TypedTag::CommandLine(parse_command_line(b, region.offset_of(addr, 24))))
        } else {
            Err(TagTryFromError::Inconsistent)
        }
    } else if id == MEMORY_MAP_ID {
        if region.check_range(addr, 24) {
            match parse_memory_map(b, region.offset_of(addr, 24)) {
                Ok(m) => Ok(TypedTag::MemoryMap(m)),
                Err(e) => Err(e),
            }
        } else {
            Err(TagTryFromError::Inconsistent)
        }
    } else if id == FRAMEBUFFER_STRUCTURE_ID {
        if region.check_range(addr, 64) {
            Ok(TypedTag::Framebuffer(parse_framebuffer_structure(b, region.offset_of(addr, 64))))
        } else {
            Err(TagTryFromError::Inconsistent)
        }
    } else if id == TEXT_MODE_ID {
        if region.check_range(addr, 32) {
            Ok(TypedTag::TextMode(parse_text_mode(b, region.offset_of(addr, 32))))
        } else {
            Err(TagTryFromError::Inconsistent)
        }
    } else if id == EDID_ID {
        if region.check_range(addr, 25) {
            Ok(TypedTag::Edid(parse_edid(b, region.offset_of(addr, 25))))
        } else {
            Err(TagTryFromError::Inconsistent)
        }
    } else if id == TERMINAL_STRUCTURE_ID {
        if region.check_range(addr, 40) {
            Ok(TypedTag::Terminal(parse_terminal_structure(b, region.offset_of(addr, 40))))
        } else {
            Err(TagTryFromError::Inconsistent)
        }
    } else if id == MODULE_STRUCTURE_ID {
        if region.check_range(addr, 24) {
            match parse_module_structure(b, region.offset_of(addr, 24)) {
                Ok(m) => Ok(TypedTag::Modules(m)),
                Err(e) => Err(e),
            }
        } else {
            Err(TagTryFromError::Inconsistent)
        }
    } else if id == RSDP_ID {
        if region.check_range(addr, 24) {
            Ok(TypedTag::Rsdp(parse_rsdp(b, region.offset_of(addr, 24))))
        } else {
            Err(TagTryFromError::Inconsistent)
        }
    } else if id == SMBIOS_ID {
        if region.check_range(addr, 40) {
            Ok(TypedTag::Smbios(parse_smbios(b, region.offset_of(addr, 40))))
        } else {
            Err(TagTryFromError::Inconsistent)
        }
    } else if id == EPOCH_ID {
        if region.check_range(addr, 24) {
            Ok(TypedTag::Epoch(parse_epoch(b, region.offset_of(addr, 24))))
        } else {
            Err(TagTryFromError::Inconsistent)
        }
    } else if id == FIRMWARE_ID {
        if region.check_range(addr, 24) {
            Ok(TypedTag::Firmware(parse_firmware(b, region.offset_of(addr, 24))))
        } else {
            Err(TagTryFromError::Inconsistent)
        }
    } else if id == EFI_SYSTEM_TABLE_ID {
        if region.check_range(addr, 24) {
            Ok(TypedTag::EfiSystemTable(parse_efi_system_table(b, region.offset_of(addr, 24))))
        } else {
            Err(TagTryFromError::Inconsistent)
        }
    } else if id == KERNEL_FILE_ID {
        if region.check_range(addr, 24) {
            Ok(TypedTag::KernelFile(parse_kernel_file(b, region.offset_of(addr, 24))))
        } else {
            Err(TagTryFromError::Inconsistent)
        }
    } else if id == KERNEL_FILE_V2_ID {
        if region.check_range(addr, 32) {
            Ok(TypedTag::KernelFileV2(parse_kernel_file_v2(b, region.offset_of(addr, 32))))
        } else {
            Err(TagTryFromError::Inconsistent)
        }
    } else if id == BOOT_VOLUME_ID {
        if region.check_range(addr, 56) {
            Ok(TypedTag::BootVolume(parse_boot_volume(b, region.offset_of(addr, 56))))
        } else {
            Err(TagTryFromError::Inconsistent)
        }
    } else if id == KERNEL_SLIDE_ID {
        if region.check_range(addr, 24) {
            Ok(TypedTag::KernelSlide(parse_kernel_slide(b, region.offset_of(addr, 24))))
        } else {
            Err(TagTryFromError::Inconsistent)
        }
    } else if id == PXE_SERVER_INFO_ID {
        if region.check_range(addr, 20) {
            Ok(TypedTag::PxeServerInfo(parse_pxe_server_info(b, region.offset_of(addr, 20))))
        } else {
            Err(TagTryFromError::Inconsistent)
        }
    } else if id == DEVICE_TREE_BLOB_ID {
        if region.check_range(addr, 32) {
            Ok(TypedTag::DeviceTreeBlob(parse_device_tree_blob(b, region.offset_of(addr, 32))))
        } else {
            Err(TagTryFromError::Inconsistent)
        }
    } else if id == HIGHER_HALF_DIRECT_MAP_ID {
        if region.check_range(addr, 24) {
            Ok(TypedTag::HigherHalfDirectMap(parse_higher_half_direct_map(b, region.offset_of(addr, 24))))
        } else {
            Err(TagTryFromError::Inconsistent)
        }
    } else {
        Err(TagTryFromError::NoMatch)
    }
}


/// The payload behind the record at `addr` is one its matched shape can
/// decode: the fixed size fits the region, and for a variable shape the
/// count's implied trailing array fits too and every element carries a
/// legal encoding. False when not even a header fits or the identifier is
/// unregistered.
pub open spec fn payload_admissible(region: ChainRegion, addr: u64) -> bool {
    region.contains_range(addr, 16) && {
        let b = region.bytes@;
        let off = region.spec_off(addr);
        let id = u64_le(b, off) as u64;
        if id == ANY_VIDEO_HEADER_ID {
            region.contains_range(addr, 24)
        } else if id == FRAMEBUFFER_HEADER_ID {
            region.contains_range(addr, 24)
        } else if id == TERMINAL_HEADER_ID {
            region.contains_range(addr, 32)
        } else if id == LEVEL_5_PAGING_ID {
            true
        } else if id == SLIDE_HHDM_ID {
            region.contains_range(addr, 32)
        } else if id == UNMAP_NULL_ID {
            true
        } else if id == SMP_HEADER_ID {
            region.contains_range(addr, 24)
        } else if id == PMR_STRUCTURE_ID {
            region.contains_range(addr, 24) && region.contains_range(
                addr,
                24 + 24 * u64_le(b, off + 16),
            )
        } else if id == KERNEL_BASE_ADDRESS_ID {
            region.contains_range(addr, 32)
        } else if id == COMMAND_LINE_ID {
            region.contains_range(addr, 24)
        } else if id == MEMORY_MAP_ID {
            region.contains_range(addr, 24) && region.contains_range(
                addr,
                24 + 24 * u64_le(b, off + 16),
            ) && spec_mmap_entries_ok(b, off + 24, u64_le(b, off + 16) as nat)
        } else if id == FRAMEBUFFER_STRUCTURE_ID {
            region.contains_range(addr, 64)
        } else if id == TEXT_MODE_ID {
            region.contains_range(addr, 32)
        } else if id == EDID_ID {
            region.contains_range(addr, 25)
        } else if id == TERMINAL_STRUCTURE_ID {
            region.contains_range(addr, 40)
        } else if id == MODULE_STRUCTURE_ID {
            region.contains_range(addr, 24) && region.contains_range(
                addr,
                24 + 24 * u64_le(b, off + 16),
            )
        } else if id == RSDP_ID {
            region.contains_range(addr, 24)
        } else if id == SMBIOS_ID {
            region.contains_range(addr, 40)
        } else if id == EPOCH_ID {
            region.contains_range(addr, 24)
        } else if id == FIRMWARE_ID {
            region.contains_range(addr, 24)
        } else if id == EFI_SYSTEM_TABLE_ID {
            region.contains_range(addr, 24)
        } else if id == KERNEL_FILE_ID {
            region.contains_range(addr, 24)
        } else if id == KERNEL_FILE_V2_ID {
            region.contains_range(addr, 32)
        } else if id == BOOT_VOLUME_ID {
            region.contains_range(addr, 56)
        } else if id == KERNEL_SLIDE_ID {
            region.contains_range(addr, 24)
        } else if id == PXE_SERVER_INFO_ID {
            region.contains_range(addr, 20)
        } else if id == DEVICE_TREE_BLOB_ID {
            region.contains_range(addr, 32)
        } else if id == HIGHER_HALF_DIRECT_MAP_ID {
            region.contains_range(addr, 24)
        } else {
            false
        }
    }
}

/// Complete characterization of `identify`'s outcome. It succeeds exactly
/// on a registered identifier over an admissible payload — so the shape
/// table is total over the registered identifiers, for every legal bit
/// pattern of their payloads — and each failure kind comes on exactly one
/// class of input: no header in the region, an unregistered identifier,
/// or a payload the matched shape cannot decode, in that order.
pub proof fn lemma_identify_outcomes(region: ChainRegion, addr: u64)
    ensures
        spec_identify(region, addr) is Ok <==> (region.contains_range(addr, 16)
            && is_registered(u64_le(region.bytes@, region.spec_off(addr)) as u64)
            && payload_admissible(region, addr)),
        spec_identify(region, addr) == Err::<TypedTagView, TagTryFromError>(
            TagTryFromError::MalformedChain,
        ) <==> !region.contains_range(addr, 16),
        spec_identify(region, addr) == Err::<TypedTagView, TagTryFromError>(
            TagTryFromError::NoMatch,
        ) <==> (region.contains_range(addr, 16) && !is_registered(
            u64_le(region.bytes@, region.spec_off(addr)) as u64,
        )),
        spec_identify(region, addr) == Err::<TypedTagView, TagTryFromError>(
            TagTryFromError::Inconsistent,
        ) <==> (region.contains_range(addr, 16) && is_registered(
            u64_le(region.bytes@, region.spec_off(addr)) as u64,
        ) && !payload_admissible(region, addr)),
{
}

/// A variable record's decoded trailing array has exactly as many
/// elements as its count says; a count of zero decodes to the empty
/// sequence.
pub proof fn lemma_variable_count_exact(b: Seq<u8>, off: int, n: nat)
    ensures
        spec_mmap_entries(b, off, n).len() == n,
        spec_pmr_entries(b, off, n).len() == n,
        spec_module_entries(b, off, n).len() == n,
        spec_mmap_entries(b, off, 0) == Seq::<MMapEntry>::empty(),
        spec_pmr_entries(b, off, 0) == Seq::<Pmr>::empty(),
        spec_module_entries(b, off, 0) == Seq::<Module>::empty(),
{
    assert(spec_mmap_entries(b, off, 0) =~= Seq::<MMapEntry>::empty());
    assert(spec_pmr_entries(b, off, 0) =~= Seq::<Pmr>::empty());
    assert(spec_module_entries(b, off, 0) =~= Seq::<Module>::empty());
}


// The two shapes whose identifiers collide with an earlier-registered
// shape cannot come out of `identify`; these decoders let a consumer that
// resolves the collision itself read them directly from record bytes.

pub open spec fn spec_parse_smp_info(b: Seq<u8>, off: int) -> SMPInfo {
    SMPInfo {
        processor_id: u32_le(b, off) as u32,
        lapic_id: u32_le(b, off + 4) as u32,
        target_stack: u64_le(b, off + 8) as u64,
        goto_address: u64_le(b, off + 16) as u64,
        args: u64_le(b, off + 24) as u64,
    }
}

/// The `n` 32-byte per-processor startup descriptors laid out from `off`.
pub open spec fn spec_smp_info_entries(b: Seq<u8>, off: int, n: nat) -> Seq<SMPInfo> {
    Seq::new(n, |j: int| spec_parse_smp_info(b, off + 32 * j))
}

/// What `decode_smp_structure` returns for the record at `addr`.
pub open spec fn spec_decode_smp_structure(region: ChainRegion, addr: u64) -> Result<
    SMPStructureView,
    TagTryFromError,
> {
    if !region.contains_range(addr, 16) {
        Err(TagTryFromError::MalformedChain)
    } else {
        let b = region.bytes@;
        let off = region.spec_off(addr);
        if u64_le(b, off) as u64 != SMP_STRUCTURE_ID {
            Err(TagTryFromError::NoMatch)
        } else if !region.contains_range(addr, 40) {
            Err(TagTryFromError::Inconsistent)
        } else {
            let n = u64_le(b, off + 32);
            if region.contains_range(addr, 40 + 32 * n) {
                Ok(
                    SMPStructureView {
                        flags: u64_le(b, off + 16) as u64,
                        lapic_id: u32_le(b, off + 24) as u32,
                        cpu_count: n as u64,
                        smp_info: spec_smp_info_entries(b, off + 40, n as nat),
                    },
                )
            } else {
                Err(TagTryFromError::Inconsistent)
            }
        }
    }
}

/// Decodes the multiprocessor record at `addr`: flags, the bootstrap
/// processor's LAPIC ID, then the count-prefixed array of per-processor
/// startup descriptors, validated against the memory the region owns.
/// Its identifier is shadowed by [`crate::tags::KERNEL_SLIDE_ID`] inside
/// `identify`, so a consumer resolving that collision calls this decoder
/// directly; any other identifier at `addr` is `NoMatch`.
pub fn decode_smp_structure(region: &ChainRegion, addr: u64) -> (r: Result<
    SMPStructure,
    TagTryFromError,
>)
    requires
        region.wf(),
    ensures
        match r {
            Ok(t) => spec_decode_smp_structure(*region, addr) == Ok::<
                SMPStructureView,
                TagTryFromError,
            >(t@),
            Err(e) => spec_decode_smp_structure(*region, addr) == Err::<
                SMPStructureView,
                TagTryFromError,
            >(e),
        },
{
    if !region.check_range(addr, 16) {
        return Err(TagTryFromError::MalformedChain);
    }
    let b = region.bytes.as_slice();
    let id = read_u64(b, region.offset_of(addr, 16));
    proof {
        crate::bytes::lemma_u64_le_bound(b@, region.spec_off(addr));
    }
    if id != SMP_STRUCTURE_ID {
        return Err(TagTryFromError::NoMatch);
    }
    if !region.check_range(addr, 40) {
        return Err(TagTryFromError::Inconsistent);
    }
    let off = region.offset_of(addr, 40);
    let len: usize = region.bytes.len();
    let flags = read_u64(b, off + 16);
    let lapic_id = read_u32(b, off + 24);
    let n = read_u64(b, off + 32);
    let avail: u64 = (len - (off + 40)) as u64;
    let total = match n.checked_mul(32) {
        Some(t) => t,
        None => {
            return Err(TagTryFromError::Inconsistent);
        },
    };
    if total > avail {
        return Err(TagTryFromError::Inconsistent);
    }
    let count = n as usize;
    let mut entries: Vec<SMPInfo> = Vec::new();
    let mut j: usize = 0;
    while j < count
        invariant
            b@.len() <= usize::MAX,
            off + 40 + 32 * (count as int) <= b@.len(),
            j <= count,
            entries@.len() == j,
            forall|k: int|
                0 <= k < j ==> entries@[k] == #[trigger] spec_parse_smp_info(
                    b@,
                    off + 40 + 32 * k,
                ),
        decreases count - j,
    {
        let epos = off + 40 + 32 * j;
        let processor_id = read_u32(b, epos);
        let lapic = read_u32(b, epos + 4);
        let target_stack = read_u64(b, epos + 8);
        let goto_address = read_u64(b, epos + 16);
        let args = read_u64(b, epos + 24);
        entries.push(SMPInfo { processor_id, lapic_id: lapic, target_stack, goto_address, args });
        j = j + 1;
    }
    proof {
        assert(entries@ =~= spec_smp_info_entries(b@, off + 40, n as nat));
    }
    Ok(SMPStructure { flags, lapic_id, cpu_count: n, smp_info: entries })
}


/// What `decode_mmio_uart` returns for the record at `addr`.
pub open spec fn spec_decode_mmio_uart(region: ChainRegion, addr: u64) -> Result<
    MMIOUart,
    TagTryFromError,
> {
    if !region.contains_range(addr, 16) {
        Err(TagTryFromError::MalformedChain)
    } else {
        let b = region.bytes@;
        let off = region.spec_off(addr);
        if u64_le(b, off) as u64 != MMIO_UART_ID {
            Err(TagTryFromError::NoMatch)
        } else if region.contains_range(addr, 24) {
            Ok(MMIOUart { addr: u64_le(b, off + 16) as u64 })
        } else {
            Err(TagTryFromError::Inconsistent)
        }
    }
}

/// Decodes the memory-mapped-UART record at `addr`. Its identifier is
/// shadowed by [`crate::tags::PXE_SERVER_INFO_ID`] inside `identify`, so
/// a consumer resolving that collision calls this decoder directly; any
/// other identifier at `addr` is `NoMatch`.
pub fn decode_mmio_uart(region: &ChainRegion, addr: u64) -> (r: Result<MMIOUart, TagTryFromError>)
    requires
        region.wf(),
    ensures
        match r {
            Ok(t) => spec_decode_mmio_uart(*region, addr) == Ok::<MMIOUart, TagTryFromError>(t),
            Err(e) => spec_decode_mmio_uart(*region, addr) == Err::<MMIOUart, TagTryFromError>(e),
        },
{
    if !region.check_range(addr, 16) {
        return Err(TagTryFromError::MalformedChain);
    }
    let b = region.bytes.as_slice();
    let id = read_u64(b, region.offset_of(addr, 16));
    proof {
        crate::bytes::lemma_u64_le_bound(b@, region.spec_off(addr));
    }
    if id != MMIO_UART_ID {
        return Err(TagTryFromError::NoMatch);
    }
    if !region.check_range(addr, 24) {
        return Err(TagTryFromError::Inconsistent);
    }
    let off = region.offset_of(addr, 24);
    let _len: usize = region.bytes.len();
    let a = read_u64(b, off + 16);
    proof {
        crate::bytes::lemma_u64_le_bound(b@, region.spec_off(addr) + 16);
    }
    Ok(MMIOUart { addr: a })
}

} // verus!






