use stivale2::chain::ChainRegion;
use stivale2::chain::read_header;
use stivale2::chain::walk;
use stivale2::registry::TypedTag;
use stivale2::registry::decode_mmio_uart;
use stivale2::registry::decode_smp_structure;
use stivale2::registry::identify;
use stivale2::tags::ANY_VIDEO_HEADER_ID;
use stivale2::tags::BOOT_VOLUME_ID;
use stivale2::tags::FRAMEBUFFER_STRUCTURE_ID;
use stivale2::tags::KERNEL_SLIDE_ID;
use stivale2::tags::MEMORY_MAP_ID;
use stivale2::tags::MMapEntryKind;
use stivale2::tags::MODULE_STRUCTURE_ID;
use stivale2::tags::PMR_STRUCTURE_ID;
use stivale2::tags::PXE_SERVER_INFO_ID;
use stivale2::tags::RSDP_ID;
use stivale2::tags::SLIDE_HHDM_ID;
use stivale2::tags::MMIO_UART_ID;
use stivale2::tags::SMBIOS_ID;
use stivale2::tags::SMP_STRUCTURE_ID;
use stivale2::tags::COMMAND_LINE_ID;
use stivale2::tags::DEVICE_TREE_BLOB_ID;
use stivale2::tags::EDID_ID;
use stivale2::tags::EFI_SYSTEM_TABLE_ID;
use stivale2::tags::EPOCH_ID;
use stivale2::tags::FIRMWARE_ID;
use stivale2::tags::FRAMEBUFFER_HEADER_ID;
use stivale2::tags::HIGHER_HALF_DIRECT_MAP_ID;
use stivale2::tags::KERNEL_BASE_ADDRESS_ID;
use stivale2::tags::KERNEL_FILE_ID;
use stivale2::tags::KERNEL_FILE_V2_ID;
use stivale2::tags::LEVEL_5_PAGING_ID;
use stivale2::tags::SMP_HEADER_ID;
use stivale2::tags::TERMINAL_HEADER_ID;
use stivale2::tags::TERMINAL_STRUCTURE_ID;
use stivale2::tags::TEXT_MODE_ID;
use stivale2::tags::UNMAP_NULL_ID;
use stivale2::tags::TagTryFromError;

fn le64(v: &mut Vec<u8>, x: u64) {
    for i in 0..8 {
        v.push((x >> (8 * i)) as u8);
    }
}

fn le32(v: &mut Vec<u8>, x: u32) {
    for i in 0..4 {
        v.push((x >> (8 * i)) as u8);
    }
}

fn push_header(v: &mut Vec<u8>, identifier: u64, next: u64) {
    le64(v, identifier);
    le64(v, next);
}

fn region_at(base: u64, bytes: Vec<u8>) -> ChainRegion {
    ChainRegion::new(base, bytes).expect("addresses must fit in 64 bits")
}

#[test]
fn walk_empty_chain_visits_nothing() {
    let region = region_at(0x1000, Vec::new());
    let headers = walk(&region, 0, 64).unwrap();
    assert!(headers.is_empty());
}

#[test]
fn walk_visits_headers_in_link_order() {
    let base = 0x8000u64;
    let mut v = Vec::new();
    push_header(&mut v, 0xaaaa, base + 48);
    v.extend([0u8; 16]);
    push_header(&mut v, 0xbbbb, 0);
    let mut tail = Vec::new();
    push_header(&mut tail, 0xcccc, base + 32);
    let mut bytes = v;
    // layout: 0xaaaa at base, 0xcccc at base + 48, 0xbbbb at base + 32
    bytes.extend(tail);
    let region = region_at(base, bytes);
    let headers = walk(&region, base, 16).unwrap();
    assert_eq!(headers.len(), 3);
    assert_eq!(headers[0].identifier, 0xaaaa);
    assert_eq!(headers[0].next, base + 48);
    assert_eq!(headers[1].identifier, 0xcccc);
    assert_eq!(headers[1].next, base + 32);
    assert_eq!(headers[2].identifier, 0xbbbb);
    assert_eq!(headers[2].next, 0);
}

#[test]
fn walk_cyclic_chain_reports_malformed_within_bound() {
    let base = 0x2000u64;
    let mut bytes = Vec::new();
    push_header(&mut bytes, 1, base + 16);
    push_header(&mut bytes, 2, base);
    let region = region_at(base, bytes);
    assert_eq!(walk(&region, base, 100), Err(TagTryFromError::MalformedChain));
}

#[test]
fn walk_self_loop_reports_malformed() {
    let base = 0x2000u64;
    let mut bytes = Vec::new();
    push_header(&mut bytes, 7, base);
    let region = region_at(base, bytes);
    assert_eq!(walk(&region, base, 1000), Err(TagTryFromError::MalformedChain));
}

#[test]
fn walk_link_outside_region_reports_malformed() {
    let base = 0x2000u64;
    let mut bytes = Vec::new();
    push_header(&mut bytes, 7, 0xdead_0000);
    let region = region_at(base, bytes);
    assert_eq!(walk(&region, base, 8), Err(TagTryFromError::MalformedChain));
}

#[test]
fn walk_exhausted_hop_bound_reports_malformed() {
    let base = 0x4000u64;
    let mut bytes = Vec::new();
    push_header(&mut bytes, 1, base + 16);
    push_header(&mut bytes, 2, base + 32);
    push_header(&mut bytes, 3, 0);
    let region = region_at(base, bytes);
    assert_eq!(walk(&region, base, 2), Err(TagTryFromError::MalformedChain));
    assert_eq!(walk(&region, base, 3).unwrap().len(), 3);
}

#[test]
fn read_header_translates_address_to_offset() {
    let base = 0x100u64;
    let mut bytes = vec![0u8; 8];
    push_header(&mut bytes, 0x1234_5678_9abc_def0, 0x42);
    let region = region_at(base, bytes);
    let h = read_header(&region, base + 8);
    assert_eq!(h.identifier, 0x1234_5678_9abc_def0);
    assert_eq!(h.next, 0x42);
}

#[test]
fn identify_rsdp_record() {
    let base = 0x9000u64;
    let mut bytes = Vec::new();
    push_header(&mut bytes, RSDP_ID, 0);
    le64(&mut bytes, 0xfee1_dead_cafe_f00d);
    let region = region_at(base, bytes);
    match identify(&region, base) {
        Ok(TypedTag::Rsdp(r)) => assert_eq!(r.rsdp, 0xfee1_dead_cafe_f00d),
        other => panic!("expected an RSDP view, got {:?}", other),
    }
}

#[test]
fn identify_framebuffer_fields_match_bytes_exactly() {
    let base = 0x9000u64;
    let mut bytes = Vec::new();
    push_header(&mut bytes, FRAMEBUFFER_STRUCTURE_ID, 0);
    le64(&mut bytes, 0xb800_0000); // address
    le64(&mut bytes, 1920); // width
    le64(&mut bytes, 1080); // height
    le64(&mut bytes, 7680); // pitch
    le64(&mut bytes, 32); // bpp
    bytes.extend([1, 8, 16, 8, 8, 8, 0, 0xff]); // model, masks, trailing pad
    let region = region_at(base, bytes);
    match identify(&region, base) {
        Ok(TypedTag::Framebuffer(f)) => {
            assert_eq!(f.address, 0xb800_0000);
            assert_eq!(f.width, 1920);
            assert_eq!(f.height, 1080);
            assert_eq!(f.pitch, 7680);
            assert_eq!(f.bpp, 32);
            assert_eq!(f.memory_model, 1);
            assert_eq!(f.red_mask_size, 8);
            assert_eq!(f.red_mask_shift, 16);
            assert_eq!(f.green_mask_size, 8);
            assert_eq!(f.green_mask_shift, 8);
            assert_eq!(f.blue_mask_size, 8);
            assert_eq!(f.blue_mask_shift, 0);
        },
        other => panic!("expected a framebuffer view, got {:?}", other),
    }
}

#[test]
fn identify_slide_hhdm_skips_reserved_word() {
    let base = 0x9000u64;
    let mut bytes = Vec::new();
    push_header(&mut bytes, SLIDE_HHDM_ID, 0);
    le64(&mut bytes, 0); // reserved flags word
    le64(&mut bytes, 0x20_0000); // alignment
    let region = region_at(base, bytes);
    match identify(&region, base) {
        Ok(TypedTag::SlideHhdm(s)) => assert_eq!(s.alignment, 0x20_0000),
        other => panic!("expected a slide view, got {:?}", other),
    }
}

#[test]
fn identify_smbios_skips_reserved_word() {
    let base = 0x9000u64;
    let mut bytes = Vec::new();
    push_header(&mut bytes, SMBIOS_ID, 0);
    le64(&mut bytes, 0); // reserved flags word
    le64(&mut bytes, 0x1111); // 32-bit entry
    le64(&mut bytes, 0x2222); // 64-bit entry
    let region = region_at(base, bytes);
    match identify(&region, base) {
        Ok(TypedTag::Smbios(s)) => {
            assert_eq!(s.smbios_32, 0x1111);
            assert_eq!(s.smbios_64, 0x2222);
        },
        other => panic!("expected an SMBIOS view, got {:?}", other),
    }
}

#[test]
fn identify_any_video_request() {
    let base = 0x9000u64;
    let mut bytes = Vec::new();
    push_header(&mut bytes, ANY_VIDEO_HEADER_ID, 0);
    le64(&mut bytes, 1);
    let region = region_at(base, bytes);
    match identify(&region, base) {
        Ok(TypedTag::AnyVideo(a)) => assert_eq!(a.preference, 1),
        other => panic!("expected an any-video view, got {:?}", other),
    }
}

#[test]
fn identify_unregistered_identifier_is_no_match() {
    let base = 0x9000u64;
    let mut bytes = Vec::new();
    push_header(&mut bytes, 0x0123_4567_89ab_cdef, 0);
    le64(&mut bytes, 0);
    let region = region_at(base, bytes);
    assert_eq!(identify(&region, base), Err(TagTryFromError::NoMatch));
}

#[test]
fn identify_truncated_fixed_payload_is_inconsistent() {
    let base = 0x9000u64;
    let mut bytes = Vec::new();
    push_header(&mut bytes, RSDP_ID, 0);
    bytes.extend([0u8; 7]); // one byte short of the fixed payload
    let region = region_at(base, bytes);
    assert_eq!(identify(&region, base), Err(TagTryFromError::Inconsistent));
}

#[test]
fn identify_header_outside_region_is_malformed() {
    let region = region_at(0x9000, vec![0u8; 8]);
    assert_eq!(identify(&region, 0x9000), Err(TagTryFromError::MalformedChain));
    assert_eq!(identify(&region, 0x100), Err(TagTryFromError::MalformedChain));
}

#[test]
fn memory_map_count_zero_decodes_empty() {
    let base = 0xa000u64;
    let mut bytes = Vec::new();
    push_header(&mut bytes, MEMORY_MAP_ID, 0);
    le64(&mut bytes, 0);
    let region = region_at(base, bytes);
    match identify(&region, base) {
        Ok(TypedTag::MemoryMap(m)) => {
            assert_eq!(m.length, 0);
            assert!(m.memmap.is_empty());
        },
        other => panic!("expected a memory-map view, got {:?}", other),
    }
}

#[test]
fn memory_map_three_entries_decode_byte_for_byte() {
    let base = 0xa000u64;
    let mut bytes = Vec::new();
    push_header(&mut bytes, MEMORY_MAP_ID, 0);
    le64(&mut bytes, 3);
    let entries = [
        (0u64, 0x9f000u64, 1u32),
        (0x100000, 0x7ee0000, 0x1000),
        (0xfd000000, 0x300000, 0x1002),
    ];
    for (eb, el, code) in entries {
        le64(&mut bytes, eb);
        le64(&mut bytes, el);
        le32(&mut bytes, code);
        le32(&mut bytes, 0); // reserved word
    }
    let region = region_at(base, bytes);
    match identify(&region, base) {
        Ok(TypedTag::MemoryMap(m)) => {
            assert_eq!(m.length, 3);
            assert_eq!(m.memmap.len(), 3);
            assert_eq!(m.memmap[0].base, 0);
            assert_eq!(m.memmap[0].length, 0x9f000);
            assert_eq!(m.memmap[0].kind, MMapEntryKind::Usable);
            assert_eq!(m.memmap[1].base, 0x100000);
            assert_eq!(m.memmap[1].kind, MMapEntryKind::BootloaderReclaimable);
            assert_eq!(m.memmap[2].length, 0x300000);
            assert_eq!(m.memmap[2].kind, MMapEntryKind::Framebuffer);
        },
        other => panic!("expected a memory-map view, got {:?}", other),
    }
}

#[test]
fn memory_map_oversized_count_is_inconsistent() {
    let base = 0xa000u64;
    let mut bytes = Vec::new();
    push_header(&mut bytes, MEMORY_MAP_ID, 0);
    le64(&mut bytes, 2); // two entries claimed, bytes for one supplied
    bytes.extend([0u8; 24]);
    let region = region_at(base, bytes);
    assert_eq!(identify(&region, base), Err(TagTryFromError::Inconsistent));
}

#[test]
fn memory_map_huge_count_is_inconsistent() {
    let base = 0xa000u64;
    let mut bytes = Vec::new();
    push_header(&mut bytes, MEMORY_MAP_ID, 0);
    le64(&mut bytes, u64::MAX); // count whose byte size overflows
    let region = region_at(base, bytes);
    assert_eq!(identify(&region, base), Err(TagTryFromError::Inconsistent));
}

#[test]
fn memory_map_illegal_kind_code_is_inconsistent() {
    let base = 0xa000u64;
    let mut bytes = Vec::new();
    push_header(&mut bytes, MEMORY_MAP_ID, 0);
    le64(&mut bytes, 1);
    le64(&mut bytes, 0);
    le64(&mut bytes, 0x1000);
    le32(&mut bytes, 99); // no kind carries this code
    le32(&mut bytes, 0);
    let region = region_at(base, bytes);
    assert_eq!(identify(&region, base), Err(TagTryFromError::Inconsistent));
}

#[test]
fn pmr_entries_decode_with_permissions() {
    let base = 0xb000u64;
    let mut bytes = Vec::new();
    push_header(&mut bytes, PMR_STRUCTURE_ID, 0);
    le64(&mut bytes, 2);
    for (pb, pl, perm) in [(0xffff_8000_0000_0000u64, 0x4000u64, 0b1u64), (0x1000, 0x2000, 0b1011)] {
        le64(&mut bytes, pb);
        le64(&mut bytes, pl);
        le64(&mut bytes, perm);
    }
    let region = region_at(base, bytes);
    match identify(&region, base) {
        Ok(TypedTag::Pmrs(p)) => {
            assert_eq!(p.length, 2);
            assert_eq!(p.pmrs.len(), 2);
            assert_eq!(p.pmrs[0].base, 0xffff_8000_0000_0000);
            assert_eq!(p.pmrs[0].permissions, 0b1);
            assert_eq!(p.pmrs[1].length, 0x2000);
            assert_eq!(p.pmrs[1].permissions, 0b1011);
        },
        other => panic!("expected a PMR view, got {:?}", other),
    }
}

#[test]
fn module_entries_decode() {
    let base = 0xb000u64;
    let mut bytes = Vec::new();
    push_header(&mut bytes, MODULE_STRUCTURE_ID, 0);
    le64(&mut bytes, 1);
    le64(&mut bytes, 0x20_0000); // begin
    le64(&mut bytes, 0x28_0000); // end
    le64(&mut bytes, 0x30_0000); // name string address
    let region = region_at(base, bytes);
    match identify(&region, base) {
        Ok(TypedTag::Modules(m)) => {
            assert_eq!(m.count, 1);
            assert_eq!(m.pmrs.len(), 1);
            assert_eq!(m.pmrs[0].begin, 0x20_0000);
            assert_eq!(m.pmrs[0].end, 0x28_0000);
            assert_eq!(m.pmrs[0].string, 0x30_0000);
        },
        other => panic!("expected a module view, got {:?}", other),
    }
}

#[test]
fn boot_volume_guids_decode() {
    let base = 0xc000u64;
    let mut bytes = Vec::new();
    push_header(&mut bytes, BOOT_VOLUME_ID, 0);
    le64(&mut bytes, 0);
    le32(&mut bytes, 0x1234_5678); // guid.a
    bytes.extend([0xab, 0xcd]); // guid.b
    bytes.extend([0xef, 0x01]); // guid.c
    bytes.extend([1, 2, 3, 4, 5, 6, 7, 8]); // guid.d
    bytes.extend([0u8; 16]); // partition guid
    let region = region_at(base, bytes);
    match identify(&region, base) {
        Ok(TypedTag::BootVolume(bv)) => {
            assert_eq!(bv.flags, 0);
            assert_eq!(bv.guid.a, 0x1234_5678);
            assert_eq!(bv.guid.b, 0xcdab);
            assert_eq!(bv.guid.c, 0x01ef);
            assert_eq!(bv.guid.d, [1, 2, 3, 4, 5, 6, 7, 8]);
            assert_eq!(bv.part_guid.a, 0);
            assert_eq!(bv.part_guid.d, [0; 8]);
        },
        other => panic!("expected a boot-volume view, got {:?}", other),
    }
}

#[test]
fn colliding_identifiers_resolve_to_first_registered_shape() {
    let base = 0xd000u64;
    let mut bytes = Vec::new();
    push_header(&mut bytes, KERNEL_SLIDE_ID, 0);
    le64(&mut bytes, 0x40_0000);
    let region = region_at(base, bytes);
    match identify(&region, base) {
        Ok(TypedTag::KernelSlide(k)) => assert_eq!(k.slide, 0x40_0000),
        other => panic!("expected the kernel-slide view, got {:?}", other),
    }

    let mut bytes = Vec::new();
    push_header(&mut bytes, PXE_SERVER_INFO_ID, 0);
    le32(&mut bytes, 0x0a00_0001);
    let region = region_at(base, bytes);
    match identify(&region, base) {
        Ok(TypedTag::PxeServerInfo(p)) => assert_eq!(p.server_ip, 0x0a00_0001),
        other => panic!("expected the PXE view, got {:?}", other),
    }
}

#[test]
fn synthetic_response_chain_end_to_end() {
    let base = 0x10000u64;
    let mut bytes = Vec::new();

    // record 1: framebuffer, 64 bytes
    push_header(&mut bytes, FRAMEBUFFER_STRUCTURE_ID, base + 64);
    le64(&mut bytes, 0xb800_0000);
    le64(&mut bytes, 800);
    le64(&mut bytes, 600);
    le64(&mut bytes, 3200);
    le64(&mut bytes, 32);
    bytes.extend([1, 8, 16, 8, 8, 8, 0, 0]);

    // record 2: memory map with 3 entries, 96 bytes
    push_header(&mut bytes, MEMORY_MAP_ID, base + 160);
    le64(&mut bytes, 3);
    for (eb, el, code) in [(0u64, 0x1000u64, 1u32), (0x1000, 0x5000, 2), (0x6000, 0x100, 5)] {
        le64(&mut bytes, eb);
        le64(&mut bytes, el);
        le32(&mut bytes, code);
        le32(&mut bytes, 0);
    }

    // record 3: unknown identifier, 24 bytes
    push_header(&mut bytes, 0x0bad_0bad_0bad_0bad, base + 184);
    le64(&mut bytes, 0);

    // record 4: RSDP, 24 bytes
    push_header(&mut bytes, RSDP_ID, 0);
    le64(&mut bytes, 0x000f_e300);

    let region = region_at(base, bytes);
    let headers = walk(&region, base, 64).unwrap();
    assert_eq!(headers.len(), 4);

    let mut decoded = Vec::new();
    let mut addr = base;
    for h in &headers {
        decoded.push(identify(&region, addr));
        addr = h.next;
    }

    match &decoded[0] {
        Ok(TypedTag::Framebuffer(f)) => {
            assert_eq!(f.width, 800);
            assert_eq!(f.height, 600);
            assert_eq!(f.pitch, 3200);
        },
        other => panic!("expected a framebuffer view first, got {:?}", other),
    }
    match &decoded[1] {
        Ok(TypedTag::MemoryMap(m)) => {
            assert_eq!(m.length, 3);
            assert_eq!(m.memmap[1].base, 0x1000);
            assert_eq!(m.memmap[1].length, 0x5000);
            assert_eq!(m.memmap[1].kind, MMapEntryKind::Reserved);
            assert_eq!(m.memmap[2].kind, MMapEntryKind::BadMemory);
        },
        other => panic!("expected a memory-map view second, got {:?}", other),
    }
    assert_eq!(decoded[2], Err(TagTryFromError::NoMatch));
    match &decoded[3] {
        Ok(TypedTag::Rsdp(r)) => assert_eq!(r.rsdp, 0x000f_e300),
        other => panic!("expected an RSDP view last, got {:?}", other),
    }
}

#[test]
fn response_header_decodes_brand_version_and_root() {
    let base = 0x7000u64;
    let mut bytes = Vec::new();
    let mut brand = [0u8; 64];
    brand[..9].copy_from_slice(b"acme-boot");
    bytes.extend(brand);
    let mut version = [0u8; 64];
    version[..5].copy_from_slice(b"4.2.0");
    bytes.extend(version);
    le64(&mut bytes, base + 200);
    let region = region_at(base, bytes);
    let h = stivale2::header::read_response_header(&region, base).unwrap();
    assert_eq!(&h.brand[..9], b"acme-boot");
    assert_eq!(h.brand[9..], [0; 55]);
    assert_eq!(&h.version[..5], b"4.2.0");
    assert_eq!(h.tags, base + 200);
    assert!(stivale2::header::read_response_header(&region, base + 8).is_none());
    assert!(stivale2::header::read_response_header(&region, 0x100).is_none());
}

#[test]
fn every_registered_identifier_decodes_an_all_zero_payload() {
    // (identifier, total record size); a zero payload is legal for every
    // shape, and a zero count makes the variable shapes empty
    let table: [(u64, usize); 28] = [
        (ANY_VIDEO_HEADER_ID, 24),
        (FRAMEBUFFER_HEADER_ID, 24),
        (TERMINAL_HEADER_ID, 32),
        (LEVEL_5_PAGING_ID, 16),
        (SLIDE_HHDM_ID, 32),
        (UNMAP_NULL_ID, 16),
        (SMP_HEADER_ID, 24),
        (PMR_STRUCTURE_ID, 24),
        (KERNEL_BASE_ADDRESS_ID, 32),
        (COMMAND_LINE_ID, 24),
        (MEMORY_MAP_ID, 24),
        (FRAMEBUFFER_STRUCTURE_ID, 64),
        (TEXT_MODE_ID, 32),
        (EDID_ID, 25),
        (TERMINAL_STRUCTURE_ID, 40),
        (MODULE_STRUCTURE_ID, 24),
        (RSDP_ID, 24),
        (SMBIOS_ID, 40),
        (EPOCH_ID, 24),
        (FIRMWARE_ID, 24),
        (EFI_SYSTEM_TABLE_ID, 24),
        (KERNEL_FILE_ID, 24),
        (KERNEL_FILE_V2_ID, 32),
        (BOOT_VOLUME_ID, 56),
        (KERNEL_SLIDE_ID, 24),
        (PXE_SERVER_INFO_ID, 20),
        (DEVICE_TREE_BLOB_ID, 32),
        (HIGHER_HALF_DIRECT_MAP_ID, 24),
    ];
    let base = 0x5000u64;
    for (id, size) in table {
        let mut bytes = Vec::new();
        push_header(&mut bytes, id, 0);
        bytes.extend(std::iter::repeat(0u8).take(size - 16));
        let region = region_at(base, bytes);
        let r = identify(&region, base);
        assert!(r.is_ok(), "identifier {:#x} failed to decode: {:?}", id, r);

        if size > 16 {
            let mut short = Vec::new();
            push_header(&mut short, id, 0);
            short.extend(std::iter::repeat(0u8).take(size - 17));
            let region = region_at(base, short);
            assert_eq!(
                identify(&region, base),
                Err(TagTryFromError::Inconsistent),
                "identifier {:#x} accepted a truncated payload",
                id
            );
        }
    }
}

#[test]
fn smp_structure_decodes_directly_despite_collision() {
    let base = 0xe000u64;
    let mut bytes = Vec::new();
    push_header(&mut bytes, SMP_STRUCTURE_ID, 0);
    le64(&mut bytes, 1); // flags: x2APIC enabled
    le32(&mut bytes, 0); // bootstrap LAPIC ID
    le32(&mut bytes, 0); // reserved word
    le64(&mut bytes, 2); // cpu count
    for (pid, lapic) in [(0u32, 0u32), (1, 2)] {
        le32(&mut bytes, pid);
        le32(&mut bytes, lapic);
        le64(&mut bytes, 0x9_0000); // target stack
        le64(&mut bytes, 0x10_0000); // goto address
        le64(&mut bytes, 0x77); // args
    }
    let region = region_at(base, bytes);

    // identify resolves the shared identifier to the kernel-slide shape
    assert!(matches!(identify(&region, base), Ok(TypedTag::KernelSlide(_))));

    // the direct decoder reads the multiprocessor shape
    let smp = decode_smp_structure(&region, base).unwrap();
    assert_eq!(smp.flags, 1);
    assert_eq!(smp.lapic_id, 0);
    assert_eq!(smp.cpu_count, 2);
    assert_eq!(smp.smp_info.len(), 2);
    assert_eq!(smp.smp_info[1].processor_id, 1);
    assert_eq!(smp.smp_info[1].lapic_id, 2);
    assert_eq!(smp.smp_info[1].target_stack, 0x9_0000);
    assert_eq!(smp.smp_info[1].goto_address, 0x10_0000);
    assert_eq!(smp.smp_info[1].args, 0x77);

    // any other identifier is no match for the direct decoder
    let mut other = Vec::new();
    push_header(&mut other, RSDP_ID, 0);
    le64(&mut other, 0);
    let region = region_at(base, other);
    assert_eq!(decode_smp_structure(&region, base), Err(TagTryFromError::NoMatch));
}

#[test]
fn smp_structure_oversized_count_is_inconsistent() {
    let base = 0xe000u64;
    let mut bytes = Vec::new();
    push_header(&mut bytes, SMP_STRUCTURE_ID, 0);
    le64(&mut bytes, 0);
    le32(&mut bytes, 0);
    le32(&mut bytes, 0);
    le64(&mut bytes, 3); // three descriptors claimed, none supplied
    let region = region_at(base, bytes);
    assert_eq!(decode_smp_structure(&region, base), Err(TagTryFromError::Inconsistent));
}

#[test]
fn mmio_uart_decodes_directly_despite_collision() {
    let base = 0xf000u64;
    let mut bytes = Vec::new();
    push_header(&mut bytes, MMIO_UART_ID, 0);
    le64(&mut bytes, 0x0900_0000);
    let region = region_at(base, bytes);

    // identify resolves the shared identifier to the PXE shape
    assert!(matches!(identify(&region, base), Ok(TypedTag::PxeServerInfo(_))));

    // the direct decoder reads the UART shape
    let uart = decode_mmio_uart(&region, base).unwrap();
    assert_eq!(uart.addr, 0x0900_0000);

    // truncated payload
    let mut short = Vec::new();
    push_header(&mut short, MMIO_UART_ID, 0);
    let region = region_at(base, short);
    assert_eq!(decode_mmio_uart(&region, base), Err(TagTryFromError::Inconsistent));

    // any other identifier is no match for the direct decoder
    let mut other = Vec::new();
    push_header(&mut other, EPOCH_ID, 0);
    le64(&mut other, 0);
    let region = region_at(base, other);
    assert_eq!(decode_mmio_uart(&region, base), Err(TagTryFromError::NoMatch));
}
