//! Request/response header assembly and the boot-request flag set.

use vstd::prelude::*;

use crate::bytes::read_u64;
use crate::bytes::u64_le;
use crate::chain::ChainRegion;

verus! {

/// Outbound header the kernel exposes to the bootloader: entry point,
/// stack top, request flags and the address of the request-tag chain.
/// Addresses are carried as plain 64-bit values; `tags == 0` means an
/// empty request chain.
pub struct Stivale2HeaderKernelToBootloader {
    pub entry_point: u64,
    pub stack: u64,
    pub flags: Stivale2HeaderFlags,
    pub tags: u64,
}

/// Inbound header the bootloader hands back: its brand and version
/// strings and the address of the response-record chain (`tags == 0`
/// means an empty chain).
pub struct Stivale2HeaderBootloaderToKernel {
    pub brand: [u8; 64],
    pub version: [u8; 64],
    pub tags: u64,
}

/// Builds a [`Stivale2HeaderFlags`] value from named boolean options.
/// The builder never sets the allow-low-memory-boot bit; only the direct
/// constructor [`Stivale2HeaderFlags::new`] forces that policy default on.
pub struct Stivale2HeaderFlagsBuilder {
    uhh: bool,
    pmr: bool,
    vkm: bool,
}

impl Stivale2HeaderFlagsBuilder {
    /// Spec view of the builder: the three options it has recorded.
    pub closed spec fn spec_options(self) -> (bool, bool, bool) {
        (self.uhh, self.pmr, self.vkm)
    }

    pub fn new() -> (r: Self)
        ensures
            r.spec_options() == (false, false, false),
    {
        Self { uhh: false, pmr: false, vkm: false }
    }

    pub fn upgrade_higher_half(self, val: bool) -> (r: Self)
        ensures
            r.spec_options() == (val, self.spec_options().1, self.spec_options().2),
    {
        Self { uhh: val, ..self }
    }

    pub fn protected_memory_regions(self, val: bool) -> (r: Self)
        ensures
            r.spec_options() == (self.spec_options().0, val, self.spec_options().2),
    {
        Self { pmr: val, ..self }
    }

    pub fn virtual_kernel_mappings(self, val: bool) -> (r: Self)
        ensures
            r.spec_options() == (self.spec_options().0, self.spec_options().1, val),
    {
        Self { vkm: val, ..self }
    }

    /// The finished flag set holds exactly the options this builder
    /// recorded, in their wire bit positions; every other bit of the
    /// word, the allow-low-memory-boot policy bit and all reserved bits
    /// included, is 0.
    pub fn finish(self) -> (r: Stivale2HeaderFlags)
        ensures
            r.0 == (if self.spec_options().0 {
                2u64
            } else {
                0u64
            }) | (if self.spec_options().1 {
                4u64
            } else {
                0u64
            }) | (if self.spec_options().2 {
                8u64
            } else {
                0u64
            }),
            r.spec_upgrade_higher_half() == self.spec_options().0,
            r.spec_protected_memory_regions() == self.spec_options().1,
            r.spec_virtual_kernel_mappings() == self.spec_options().2,
            !r.spec_allow_low_memory_boot(),
    {
        let mut tmp = Stivale2HeaderFlags(0);
        proof {
            assert(0u64 & 2 == 0 && 0u64 & 4 == 0 && 0u64 & 8 == 0 && 0u64 & 16 == 0)
                by (bit_vector);
            assert(0u64 | 0 == 0 && 0u64 | 2 == 2 && 0u64 | 4 == 4 && 0u64 | 8 == 8 && 2u64 | 0
                == 2 && 2u64 | 4 == 6 && 2u64 | 8 == 10 && 4u64 | 0 == 4 && 4u64 | 8 == 12 && 6u64
                | 0 == 6 && 6u64 | 8 == 14) by (bit_vector);
        }
        if self.uhh {
            tmp.set_upgrade_higher_half();
        }
        if self.pmr {
            tmp.set_protected_memory_regions();
        }
        if self.vkm {
            tmp.set_virtual_kernel_mappings();
        }
        tmp
    }
}

/// Bitmask of named boot-request options. Bit positions are wire contract:
/// bit 1 upgrade-higher-half, bit 2 protected-memory-regions, bit 3
/// virtual-kernel-mappings, bit 4 allow-low-memory-boot; all other bits
/// are reserved and stay 0 on every path this type offers.
pub struct Stivale2HeaderFlags(pub u64);

impl Stivale2HeaderFlags {
    pub const UPGRADE_HIGHER_HALF: u64 = 2;

    pub const PROTECTED_MEMORY_REGIONS: u64 = 4;

    pub const VIRTUAL_KERNEL_MAPPINGS: u64 = 8;

    pub const ALLOW_LOW_MEMORY_BOOT: u64 = 16;

    pub open spec fn spec_upgrade_higher_half(self) -> bool {
        self.0 & 2 != 0
    }

    pub open spec fn spec_protected_memory_regions(self) -> bool {
        self.0 & 4 != 0
    }

    pub open spec fn spec_virtual_kernel_mappings(self) -> bool {
        self.0 & 8 != 0
    }

    pub open spec fn spec_allow_low_memory_boot(self) -> bool {
        self.0 & 16 != 0
    }

    /// Direct constructor: the word holds exactly the three requested
    /// options in their wire bit positions plus the allow-low-memory-boot
    /// policy bit, which this path forces on, unlike the builder; every
    /// reserved bit is 0.
    pub fn new(
        upgrade_higher_half: bool,
        protected_memory_regions: bool,
        virtual_kernel_mappings: bool,
    ) -> (r: Self)
        ensures
            r.0 == 16u64 | (if upgrade_higher_half {
                2u64
            } else {
                0u64
            }) | (if protected_memory_regions {
                4u64
            } else {
                0u64
            }) | (if virtual_kernel_mappings {
                8u64
            } else {
                0u64
            }),
            r.spec_upgrade_higher_half() == upgrade_higher_half,
            r.spec_protected_memory_regions() == protected_memory_regions,
            r.spec_virtual_kernel_mappings() == virtual_kernel_mappings,
            r.spec_allow_low_memory_boot(),
    {
        let mut tmp = Stivale2HeaderFlags(0);
        proof {
            assert(0u64 & 2 == 0 && 0u64 & 4 == 0 && 0u64 & 8 == 0 && 0u64 & 16 == 0)
                by (bit_vector);
            assert(0u64 | 16 == 16 && 16u64 | 0 == 16 && 16u64 | 2 == 18 && 16u64 | 4 == 20
                && 16u64 | 8 == 24 && 18u64 | 0 == 18 && 18u64 | 4 == 22 && 18u64 | 8 == 26
                && 20u64 | 0 == 20 && 20u64 | 8 == 28 && 22u64 | 0 == 22 && 22u64 | 8 == 30)
                by (bit_vector);
        }
        tmp.set_allow_low_memory_boot();
        if upgrade_higher_half {
            tmp.set_upgrade_higher_half();
        }
        if protected_memory_regions {
            tmp.set_protected_memory_regions();
        }
        if virtual_kernel_mappings {
            tmp.set_virtual_kernel_mappings();
        }
        tmp
    }

    pub fn get_upgrade_higher_half(&self) -> (r: bool)
        ensures
            r == self.spec_upgrade_higher_half(),
    {
        self.0 & Self::UPGRADE_HIGHER_HALF != 0
    }

    pub fn set_upgrade_higher_half(&mut self)
        ensures
            final(self).0 == old(self).0 | 2,
            final(self).spec_upgrade_higher_half(),
            final(self).spec_protected_memory_regions() == old(self).spec_protected_memory_regions(),
            final(self).spec_virtual_kernel_mappings() == old(self).spec_virtual_kernel_mappings(),
            final(self).spec_allow_low_memory_boot() == old(self).spec_allow_low_memory_boot(),
    {
        self.0 = self.0 | Self::UPGRADE_HIGHER_HALF;
        proof {
            let a = old(self).0;
            assert((a | 2) & 2 != 0 && (a | 2) & 4 == a & 4 && (a | 2) & 8 == a & 8 && (a | 2)
                & 16 == a & 16) by (bit_vector);
        }
    }

    pub fn clear_upgrade_higher_half(&mut self)
        ensures
            final(self).0 == old(self).0 & 0xffff_ffff_ffff_fffd,
            !final(self).spec_upgrade_higher_half(),
            final(self).spec_protected_memory_regions() == old(self).spec_protected_memory_regions(),
            final(self).spec_virtual_kernel_mappings() == old(self).spec_virtual_kernel_mappings(),
            final(self).spec_allow_low_memory_boot() == old(self).spec_allow_low_memory_boot(),
    {
        self.0 = self.0 & !Self::UPGRADE_HIGHER_HALF;
        proof {
            let a = old(self).0;
            assert(!2u64 == 0xffff_ffff_ffff_fffd) by (bit_vector);
            assert((a & 0xffff_ffff_ffff_fffd) & 2 == 0 && (a & 0xffff_ffff_ffff_fffd) & 4 == a & 4
                && (a & 0xffff_ffff_ffff_fffd) & 8 == a & 8 && (a & 0xffff_ffff_ffff_fffd) & 16 == a
                & 16) by (bit_vector);
        }
    }

    pub fn get_protected_memory_regions(&self) -> (r: bool)
        ensures
            r == self.spec_protected_memory_regions(),
    {
        self.0 & Self::PROTECTED_MEMORY_REGIONS != 0
    }

    pub fn set_protected_memory_regions(&mut self)
        ensures
            final(self).0 == old(self).0 | 4,
            final(self).spec_protected_memory_regions(),
            final(self).spec_upgrade_higher_half() == old(self).spec_upgrade_higher_half(),
            final(self).spec_virtual_kernel_mappings() == old(self).spec_virtual_kernel_mappings(),
            final(self).spec_allow_low_memory_boot() == old(self).spec_allow_low_memory_boot(),
    {
        self.0 = self.0 | Self::PROTECTED_MEMORY_REGIONS;
        proof {
            let a = old(self).0;
            assert((a | 4) & 4 != 0 && (a | 4) & 2 == a & 2 && (a | 4) & 8 == a & 8 && (a | 4)
                & 16 == a & 16) by (bit_vector);
        }
    }

    pub fn clear_protected_memory_regions(&mut self)
        ensures
            final(self).0 == old(self).0 & 0xffff_ffff_ffff_fffb,
            !final(self).spec_protected_memory_regions(),
            final(self).spec_upgrade_higher_half() == old(self).spec_upgrade_higher_half(),
            final(self).spec_virtual_kernel_mappings() == old(self).spec_virtual_kernel_mappings(),
            final(self).spec_allow_low_memory_boot() == old(self).spec_allow_low_memory_boot(),
    {
        self.0 = self.0 & !Self::PROTECTED_MEMORY_REGIONS;
        proof {
            let a = old(self).0;
            assert(!4u64 == 0xffff_ffff_ffff_fffb) by (bit_vector);
            assert((a & 0xffff_ffff_ffff_fffb) & 4 == 0 && (a & 0xffff_ffff_ffff_fffb) & 2 == a & 2
                && (a & 0xffff_ffff_ffff_fffb) & 8 == a & 8 && (a & 0xffff_ffff_ffff_fffb) & 16 == a
                & 16) by (bit_vector);
        }
    }

    pub fn get_virtual_kernel_mappings(&self) -> (r: bool)
        ensures
            r == self.spec_virtual_kernel_mappings(),
    {
        self.0 & Self::VIRTUAL_KERNEL_MAPPINGS != 0
    }

    pub fn set_virtual_kernel_mappings(&mut self)
        ensures
            final(self).0 == old(self).0 | 8,
            final(self).spec_virtual_kernel_mappings(),
            final(self).spec_upgrade_higher_half() == old(self).spec_upgrade_higher_half(),
            final(self).spec_protected_memory_regions() == old(self).spec_protected_memory_regions(),
            final(self).spec_allow_low_memory_boot() == old(self).spec_allow_low_memory_boot(),
    {
        self.0 = self.0 | Self::VIRTUAL_KERNEL_MAPPINGS;
        proof {
            let a = old(self).0;
            assert((a | 8) & 8 != 0 && (a | 8) & 2 == a & 2 && (a | 8) & 4 == a & 4 && (a | 8)
                & 16 == a & 16) by (bit_vector);
        }
    }

    pub fn clear_virtual_kernel_mappings(&mut self)
        ensures
            final(self).0 == old(self).0 & 0xffff_ffff_ffff_fff7,
            !final(self).spec_virtual_kernel_mappings(),
            final(self).spec_upgrade_higher_half() == old(self).spec_upgrade_higher_half(),
            final(self).spec_protected_memory_regions() == old(self).spec_protected_memory_regions(),
            final(self).spec_allow_low_memory_boot() == old(self).spec_allow_low_memory_boot(),
    {
        self.0 = self.0 & !Self::VIRTUAL_KERNEL_MAPPINGS;
        proof {
            let a = old(self).0;
            assert(!8u64 == 0xffff_ffff_ffff_fff7) by (bit_vector);
            assert((a & 0xffff_ffff_ffff_fff7) & 8 == 0 && (a & 0xffff_ffff_ffff_fff7) & 2 == a & 2
                && (a & 0xffff_ffff_ffff_fff7) & 4 == a & 4 && (a & 0xffff_ffff_ffff_fff7) & 16 == a
                & 16) by (bit_vector);
        }
    }

    pub fn get_allow_low_memory_boot(&self) -> (r: bool)
        ensures
            r == self.spec_allow_low_memory_boot(),
    {
        self.0 & Self::ALLOW_LOW_MEMORY_BOOT != 0
    }

    pub fn set_allow_low_memory_boot(&mut self)
        ensures
            final(self).0 == old(self).0 | 16,
            final(self).spec_allow_low_memory_boot(),
            final(self).spec_upgrade_higher_half() == old(self).spec_upgrade_higher_half(),
            final(self).spec_protected_memory_regions() == old(self).spec_protected_memory_regions(),
            final(self).spec_virtual_kernel_mappings() == old(self).spec_virtual_kernel_mappings(),
    {
        self.0 = self.0 | Self::ALLOW_LOW_MEMORY_BOOT;
        proof {
            let a = old(self).0;
            assert((a | 16) & 16 != 0 && (a | 16) & 2 == a & 2 && (a | 16) & 4 == a & 4 && (a | 16)
                & 8 == a & 8) by (bit_vector);
        }
    }

    pub fn clear_allow_low_memory_boot(&mut self)
        ensures
            final(self).0 == old(self).0 & 0xffff_ffff_ffff_ffef,
            !final(self).spec_allow_low_memory_boot(),
            final(self).spec_upgrade_higher_half() == old(self).spec_upgrade_higher_half(),
            final(self).spec_protected_memory_regions() == old(self).spec_protected_memory_regions(),
            final(self).spec_virtual_kernel_mappings() == old(self).spec_virtual_kernel_mappings(),
    {
        self.0 = self.0 & !Self::ALLOW_LOW_MEMORY_BOOT;
        proof {
            let a = old(self).0;
            assert(!16u64 == 0xffff_ffff_ffff_ffef) by (bit_vector);
            assert((a & 0xffff_ffff_ffff_ffef) & 16 == 0 && (a & 0xffff_ffff_ffff_ffef) & 2 == a & 2
                && (a & 0xffff_ffff_ffff_ffef) & 4 == a & 4 && (a & 0xffff_ffff_ffff_ffef) & 8 == a
                & 8) by (bit_vector);
        }
    }
}


/// Decodes the inbound header the bootloader left at `addr` of the
/// region: 64 brand bytes, 64 version bytes, then the address of the
/// response-record chain, which is the chain walker's root. `None` when
/// the 136 bytes do not lie inside the region.
#[verifier::rlimit(100)]
pub fn read_response_header(region: &ChainRegion, addr: u64) -> (r: Option<
    Stivale2HeaderBootloaderToKernel,
>)
    requires
        region.wf(),
    ensures
        match r {
            Some(h) => {
                &&& region.contains_range(addr, 136)
                &&& h.brand@ == region.bytes@.subrange(
                    region.spec_off(addr),
                    region.spec_off(addr) + 64,
                )
                &&& h.version@ == region.bytes@.subrange(
                    region.spec_off(addr) + 64,
                    region.spec_off(addr) + 128,
                )
                &&& h.tags == u64_le(region.bytes@, region.spec_off(addr) + 128) as u64
            },
            None => !region.contains_range(addr, 136),
        },
{
    if !region.check_range(addr, 136) {
        return None;
    }
    let off = region.offset_of(addr, 136);
    let b = region.bytes.as_slice();
    let brand: [u8; 64] = [
        b[off + 0],
        b[off + 1],
        b[off + 2],
        b[off + 3],
        b[off + 4],
        b[off + 5],
        b[off + 6],
        b[off + 7],
        b[off + 8],
        b[off + 9],
        b[off + 10],
        b[off + 11],
        b[off + 12],
        b[off + 13],
        b[off + 14],
        b[off + 15],
        b[off + 16],
        b[off + 17],
        b[off + 18],
        b[off + 19],
        b[off + 20],
        b[off + 21],
        b[off + 22],
        b[off + 23],
        b[off + 24],
        b[off + 25],
        b[off + 26],
        b[off + 27],
        b[off + 28],
        b[off + 29],
        b[off + 30],
        b[off + 31],
        b[off + 32],
        b[off + 33],
        b[off + 34],
        b[off + 35],
        b[off + 36],
        b[off + 37],
        b[off + 38],
        b[off + 39],
        b[off + 40],
        b[off + 41],
        b[off + 42],
        b[off + 43],
        b[off + 44],
        b[off + 45],
        b[off + 46],
        b[off + 47],
        b[off + 48],
        b[off + 49],
        b[off + 50],
        b[off + 51],
        b[off + 52],
        b[off + 53],
        b[off + 54],
        b[off + 55],
        b[off + 56],
        b[off + 57],
        b[off + 58],
        b[off + 59],
        b[off + 60],
        b[off + 61],
        b[off + 62],
        b[off + 63]
    ];
    let version: [u8; 64] = [
        b[off + 64],
        b[off + 65],
        b[off + 66],
        b[off + 67],
        b[off + 68],
        b[off + 69],
        b[off + 70],
        b[off + 71],
        b[off + 72],
        b[off + 73],
        b[off + 74],
        b[off + 75],
        b[off + 76],
        b[off + 77],
        b[off + 78],
        b[off + 79],
        b[off + 80],
        b[off + 81],
        b[off + 82],
        b[off + 83],
        b[off + 84],
        b[off + 85],
        b[off + 86],
        b[off + 87],
        b[off + 88],
        b[off + 89],
        b[off + 90],
        b[off + 91],
        b[off + 92],
        b[off + 93],
        b[off + 94],
        b[off + 95],
        b[off + 96],
        b[off + 97],
        b[off + 98],
        b[off + 99],
        b[off + 100],
        b[off + 101],
        b[off + 102],
        b[off + 103],
        b[off + 104],
        b[off + 105],
        b[off + 106],
        b[off + 107],
        b[off + 108],
        b[off + 109],
        b[off + 110],
        b[off + 111],
        b[off + 112],
        b[off + 113],
        b[off + 114],
        b[off + 115],
        b[off + 116],
        b[off + 117],
        b[off + 118],
        b[off + 119],
        b[off + 120],
        b[off + 121],
        b[off + 122],
        b[off + 123],
        b[off + 124],
        b[off + 125],
        b[off + 126],
        b[off + 127]
    ];
    proof {
        assert(brand@ =~= region.bytes@.subrange(off as int, off + 64));
        assert(version@ =~= region.bytes@.subrange(off + 64, off + 128));
        crate::bytes::lemma_u64_le_bound(region.bytes@, off + 128);
    }
    let tags = read_u64(b, off + 128);
    Some(Stivale2HeaderBootloaderToKernel { brand, version, tags })
}

} // verus!
