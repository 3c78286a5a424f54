//! The memory map item `etc/e820`.
use crate::bytes;
use crate::fw_cfg::content::ContentModel;
use crate::fw_cfg::content::FwCfgContent;
use crate::fw_cfg::content::FwCfgItem;
use vstd::prelude::*;

verus! {

/// Where the stage0 firmware lies, just below 4 GiB.
pub const STAGE0_START_ADDRESS: u64 = 0xfffe_0000;

pub const STAGE0_SIZE: u64 = 0x2_0000;

pub const E820_RAM: u32 = 1;

pub const E820_RESERVED: u32 = 2;

pub const FW_CFG_FILENAME_E820: &'static str = "etc/e820";

/// What a region of the guest's address space is used for.
#[derive(Clone, Copy, Debug, PartialEq, Eq, Structural)]
pub enum RegionType {
    /// Memory.
    Ram,
    /// A part of another region, which the memory map leaves out.
    SubRegion,
    /// Not usable as memory.
    Reserved,
}

/// A region of the guest's address space.
#[derive(Clone, Copy, Debug)]
pub struct Region {
    pub start: u64,
    pub size: u64,
    pub kind: RegionType,
}

/// The address space layout of the machine.
#[derive(Clone, Copy, Debug)]
pub struct MemoryLayout {
    /// The end of low memory.
    pub ebda_start: u64,
    /// Where memory goes on above the first MiB.
    pub high_ram_start: u64,
    /// The hole for devices below 4 GiB.
    pub mem_32bit_devices_start: u64,
    pub mem_32bit_devices_size: u64,
    /// The end of the memory below 4 GiB.
    pub mem_32bit_reserved_start: u64,
    /// The PCI configuration space.
    pub pci_mmconfig_start: u64,
    pub pci_mmconfig_size: u64,
    /// Where memory goes on above 4 GiB.
    pub ram_64bit_start: u64,
}

impl MemoryLayout {
    /// Whether `mem_size` bytes of memory reach beyond the first MiB, and the
    /// memory below 4 GiB does too.
    pub open spec fn admits(self, mem_size: u64) -> bool {
        if mem_size < self.mem_32bit_devices_start {
            self.high_ram_start <= mem_size
        } else {
            self.high_ram_start <= self.mem_32bit_reserved_start
        }
    }

    /// The regions of a guest with `mem_size` bytes of memory.
    pub open spec fn regions(self, mem_size: u64) -> Seq<Region> {
        let fixed = seq![
            Region { start: 0, size: self.ebda_start, kind: RegionType::Ram },
            Region {
                start: self.mem_32bit_devices_start,
                size: self.mem_32bit_devices_size,
                kind: RegionType::Reserved,
            },
            Region {
                start: self.pci_mmconfig_start,
                size: self.pci_mmconfig_size,
                kind: RegionType::Reserved,
            },
            Region {
                start: STAGE0_START_ADDRESS,
                size: STAGE0_SIZE,
                kind: RegionType::Reserved,
            },
        ];
        if mem_size < self.mem_32bit_devices_start {
            fixed + seq![
                Region {
                    start: self.high_ram_start,
                    size: (mem_size - self.high_ram_start) as u64,
                    kind: RegionType::Ram,
                },
            ]
        } else {
            fixed + seq![
                Region {
                    start: self.high_ram_start,
                    size: (self.mem_32bit_reserved_start - self.high_ram_start) as u64,
                    kind: RegionType::Ram,
                },
                Region {
                    start: self.ram_64bit_start,
                    size: (mem_size - self.mem_32bit_devices_start) as u64,
                    kind: RegionType::Ram,
                },
            ]
        }
    }

    /// The regions of a guest with `mem_size` bytes of memory.
    pub fn memory_regions(&self, mem_size: u64) -> (r: Vec<Region>)
        requires
            self.admits(mem_size),
        ensures
            r@ == self.regions(mem_size),
    {
        let mut mem_regions: Vec<Region> = Vec::new();
        mem_regions.push(Region { start: 0, size: self.ebda_start, kind: RegionType::Ram });
        mem_regions.push(
            Region {
                start: self.mem_32bit_devices_start,
                size: self.mem_32bit_devices_size,
                kind: RegionType::Reserved,
            },
        );
        mem_regions.push(
            Region {
                start: self.pci_mmconfig_start,
                size: self.pci_mmconfig_size,
                kind: RegionType::Reserved,
            },
        );
        mem_regions.push(
            Region {
                start: STAGE0_START_ADDRESS,
                size: STAGE0_SIZE,
                kind: RegionType::Reserved,
            },
        );
        if mem_size < self.mem_32bit_devices_start {
            mem_regions.push(
                Region {
                    start: self.high_ram_start,
                    size: mem_size - self.high_ram_start,
                    kind: RegionType::Ram,
                },
            );
        } else {
            mem_regions.push(
                Region {
                    start: self.high_ram_start,
                    size: self.mem_32bit_reserved_start - self.high_ram_start,
                    kind: RegionType::Ram,
                },
            );
            mem_regions.push(
                Region {
                    start: self.ram_64bit_start,
                    size: mem_size - self.mem_32bit_devices_start,
                    kind: RegionType::Ram,
                },
            );
        }
        assert(mem_regions@ =~= self.regions(mem_size));
        mem_regions
    }
}

/// One entry of the memory map.
pub open spec fn e820_entry(start: u64, size: u64, kind: u32) -> Seq<u8> {
    bytes::le64(start) + bytes::le64(size) + bytes::le32(kind)
}

/// What a region adds to the memory map.
pub open spec fn region_entry(region: Region) -> Seq<u8> {
    match region.kind {
        RegionType::Ram => e820_entry(region.start, region.size, E820_RAM),
        RegionType::Reserved => e820_entry(region.start, region.size, E820_RESERVED),
        RegionType::SubRegion => Seq::empty(),
    }
}

/// The memory map of the regions.
pub open spec fn memory_map(regions: Seq<Region>) -> Seq<u8>
    decreases regions.len(),
{
    if regions.len() == 0 {
        Seq::empty()
    } else {
        memory_map(regions.drop_last()) + region_entry(regions.last())
    }
}

/// Encodes the regions as a memory map.
pub fn encode_memory_map(regions: &[Region]) -> (r: Vec<u8>)
    ensures
        r@ == memory_map(regions@),
{
    let mut out: Vec<u8> = Vec::new();
    let n: usize = regions.len();
    let mut i: usize = 0;
    while i < n
        invariant
            i <= n,
            n == regions@.len(),
            out@ =~= memory_map(regions@.take(i as int)),
        decreases n - i,
    {
        let region = regions[i];
        let kind: Option<u32> = match region.kind {
            RegionType::Ram => Some(E820_RAM),
            RegionType::Reserved => Some(E820_RESERVED),
            RegionType::SubRegion => None,
        };
        if let Some(kind) = kind {
            bytes::push_le64(&mut out, region.start);
            bytes::push_le64(&mut out, region.size);
            bytes::push_le32(&mut out, kind);
        }
        assert(regions@.take(i + 1).drop_last() =~= regions@.take(i as int));
        i = i + 1;
    }
    assert(regions@.take(n as int) =~= regions@);
    out
}

/// The item for a guest with `mem_size` bytes of memory.
pub fn create_e820_item(mem_size: u64, layout: &MemoryLayout) -> (r: FwCfgItem)
    requires
        layout.admits(mem_size),
    ensures
        r.name@ == FW_CFG_FILENAME_E820@,
        r.content@ == ContentModel::Data(memory_map(layout.regions(mem_size))),
{
    let mem_regions = layout.memory_regions(mem_size);
    FwCfgItem {
        name: FW_CFG_FILENAME_E820.to_owned(),
        content: FwCfgContent::Bytes(encode_memory_map(mem_regions.as_slice())),
    }
}

} // verus!
