//! What the memory map tells the guest.
use crate::bytes;
use crate::fw_cfg::content::ContentModel;
use crate::fw_cfg::device::FwCfgModel;
use crate::fw_cfg::e820;
use crate::fw_cfg::e820::MemoryLayout;
use crate::fw_cfg::e820::Region;
use crate::fw_cfg::e820::RegionType;
use vstd::prelude::*;

verus! {

/// The number of bytes of all regions that are memory.
pub open spec fn ram_bytes(regions: Seq<Region>) -> nat
    decreases regions.len(),
{
    if regions.len() == 0 {
        0
    } else {
        ram_bytes(regions.drop_last()) + if regions.last().kind == RegionType::Ram {
            regions.last().size as nat
        } else {
            0nat
        }
    }
}

/// Whether some region that is memory holds an address.
pub open spec fn is_usable(regions: Seq<Region>, address: int) -> bool {
    exists|i: int|
        0 <= i < regions.len() && (#[trigger] regions[i]).kind == RegionType::Ram
            && regions[i].start <= address < regions[i].start + regions[i].size
}

/// Whether some region that is not memory holds an address.
pub open spec fn is_reserved(regions: Seq<Region>, address: int) -> bool {
    exists|i: int|
        0 <= i < regions.len() && (#[trigger] regions[i]).kind == RegionType::Reserved
            && regions[i].start <= address < regions[i].start + regions[i].size
}

proof fn lemma_ram_bytes_push(regions: Seq<Region>, last: Region)
    ensures
        ram_bytes(regions.push(last)) == ram_bytes(regions) + if last.kind == RegionType::Ram {
            last.size as nat
        } else {
            0nat
        },
{
    assert(regions.push(last).drop_last() =~= regions);
}

/// A guest may use as memory exactly the addresses below the end of low memory,
/// those from the first MiB on as far as its memory reaches below the device
/// hole, and, if it has memory beyond that, as many from 4 GiB on as are left.
/// The device hole, the PCI configuration space and the firmware are reserved.
pub proof fn law_guest_may_use_its_memory(l: MemoryLayout, mem_size: u64, address: int)
    requires
        mem_size < l.mem_32bit_devices_start ==> l.high_ram_start <= mem_size,
        mem_size >= l.mem_32bit_devices_start ==> l.high_ram_start <= l.mem_32bit_reserved_start,
    ensures
        l.admits(mem_size),
        is_usable(l.regions(mem_size), address) <==> {
            ||| 0 <= address < l.ebda_start
            ||| l.high_ram_start <= address < (if mem_size < l.mem_32bit_devices_start {
                mem_size
            } else {
                l.mem_32bit_reserved_start
            })
            ||| mem_size >= l.mem_32bit_devices_start && l.ram_64bit_start <= address
                < l.ram_64bit_start + (mem_size - l.mem_32bit_devices_start)
        },
        is_reserved(l.regions(mem_size), address) <==> {
            ||| l.mem_32bit_devices_start <= address < l.mem_32bit_devices_start
                + l.mem_32bit_devices_size
            ||| l.pci_mmconfig_start <= address < l.pci_mmconfig_start + l.pci_mmconfig_size
            ||| 0xfffe_0000 <= address < 0x1_0000_0000
        },
{
    let r = l.regions(mem_size);
    assert(r[0].start == 0 && r[0].size == l.ebda_start);
    assert(r[1].start == l.mem_32bit_devices_start);
    assert(r[2].start == l.pci_mmconfig_start);
    assert(r[3].start == 0xfffe_0000);
    assert(r[4].start == l.high_ram_start);
    if mem_size >= l.mem_32bit_devices_start {
        assert(r[5].start == l.ram_64bit_start);
    }
}

/// No memory of a guest is lost, and none is invented: where the memory below
/// 4 GiB ends at the device hole, the regions of memory add up to the guest's
/// memory without the hole in the first MiB. Each of them is listed once, and
/// every region is memory or reserved.
pub proof fn law_memory_adds_up(l: MemoryLayout, mem_size: u64, i: int)
    requires
        mem_size < l.mem_32bit_devices_start ==> l.high_ram_start <= mem_size,
        mem_size >= l.mem_32bit_devices_start ==> l.high_ram_start <= l.mem_32bit_reserved_start,
    ensures
        ram_bytes(l.regions(mem_size)) == if mem_size < l.mem_32bit_devices_start {
            l.ebda_start + (mem_size - l.high_ram_start)
        } else {
            l.ebda_start + (l.mem_32bit_reserved_start - l.high_ram_start) + (mem_size
                - l.mem_32bit_devices_start)
        },
        l.mem_32bit_reserved_start == l.mem_32bit_devices_start ==> ram_bytes(l.regions(mem_size))
            == mem_size - (l.high_ram_start - l.ebda_start),
        l.regions(mem_size).len() == if mem_size < l.mem_32bit_devices_start {
            5int
        } else {
            6int
        },
        0 <= i < l.regions(mem_size).len() ==> l.regions(mem_size)[i].kind != RegionType::SubRegion,
{
    let r = l.regions(mem_size);
    let none = Seq::<Region>::empty();
    let all = if mem_size < l.mem_32bit_devices_start {
        none.push(r[0]).push(r[1]).push(r[2]).push(r[3]).push(r[4])
    } else {
        none.push(r[0]).push(r[1]).push(r[2]).push(r[3]).push(r[4]).push(r[5])
    };
    assert(r =~= all);
    lemma_ram_bytes_push(none, r[0]);
    lemma_ram_bytes_push(none.push(r[0]), r[1]);
    lemma_ram_bytes_push(none.push(r[0]).push(r[1]), r[2]);
    lemma_ram_bytes_push(none.push(r[0]).push(r[1]).push(r[2]), r[3]);
    lemma_ram_bytes_push(none.push(r[0]).push(r[1]).push(r[2]).push(r[3]), r[4]);
    if mem_size >= l.mem_32bit_devices_start {
        lemma_ram_bytes_push(none.push(r[0]).push(r[1]).push(r[2]).push(r[3]).push(r[4]), r[5]);
    }
}

proof fn lemma_entry(region: Region)
    requires
        region.kind != RegionType::SubRegion,
    ensures
        ({
            let e = e820::region_entry(region);
            &&& e.len() == 20
            &&& bytes::le_value(e.subrange(0, 8)) == region.start
            &&& bytes::le_value(e.subrange(8, 16)) == region.size
            &&& bytes::le_value(e.subrange(16, 20)) == if region.kind == RegionType::Ram {
                1int
            } else {
                2int
            }
        }),
{
    let e = e820::region_entry(region);
    let kind: u32 = if region.kind == RegionType::Ram {
        1
    } else {
        2
    };
    bytes::law_32bit_numbers_are_read_back(kind);
    bytes::law_64bit_numbers_are_read_back(region.start);
    bytes::law_64bit_numbers_are_read_back(region.size);
    assert(e.subrange(0, 8) =~= bytes::le64(region.start));
    assert(e.subrange(8, 16) =~= bytes::le64(region.size));
    assert(e.subrange(16, 20) =~= bytes::le32(kind));
}

/// The map has an entry of 20 bytes for each region, in order: where it starts,
/// how long it is, and 1 for memory or 2 for what is reserved, all in
/// little-endian order.
pub proof fn law_memory_map_lists_regions(regions: Seq<Region>, i: int)
    requires
        forall|k: int|
            0 <= k < regions.len() ==> (#[trigger] regions[k]).kind != RegionType::SubRegion,
    ensures
        e820::memory_map(regions).len() == 20 * regions.len(),
        0 <= i < regions.len() ==> {
            let e = e820::memory_map(regions).subrange(20 * i, 20 * i + 20);
            &&& bytes::le_value(e.subrange(0, 8)) == regions[i].start
            &&& bytes::le_value(e.subrange(8, 16)) == regions[i].size
            &&& bytes::le_value(e.subrange(16, 20)) == if regions[i].kind == RegionType::Ram {
                1int
            } else {
                2int
            }
        },
    decreases regions.len(),
{
    if regions.len() > 0 {
        let before = regions.drop_last();
        law_memory_map_lists_regions(before, i);
        lemma_entry(regions.last());
        let map = e820::memory_map(regions);
        if i == regions.len() - 1 {
            assert(map.subrange(20 * i, 20 * i + 20) =~= e820::region_entry(regions.last()));
        } else if 0 <= i < before.len() {
            assert(before[i] == regions[i]);
            assert(map.subrange(20 * i, 20 * i + 20) =~= e820::memory_map(before).subrange(
                20 * i,
                20 * i + 20,
            ));
        }
    }
}

/// The guest finds the map of its memory as the file `etc/e820`, behind the
/// items that were there.
pub proof fn law_memory_map_is_added(m: FwCfgModel, mem_size: usize, l: MemoryLayout)
    requires
        e820::memory_map(l.regions(mem_size as u64)).len() <= u32::MAX,
    ensures
        ({
            let (next, r) = m.with_e820(mem_size, l);
            &&& r is Ok
            &&& next.items.len() == m.items.len() + 1
            &&& next.items.drop_last() == m.items
            &&& next.items.last().name == "etc/e820"@
            &&& next.items.last().content == ContentModel::Data(
                e820::memory_map(l.regions(mem_size as u64)),
            )
        }),
{
    assert(m.with_e820(mem_size, l).0.items.drop_last() =~= m.items);
}

} // verus!
