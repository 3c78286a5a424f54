//! What the guest finds of what it boots from.
use crate::bytes;
use crate::fw_cfg::content::ContentModel;
use crate::fw_cfg::content::IoErrorKind;
use crate::fw_cfg::content::ItemModel;
use crate::fw_cfg::device::FwCfgModel;
use crate::fw_cfg::e820::MemoryLayout;
use crate::fw_cfg::kernel::KernelFile;
use crate::fw_cfg::populate;
use crate::fw_cfg::populate::FwCfgInit;
use crate::fw_cfg::populate::InitramfsFile;
use vstd::prelude::*;

verus! {

/// Whether an item holds a number, in so many little-endian bytes.
pub open spec fn holds(m: FwCfgModel, selector: u16, size: nat, n: int) -> bool {
    m.lookup(selector) matches Some(ContentModel::Data(d)) && d.len() == size && bytes::le_value(d)
        == n
}

/// The number of bytes before the kernel proper in an image that starts with
/// `b`: the boot sector and the setup sectors, of which there are four if the
/// image does not say.
pub open spec fn setup_size(b: Seq<u8>) -> int {
    512 * (1 + if b[0x1f1] == 0 {
        4int
    } else {
        b[0x1f1] as int
    })
}

/// Whether an image that starts with `b` is one that can be served: it has the
/// mark "HdrS", boot protocol 2.00 or later, and is loaded high.
pub open spec fn is_bzimage(b: Seq<u8>) -> bool {
    &&& b[0x202] == 0x48 && b[0x203] == 0x64 && b[0x204] == 0x72 && b[0x205] == 0x53
    &&& b[0x206] + 256 * b[0x207] >= 0x200
    &&& b[0x211] % 2 == 1
}

proof fn lemma_is_bzimage(b: Seq<u8>)
    requires
        b.len() == 4096,
    ensures
        crate::fw_cfg::kernel::is_high_loaded(b) <==> is_bzimage(b),
        crate::fw_cfg::kernel::kernel_start(b) == setup_size(b),
        1024 <= setup_size(b) <= 131072,
{
    bytes::lemma_le_value4(b.subrange(0x202, 0x206));
    bytes::lemma_le_value2(b.subrange(0x206, 0x208));
}

/// A kernel is handed over if and only if its first bytes could be read and are
/// those of a bzImage, the rest of its setup code could be read where there is
/// more, its length is known and the file can be served.
pub proof fn law_only_bzimages_are_served(m: FwCfgModel, kernel: KernelFile, sev_snp: bool)
    requires
        kernel.header matches Ok(b) ==> b@.len() == 4096,
    ensures
        ({
            let r = m.with_kernel(kernel, sev_snp).1;
            &&& r is Ok <==> {
                &&& kernel.header is Ok
                &&& is_bzimage(kernel.header->Ok_0@)
                &&& setup_size(kernel.header->Ok_0@) > 4096 ==> kernel.setup_tail is Ok
                &&& kernel.file.len is Ok
                &&& kernel.reopened is Ok
            }
            &&& kernel.header matches Err(e) ==> r == Err::<(), IoErrorKind>(e)
            &&& kernel.header is Ok && !is_bzimage(kernel.header->Ok_0@) ==> r == Err::<
                (),
                IoErrorKind,
            >(IoErrorKind::InvalidInput) && m.with_kernel(kernel, sev_snp).0 == m
        }),
{
    if let Ok(b) = kernel.header {
        lemma_is_bzimage(b@);
    }
}

/// A guest that was handed a kernel well finds two sizes that add up to the
/// length of the file: that of the setup code and that of the kernel proper,
/// which starts behind it. The kernel's data is the rest of the file, as long
/// as it was said to be, and is to be loaded at 1 MiB.
pub proof fn law_kernel_sizes_add_up(m: FwCfgModel, kernel: KernelFile, sev_snp: bool, len: u64)
    requires
        m.known.len() == 0x20,
        kernel.header matches Ok(b) && b@.len() == 4096,
        m.with_kernel(kernel, sev_snp).1 is Ok,
        kernel.file.len == Ok::<u64, IoErrorKind>(len),
        setup_size(kernel.header->Ok_0@) <= len <= u32::MAX,
    ensures
        ({
            let next = m.with_kernel(kernel, sev_snp).0;
            let start = setup_size(kernel.header->Ok_0@);
            &&& holds(next, 0x17, 4, start)
            &&& holds(next, 0x08, 4, len - start)
            &&& holds(next, 0x07, 4, 0x10_0000)
            &&& next.lookup(0x11) == Some(ContentModel::File(start as u64, kernel.file))
            &&& next.lookup(0x11)->Some_0.size(Ok(len)) == Ok::<u32, IoErrorKind>(
                (len - start) as u32,
            )
            &&& next.items == m.items
        }),
{
    let b = kernel.header->Ok_0@;
    lemma_is_bzimage(b);
    let start = setup_size(b);
    bytes::law_32bit_numbers_are_read_back(start as u32);
    bytes::law_32bit_numbers_are_read_back((len - start) as u32);
    bytes::law_32bit_numbers_are_read_back(0x10_0000);
}

/// The setup code that the guest finds is as long as it is said to be. It is
/// the front of the file, in which at most two bytes differ: the number of
/// setup sectors is filled in, and the loader is said to be an unknown one. For
/// a SEV-SNP guest none differs.
pub proof fn law_setup_code_is_the_front_of_the_file(
    m: FwCfgModel,
    kernel: KernelFile,
    sev_snp: bool,
    i: int,
)
    requires
        m.known.len() == 0x20,
        kernel.header matches Ok(b) && b@.len() == 4096,
        m.with_kernel(kernel, sev_snp).1 is Ok,
        setup_size(kernel.header->Ok_0@) > 4096 ==> kernel.setup_tail->Ok_0@.len() == setup_size(
            kernel.header->Ok_0@,
        ) - 4096,
    ensures
        ({
            let next = m.with_kernel(kernel, sev_snp).0;
            let b = kernel.header->Ok_0@;
            let start = setup_size(b);
            let d = next.lookup(0x18)->Some_0->Data_0;
            let front = if start > 4096 {
                b + kernel.setup_tail->Ok_0@
            } else {
                b
            };
            &&& next.lookup(0x18) matches Some(ContentModel::Data(_))
            &&& d.len() == start
            &&& 0 <= i < start && (sev_snp || (i != 0x1f1 && i != 0x210)) ==> d[i] == front[i]
            &&& !sev_snp ==> 512 * (1 + d[0x1f1]) == start && d[0x210] == 0xff
        }),
{
    lemma_is_bzimage(kernel.header->Ok_0@);
}

/// Handing a kernel over changes none but its five items.
pub proof fn law_kernel_changes_its_items_only(
    m: FwCfgModel,
    kernel: KernelFile,
    sev_snp: bool,
    selector: u16,
)
    requires
        m.known.len() == 0x20,
        selector != 0x07 && selector != 0x08 && selector != 0x11 && selector != 0x17 && selector
            != 0x18,
    ensures
        m.with_kernel(kernel, sev_snp).0.lookup(selector) == m.lookup(selector),
        m.with_kernel(kernel, sev_snp).0.items == m.items,
        m.with_kernel(kernel, sev_snp).0.known.len() == 0x20,
{
}

/// A guest that was handed an initial RAM disk finds its size, and the whole
/// file. Nothing else changes. It is handed over if and only if its length is
/// known and the file can be served.
pub proof fn law_initramfs_is_the_whole_file(
    m: FwCfgModel,
    initramfs: InitramfsFile,
    len: u64,
    selector: u16,
)
    requires
        m.known.len() == 0x20,
        len <= u32::MAX,
    ensures
        ({
            let (next, r) = m.with_initramfs(initramfs);
            &&& r is Ok <==> initramfs.file.len is Ok && initramfs.reopened is Ok
            &&& r is Ok && initramfs.file.len == Ok::<u64, IoErrorKind>(len) ==> {
                &&& holds(next, 0x0b, 4, len as int)
                &&& next.lookup(0x12) == Some(ContentModel::File(0, initramfs.file))
                &&& next.lookup(0x12)->Some_0.size(Ok(len)) == Ok::<u32, IoErrorKind>(len as u32)
            }
            &&& selector != 0x0b && selector != 0x12 ==> next.lookup(selector) == m.lookup(selector)
            &&& next.items == m.items
            &&& next.known.len() == 0x20
        }),
{
    bytes::law_32bit_numbers_are_read_back(len as u32);
}

/// A guest that was handed a command line finds it with a final zero, and its
/// size with that zero. Nothing else changes.
pub proof fn law_command_line_ends_with_a_zero(m: FwCfgModel, cmdline: Seq<u8>, selector: u16)
    requires
        m.known.len() == 0x20,
        cmdline.len() < u32::MAX,
    ensures
        ({
            let next = m.with_cmdline(cmdline);
            &&& holds(next, 0x14, 4, cmdline.len() as int + 1)
            &&& next.lookup(0x15) == Some(ContentModel::Data(cmdline + seq![0u8]))
            &&& selector != 0x14 && selector != 0x15 ==> next.lookup(selector) == m.lookup(selector)
            &&& next.items == m.items
            &&& next.known.len() == 0x20
        }),
{
    bytes::law_32bit_numbers_are_read_back((cmdline.len() + 1) as u32);
    assert(cmdline.push(0) =~= cmdline + seq![0u8]);
}

/// Items that are added well stand behind those that were there, in order. Of
/// the well-known items only the directory changes.
pub proof fn law_added_items_keep_their_order(m: FwCfgModel, items: Seq<ItemModel>, selector: u16)
    requires
        m.known.len() == 0x20,
    ensures
        ({
            let (next, r) = m.add_items(items);
            &&& next.known.len() == 0x20
            &&& r is Ok ==> next.items == m.items + items
            &&& r is Ok <==> forall|i: int|
                0 <= i < items.len() ==> (#[trigger] items[i]).content.recorded_size() is Ok
            &&& selector < 0x20 && selector != 0x19 ==> next.lookup(selector) == m.lookup(selector)
        }),
    decreases items.len(),
{
    if items.len() == 0 {
        assert(m.items + items =~= m.items);
    } else {
        let rest = items.drop_first();
        let (next, r) = m.add_item(items.first());
        assert(items.first() == items[0]);
        if r is Ok {
            law_added_items_keep_their_order(next, rest, selector);
            assert(m.items.push(items[0]) + rest =~= m.items + items);
            assert forall|i: int| 0 <= i < items.len() && (forall|k: int|
                0 <= k < rest.len() ==> (
                #[trigger] rest[k]).content.recorded_size() is Ok) implies (
            #[trigger] items[i]).content.recorded_size() is Ok by {
                if i > 0 {
                    assert(rest[i - 1] == items[i]);
                }
            }
            assert forall|k: int| 0 <= k < rest.len() && (forall|i: int|
                0 <= i < items.len() ==> (
                #[trigger] items[i]).content.recorded_size() is Ok) implies (
            #[trigger] rest[k]).content.recorded_size() is Ok by {
                assert(rest[k] == items[k + 1]);
            }
        }
    }
}

/// A guest whose device was filled well finds its identity, the size of its
/// memory, the numbers of its processors and the two flags, whatever else was
/// handed over.
pub proof fn law_filled_device_tells_of_the_machine(
    m: FwCfgModel,
    init: FwCfgInit,
    sev_snp: bool,
    layout: MemoryLayout,
)
    requires
        m.known.len() == 0x20,
        m.populate(init, sev_snp, layout).1 is Ok,
    ensures
        ({
            let next = m.populate(init, sev_snp, layout).0;
            &&& next.lookup(0x02) == Some(ContentModel::Data(init.uuid@))
            &&& holds(next, 0x03, 8, init.memory_size as int)
            &&& holds(next, 0x04, 2, if init.no_graphics { 1 } else { 0 })
            &&& holds(next, 0x05, 2, init.nb_cpus as int)
            &&& holds(next, 0x0f, 2, init.max_cpus as int)
            &&& holds(next, 0x0e, 2, if init.boot_menu { 1 } else { 0 })
        }),
{
    lemma_filled(m, init, sev_snp, layout);
    lemma_basics(filled(m, init, sev_snp, layout), init);
}

/// The items of the kernel are those that handing over the kernel alone would
/// have left, and so are those of the initial RAM disk and of the command line.
/// The memory map comes before the listed items, which keep their order.
pub proof fn law_filled_device_holds_every_part(
    m: FwCfgModel,
    init: FwCfgInit,
    sev_snp: bool,
    layout: MemoryLayout,
)
    requires
        m.known.len() == 0x20,
        m.populate(init, sev_snp, layout).1 is Ok,
    ensures
        ({
            let next = m.populate(init, sev_snp, layout).0;
            let mapped = match init.e820 {
                Some(mem_size) => m.with_e820(mem_size, layout).0.items,
                None => m.items,
            };
            &&& init.kernel matches Some(kernel) ==> {
                let alone = m.with_kernel(kernel, sev_snp);
                &&& alone.1 is Ok
                &&& next.lookup(0x07) == alone.0.lookup(0x07)
                &&& next.lookup(0x08) == alone.0.lookup(0x08)
                &&& next.lookup(0x11) == alone.0.lookup(0x11)
                &&& next.lookup(0x17) == alone.0.lookup(0x17)
                &&& next.lookup(0x18) == alone.0.lookup(0x18)
            }
            &&& init.cmdline matches Some(cmdline) ==> {
                &&& next.lookup(0x14) == m.with_cmdline(cmdline@).lookup(0x14)
                &&& next.lookup(0x15) == m.with_cmdline(cmdline@).lookup(0x15)
            }
            &&& init.initramfs matches Some(initramfs) ==> {
                let alone = m.with_initramfs(initramfs);
                &&& alone.1 is Ok
                &&& next.lookup(0x0b) == alone.0.lookup(0x0b)
                &&& next.lookup(0x12) == alone.0.lookup(0x12)
            }
            &&& next.items == match init.item_list {
                Some(items) => mapped + populate::item_models(items@),
                None => mapped,
            }
        }),
{
    lemma_filled(m, init, sev_snp, layout);
    lemma_basics(filled(m, init, sev_snp, layout), init);
}

proof fn lemma_basics(before: FwCfgModel, init: FwCfgInit)
    requires
        before.known.len() == 0x20,
    ensures
        ({
            let next = before.with_basics(init);
            &&& next.lookup(0x02) == Some(ContentModel::Data(init.uuid@))
            &&& holds(next, 0x03, 8, init.memory_size as int)
            &&& holds(next, 0x04, 2, if init.no_graphics { 1 } else { 0 })
            &&& holds(next, 0x05, 2, init.nb_cpus as int)
            &&& holds(next, 0x0f, 2, init.max_cpus as int)
            &&& holds(next, 0x0e, 2, if init.boot_menu { 1 } else { 0 })
            &&& next.items == before.items
            &&& forall|selector: u16|
                selector < 0x20 && selector > 0x05 && selector != 0x0e && selector != 0x0f
                    ==> #[trigger] next.lookup(selector) == before.lookup(selector)
        }),
{
    bytes::law_16bit_numbers_are_read_back(init.nb_cpus);
    bytes::law_64bit_numbers_are_read_back(init.memory_size);
    bytes::law_16bit_numbers_are_read_back(init.max_cpus);
    bytes::law_16bit_numbers_are_read_back(0);
    bytes::law_16bit_numbers_are_read_back(1);
}

/// A device is filled well if and only if each part of what it is filled with
/// can be handed over on its own.
pub proof fn law_device_is_filled_if_every_part_is(
    m: FwCfgModel,
    init: FwCfgInit,
    sev_snp: bool,
    layout: MemoryLayout,
)
    requires
        m.known.len() == 0x20,
    ensures
        m.populate(init, sev_snp, layout).1 is Ok <==> {
            &&& init.e820 matches Some(mem_size) ==> m.with_e820(mem_size, layout).1 is Ok
            &&& init.kernel matches Some(kernel) ==> m.with_kernel(kernel, sev_snp).1 is Ok
            &&& init.initramfs matches Some(initramfs) ==> m.with_initramfs(initramfs).1 is Ok
            &&& init.item_list matches Some(items) ==> m.add_items(
                populate::item_models(items@),
            ).1 is Ok
        },
{
    if let Some(items) = init.item_list {
        let list = populate::item_models(items@);
        let m1 = match init.e820 {
            Some(mem_size) => m.with_e820(mem_size, layout).0,
            None => m,
        };
        let m2 = match init.kernel {
            Some(kernel) => m1.with_kernel(kernel, sev_snp).0,
            None => m1,
        };
        let m3 = match init.cmdline {
            Some(cmdline) => m2.with_cmdline(cmdline@),
            None => m2,
        };
        let m4 = match init.initramfs {
            Some(initramfs) => m3.with_initramfs(initramfs).0,
            None => m3,
        };
        law_added_items_keep_their_order(m, list, 0);
        law_added_items_keep_their_order(m4, list, 0);
    }
}

/// The device after it was filled, before the basic items were set.
spec fn filled(
    m: FwCfgModel,
    init: FwCfgInit,
    sev_snp: bool,
    layout: MemoryLayout,
) -> FwCfgModel {
    let m1 = match init.e820 {
        Some(mem_size) => m.with_e820(mem_size, layout).0,
        None => m,
    };
    let m2 = match init.kernel {
        Some(kernel) => m1.with_kernel(kernel, sev_snp).0,
        None => m1,
    };
    let m3 = match init.cmdline {
        Some(cmdline) => m2.with_cmdline(cmdline@),
        None => m2,
    };
    let m4 = match init.initramfs {
        Some(initramfs) => m3.with_initramfs(initramfs).0,
        None => m3,
    };
    match init.item_list {
        Some(items) => m4.add_items(populate::item_models(items@)).0,
        None => m4,
    }
}

proof fn lemma_filled(m: FwCfgModel, init: FwCfgInit, sev_snp: bool, layout: MemoryLayout)
    requires
        m.known.len() == 0x20,
        m.populate(init, sev_snp, layout).1 is Ok,
    ensures
        ({
            let before = filled(m, init, sev_snp, layout);
            let next = m.populate(init, sev_snp, layout).0;
            let mapped = match init.e820 {
                Some(mem_size) => m.with_e820(mem_size, layout).0.items,
                None => m.items,
            };
            &&& next == before.with_basics(init)
            &&& before.known.len() == 0x20
            &&& init.kernel matches Some(kernel) ==> {
                let alone = m.with_kernel(kernel, sev_snp);
                &&& alone.1 is Ok
                &&& before.lookup(0x07) == alone.0.lookup(0x07)
                &&& before.lookup(0x08) == alone.0.lookup(0x08)
                &&& before.lookup(0x11) == alone.0.lookup(0x11)
                &&& before.lookup(0x17) == alone.0.lookup(0x17)
                &&& before.lookup(0x18) == alone.0.lookup(0x18)
            }
            &&& init.cmdline matches Some(cmdline) ==> {
                &&& before.lookup(0x14) == m.with_cmdline(cmdline@).lookup(0x14)
                &&& before.lookup(0x15) == m.with_cmdline(cmdline@).lookup(0x15)
            }
            &&& init.initramfs matches Some(initramfs) ==> {
                let alone = m.with_initramfs(initramfs);
                &&& alone.1 is Ok
                &&& before.lookup(0x0b) == alone.0.lookup(0x0b)
                &&& before.lookup(0x12) == alone.0.lookup(0x12)
            }
            &&& before.items == match init.item_list {
                Some(items) => mapped + populate::item_models(items@),
                None => mapped,
            }
        }),
{
    let m1 = match init.e820 {
        Some(mem_size) => m.with_e820(mem_size, layout).0,
        None => m,
    };
    let m2 = match init.kernel {
        Some(kernel) => m1.with_kernel(kernel, sev_snp).0,
        None => m1,
    };
    let m3 = match init.cmdline {
        Some(cmdline) => m2.with_cmdline(cmdline@),
        None => m2,
    };
    let m4 = match init.initramfs {
        Some(initramfs) => m3.with_initramfs(initramfs).0,
        None => m3,
    };
    if let Some(items) = init.item_list {
        let list = populate::item_models(items@);
        law_added_items_keep_their_order(m4, list, 0x07);
        law_added_items_keep_their_order(m4, list, 0x08);
        law_added_items_keep_their_order(m4, list, 0x0b);
        law_added_items_keep_their_order(m4, list, 0x11);
        law_added_items_keep_their_order(m4, list, 0x12);
        law_added_items_keep_their_order(m4, list, 0x14);
        law_added_items_keep_their_order(m4, list, 0x15);
        law_added_items_keep_their_order(m4, list, 0x17);
        law_added_items_keep_their_order(m4, list, 0x18);
    }
}

} // verus!
