//! What holds of the device as a whole.
//!
//! * [`boot`] says what the guest finds of what it boots from,
//! * [`items`] says how the guest reads items, by ports and by DMA,
//! * [`memory_map`] says what the memory map tells the guest,
//! * [`table_loader`] says what firmware is told of the ACPI tables.
use crate::bytes;
use crate::fw_cfg::content::ContentModel;
use crate::fw_cfg::content::FileAccessModel;
use crate::fw_cfg::content::FileRef;
use crate::fw_cfg::content::IoErrorKind;
use crate::fw_cfg::content::ItemModel;
use crate::fw_cfg::device;
use crate::fw_cfg::device::FwCfgModel;
use crate::fw_cfg::device::FW_CFG_FILE_DIR;
use crate::fw_cfg::device::PORT_FW_CFG_DATA_OFFSET;
use crate::fw_cfg::device::PORT_FW_CFG_DMA_HI_OFFSET;
use crate::fw_cfg::device::PORT_FW_CFG_DMA_LO_OFFSET;
use crate::fw_cfg::device::PORT_FW_CFG_SELECTOR_OFFSET;
use crate::fw_cfg::directory;
use crate::fw_cfg::directory::MAX_ITEMS;
use crate::fw_cfg::dma;
use crate::fw_cfg::dma::DmaStepModel;
use crate::fw_cfg::dma::FwCfgDmaAccess;
use crate::fw_cfg::guest_memory;
use crate::fw_cfg::guest_memory::GuestWrite;
use vstd::prelude::*;

pub mod boot;
pub mod items;
pub mod memory_map;
pub mod table_loader;

verus! {

/// What reading the part of the file content `f` that the device asks for gives.
pub open spec fn access_of(m: FwCfgModel, f: Seq<u8>, n: nat) -> FileAccessModel {
    FileAccessModel {
        len: Ok(f.len() as u64),
        bytes: match m.window(f.len() as u64, n) {
            Some(w) => Ok(f.subrange(w.position as int, w.position + w.count)),
            None => Err(IoErrorKind::UnexpectedEof),
        },
    }
}

/// Two reads one after the other return what one read of both lengths returns,
/// and leave the same device behind.
pub proof fn law_reads_compose(m: FwCfgModel, d: Seq<u8>, n1: nat, n2: nat, file: FileAccessModel)
    requires
        m.lookup(m.selector) == Some(ContentModel::Data(d)),
        d.len() <= u32::MAX,
        n1 + n2 <= u32::MAX,
    ensures
        ({
            let (m1, b1) = m.read_data(n1, file);
            let (m2, b2) = m1.read_data(n2, file);
            (m2, b1 + b2) == m.read_data(n1 + n2, file)
        }),
{
    let (m1, b1) = m.read_data(n1, file);
    let (m2, b2) = m1.read_data(n2, file);
    let (m3, b3) = m.read_data(n1 + n2, file);
    assert(m1.lookup(m1.selector) == m.lookup(m.selector));
    assert(b1 + b2 =~= b3);
    assert(m2 =~= m3);
}

/// Two reads one after the other of an item behind which there is a file
/// return what one read of both lengths returns, and leave the same device
/// behind, as long as the file stays as it is.
pub proof fn law_file_reads_compose(
    m: FwCfgModel,
    offset: u64,
    file: FileRef,
    f: Seq<u8>,
    n1: nat,
    n2: nat,
)
    requires
        m.lookup(m.selector) == Some(ContentModel::File(offset, file)),
        offset <= f.len() <= u64::MAX,
        f.len() - offset <= u32::MAX,
        n1 + n2 <= u32::MAX,
    ensures
        ({
            let (m1, b1) = m.read_data(n1, access_of(m, f, n1));
            let (m2, b2) = m1.read_data(n2, access_of(m1, f, n2));
            (m2, b1 + b2) == m.read_data(n1 + n2, access_of(m, f, n1 + n2))
        }),
{
    let (m1, b1) = m.read_data(n1, access_of(m, f, n1));
    let (m2, b2) = m1.read_data(n2, access_of(m1, f, n2));
    let (m3, b3) = m.read_data(n1 + n2, access_of(m, f, n1 + n2));
    assert(m1.lookup(m1.selector) == m.lookup(m.selector));
    assert(b1 + b2 =~= b3);
    assert(m2 =~= m3);
}

/// A read at the end of an item returns zeros and moves nothing.
pub proof fn law_reads_at_end_return_zeros(
    m: FwCfgModel,
    d: Seq<u8>,
    n: nat,
    file: FileAccessModel,
)
    requires
        m.lookup(m.selector) == Some(ContentModel::Data(d)),
        m.data_offset >= d.len(),
    ensures
        m.read_data(n, file) == (m, bytes::zeros(n)),
{
    let (m1, b1) = m.read_data(n, file);
    assert(b1 =~= bytes::zeros(n));
    assert(m1 =~= m);
}

/// A read with a selector that no item has returns zeros and moves nothing.
pub proof fn law_reads_without_item_return_zeros(m: FwCfgModel, n: nat, file: FileAccessModel)
    requires
        m.lookup(m.selector) is None,
    ensures
        m.read_data(n, file) == (m, bytes::zeros(n)),
{
}

/// Selecting an item and reading as many bytes as it has returns its content.
pub proof fn law_select_then_read(
    m: FwCfgModel,
    selector: u16,
    d: Seq<u8>,
    file: FileAccessModel,
    data: Seq<u8>,
)
    requires
        m.lookup(selector) == Some(ContentModel::Data(d)),
        d.len() <= u32::MAX,
        data.len() == d.len(),
    ensures
        ({
            let selected = m.write(PORT_FW_CFG_SELECTOR_OFFSET, bytes::le16(selector));
            &&& selected.selector == selector
            &&& selected.data_offset == 0
            &&& selected.read(PORT_FW_CFG_DATA_OFFSET, data, file).1 == d
        }),
{
    bytes::lemma_le_value2(bytes::le16(selector));
    let selected = m.write(PORT_FW_CFG_SELECTOR_OFFSET, bytes::le16(selector));
    assert(selected.lookup(selector) == m.lookup(selector));
    assert(selected.read(PORT_FW_CFG_DATA_OFFSET, data, file).1 =~= d);
}

/// What a guest reads after it selected an item does not depend on what it
/// selected and read before.
pub proof fn law_select_forgets(
    m1: FwCfgModel,
    m2: FwCfgModel,
    selector: Seq<u8>,
    n: nat,
    file: FileAccessModel,
)
    requires
        m1.known == m2.known,
        m1.items == m2.items,
        selector.len() == 2,
    ensures
        m1.write(PORT_FW_CFG_SELECTOR_OFFSET, selector).data_offset == 0,
        m1.write(PORT_FW_CFG_SELECTOR_OFFSET, selector).read_data(n, file).1 == m2.write(
            PORT_FW_CFG_SELECTOR_OFFSET,
            selector,
        ).read_data(n, file).1,
{
    let s1 = m1.write(PORT_FW_CFG_SELECTOR_OFFSET, selector);
    let s2 = m2.write(PORT_FW_CFG_SELECTOR_OFFSET, selector);
    assert(s1.read_content(n, file) == s2.read_content(n, file));
}

/// An item behind which there is a file reads like one that holds the rest of
/// the file, as long as the cursor is not behind its end.
pub proof fn law_file_items_read_like_memory(
    m: FwCfgModel,
    in_memory: FwCfgModel,
    offset: u64,
    file: FileRef,
    f: Seq<u8>,
    n: nat,
    other: FileAccessModel,
)
    requires
        m.lookup(m.selector) == Some(ContentModel::File(offset, file)),
        in_memory.lookup(in_memory.selector) == Some(ContentModel::Data(f.skip(offset as int))),
        in_memory.data_offset == m.data_offset,
        offset <= f.len() <= u64::MAX,
        f.len() - offset <= u32::MAX,
        m.data_offset <= f.len() - offset,
    ensures
        m.read_data(n, access_of(m, f, n)).1 == in_memory.read_data(n, other).1,
        m.read_data(n, access_of(m, f, n)).0.data_offset == in_memory.read_data(
            n,
            other,
        ).0.data_offset,
{
    let a = access_of(m, f, n);
    let count = m.read_count((f.len() - offset) as u32, n);
    let rest = f.skip(offset as int);
    assert(rest.len() == f.len() - offset);
    assert(f.subrange(offset + m.data_offset, offset + m.data_offset + count) =~= rest.subrange(
        m.data_offset as int,
        m.data_offset + count,
    ));
    assert(rest.len() - m.data_offset < count ==> rest.skip(m.data_offset as int) =~= Seq::empty());
    assert(m.read_content(n, a) == in_memory.read_content(n, other));
}

/// A read of a port that the device does not have changes nothing.
pub proof fn law_unmapped_reads_change_nothing(
    m: FwCfgModel,
    offset: u64,
    data: Seq<u8>,
    file: FileAccessModel,
)
    requires
        !device::is_mapped(offset),
    ensures
        m.read(offset, data, file) == (m, data),
{
}

/// A read of any register changes the cursor at most, and keeps the length of
/// the buffer.
pub proof fn law_reads_move_the_cursor_only(
    m: FwCfgModel,
    offset: u64,
    data: Seq<u8>,
    file: FileAccessModel,
)
    requires
        m.wf(),
    ensures
        ({
            let (next, out) = m.read(offset, data, file);
            &&& out.len() == data.len()
            &&& next == (FwCfgModel { data_offset: next.data_offset, ..m })
            &&& next.wf()
        }),
{
    let n = data.len();
    if let Ok(b) = m.read_content(n, file) {
        assert(b.len() <= n);
    }
}

/// A write to any register keeps all items, the directory and the guest's
/// memory. Two bytes at the selector choose an item and put the cursor at its
/// start; no other write moves either. Four bytes at one half of the DMA
/// address replace that half and keep the other one; no other write changes the
/// address.
pub proof fn law_writes_change_one_register(m: FwCfgModel, offset: u64, data: Seq<u8>)
    requires
        m.wf(),
    ensures
        ({
            let w = m.write(offset, data);
            let high = offset == PORT_FW_CFG_DMA_HI_OFFSET && data.len() == 4;
            let low = offset == PORT_FW_CFG_DMA_LO_OFFSET && data.len() == 4;
            &&& w.wf()
            &&& w.known == m.known
            &&& w.items == m.items
            &&& w.mapped == m.mapped
            &&& w.writes == m.writes
            &&& if offset == PORT_FW_CFG_SELECTOR_OFFSET && data.len() == 2 {
                w.selector == bytes::le_value(data) && w.data_offset == 0
            } else {
                w.selector == m.selector && w.data_offset == m.data_offset
            }
            &&& w.dma_address / 0x1_0000_0000 == if high {
                bytes::be_value(data)
            } else {
                m.dma_address as nat / 0x1_0000_0000
            }
            &&& w.dma_address % 0x1_0000_0000 == if low {
                bytes::be_value(data)
            } else {
                m.dma_address as nat % 0x1_0000_0000
            }
        }),
{
    if data.len() == 2 {
        bytes::lemma_le_value2(data);
    }
    if data.len() == 4 {
        bytes::lemma_be_value4(data);
    }
}

/// Four bytes that were written to one half of the DMA address are read back
/// there, and any other write leaves what is read there as it is.
pub proof fn law_dma_bytes_read_back(
    m: FwCfgModel,
    offset: u64,
    written: Seq<u8>,
    other: u64,
    others: Seq<u8>,
    data: Seq<u8>,
    file: FileAccessModel,
)
    requires
        m.wf(),
        offset == PORT_FW_CFG_DMA_HI_OFFSET || offset == PORT_FW_CFG_DMA_LO_OFFSET,
        written.len() == 4,
        other != offset || others.len() != 4,
        data.len() == 4,
    ensures
        m.write(offset, written).read(offset, data, file).1 == written,
        m.write(other, others).read(offset, data, file).1 == m.read(offset, data, file).1,
{
    law_writes_change_one_register(m, offset, written);
    law_writes_change_one_register(m, other, others);
    bytes::lemma_be_value_bytes(written);
}

/// The DMA address reads back as it was written, half by half.
pub proof fn law_dma_address_reads_back(
    m: FwCfgModel,
    high: u32,
    low: u32,
    data: Seq<u8>,
    file: FileAccessModel,
)
    requires
        data.len() == 4,
    ensures
        ({
            let w = m.write(PORT_FW_CFG_DMA_HI_OFFSET, bytes::be32(high)).write(
                PORT_FW_CFG_DMA_LO_OFFSET,
                bytes::be32(low),
            );
            &&& w.dma_address == high * 0x1_0000_0000 + low
            &&& w.read(PORT_FW_CFG_DMA_HI_OFFSET, data, file).1 == bytes::be32(high)
            &&& w.read(PORT_FW_CFG_DMA_LO_OFFSET, data, file).1 == bytes::be32(low)
        }),
{
    bytes::lemma_be32_value(high);
    bytes::lemma_be32_value(low);
    let w1 = m.write(PORT_FW_CFG_DMA_HI_OFFSET, bytes::be32(high));
    let rest = m.dma_address % 0x1_0000_0000;
    assert(w1.dma_address == high * 0x1_0000_0000 + rest);
    assert(w1.dma_address / 0x1_0000_0000 == high);
    let w = w1.write(PORT_FW_CFG_DMA_LO_OFFSET, bytes::be32(low));
    assert(w.dma_address == high * 0x1_0000_0000 + low);
    assert((w.dma_address / 0x1_0000_0000) as u32 == high);
    assert((w.dma_address % 0x1_0000_0000) as u32 == low);
}

/// Writing the DMA address starts no transfer: nothing but the address
/// changes.
pub proof fn law_dma_is_off(m: FwCfgModel, data: Seq<u8>)
    ensures
        m.write(PORT_FW_CFG_DMA_LO_OFFSET, data) == (FwCfgModel {
            dma_address: m.write(PORT_FW_CFG_DMA_LO_OFFSET, data).dma_address,
            ..m
        }),
        m.write(PORT_FW_CFG_DMA_HI_OFFSET, data) == (FwCfgModel {
            dma_address: m.write(PORT_FW_CFG_DMA_HI_OFFSET, data).dma_address,
            ..m
        }),
{
}

/// A DMA request is answered where it lies: the last bytes that it makes the
/// device write are the control word with its outcome, and nothing but the
/// transferred bytes is written before.
pub proof fn law_dma_reports_its_outcome(
    m: FwCfgModel,
    access: FwCfgDmaAccess,
    file: FileAccessModel,
)
    requires
        m.mapped.contains(m.dma_address),
    ensures
        ({
            let (next, outcome) = m.run_dma(access, file);
            let (begun, step) = m.begin_dma(access, file);
            let n = guest_memory::reach(m.mapped, m.dma_address as int, 4);
            let transferred = match step {
                DmaStepModel::Transfer(b) => guest_memory::recorded(
                    m.writes,
                    m.mapped,
                    access.address,
                    b,
                ),
                DmaStepModel::Done(_) => m.writes,
            };
            &&& 0 < n <= 4
            &&& next.writes == transferred.push(
                GuestWrite {
                    address: m.dma_address,
                    bytes: bytes::be32(dma::dma_outcome(outcome)).take(n as int),
                },
            )
            &&& next.known == m.known
            &&& next.items == m.items
        }),
{
    guest_memory::lemma_reach(m.mapped, m.dma_address as int, 4);
    assert(bytes::be32(dma::dma_outcome(m.run_dma(access, file).1)).len() == 4);
}

/// Every named item is listed in the directory, under the selector by which it
/// can be read; the selectors of two items differ.
pub proof fn law_directory_lists_items(m: FwCfgModel, i: int, j: int)
    requires
        m.wf(),
        0 <= i < m.items.len(),
        0 <= j < m.items.len(),
    ensures
        m.lookup(directory::item_selector(i)) == Some(m.items[i].content),
        m.items[i].content.recorded_size() is Ok,
        m.known[FW_CFG_FILE_DIR as int] == ContentModel::Data(directory::directory(m.items)),
        directory::directory(m.items).len() == 4 + 64 * m.items.len(),
        directory::directory(m.items).subrange(0, 4) == bytes::be32(m.items.len() as u32),
        directory::directory(m.items).subrange(4 + 64 * i, 4 + 64 * i + 64) == directory::entry(
            m.items[i].content.recorded_size()->Ok_0,
            directory::item_selector(i),
            m.items[i].name,
        ),
        i != j ==> directory::item_selector(i) != directory::item_selector(j),
{
    directory::lemma_entry_at(m.items, i);
    directory::lemma_entries_len(m.items);
    assert(directory::directory(m.items).subrange(0, 4) =~= bytes::be32(m.items.len() as u32));
}

/// A new item can be read by the next selector, and all earlier items but the
/// directory stay what they were.
pub proof fn law_added_items_are_found(m: FwCfgModel, item: ItemModel, selector: u16)
    requires
        m.wf(),
        m.items.len() < MAX_ITEMS,
        item.content.recorded_size() is Ok,
    ensures
        ({
            let (next, r) = m.add_item(item);
            &&& r is Ok
            &&& next.wf()
            &&& next.lookup(directory::item_selector(m.items.len() as int)) == Some(item.content)
            &&& m.lookup(selector) is Some && selector != FW_CFG_FILE_DIR ==> next.lookup(selector)
                == m.lookup(selector)
        }),
{
    let next = m.add_item(item).0;
    assert forall|i: int| 0 <= i < next.items.len() implies (
    #[trigger] next.items[i]).content.recorded_size() is Ok by {
        if i < m.items.len() {
            assert(next.items[i] == m.items[i]);
        }
    }
}

/// An item whose size is not available is not added.
pub proof fn law_unsized_items_change_nothing(m: FwCfgModel, item: ItemModel, e: IoErrorKind)
    requires
        item.content.recorded_size() == Err::<u32, IoErrorKind>(e),
    ensures
        m.add_item(item) == (m, Err::<(), IoErrorKind>(e)),
{
}

} // verus!
