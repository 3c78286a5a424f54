//! How the guest reads items, by ports and by DMA.
use crate::bytes;
use crate::fw_cfg::content::ContentModel;
use crate::fw_cfg::content::FileAccessModel;
use crate::fw_cfg::content::FileRef;
use crate::fw_cfg::content::FwCfgContent;
use crate::fw_cfg::content::IoErrorKind;
use crate::fw_cfg::device::FwCfgModel;
use crate::fw_cfg::directory;
use crate::fw_cfg::dma::DmaStepModel;
use crate::fw_cfg::dma::FwCfgDmaAccess;
use crate::fw_cfg::guest_memory;
use crate::fw_cfg::guest_memory::GuestWrite;
use crate::fw_cfg::laws;
use vstd::prelude::*;

verus! {

/// Whatever an item is made from, the guest reads the bytes themselves, or a
/// number in little-endian order.
pub proof fn law_items_are_read_as_bytes(
    v: Vec<u8>,
    s: &'static [u8],
    a: u16,
    b: u32,
    c: u64,
    offset: u64,
    file: FileRef,
)
    ensures
        FwCfgContent::Bytes(v)@ == ContentModel::Data(v@),
        FwCfgContent::Slice(s)@ == ContentModel::Data(s@),
        FwCfgContent::U16(a)@ matches ContentModel::Data(d) && d.len() == 2 && bytes::le_value(d)
            == a,
        FwCfgContent::U32(b)@ matches ContentModel::Data(d) && d.len() == 4 && bytes::le_value(d)
            == b,
        FwCfgContent::U64(c)@ matches ContentModel::Data(d) && d.len() == 8 && bytes::le_value(d)
            == c,
        FwCfgContent::File(offset, file)@ == ContentModel::File(offset, file),
{
    bytes::law_16bit_numbers_are_read_back(a);
    bytes::law_32bit_numbers_are_read_back(b);
    bytes::law_64bit_numbers_are_read_back(c);
}

/// The size of an item is the number of its bytes. That of a file is what is
/// left of it behind the offset; a file that ends before is cut short. What
/// needs more than 32 bits is refused.
pub proof fn law_size_is_the_number_of_bytes(
    d: Seq<u8>,
    offset: u64,
    file: FileRef,
    len: u64,
    e: IoErrorKind,
)
    ensures
        ContentModel::Data(d).size(Err(e)) == if d.len() <= u32::MAX {
            Ok(d.len() as u32)
        } else {
            Err(IoErrorKind::InvalidInput)
        },
        ContentModel::Data(d).recorded_size() == ContentModel::Data(d).size(Err(e)),
        ContentModel::File(offset, file).size(Err(e)) == Err::<u32, IoErrorKind>(e),
        ContentModel::File(offset, file).recorded_size() == ContentModel::File(offset, file).size(
            file.len,
        ),
        len < offset ==> ContentModel::File(offset, file).size(Ok(len)) == Err::<u32, IoErrorKind>(
            IoErrorKind::UnexpectedEof,
        ),
        offset <= len <= offset + u32::MAX ==> (ContentModel::File(offset, file).size(
            Ok(len),
        ) matches Ok(size) && offset + size == len),
        len > offset + u32::MAX ==> ContentModel::File(offset, file).size(Ok(len)) == Err::<
            u32,
            IoErrorKind,
        >(IoErrorKind::InvalidInput),
{
}

/// A read returns the bytes of the selected item from the cursor on, and zeros
/// behind its end. The cursor moves on by as many bytes as there were.
pub proof fn law_read_returns_bytes_of_the_item(
    m: FwCfgModel,
    d: Seq<u8>,
    n: nat,
    file: FileAccessModel,
    i: int,
)
    requires
        m.lookup(m.selector) == Some(ContentModel::Data(d)),
        d.len() <= u32::MAX,
        n <= u32::MAX,
    ensures
        ({
            let (next, out) = m.read_data(n, file);
            &&& out.len() == n
            &&& 0 <= i < n ==> out[i] == if m.data_offset + i < d.len() {
                d[m.data_offset + i]
            } else {
                0
            }
            &&& next.data_offset == if m.data_offset >= d.len() {
                m.data_offset as int
            } else if m.data_offset + n <= d.len() {
                m.data_offset + n
            } else {
                d.len() as int
            }
            &&& next.selector == m.selector
        }),
{
}

/// The ports of the device: two bytes to port 0 select an item, low byte first;
/// any read of port 1 reads it, and so does a read of one byte of port 0. Ports
/// 4 and 8 hold the halves of the DMA address, high half first. Ports 2 and 3,
/// and those from 12 on, are not there.
pub proof fn law_ports(
    m: FwCfgModel,
    offset: u64,
    data: Seq<u8>,
    file: FileAccessModel,
)
    ensures
        data.len() == 2 ==> m.write(0, data).selector == data[0] + 256 * data[1] && m.write(
            0,
            data,
        ).data_offset == 0,
        m.read(1, data, file) == m.read_data(data.len(), file),
        data.len() == 1 ==> m.read(0, data, file) == m.read_data(1, file),
        data.len() == 4 ==> m.write(4, data).dma_address == 0x1_0000_0000 * (16777216 * data[0]
            + 65536 * data[1] + 256 * data[2] + data[3]) + m.dma_address % 0x1_0000_0000,
        data.len() == 4 ==> m.write(8, data).dma_address == m.dma_address - m.dma_address
            % 0x1_0000_0000 + (16777216 * data[0] + 65536 * data[1] + 256 * data[2] + data[3]),
        data.len() == 4 ==> m.read(4, data, file) == (
            m,
            bytes::be32((m.dma_address / 0x1_0000_0000) as u32),
        ),
        data.len() == 4 ==> m.read(8, data, file) == (
            m,
            bytes::be32((m.dma_address % 0x1_0000_0000) as u32),
        ),
        offset == 2 || offset == 3 || offset >= 12 ==> m.read(offset, data, file) == (m, data),
        offset == 0 && data.len() != 1 || (4 <= offset < 12 && !((offset == 4 || offset == 8)
            && data.len() == 4)) ==> m.read(offset, data, file) == (m, bytes::zeros(data.len())),
        !(offset == 0 && data.len() == 2 || (offset == 4 || offset == 8) && data.len() == 4)
            ==> m.write(offset, data) == m,
{
    if data.len() == 2 {
        bytes::lemma_le_value2(data);
    }
    if data.len() == 4 {
        bytes::lemma_be_value4(data);
    }
}

/// The directory is the number of files, and for each of them an entry of 64
/// bytes: its size and its selector in big-endian order, two zero bytes, and
/// its name. The selector is that of the file: 32 for the first, and one more
/// for each that follows.
pub proof fn law_directory_tells_how_to_read_files(m: FwCfgModel, i: int)
    requires
        m.wf(),
        0 <= i < m.items.len(),
    ensures
        ({
            let dir = m.lookup(0x19)->Some_0->Data_0;
            let e = dir.subrange(4 + 64 * i, 68 + 64 * i);
            &&& m.lookup(0x19) matches Some(ContentModel::Data(_))
            &&& dir.len() == 4 + 64 * m.items.len()
            &&& bytes::be_value(dir.subrange(0, 4)) == m.items.len()
            &&& bytes::be_value(e.subrange(0, 4)) == match m.items[i].content {
                ContentModel::Data(d) => d.len() as int,
                ContentModel::File(offset, file) => file.len->Ok_0 - offset,
            }
            &&& bytes::be_value(e.subrange(4, 6)) == 32 + i
            &&& e[6] == 0 && e[7] == 0
            &&& e.subrange(8, 64) == directory::file_name(m.items[i].name)
            &&& m.lookup((32 + i) as u16) == Some(m.items[i].content)
        }),
{
    let item = m.items[i];
    let size = item.content.recorded_size()->Ok_0;
    let dir = directory::directory(m.items);
    let e = dir.subrange(4 + 64 * i, 68 + 64 * i);
    directory::lemma_entry_at(m.items, i);
    directory::lemma_entries_len(m.items);
    directory::lemma_file_name(item.name);
    bytes::law_16bit_numbers_are_read_back((32 + i) as u16);
    bytes::law_32bit_numbers_are_read_back(m.items.len() as u32);
    bytes::law_32bit_numbers_are_read_back(size);
    assert(item.content.recorded_size() is Ok);
    assert(e == directory::entry(size, (32 + i) as u16, item.name));
    assert(dir.subrange(0, 4) =~= bytes::be32(m.items.len() as u32));
    assert(e.subrange(0, 4) =~= bytes::be32(size));
    assert(e.subrange(4, 6) =~= bytes::be16((32 + i) as u16));
    assert(e.subrange(8, 64) =~= directory::file_name(item.name));
}

/// A request for DMA is a control word, a length and an address, all in
/// big-endian order. The control word is read bit by bit: the second asks for a
/// read, the third for a skip, the fourth selects an item, and the fifth asks
/// for a write. A read comes before a write, and a write before a skip.
pub proof fn law_dma_requests_are_decoded(control: u32, length: u32, high: u32, low: u32)
    ensures
        ({
            let access = FwCfgDmaAccess::decoded(
                bytes::be32(control) + bytes::be32(length) + bytes::be32(high) + bytes::be32(low),
            );
            let reads = (control / 2) % 2 == 1;
            let skips = (control / 4) % 2 == 1;
            let writes = (control / 16) % 2 == 1;
            &&& access.control == control
            &&& access.length == length
            &&& access.address == 0x1_0000_0000 * high + low
            &&& access.selects() <==> (control / 8) % 2 == 1
            &&& access.asks() is Read <==> reads
            &&& access.asks() is Write <==> writes && !reads
            &&& access.asks() is Skip <==> skips && !reads && !writes
        }),
{
    let b = bytes::be32(control) + bytes::be32(length) + bytes::be32(high) + bytes::be32(low);
    bytes::law_32bit_numbers_are_read_back(control);
    bytes::law_32bit_numbers_are_read_back(length);
    bytes::law_32bit_numbers_are_read_back(high);
    bytes::law_32bit_numbers_are_read_back(low);
    assert(b.subrange(0, 4) =~= bytes::be32(control));
    assert(b.subrange(4, 8) =~= bytes::be32(length));
    assert(b.subrange(8, 12) =~= bytes::be32(high));
    assert(b.subrange(12, 16) =~= bytes::be32(low));
}

/// A DMA read transfers what a read by ports would return, without the zeros
/// behind the end. A skip moves the cursor, and transfers nothing.
pub proof fn law_dma_reads_like_ports(
    m: FwCfgModel,
    access: FwCfgDmaAccess,
    d: Seq<u8>,
    file: FileAccessModel,
)
    requires
        m.lookup(m.selector) == Some(ContentModel::Data(d)),
        d.len() <= u32::MAX,
        m.data_offset <= d.len(),
        !access.selects(),
    ensures
        access.asks() is Read ==> {
            let (begun, step) = m.begin_dma(access, file);
            let (next, out) = m.read_data(access.length as nat, file);
            &&& begun == m
            &&& step matches DmaStepModel::Transfer(b) && b == out.take(
                next.data_offset - m.data_offset,
            )
        },
        access.asks() is Skip ==> m.begin_dma(access, file).1 == DmaStepModel::Done(Ok(()))
            && m.begin_dma(access, file).0.data_offset == (m.data_offset + access.length)
            % 0x1_0000_0000,
        access.asks() is Write ==> m.begin_dma(access, file) == (
            m,
            DmaStepModel::Done(Err(IoErrorKind::InvalidInput)),
        ),
{
    if access.asks() is Read {
        let (next, out) = m.read_data(access.length as nat, file);
        let n = next.data_offset - m.data_offset;
        assert(out.take(n) =~= d.subrange(m.data_offset as int, m.data_offset + n));
        assert(n == 0 ==> out.take(n) =~= Seq::empty());
    }
}

/// A DMA read of an item behind which there is a file transfers the bytes of
/// the file from the item's start and the cursor on, up to the end of the file
/// and no more than asked for. A file that yields another number of bytes is an
/// error.
pub proof fn law_dma_reads_files(
    m: FwCfgModel,
    access: FwCfgDmaAccess,
    start: u64,
    file: FileRef,
    f: Seq<u8>,
    other: Seq<u8>,
)
    requires
        m.lookup(m.selector) == Some(ContentModel::File(start, file)),
        access.asks() is Read,
        !access.selects(),
        start + m.data_offset <= f.len() <= u64::MAX,
        f.len() - start <= u32::MAX,
    ensures
        ({
            let from = start + m.data_offset;
            let to = if from + access.length < f.len() {
                from + access.length
            } else {
                f.len() as int
            };
            let whole = laws::access_of(m, f, access.length as nat);
            let broken = FileAccessModel { len: whole.len, bytes: Ok(other) };
            &&& m.begin_dma(access, whole) == (m, DmaStepModel::Transfer(f.subrange(from, to)))
            &&& to > from && other.len() != to - from ==> m.begin_dma(access, broken) == (
                m,
                DmaStepModel::Done(Err(IoErrorKind::UnexpectedEof)),
            )
        }),
{
    let from = start + m.data_offset;
    assert(f.subrange(from, from) =~= Seq::empty());
}

/// A request that selects goes on with the item of selector 1, from where the
/// cursor stands, as a request without would if that item were selected.
pub proof fn law_dma_selects(
    m: FwCfgModel,
    access: FwCfgDmaAccess,
    plain: FwCfgDmaAccess,
    file: FileAccessModel,
)
    requires
        access.selects(),
        !plain.selects(),
        access.asks() == plain.asks(),
        access.length == plain.length,
    ensures
        m.begin_dma(access, file).0.selector == 1,
        m.begin_dma(access, file) == (FwCfgModel { selector: 1, ..m }).begin_dma(plain, file),
        m.begin_dma(plain, file).0.selector == m.selector,
{
}

/// What a DMA request reads arrives at the address that it names, as far as
/// there is memory, and the cursor moves on by as many bytes. Then the outcome
/// goes to where the request was: zero, unless there was no memory at all for
/// what was read.
pub proof fn law_dma_reads_arrive(
    m: FwCfgModel,
    access: FwCfgDmaAccess,
    b: Seq<u8>,
    file: FileAccessModel,
)
    requires
        m.begin_dma(access, file) == (m, DmaStepModel::Transfer(b)),
        m.data_offset + b.len() <= u32::MAX,
        b.len() <= usize::MAX,
    ensures
        ({
            let (next, outcome) = m.run_dma(access, file);
            let data = guest_memory::recorded(m.writes, m.mapped, access.address, b);
            match guest_memory::transfer(m.mapped, access.address, b.len()) {
                Ok(n) => {
                    &&& outcome is Ok
                    &&& next.data_offset == m.data_offset + n
                    &&& next.writes == guest_memory::recorded(
                        data,
                        m.mapped,
                        m.dma_address,
                        seq![0u8, 0u8, 0u8, 0u8],
                    )
                },
                Err(_) => {
                    &&& outcome is Err
                    &&& next.data_offset == m.data_offset
                    &&& next.writes == guest_memory::recorded(
                        m.writes,
                        m.mapped,
                        m.dma_address,
                        seq![0u8, 0u8, 0u8, 1u8],
                    )
                },
            }
        }),
{
    law_access_reaches_up_to_a_gap(m.mapped, access.address as int, b.len(), 0);
    assert(bytes::be32(0) =~= seq![0u8, 0u8, 0u8, 0u8]);
    assert(bytes::be32(1) =~= seq![0u8, 0u8, 0u8, 1u8]);
}

/// Bytes that were all transferred move the cursor on by their number. If there
/// is no memory, nothing moves and an error is reported.
pub proof fn law_transfers_move_the_cursor(m: FwCfgModel, n: usize)
    requires
        m.data_offset + n <= u32::MAX,
    ensures
        m.finish_transfer(Ok(n)).0.data_offset == m.data_offset + n,
        m.finish_transfer(Ok(n)).1 is Ok,
        m.finish_transfer(Err(())).0 == m,
        m.finish_transfer(Err(())).1 is Err,
{
}

/// An access to guest memory reaches as far as there is memory without a gap,
/// and no further.
pub proof fn law_access_reaches_up_to_a_gap(mapped: Set<u64>, address: int, n: nat, i: int)
    requires
        0 <= address,
    ensures
        ({
            let r = guest_memory::reach(mapped, address, n);
            &&& r <= n
            &&& 0 <= i < r ==> address + i <= u64::MAX && mapped.contains((address + i) as u64)
            &&& r < n ==> address + r > u64::MAX || !mapped.contains((address + r) as u64)
        }),
    decreases n,
{
    if n > 0 {
        law_access_reaches_up_to_a_gap(mapped, address + 1, (n - 1) as nat, i - 1);
    }
}

/// An access fails only if it asks for bytes where there is no memory. Otherwise
/// it transfers all of them, or those before the first gap.
pub proof fn law_access_transfers_what_it_reaches(
    mapped: Set<u64>,
    address: u64,
    n: usize,
    i: int,
)
    ensures
        ({
            let r = guest_memory::transfer(mapped, address, n as nat);
            &&& r is Err <==> n > 0 && !mapped.contains(address)
            &&& r matches Ok(k) ==> {
                &&& k <= n
                &&& n > 0 ==> k > 0
                &&& 0 <= i < k ==> address + i <= u64::MAX && mapped.contains((address + i) as u64)
                &&& k < n ==> address + k > u64::MAX || !mapped.contains((address + k) as u64)
            }
        }),
{
    law_access_reaches_up_to_a_gap(mapped, address as int, n as nat, i);
}

/// What is written to guest memory is remembered with its address, in order: as
/// many of the bytes as are transferred, from the first on. A write that
/// transfers nothing leaves no trace.
pub proof fn law_writes_are_remembered(
    writes: Seq<GuestWrite>,
    mapped: Set<u64>,
    address: u64,
    b: Seq<u8>,
)
    requires
        b.len() <= usize::MAX,
    ensures
        ({
            let after = guest_memory::recorded(writes, mapped, address, b);
            match guest_memory::transfer(mapped, address, b.len()) {
                Ok(k) => if k > 0 {
                    &&& after.len() == writes.len() + 1
                    &&& after.drop_last() == writes
                    &&& after.last().address == address
                    &&& after.last().bytes.len() == k
                    &&& forall|i: int| 0 <= i < k ==> #[trigger] after.last().bytes[i] == b[i]
                } else {
                    after == writes
                },
                Err(_) => after == writes,
            }
        }),
{
    law_access_reaches_up_to_a_gap(mapped, address as int, b.len(), 0);
    let after = guest_memory::recorded(writes, mapped, address, b);
    if after.len() > writes.len() {
        assert(after.drop_last() =~= writes);
    }
}

} // verus!
