//! The device.
use crate::bytes;
use crate::fw_cfg::content::ContentModel;
use crate::fw_cfg::content::FileAccess;
use crate::fw_cfg::content::FileAccessModel;
use crate::fw_cfg::content::FileRef;
use crate::fw_cfg::content::FwCfgContent;
use crate::fw_cfg::content::FwCfgContentAccessError;
use crate::fw_cfg::content::FwCfgItem;
use crate::fw_cfg::content::IoErrorKind;
use crate::fw_cfg::content::ItemModel;
use crate::fw_cfg::directory;
use crate::fw_cfg::directory::FW_CFG_FILE_FIRST;
use crate::fw_cfg::directory::MAX_ITEMS;
use crate::fw_cfg::dma;
use crate::fw_cfg::dma::DmaOperation;
use crate::fw_cfg::dma::DmaStep;
use crate::fw_cfg::dma::DmaStepModel;
use crate::fw_cfg::dma::FwCfgDmaAccess;
use crate::fw_cfg::guest_memory;
use crate::fw_cfg::guest_memory::GuestRam;
use crate::fw_cfg::guest_memory::GuestWrite;
use std::sync::Arc;
use std::sync::Barrier;
use vm_memory::bitmap::AtomicBitmap;
use vm_memory::GuestMemoryMmap;
use vstd::prelude::*;

verus! {

pub const PORT_FW_CFG_SELECTOR_OFFSET: u64 = 0x0;

pub const PORT_FW_CFG_DATA_OFFSET: u64 = 0x1;

pub const PORT_FW_CFG_DMA_HI_OFFSET: u64 = 0x4;

pub const PORT_FW_CFG_DMA_LO_OFFSET: u64 = 0x8;

/// The first I/O port of the device.
pub const PORT_FW_CFG_BASE: u64 = 0x510;

/// The number of its I/O ports.
pub const PORT_FW_CFG_WIDTH: u64 = 0xc;

pub const FW_CFG_SIGNATURE: u16 = 0x00;

pub const FW_CFG_ID: u16 = 0x01;

pub const FW_CFG_UUID: u16 = 0x02;

pub const FW_CFG_RAM_SIZE: u16 = 0x03;

pub const FW_CFG_NOGRAPHIC: u16 = 0x04;

pub const FW_CFG_NB_CPUS: u16 = 0x05;

pub const FW_CFG_KERNEL_ADDR: u16 = 0x07;

pub const FW_CFG_KERNEL_SIZE: u16 = 0x08;

pub const FW_CFG_INITRD_SIZE: u16 = 0x0b;

pub const FW_CFG_BOOT_MENU: u16 = 0x0e;

pub const FW_CFG_MAX_CPUS: u16 = 0x0f;

pub const FW_CFG_KERNEL_DATA: u16 = 0x11;

pub const FW_CFG_INITRD_DATA: u16 = 0x12;

pub const FW_CFG_CMDLINE_SIZE: u16 = 0x14;

pub const FW_CFG_CMDLINE_DATA: u16 = 0x15;

pub const FW_CFG_SETUP_SIZE: u16 = 0x17;

pub const FW_CFG_SETUP_DATA: u16 = 0x18;

pub const FW_CFG_FILE_DIR: u16 = 0x19;

/// The number of well-known items.
pub const FW_CFG_KNOWN_ITEMS: usize = 0x20;

/// What a device with DMA shows in its DMA address register.
pub const FW_CFG_DMA_SIGNATURE_CONTENT: [u8; 8] = [
    0x51,
    0x45,
    0x4d,
    0x55,
    0x20,
    0x43,
    0x46,
    0x47,
];

/// "QEMU"
pub const FW_CFG_SIGNATURE_CONTENT: [u8; 4] = [0x51, 0x45, 0x4d, 0x55];

pub const FW_CFG_ACPI_ID: &'static str = "QEMU0002";

/// Reserved (must be enabled).
pub const FW_CFG_F_RESERVED: u8 = 1;

pub const FW_CFG_F_DMA: u8 = 2;

/// The features of the device. DMA is not one of them.
pub const FW_CFG_FEATURE: [u8; 4] = [FW_CFG_F_RESERVED, 0, 0, 0];

/// The mathematical value of a device.
#[verifier::ext_equal]
pub ghost struct FwCfgModel {
    /// The selected item.
    pub selector: u16,
    /// How much of it was read.
    pub data_offset: u32,
    /// The address of the DMA request.
    pub dma_address: u64,
    /// The well-known items.
    pub known: Seq<ContentModel>,
    /// The named items.
    pub items: Seq<ItemModel>,
    /// The addresses of the guest's memory.
    pub mapped: Set<u64>,
    /// What the device wrote to the guest's memory.
    pub writes: Seq<GuestWrite>,
}

/// The error for an item whose size is not available.
pub open spec fn size_error(e: IoErrorKind) -> FwCfgContentAccessError {
    match e {
        IoErrorKind::UnexpectedEof => FwCfgContentAccessError::UnexpectedEof,
        IoErrorKind::InvalidInput => FwCfgContentAccessError::TooLarge,
        e => FwCfgContentAccessError::FileAccessFailed(e),
    }
}

impl FwCfgModel {
    /// The directory lists the named items.
    pub open spec fn wf(self) -> bool {
        &&& self.known.len() == FW_CFG_KNOWN_ITEMS
        &&& self.items.len() <= MAX_ITEMS
        &&& self.known[FW_CFG_FILE_DIR as int] == ContentModel::Data(
            directory::directory(self.items),
        )
        &&& forall|i: int|
            0 <= i < self.items.len() ==> (#[trigger] self.items[i]).content.recorded_size() is Ok
    }

    /// The item with a given selector.
    pub open spec fn lookup(self, selector: u16) -> Option<ContentModel> {
        if selector < self.known.len() {
            Some(self.known[selector as int])
        } else if selector - FW_CFG_FILE_FIRST < self.items.len() {
            Some(self.items[selector - FW_CFG_FILE_FIRST].content)
        } else {
            None
        }
    }

    /// How many of `n` bytes a read of an item of the given size transfers.
    pub open spec fn read_count(self, size: u32, n: nat) -> nat {
        let rest = if size > self.data_offset {
            (size - self.data_offset) as nat
        } else {
            0
        };
        let wanted = bytes::low32(n as int) as nat;
        if rest < wanted {
            rest
        } else {
            wanted
        }
    }

    /// The bytes that a read into a buffer of `n` bytes transfers.
    pub open spec fn read_content(self, n: nat, file: FileAccessModel) -> Result<
        Seq<u8>,
        FwCfgContentAccessError,
    > {
        match self.lookup(self.selector) {
            None => Err(FwCfgContentAccessError::IllegalSelector(self.selector)),
            Some(content) => match content.size(file.len) {
                Err(e) => Err(size_error(e)),
                Ok(size) => if content is File && size < self.data_offset {
                    Err(FwCfgContentAccessError::UnexpectedEof)
                } else {
                    let count = self.read_count(size, n);
                    match content.read_at(self.data_offset, count, file.bytes) {
                        Err(_) => Err(FwCfgContentAccessError::ReadError),
                        Ok(b) => if b.len() == count {
                            Ok(b)
                        } else {
                            Err(FwCfgContentAccessError::ReadError)
                        },
                    }
                },
            },
        }
    }

    /// The part of the file behind the selected item that a read into a buffer
    /// of `n` bytes needs, while the file is `len` bytes long.
    pub open spec fn window(self, len: u64, n: nat) -> Option<FileWindow> {
        match self.lookup(self.selector) {
            Some(ContentModel::File(offset, file)) => match ContentModel::File(offset, file).size(
                Ok(len),
            ) {
                Ok(size) => Some(
                    FileWindow {
                        position: (offset + self.data_offset) as u64,
                        count: self.read_count(size, n) as u32,
                    },
                ),
                Err(_) => None,
            },
            _ => None,
        }
    }

    /// The device and the buffer after a read of the data register: the bytes
    /// that were transferred and then zeros, or only zeros.
    pub open spec fn read_data(self, n: nat, file: FileAccessModel) -> (FwCfgModel, Seq<u8>) {
        match self.read_content(n, file) {
            Ok(b) => (
                FwCfgModel { data_offset: (self.data_offset + b.len()) as u32, ..self },
                b + bytes::zeros((n - b.len()) as nat),
            ),
            Err(_) => (self, bytes::zeros(n)),
        }
    }

    /// The device and the buffer after a read of a register.
    pub open spec fn read(self, offset: u64, data: Seq<u8>, file: FileAccessModel) -> (
        FwCfgModel,
        Seq<u8>,
    ) {
        if offset == PORT_FW_CFG_SELECTOR_OFFSET && data.len() == 1 || offset
            == PORT_FW_CFG_DATA_OFFSET {
            self.read_data(data.len(), file)
        } else if offset == PORT_FW_CFG_DMA_HI_OFFSET && data.len() == 4 {
            (self, bytes::be32((self.dma_address / 0x1_0000_0000) as u32))
        } else if offset == PORT_FW_CFG_DMA_LO_OFFSET && data.len() == 4 {
            (self, bytes::be32((self.dma_address % 0x1_0000_0000) as u32))
        } else if is_mapped(offset) {
            (self, bytes::zeros(data.len()))
        } else {
            (self, data)
        }
    }

    /// The device after a write to a register.
    pub open spec fn write(self, offset: u64, data: Seq<u8>) -> FwCfgModel {
        if offset == PORT_FW_CFG_SELECTOR_OFFSET && data.len() == 2 {
            FwCfgModel { selector: bytes::le_value(data) as u16, data_offset: 0, ..self }
        } else if offset == PORT_FW_CFG_DMA_HI_OFFSET && data.len() == 4 {
            FwCfgModel {
                dma_address: (bytes::be_value(data) * 0x1_0000_0000 + self.dma_address
                    % 0x1_0000_0000) as u64,
                ..self
            }
        } else if offset == PORT_FW_CFG_DMA_LO_OFFSET && data.len() == 4 {
            FwCfgModel {
                dma_address: (self.dma_address / 0x1_0000_0000 * 0x1_0000_0000 + bytes::be_value(
                    data,
                )) as u64,
                ..self
            }
        } else {
            self
        }
    }

    /// The device with another content of a well-known item.
    pub open spec fn set(self, selector: u16, content: ContentModel) -> FwCfgModel {
        FwCfgModel { known: self.known.update(selector as int, content), ..self }
    }

    /// The device after an item was added, and whether it was.
    pub open spec fn add_item(self, item: ItemModel) -> (FwCfgModel, Result<(), IoErrorKind>) {
        match item.content.recorded_size() {
            Err(e) => (self, Err(e)),
            Ok(_) => (
                FwCfgModel { items: self.items.push(item), ..self }.set(
                    FW_CFG_FILE_DIR,
                    ContentModel::Data(directory::directory(self.items.push(item))),
                ),
                Ok(()),
            ),
        }
    }

    /// The device after items were added, up to the first that could not be.
    pub open spec fn add_items(self, items: Seq<ItemModel>) -> (
        FwCfgModel,
        Result<(), IoErrorKind>,
    )
        decreases items.len(),
    {
        if items.len() == 0 {
            (self, Ok(()))
        } else {
            let (next, r) = self.add_item(items.first());
            if r is Err {
                (next, r)
            } else {
                next.add_items(items.drop_first())
            }
        }
    }
}

impl FwCfgModel {
    /// The device after the decision on a DMA request, and what is left to do.
    pub open spec fn begin_dma(self, access: FwCfgDmaAccess, file: FileAccessModel) -> (
        FwCfgModel,
        DmaStepModel,
    ) {
        let m = if access.selects() {
            FwCfgModel { selector: 1, ..self }
        } else {
            self
        };
        match access.asks() {
            DmaOperation::Read => match m.lookup(m.selector) {
                None => (m, DmaStepModel::Done(Err(IoErrorKind::NotFound))),
                Some(content) => match dma::dma_data(
                    content,
                    m.data_offset,
                    access.length,
                    file,
                ) {
                    Ok(b) => (m, DmaStepModel::Transfer(b)),
                    Err(e) => (m, DmaStepModel::Done(Err(e))),
                },
            },
            DmaOperation::Write => (m, DmaStepModel::Done(Err(IoErrorKind::InvalidInput))),
            DmaOperation::Skip => (
                FwCfgModel { data_offset: bytes::low32(m.data_offset + access.length), ..m },
                DmaStepModel::Done(Ok(())),
            ),
            DmaOperation::Unknown => (m, DmaStepModel::Done(Err(IoErrorKind::InvalidData))),
        }
    }

    /// Whether 16 bytes may be the request in guest memory: those that are not
    /// in memory are zero.
    pub open spec fn may_request(self, b: Seq<u8>) -> bool {
        let n = guest_memory::reach(
            self.mapped,
            self.dma_address as int,
            dma::DMA_ACCESS_SIZE as nat,
        );
        &&& b.len() == dma::DMA_ACCESS_SIZE
        &&& b.skip(n as int) == bytes::zeros((dma::DMA_ACCESS_SIZE - n) as nat)
    }

    /// The device after a write to guest memory.
    pub open spec fn write_memory(self, address: u64, b: Seq<u8>) -> FwCfgModel {
        FwCfgModel {
            writes: guest_memory::recorded(self.writes, self.mapped, address, b),
            ..self
        }
    }

    /// The device after the work on a DMA request was done but not reported,
    /// and its outcome.
    pub open spec fn perform_dma(self, access: FwCfgDmaAccess, file: FileAccessModel) -> (
        FwCfgModel,
        Result<(), IoErrorKind>,
    ) {
        let (m, step) = self.begin_dma(access, file);
        match step {
            DmaStepModel::Done(r) => (m, r),
            DmaStepModel::Transfer(b) => m.write_memory(access.address, b).finish_transfer(
                guest_memory::transfer(m.mapped, access.address, b.len()),
            ),
        }
    }

    /// The device after a DMA request, and the outcome, which is reported where
    /// the request was.
    pub open spec fn run_dma(self, access: FwCfgDmaAccess, file: FileAccessModel) -> (
        FwCfgModel,
        Result<(), IoErrorKind>,
    ) {
        let (m, outcome) = self.perform_dma(access, file);
        (m.write_memory(self.dma_address, bytes::be32(dma::dma_outcome(outcome))), outcome)
    }

    /// The device after an attempt to transfer bytes, and what came of it.
    pub open spec fn finish_transfer(self, written: Result<usize, ()>) -> (
        FwCfgModel,
        Result<(), IoErrorKind>,
    ) {
        match written {
            Ok(n) => (self.advance(n as int), Ok(())),
            Err(_) => (self, Err(IoErrorKind::InvalidInput)),
        }
    }

    /// The device after a transfer of `n` bytes.
    pub open spec fn advance(self, n: int) -> FwCfgModel {
        FwCfgModel { data_offset: (self.data_offset + n) as u32, ..self }
    }
}

/// Whether a port of the device exists. QEMU leaves two ports between the data
/// register and the DMA address out.
pub open spec fn is_mapped(offset: u64) -> bool {
    offset <= PORT_FW_CFG_DATA_OFFSET || PORT_FW_CFG_DMA_HI_OFFSET <= offset
        < PORT_FW_CFG_DMA_LO_OFFSET + 4
}

/// The device.
pub struct FwCfg {
    selector: u16,
    data_offset: u32,
    dma_address: u64,
    items: Vec<FwCfgItem>,
    known_items: Vec<FwCfgContent>,
    memory: GuestRam,
}

impl View for FwCfg {
    type V = FwCfgModel;

    closed spec fn view(&self) -> FwCfgModel {
        FwCfgModel {
            selector: self.selector,
            data_offset: self.data_offset,
            dma_address: self.dma_address,
            known: Seq::new(self.known_items@.len(), |i: int| self.known_items@[i]@),
            items: Seq::new(self.items@.len(), |i: int| self.items@[i]@),
            mapped: self.memory.mapped(),
            writes: self.memory.writes(),
        }
    }
}

/// A part of a file.
#[derive(Clone, Copy, Debug, PartialEq, Eq, Structural)]
pub struct FileWindow {
    pub position: u64,
    pub count: u32,
}

impl FwCfg {
    /// The directory lists the named items, and is kept in memory.
    pub closed spec fn wf(&self) -> bool {
        &&& self@.wf()
        &&& self.known_items@[FW_CFG_FILE_DIR as int] is Bytes
    }

    /// What [`FwCfg::wf`] says of the device's value.
    pub proof fn lemma_wf(&self)
        requires
            self.wf(),
        ensures
            self@.wf(),
    {
    }

    /// A device with the signature, the features and an empty directory.
    pub fn new(memory: GuestMemoryMmap<AtomicBitmap>) -> (r: FwCfg)
        ensures
            r.wf(),
            r@ == (FwCfgModel {
                selector: 0,
                data_offset: 0,
                dma_address: 0,
                known: Seq::new(
                    FW_CFG_KNOWN_ITEMS as nat,
                    |i: int| ContentModel::Data(Seq::empty()),
                ),
                items: Seq::empty(),
                mapped: guest_memory::mapped(memory),
                writes: Seq::empty(),
            }).set(FW_CFG_SIGNATURE, ContentModel::Data(FW_CFG_SIGNATURE_CONTENT@)).set(
                FW_CFG_ID,
                ContentModel::Data(FW_CFG_FEATURE@),
            ).set(FW_CFG_FILE_DIR, ContentModel::Data(directory::directory(Seq::empty()))),
    {
        let mut known_items: Vec<FwCfgContent> = Vec::new();
        let mut i: usize = 0;
        while i < FW_CFG_KNOWN_ITEMS
            invariant
                i <= FW_CFG_KNOWN_ITEMS,
                known_items@.len() == i,
                forall|k: int|
                    0 <= k < i ==> (#[trigger] known_items@[k])@ == ContentModel::Data(
                        Seq::empty(),
                    ),
            decreases FW_CFG_KNOWN_ITEMS - i,
        {
            known_items.push(FwCfgContent::default());
            i = i + 1;
        }
        known_items[FW_CFG_SIGNATURE as usize] = FwCfgContent::Slice(&FW_CFG_SIGNATURE_CONTENT);
        known_items[FW_CFG_ID as usize] = FwCfgContent::Slice(&FW_CFG_FEATURE);
        let mut file_buf: Vec<u8> = Vec::new();
        bytes::push_be32(&mut file_buf, 0);
        assert(file_buf@ =~= directory::directory(Seq::empty()));
        known_items[FW_CFG_FILE_DIR as usize] = FwCfgContent::Bytes(file_buf);
        FwCfg {
            selector: 0,
            data_offset: 0,
            dma_address: 0,
            items: Vec::new(),
            known_items,
            memory: GuestRam::new(memory),
        }
    }

    /// The selected item.
    pub fn selector(&self) -> (r: u16)
        ensures
            r == self@.selector,
    {
        self.selector
    }

    /// How much of the selected item was read.
    pub fn data_offset(&self) -> (r: u32)
        ensures
            r == self@.data_offset,
    {
        self.data_offset
    }

    /// Replaces the guest's memory, when its regions have changed.
    pub fn set_memory(&mut self, memory: GuestMemoryMmap<AtomicBitmap>)
        requires
            old(self).wf(),
        ensures
            final(self).wf(),
            final(self)@ == (FwCfgModel { mapped: guest_memory::mapped(memory), ..old(self)@ }),
    {
        self.memory.replace(memory);
        assert(self@ =~= FwCfgModel { mapped: guest_memory::mapped(memory), ..old(self)@ });
    }

    /// Replaces a well-known item other than the directory.
    pub fn set_known_item(&mut self, selector: u16, content: FwCfgContent)
        requires
            old(self).wf(),
            selector < FW_CFG_KNOWN_ITEMS,
            selector != FW_CFG_FILE_DIR,
        ensures
            final(self).wf(),
            final(self)@ == old(self)@.set(selector, content@),
    {
        self.known_items[selector as usize] = content;
        assert(self@ =~= old(self)@.set(selector, content@));
    }

    /// Adds a named item and lists it in the directory. The item gets the next
    /// free selector.
    pub fn add_item(&mut self, item: FwCfgItem) -> (r: Result<(), IoErrorKind>)
        requires
            old(self).wf(),
            old(self)@.items.len() < MAX_ITEMS,
        ensures
            final(self).wf(),
            (final(self)@, r) == old(self)@.add_item(item@),
    {
        let index: usize = self.items.len();
        let name: &str = item.name.as_str();
        let entry: Vec<u8> = match directory::create_entry(name, &item.content, index) {
            Ok(entry) => entry,
            Err(e) => {
                return Err(e);
            },
        };
        let ghost items = self@.items.push(item@);
        proof {
            directory::lemma_entries_len(self@.items);
            assert(items.drop_last() =~= self@.items);
        }
        let mut dir: Vec<u8> = Vec::new();
        bytes::push_be32(&mut dir, (index + 1) as u32);
        if let FwCfgContent::Bytes(old_dir) = &self.known_items[FW_CFG_FILE_DIR as usize] {
            let listed: &[u8] = vstd::slice::slice_subrange(old_dir.as_slice(), 4, old_dir.len());
            bytes::push_all(&mut dir, listed);
        }
        bytes::push_all(&mut dir, entry.as_slice());
        assert(dir@ =~= directory::directory(items));
        self.known_items[FW_CFG_FILE_DIR as usize] = FwCfgContent::Bytes(dir);
        self.items.push(item);
        assert(self@.items =~= items);
        assert(self@ =~= old(self)@.add_item(item@).0);
        Ok(())
    }

    /// The item with the given selector.
    fn find_content(&self, selector: u16) -> (r: Option<&FwCfgContent>)
        requires
            self.wf(),
        ensures
            match self@.lookup(selector) {
                Some(content) => r is Some && r->Some_0@ == content,
                None => r is None,
            },
    {
        if (selector as usize) < self.known_items.len() {
            Some(&self.known_items[selector as usize])
        } else if ((selector - FW_CFG_FILE_FIRST) as usize) < self.items.len() {
            Some(&self.items[(selector - FW_CFG_FILE_FIRST) as usize].content)
        } else {
            None
        }
    }

    /// The selected item.
    pub fn get_selected_content(&self) -> (r: Result<&FwCfgContent, FwCfgContentAccessError>)
        requires
            self.wf(),
        ensures
            match self@.lookup(self@.selector) {
                Some(content) => r is Ok && r->Ok_0@ == content,
                None => r == Err::<&FwCfgContent, FwCfgContentAccessError>(
                    FwCfgContentAccessError::IllegalSelector(self@.selector),
                ),
            },
    {
        match self.find_content(self.selector) {
            Some(content) => Ok(content),
            None => Err(FwCfgContentAccessError::IllegalSelector(self.selector)),
        }
    }

    /// The file behind the selected item, if there is one.
    pub fn selected_file(&self) -> (r: Option<FileRef>)
        requires
            self.wf(),
        ensures
            r == match self@.lookup(self@.selector) {
                Some(ContentModel::File(_, file)) => Some(file),
                _ => None,
            },
    {
        match self.find_content(self.selector) {
            Some(FwCfgContent::File(_, file)) => Some(*file),
            _ => None,
        }
    }

    /// The part of the file behind the selected item that a read into a buffer
    /// of `n` bytes needs, while the file is `len` bytes long.
    pub fn file_window(&self, len: u64, n: usize) -> (r: Option<FileWindow>)
        requires
            self.wf(),
            self@.lookup(self@.selector) matches Some(ContentModel::File(offset, _)) ==> offset
                + self@.data_offset <= u64::MAX,
        ensures
            r == self@.window(len, n as nat),
    {
        match self.find_content(self.selector) {
            Some(content) => match content {
                FwCfgContent::File(offset, _) => match content.size_with(Ok(len)) {
                    Ok(size) => Some(
                        FileWindow {
                            position: *offset + self.data_offset as u64,
                            count: self.bytes_to_copy(size, n),
                        },
                    ),
                    Err(_) => None,
                },
                _ => None,
            },
            None => None,
        }
    }

    fn bytes_to_copy(&self, size: u32, n: usize) -> (r: u32)
        ensures
            r == self@.read_count(size, n as nat),
            r <= n,
            r <= size,
            r > 0 ==> self@.data_offset + r <= size,
    {
        let rest: u32 = size.saturating_sub(self.data_offset);
        let wanted: u32 = bytes::truncate32(n as u64);
        if rest < wanted {
            rest
        } else {
            wanted
        }
    }

    /// Reads from the selected item into `data` and says how many bytes there
    /// were, which may be fewer than the buffer holds. If the buffer is
    /// shorter than the item, more than one read is needed.
    ///
    /// Fails if there is no such item, if access to the file behind it fails,
    /// if the file was shrunk so that it ends before the cursor, or if the
    /// item's size exceeds a 32-bit number.
    pub fn read_content(&mut self, data: &mut [u8], file: &FileAccess) -> (r: Result<
        u32,
        FwCfgContentAccessError,
    >)
        requires
            old(self).wf(),
        ensures
            final(self).wf(),
            final(data)@.len() == old(data)@.len(),
            match old(self)@.read_content(old(data)@.len(), file@) {
                Ok(b) => {
                    &&& r == Ok::<u32, FwCfgContentAccessError>(b.len() as u32)
                    &&& b.len() <= old(data)@.len() && b.len() <= u32::MAX
                    &&& old(self)@.data_offset + b.len() <= u32::MAX
                    &&& final(data)@ == b + old(data)@.skip(b.len() as int)
                    &&& final(self)@ == (FwCfgModel {
                        data_offset: (old(self)@.data_offset + b.len()) as u32,
                        ..old(self)@
                    })
                },
                Err(e) => {
                    &&& r == Err::<u32, FwCfgContentAccessError>(e)
                    &&& final(data)@ == old(data)@
                    &&& final(self)@ == old(self)@
                },
            },
    {
        let content: &FwCfgContent = match self.find_content(self.selector) {
            Some(content) => content,
            None => {
                return Err(FwCfgContentAccessError::IllegalSelector(self.selector));
            },
        };
        let content_size: u32 = match content.size_with(file.len) {
            Ok(size) => size,
            Err(IoErrorKind::UnexpectedEof) => {
                return Err(FwCfgContentAccessError::UnexpectedEof);
            },
            Err(IoErrorKind::InvalidInput) => {
                return Err(FwCfgContentAccessError::TooLarge);
            },
            Err(e) => {
                return Err(FwCfgContentAccessError::FileAccessFailed(e));
            },
        };
        if let FwCfgContent::File(_, _) = content {
            if content_size < self.data_offset {
                return Err(FwCfgContentAccessError::UnexpectedEof);
            }
        }
        let content_bytes_to_copy: u32 = self.bytes_to_copy(content_size, data.len());
        let planned_end: u32 = self.data_offset + content_bytes_to_copy;
        let mut buf: Vec<u8> = Vec::new();
        bytes::push_zeros(&mut buf, content_bytes_to_copy as usize);
        assert(buf@.len() == content_bytes_to_copy);
        let read_size: usize = match content.access(self.data_offset).read(&mut buf, &file.bytes) {
            Ok(n) => n,
            Err(_) => {
                return Err(FwCfgContentAccessError::ReadError);
            },
        };
        proof {
            if content@ is File {
                assert(file.bytes->Ok_0@.len() == file.bytes->Ok_0.len());
            }
        }
        if read_size != content_bytes_to_copy as usize {
            return Err(FwCfgContentAccessError::ReadError);
        }
        assert(buf@ =~= old(self)@.read_content(old(data)@.len(), file@)->Ok_0);
        bytes::copy_prefix(data, buf.as_slice());
        self.data_offset = planned_end;
        assert(self@ =~= FwCfgModel { data_offset: planned_end, ..old(self)@ });
        Ok(content_bytes_to_copy)
    }

    /// Reads from the selected item into `data`. If there are fewer bytes than
    /// the buffer can hold, the rest of it is filled with zeros.
    fn read_data(&mut self, data: &mut [u8], file: &FileAccess)
        requires
            old(self).wf(),
        ensures
            final(self).wf(),
            (final(self)@, final(data)@) == old(self)@.read_data(old(data)@.len(), file@),
    {
        let ghost n = data@.len();
        match self.read_content(data, file) {
            Ok(read_len) => {
                let ghost b = old(self)@.read_content(n, file@)->Ok_0;
                bytes::zero_from(data, read_len as usize);
                assert(data@ =~= b + bytes::zeros((n - b.len()) as nat));
            },
            Err(_) => {
                bytes::zero_from(data, 0);
                assert(data@ =~= bytes::zeros(n));
            },
        }
    }

    /// A read by the guest. Items behind which there is a file are read from
    /// `file`; see [`FwCfg::selected_file`] and [`FwCfg::file_window`].
    pub fn read(&mut self, base: u64, offset: u64, data: &mut [u8], file: &FileAccess)
        requires
            old(self).wf(),
        ensures
            final(self).wf(),
            (final(self)@, final(data)@) == old(self)@.read(offset, old(data)@, file@),
    {
        if offset == PORT_FW_CFG_SELECTOR_OFFSET && data.len() == 1 {
            // The selector register is write-only. QEMU's combined region
            // treats a one-byte read as one of the data register.
            self.read_data(data, file);
        } else if offset == PORT_FW_CFG_DATA_OFFSET {
            // One read of several bytes cannot be told apart from several
            // reads of one byte, so every length is served.
            self.read_data(data, file);
        } else if offset == PORT_FW_CFG_DMA_HI_OFFSET && data.len() == 4 {
            let mut buf: Vec<u8> = Vec::new();
            bytes::push_be32(&mut buf, (self.dma_address / 0x1_0000_0000) as u32);
            bytes::copy_prefix(data, buf.as_slice());
            assert(data@ =~= bytes::be32((self@.dma_address / 0x1_0000_0000) as u32));
        } else if offset == PORT_FW_CFG_DMA_LO_OFFSET && data.len() == 4 {
            let mut buf: Vec<u8> = Vec::new();
            bytes::push_be32(&mut buf, (self.dma_address % 0x1_0000_0000) as u32);
            bytes::copy_prefix(data, buf.as_slice());
            assert(data@ =~= bytes::be32((self@.dma_address % 0x1_0000_0000) as u32));
        } else if offset <= PORT_FW_CFG_DATA_OFFSET || PORT_FW_CFG_DMA_HI_OFFSET <= offset
            && offset < PORT_FW_CFG_DMA_LO_OFFSET + 4 {
            bytes::zero_from(data, 0);
            assert(data@ =~= bytes::zeros(old(data)@.len()));
        }
    }

    /// A write by the guest.
    pub fn write(&mut self, base: u64, offset: u64, data: &[u8]) -> (r: Option<Arc<Barrier>>)
        requires
            old(self).wf(),
        ensures
            r is None,
            final(self).wf(),
            final(self)@ == old(self)@.write(offset, data@),
    {
        if offset == PORT_FW_CFG_SELECTOR_OFFSET && data.len() == 2 {
            self.selector = bytes::read_le16(data);
            self.data_offset = 0;
        } else if offset == PORT_FW_CFG_DMA_HI_OFFSET && data.len() == 4 {
            let val: u32 = bytes::read_be32(data);
            self.dma_address = val as u64 * 0x1_0000_0000 + self.dma_address % 0x1_0000_0000;
        } else if offset == PORT_FW_CFG_DMA_LO_OFFSET && data.len() == 4 {
            let val: u32 = bytes::read_be32(data);
            self.dma_address = self.dma_address / 0x1_0000_0000 * 0x1_0000_0000 + val as u64;
            self.do_dma(&FileAccess::none());
        }
        assert(self@ =~= old(self)@.write(offset, data@));
        None
    }

    /// Performs the DMA request if the device offers DMA, which it does not.
    pub fn do_dma(&mut self, file: &FileAccess)
        requires
            old(self).wf(),
        ensures
            final(self).wf(),
            final(self)@ == old(self)@,
    {
        proof {
            assert(1u8 & 2u8 == 0) by (bit_vector);
        }
        if (FW_CFG_FEATURE[0] & FW_CFG_F_DMA) == 0 {
            return;
        }
        let _ = self.run_dma(file);
    }

    /// Decides on a DMA request: the item is selected, and a skip is done.
    pub fn begin_dma(&mut self, access: &FwCfgDmaAccess, file: &FileAccess) -> (r: DmaStep)
        requires
            old(self).wf(),
        ensures
            final(self).wf(),
            (final(self)@, r@) == old(self)@.begin_dma(*access, file@),
            r@ matches DmaStepModel::Transfer(b) ==> final(self)@.data_offset + b.len()
                <= u32::MAX,
    {
        if access.is_select() {
            self.selector = 1;
        }
        let r = match access.operation() {
            DmaOperation::Read => match self.find_content(self.selector) {
                None => DmaStep::Done(Err(IoErrorKind::NotFound)),
                Some(content) => match dma::read_for_dma(
                    content,
                    self.data_offset,
                    access.length,
                    file,
                ) {
                    Ok(b) => DmaStep::Transfer(b),
                    Err(e) => DmaStep::Done(Err(e)),
                },
            },
            DmaOperation::Write => DmaStep::Done(Err(IoErrorKind::InvalidInput)),
            DmaOperation::Skip => {
                self.data_offset = bytes::truncate32(
                    self.data_offset as u64 + access.length as u64,
                );
                DmaStep::Done(Ok(()))
            },
            DmaOperation::Unknown => DmaStep::Done(Err(IoErrorKind::InvalidData)),
        };
        assert(self@ =~= old(self)@.begin_dma(*access, file@).0);
        r
    }

    /// Takes note of a transfer to guest memory.
    pub fn finish_transfer(&mut self, written: Result<usize, ()>) -> (r: Result<(), IoErrorKind>)
        requires
            old(self).wf(),
            written matches Ok(n) ==> old(self)@.data_offset + n <= u32::MAX,
        ensures
            final(self).wf(),
            (final(self)@, r) == old(self)@.finish_transfer(written),
    {
        match written {
            Ok(n) => {
                self.data_offset = self.data_offset + n as u32;
                assert(self@ =~= old(self)@.advance(n as int));
                Ok(())
            },
            Err(_) => Err(IoErrorKind::InvalidInput),
        }
    }

    /// Performs the DMA request in guest memory, reports its outcome there and
    /// returns it.
    ///
    /// What is in guest memory is not known. A request that cannot be read has
    /// no effect and no outcome.
    pub fn run_dma(&mut self, file: &FileAccess) -> (r: Option<Result<(), IoErrorKind>>)
        requires
            old(self).wf(),
        ensures
            final(self).wf(),
            r is Some <==> old(self)@.mapped.contains(old(self)@.dma_address),
            r is None ==> final(self)@ == old(self)@,
            r matches Some(outcome) ==> exists|b: Seq<u8>| #[trigger]
                old(self)@.may_request(b) && (final(self)@, outcome) == old(self)@.run_dma(
                    FwCfgDmaAccess::decoded(b),
                    file@,
                ),
    {
        let mut buf: Vec<u8> = Vec::new();
        bytes::push_zeros(&mut buf, dma::DMA_ACCESS_SIZE);
        assert(buf@.len() == dma::DMA_ACCESS_SIZE);
        let ghost zeros = buf@;
        if self.memory.read(&mut buf, self.dma_address).is_err() {
            return None;
        }
        proof {
            let n = guest_memory::reach(
                self@.mapped,
                self@.dma_address as int,
                dma::DMA_ACCESS_SIZE as nat,
            );
            guest_memory::lemma_reach(
                self@.mapped,
                self@.dma_address as int,
                dma::DMA_ACCESS_SIZE as nat,
            );
            assert(zeros.skip(n as int) =~= bytes::zeros((dma::DMA_ACCESS_SIZE - n) as nat));
            assert(self@.may_request(buf@));
        }
        let access = FwCfgDmaAccess::decode(buf.as_slice());
        let step = self.begin_dma(&access, file);
        let outcome: Result<(), IoErrorKind> = match step {
            DmaStep::Transfer(b) => {
                let ghost begun = self@;
                let written = guest_memory::write_guest(
                    &mut self.memory,
                    b.as_slice(),
                    access.address,
                );
                assert(self@ =~= begun.write_memory(access.address, b@));
                proof {
                    guest_memory::lemma_reach(
                        self@.mapped,
                        access.address as int,
                        b@.len(),
                    );
                }
                self.finish_transfer(written)
            },
            DmaStep::Done(r) => r,
        };
        let response = dma::dma_response(&outcome);
        let ghost performed = self@;
        let _ = guest_memory::write_guest(&mut self.memory, response.as_slice(), self.dma_address);
        assert(self@ =~= performed.write_memory(
            performed.dma_address,
            bytes::be32(dma::dma_outcome(outcome)),
        ));
        Some(outcome)
    }
}

} // verus!
