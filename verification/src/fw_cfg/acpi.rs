//! The items from which firmware loads and checks the ACPI tables.
//!
//! The item `etc/table-loader` is a list of commands of 128 bytes each. They
//! tell the firmware to place the two other items in memory, to add the
//! address of an item to a field, and to fill in a checksum.
use crate::bytes;
use crate::fw_cfg::content::ContentModel;
use crate::fw_cfg::content::FwCfgContent;
use crate::fw_cfg::content::FwCfgItem;
use crate::fw_cfg::directory;
use crate::fw_cfg::directory::create_file_name;
use crate::fw_cfg::directory::FILE_NAME_SIZE;
use vstd::prelude::*;

verus! {

pub const COMMAND_ALLOCATE: u32 = 0x1;

pub const COMMAND_ADD_POINTER: u32 = 0x2;

pub const COMMAND_ADD_CHECKSUM: u32 = 0x3;

pub const ALLOC_ZONE_HIGH: u8 = 0x1;

pub const ALLOC_ZONE_FSEG: u8 = 0x2;

pub const FW_CFG_FILENAME_TABLE_LOADER: &'static str = "etc/table-loader";

pub const FW_CFG_FILENAME_RSDP: &'static str = "acpi/rsdp";

pub const FW_CFG_FILENAME_ACPI_TABLES: &'static str = "acpi/tables";

/// Where the checksum stands in the header of an ACPI table.
pub const TABLE_CHECKSUM_OFFSET: usize = 9;

/// Where the checksum stands in the root pointer.
pub const RSDP_CHECKSUM_OFFSET: u32 = 8;

/// Where the length stands in the root pointer; the first checksum covers the
/// bytes before it.
pub const RSDP_LENGTH_OFFSET: u32 = 20;

/// Where the address of the extended table list stands in the root pointer.
pub const RSDP_XSDT_OFFSET: u32 = 24;

/// Where the second checksum stands in the root pointer.
pub const RSDP_EXTENDED_CHECKSUM_OFFSET: u32 = 32;

/// The size of the root pointer.
pub const RSDP_SIZE: u32 = 36;

/// The ACPI root pointer.
#[derive(Clone, Copy, Debug)]
pub struct Rsdp {
    pub signature: [u8; 8],
    pub checksum: u8,
    pub oem_id: [u8; 6],
    pub revision: u8,
    pub length: u32,
    pub xsdt_addr: u64,
    pub extended_checksum: u8,
}

impl View for Rsdp {
    type V = Seq<u8>;

    /// The root pointer as it stands in memory.
    open spec fn view(&self) -> Seq<u8> {
        self.signature@ + seq![self.checksum] + self.oem_id@ + seq![self.revision] + bytes::zeros(4)
            + bytes::le32(self.length) + bytes::le64(self.xsdt_addr) + seq![self.extended_checksum]
            + bytes::zeros(3)
    }
}

/// The bytes of an `acpi_tables::rsdp::Rsdp` with the given fields, as
/// `zerocopy::IntoBytes::as_bytes` gives them. The structure is packed and its
/// numbers are little-endian; the old table address and the reserved bytes,
/// which only the crate itself can set, keep their default of zero.
#[verifier::external_body]
fn rsdp_bytes(rsdp: &Rsdp) -> (r: Vec<u8>)
    ensures
        r@ == rsdp@,
{
    let mut out = acpi_tables::rsdp::Rsdp::default();
    out.signature = rsdp.signature;
    out.checksum = rsdp.checksum;
    out.oem_id = rsdp.oem_id;
    out.revision = rsdp.revision;
    out.length = rsdp.length.into();
    out.xsdt_addr = rsdp.xsdt_addr.into();
    out.extended_checksum = rsdp.extended_checksum;
    zerocopy::IntoBytes::as_bytes(&out).to_vec()
}

/// Command: place an item in memory.
#[derive(Debug)]
pub struct Allocate {
    pub file: [u8; FILE_NAME_SIZE],
    pub align: u32,
    pub zone: u8,
}

/// Command: add the address of the item `src` to a field of the item `dst`.
#[derive(Debug)]
pub struct AddPointer {
    pub dst: [u8; FILE_NAME_SIZE],
    pub src: [u8; FILE_NAME_SIZE],
    pub offset: u32,
    pub size: u8,
}

/// Command: fill in a checksum.
#[derive(Debug)]
pub struct AddChecksum {
    pub file: [u8; FILE_NAME_SIZE],
    pub offset: u32,
    pub start: u32,
    pub len: u32,
}

/// The encoded command that places `file`.
pub open spec fn allocate_command(file: Seq<u8>, align: u32, zone: u8) -> Seq<u8> {
    bytes::le32(COMMAND_ALLOCATE) + file + bytes::le32(align) + seq![zone] + bytes::zeros(63)
}

/// The encoded command that adds the address of `src` to a field of `dst`.
pub open spec fn pointer_command(dst: Seq<u8>, src: Seq<u8>, offset: u32, size: u8) -> Seq<u8> {
    bytes::le32(COMMAND_ADD_POINTER) + dst + src + bytes::le32(offset) + seq![size] + bytes::zeros(
        7,
    )
}

/// The encoded command that fills in a checksum of `file`.
pub open spec fn checksum_command(file: Seq<u8>, offset: u32, start: u32, len: u32) -> Seq<u8> {
    bytes::le32(COMMAND_ADD_CHECKSUM) + file + bytes::le32(offset) + bytes::le32(start)
        + bytes::le32(len) + bytes::zeros(56)
}

impl View for Allocate {
    type V = Seq<u8>;

    open spec fn view(&self) -> Seq<u8> {
        allocate_command(self.file@, self.align, self.zone)
    }
}

impl View for AddPointer {
    type V = Seq<u8>;

    open spec fn view(&self) -> Seq<u8> {
        pointer_command(self.dst@, self.src@, self.offset, self.size)
    }
}

impl View for AddChecksum {
    type V = Seq<u8>;

    open spec fn view(&self) -> Seq<u8> {
        checksum_command(self.file@, self.offset, self.start, self.len)
    }
}

impl Allocate {
    /// Appends the encoded command.
    pub fn append_to(&self, out: &mut Vec<u8>)
        ensures
            final(out)@ == old(out)@ + self@,
    {
        bytes::push_le32(out, COMMAND_ALLOCATE);
        bytes::push_all(out, self.file.as_slice());
        bytes::push_le32(out, self.align);
        out.push(self.zone);
        bytes::push_zeros(out, 63);
        assert(out@ =~= old(out)@ + self@);
    }
}

impl AddPointer {
    /// Appends the encoded command.
    pub fn append_to(&self, out: &mut Vec<u8>)
        ensures
            final(out)@ == old(out)@ + self@,
    {
        bytes::push_le32(out, COMMAND_ADD_POINTER);
        bytes::push_all(out, self.dst.as_slice());
        bytes::push_all(out, self.src.as_slice());
        bytes::push_le32(out, self.offset);
        out.push(self.size);
        bytes::push_zeros(out, 7);
        assert(out@ =~= old(out)@ + self@);
    }
}

impl AddChecksum {
    /// Appends the encoded command.
    pub fn append_to(&self, out: &mut Vec<u8>)
        ensures
            final(out)@ == old(out)@ + self@,
    {
        bytes::push_le32(out, COMMAND_ADD_CHECKSUM);
        bytes::push_all(out, self.file.as_slice());
        bytes::push_le32(out, self.offset);
        bytes::push_le32(out, self.start);
        bytes::push_le32(out, self.len);
        bytes::push_zeros(out, 56);
        assert(out@ =~= old(out)@ + self@);
    }
}

/// The command for a pointer of `size` bytes at `offset` of the item `name`
/// that points into the same item.
pub fn create_intra_pointer(name: &str, offset: usize, size: u8) -> (r: AddPointer)
    ensures
        r.dst@ == directory::file_name(name@),
        r.src@ == directory::file_name(name@),
        r.offset == bytes::low32(offset as int),
        r.size == size,
{
    AddPointer {
        dst: create_file_name(name),
        src: create_file_name(name),
        offset: bytes::truncate32(offset as u64),
        size,
    }
}

/// The command for the checksum of the ACPI table of `len` bytes at `offset`.
pub fn create_acpi_table_checksum(offset: usize, len: usize) -> (r: AddChecksum)
    requires
        offset + TABLE_CHECKSUM_OFFSET <= usize::MAX,
    ensures
        r.file@ == directory::file_name(FW_CFG_FILENAME_ACPI_TABLES@),
        r.offset == bytes::low32(offset + TABLE_CHECKSUM_OFFSET),
        r.start == bytes::low32(offset as int),
        r.len == bytes::low32(len as int),
{
    AddChecksum {
        file: create_file_name(FW_CFG_FILENAME_ACPI_TABLES),
        offset: bytes::truncate32((offset + TABLE_CHECKSUM_OFFSET) as u64),
        start: bytes::truncate32(offset as u64),
        len: bytes::truncate32(len as u64),
    }
}

/// The ACPI tables of a guest: the root pointer, the tables as one piece, where
/// in it pointers stand, and where in it tables start and how long they are.
#[derive(Debug)]
pub struct AcpiTable {
    pub rsdp: Rsdp,
    pub tables: Vec<u8>,
    pub table_pointers: Vec<usize>,
    pub table_checksums: Vec<(usize, usize)>,
}

/// The commands for pointers at the given places of the tables.
pub open spec fn pointer_commands(pointers: Seq<usize>) -> Seq<u8>
    decreases pointers.len(),
{
    if pointers.len() == 0 {
        Seq::empty()
    } else {
        let tables = directory::file_name(FW_CFG_FILENAME_ACPI_TABLES@);
        pointer_commands(pointers.drop_last()) + pointer_command(
            tables,
            tables,
            bytes::low32(pointers.last() as int),
            8,
        )
    }
}

/// The commands for the checksums of the tables at the given places.
pub open spec fn checksum_commands(checksums: Seq<(usize, usize)>) -> Seq<u8>
    decreases checksums.len(),
{
    if checksums.len() == 0 {
        Seq::empty()
    } else {
        checksum_commands(checksums.drop_last()) + checksum_command(
            directory::file_name(FW_CFG_FILENAME_ACPI_TABLES@),
            bytes::low32(checksums.last().0 + TABLE_CHECKSUM_OFFSET),
            bytes::low32(checksums.last().0 as int),
            bytes::low32(checksums.last().1 as int),
        )
    }
}

/// The content of the table loader item. Both items are placed before any
/// command refers to them, pointers are in place before the checksums that
/// cover them, and the root pointer comes last.
pub open spec fn table_loader(pointers: Seq<usize>, checksums: Seq<(usize, usize)>) -> Seq<u8> {
    let rsdp = directory::file_name(FW_CFG_FILENAME_RSDP@);
    let tables = directory::file_name(FW_CFG_FILENAME_ACPI_TABLES@);
    allocate_command(rsdp, 4, ALLOC_ZONE_FSEG) + allocate_command(tables, 4, ALLOC_ZONE_HIGH)
        + pointer_commands(pointers) + checksum_commands(checksums) + pointer_command(
        rsdp,
        tables,
        RSDP_XSDT_OFFSET,
        8,
    ) + checksum_command(rsdp, RSDP_CHECKSUM_OFFSET, 0, RSDP_LENGTH_OFFSET) + checksum_command(
        rsdp,
        RSDP_EXTENDED_CHECKSUM_OFFSET,
        0,
        RSDP_SIZE,
    )
}

impl AcpiTable {
    /// Whether the offset of every table's checksum is a `usize`.
    pub open spec fn in_range(self) -> bool {
        forall|i: int|
            0 <= i < self.table_checksums@.len() ==> (#[trigger] self.table_checksums@[i]).0
                + TABLE_CHECKSUM_OFFSET <= usize::MAX
    }

    fn pointers(&self) -> (r: &[usize])
        ensures
            r@ == self.table_pointers@,
    {
        self.table_pointers.as_slice()
    }

    fn checksums(&self) -> (r: &[(usize, usize)])
        ensures
            r@ == self.table_checksums@,
    {
        self.table_checksums.as_slice()
    }

    fn take(self) -> (r: (Rsdp, Vec<u8>))
        ensures
            r.0 == self.rsdp,
            r.1 == self.tables,
    {
        (self.rsdp, self.tables)
    }
}

fn append_pointers(out: &mut Vec<u8>, pointers: &[usize])
    ensures
        final(out)@ == old(out)@ + pointer_commands(pointers@),
{
    let ghost before = out@;
    let n: usize = pointers.len();
    let mut i: usize = 0;
    while i < n
        invariant
            i <= n,
            n == pointers@.len(),
            out@ =~= before + pointer_commands(pointers@.take(i as int)),
        decreases n - i,
    {
        let pointer = create_intra_pointer(FW_CFG_FILENAME_ACPI_TABLES, pointers[i], 8);
        pointer.append_to(out);
        assert(pointers@.take(i + 1).drop_last() =~= pointers@.take(i as int));
        i = i + 1;
    }
    assert(pointers@.take(n as int) =~= pointers@);
}

fn append_checksums(out: &mut Vec<u8>, checksums: &[(usize, usize)])
    requires
        forall|i: int|
            0 <= i < checksums@.len() ==> (#[trigger] checksums@[i]).0 + TABLE_CHECKSUM_OFFSET
                <= usize::MAX,
    ensures
        final(out)@ == old(out)@ + checksum_commands(checksums@),
{
    let ghost before = out@;
    let n: usize = checksums.len();
    let mut i: usize = 0;
    while i < n
        invariant
            i <= n,
            n == checksums@.len(),
            forall|k: int|
                0 <= k < checksums@.len() ==> (#[trigger] checksums@[k]).0 + TABLE_CHECKSUM_OFFSET
                    <= usize::MAX,
            out@ =~= before + checksum_commands(checksums@.take(i as int)),
        decreases n - i,
    {
        let checksum = create_acpi_table_checksum(checksums[i].0, checksums[i].1);
        checksum.append_to(out);
        assert(checksums@.take(i + 1).drop_last() =~= checksums@.take(i as int));
        i = i + 1;
    }
    assert(checksums@.take(n as int) =~= checksums@);
}

/// Creates the items used by firmware to load and verify the ACPI tables: the
/// table loader, the root pointer and the tables.
pub fn create_acpi_loader(acpi_table: AcpiTable) -> (r: (FwCfgItem, FwCfgItem, FwCfgItem))
    requires
        acpi_table.in_range(),
    ensures
        r.0.name@ == FW_CFG_FILENAME_TABLE_LOADER@,
        r.0.content@ == ContentModel::Data(
            table_loader(acpi_table.table_pointers@, acpi_table.table_checksums@),
        ),
        r.1.name@ == FW_CFG_FILENAME_RSDP@,
        r.1.content@ == ContentModel::Data(acpi_table.rsdp@),
        r.2.name@ == FW_CFG_FILENAME_ACPI_TABLES@,
        r.2.content@ == ContentModel::Data(acpi_table.tables@),
{
    let mut table_loader_bytes: Vec<u8> = Vec::new();
    let allocate_rsdp = Allocate {
        file: create_file_name(FW_CFG_FILENAME_RSDP),
        align: 4,
        zone: ALLOC_ZONE_FSEG,
    };
    allocate_rsdp.append_to(&mut table_loader_bytes);
    let allocate_tables = Allocate {
        file: create_file_name(FW_CFG_FILENAME_ACPI_TABLES),
        align: 4,
        zone: ALLOC_ZONE_HIGH,
    };
    allocate_tables.append_to(&mut table_loader_bytes);
    append_pointers(&mut table_loader_bytes, acpi_table.pointers());
    append_checksums(&mut table_loader_bytes, acpi_table.checksums());
    let pointer_rsdp_to_xsdt = AddPointer {
        dst: create_file_name(FW_CFG_FILENAME_RSDP),
        src: create_file_name(FW_CFG_FILENAME_ACPI_TABLES),
        offset: RSDP_XSDT_OFFSET,
        size: 8,
    };
    pointer_rsdp_to_xsdt.append_to(&mut table_loader_bytes);
    let checksum_rsdp = AddChecksum {
        file: create_file_name(FW_CFG_FILENAME_RSDP),
        offset: RSDP_CHECKSUM_OFFSET,
        start: 0,
        len: RSDP_LENGTH_OFFSET,
    };
    checksum_rsdp.append_to(&mut table_loader_bytes);
    let checksum_rsdp_ext = AddChecksum {
        file: create_file_name(FW_CFG_FILENAME_RSDP),
        offset: RSDP_EXTENDED_CHECKSUM_OFFSET,
        start: 0,
        len: RSDP_SIZE,
    };
    checksum_rsdp_ext.append_to(&mut table_loader_bytes);
    assert(table_loader_bytes@ =~= table_loader(
        acpi_table.table_pointers@,
        acpi_table.table_checksums@,
    ));
    let loader = FwCfgItem {
        name: FW_CFG_FILENAME_TABLE_LOADER.to_owned(),
        content: FwCfgContent::Bytes(table_loader_bytes),
    };
    let (rsdp, tables) = acpi_table.take();
    let acpi_rsdp = FwCfgItem {
        name: FW_CFG_FILENAME_RSDP.to_owned(),
        content: FwCfgContent::Bytes(rsdp_bytes(&rsdp)),
    };
    let acpi_tables = FwCfgItem {
        name: FW_CFG_FILENAME_ACPI_TABLES.to_owned(),
        content: FwCfgContent::Bytes(tables),
    };
    (loader, acpi_rsdp, acpi_tables)
}

/// The offsets in the commands for the root pointer are those of the fields
/// they are about: the two checksums, and the address of the table list.
pub proof fn law_rsdp_layout(rsdp: Rsdp)
    ensures
        rsdp@.len() == RSDP_SIZE,
        rsdp@[RSDP_CHECKSUM_OFFSET as int] == rsdp.checksum,
        rsdp@[RSDP_EXTENDED_CHECKSUM_OFFSET as int] == rsdp.extended_checksum,
        rsdp@.subrange(RSDP_LENGTH_OFFSET as int, RSDP_LENGTH_OFFSET + 4) == bytes::le32(
            rsdp.length,
        ),
        rsdp@.subrange(RSDP_XSDT_OFFSET as int, RSDP_XSDT_OFFSET + 8) == bytes::le64(
            rsdp.xsdt_addr,
        ),
{
    assert(rsdp@.subrange(RSDP_LENGTH_OFFSET as int, RSDP_LENGTH_OFFSET + 4) =~= bytes::le32(
        rsdp.length,
    ));
    assert(rsdp@.subrange(RSDP_XSDT_OFFSET as int, RSDP_XSDT_OFFSET + 8) =~= bytes::le64(
        rsdp.xsdt_addr,
    ));
}

} // verus!
