//! What firmware is told of the ACPI tables.
use crate::bytes;
use crate::fw_cfg::acpi;
use crate::fw_cfg::acpi::Rsdp;
use crate::fw_cfg::content::ContentModel;
use crate::fw_cfg::content::IoErrorKind;
use crate::fw_cfg::content::ItemModel;
use crate::fw_cfg::device::FwCfgModel;
use crate::fw_cfg::directory;
use vstd::prelude::*;

verus! {

/// A name field of 56 bytes holds the bytes of the name as far as they leave
/// room for a final zero, and zeros behind them.
pub proof fn law_file_names_are_padded(name: Seq<char>, i: int)
    ensures
        directory::file_name(name).len() == 56,
        directory::file_name(name)[55] == 0,
        0 <= i < 55 ==> directory::file_name(name)[i] == ({
            let b = vstd::utf8::encode_utf8(name);
            if i < b.len() {
                b[i]
            } else {
                0u8
            }
        }),
{
}

/// The command at an index of the loader.
pub open spec fn command_at(loader: Seq<u8>, index: int) -> Seq<u8> {
    loader.subrange(128 * index, 128 * index + 128)
}

/// Whether a command places the file with a name, aligned to 4 bytes, in one of
/// the two zones.
pub open spec fn places(command: Seq<u8>, name: Seq<char>, zone: int) -> bool {
    &&& bytes::le_value(command.subrange(0, 4)) == 1
    &&& command.subrange(4, 60) == directory::file_name(name)
    &&& bytes::le_value(command.subrange(60, 64)) == 4
    &&& command[64] == zone
    &&& forall|k: int| 65 <= k < 128 ==> command[k] == 0
}

/// Whether a command adds the address of the second file to the 8 bytes at an
/// offset of the first.
pub open spec fn points(command: Seq<u8>, to: Seq<char>, from: Seq<char>, offset: int) -> bool {
    &&& bytes::le_value(command.subrange(0, 4)) == 2
    &&& command.subrange(4, 60) == directory::file_name(to)
    &&& command.subrange(60, 116) == directory::file_name(from)
    &&& bytes::le_value(command.subrange(116, 120)) == offset
    &&& command[120] == 8
    &&& forall|k: int| 121 <= k < 128 ==> command[k] == 0
}

/// Whether a command puts the checksum of a part of a file at an offset of it.
pub open spec fn sums(
    command: Seq<u8>,
    name: Seq<char>,
    offset: int,
    start: int,
    len: int,
) -> bool {
    &&& bytes::le_value(command.subrange(0, 4)) == 3
    &&& command.subrange(4, 60) == directory::file_name(name)
    &&& bytes::le_value(command.subrange(60, 64)) == offset
    &&& bytes::le_value(command.subrange(64, 68)) == start
    &&& bytes::le_value(command.subrange(68, 72)) == len
    &&& forall|k: int| 72 <= k < 128 ==> command[k] == 0
}

proof fn lemma_places(name: Seq<char>, zone: u8)
    ensures
        acpi::allocate_command(directory::file_name(name), 4, zone).len() == 128,
        places(acpi::allocate_command(directory::file_name(name), 4, zone), name, zone as int),
{
    let file = directory::file_name(name);
    let c = acpi::allocate_command(file, 4, zone);
    directory::lemma_file_name(name);
    bytes::law_32bit_numbers_are_read_back(1);
    bytes::law_32bit_numbers_are_read_back(4);
    assert(c.subrange(0, 4) =~= bytes::le32(1));
    assert(c.subrange(4, 60) =~= file);
    assert(c.subrange(60, 64) =~= bytes::le32(4));
}

proof fn lemma_points(to: Seq<char>, from: Seq<char>, offset: u32)
    ensures
        ({
            let c = acpi::pointer_command(
                directory::file_name(to),
                directory::file_name(from),
                offset,
                8,
            );
            c.len() == 128 && points(c, to, from, offset as int)
        }),
{
    let dst = directory::file_name(to);
    let src = directory::file_name(from);
    let c = acpi::pointer_command(dst, src, offset, 8);
    directory::lemma_file_name(to);
    directory::lemma_file_name(from);
    bytes::law_32bit_numbers_are_read_back(2);
    bytes::law_32bit_numbers_are_read_back(offset);
    assert(c.subrange(0, 4) =~= bytes::le32(2));
    assert(c.subrange(4, 60) =~= dst);
    assert(c.subrange(60, 116) =~= src);
    assert(c.subrange(116, 120) =~= bytes::le32(offset));
}

proof fn lemma_sums(name: Seq<char>, offset: u32, start: u32, len: u32)
    ensures
        ({
            let c = acpi::checksum_command(directory::file_name(name), offset, start, len);
            c.len() == 128 && sums(c, name, offset as int, start as int, len as int)
        }),
{
    let file = directory::file_name(name);
    let c = acpi::checksum_command(file, offset, start, len);
    directory::lemma_file_name(name);
    bytes::law_32bit_numbers_are_read_back(3);
    bytes::law_32bit_numbers_are_read_back(offset);
    bytes::law_32bit_numbers_are_read_back(start);
    bytes::law_32bit_numbers_are_read_back(len);
    assert(c.subrange(0, 4) =~= bytes::le32(3));
    assert(c.subrange(4, 60) =~= file);
    assert(c.subrange(60, 64) =~= bytes::le32(offset));
    assert(c.subrange(64, 68) =~= bytes::le32(start));
    assert(c.subrange(68, 72) =~= bytes::le32(len));
}

proof fn lemma_pointers(pointers: Seq<usize>, i: int)
    ensures
        acpi::pointer_commands(pointers).len() == 128 * pointers.len(),
        0 <= i < pointers.len() ==> points(
            command_at(acpi::pointer_commands(pointers), i),
            "acpi/tables"@,
            "acpi/tables"@,
            pointers[i] as int % 0x1_0000_0000,
        ),
    decreases pointers.len(),
{
    if pointers.len() > 0 {
        let before = pointers.drop_last();
        let all = acpi::pointer_commands(pointers);
        lemma_pointers(before, i);
        lemma_points("acpi/tables"@, "acpi/tables"@, bytes::low32(pointers.last() as int));
        let tables = directory::file_name("acpi/tables"@);
        if i == pointers.len() - 1 {
            assert(command_at(all, i) =~= acpi::pointer_command(
                tables,
                tables,
                bytes::low32(pointers.last() as int),
                8,
            ));
        } else if 0 <= i < before.len() {
            assert(command_at(all, i) =~= command_at(acpi::pointer_commands(before), i));
        }
    }
}

proof fn lemma_checksums(checksums: Seq<(usize, usize)>, i: int)
    ensures
        acpi::checksum_commands(checksums).len() == 128 * checksums.len(),
        0 <= i < checksums.len() ==> sums(
            command_at(acpi::checksum_commands(checksums), i),
            "acpi/tables"@,
            (checksums[i].0 + 9) % 0x1_0000_0000,
            checksums[i].0 as int % 0x1_0000_0000,
            checksums[i].1 as int % 0x1_0000_0000,
        ),
    decreases checksums.len(),
{
    if checksums.len() > 0 {
        let before = checksums.drop_last();
        let last = checksums.last();
        let all = acpi::checksum_commands(checksums);
        lemma_checksums(before, i);
        lemma_sums(
            "acpi/tables"@,
            bytes::low32(last.0 + 9),
            bytes::low32(last.0 as int),
            bytes::low32(last.1 as int),
        );
        if i == checksums.len() - 1 {
            assert(command_at(all, i) =~= acpi::checksum_command(
                directory::file_name("acpi/tables"@),
                bytes::low32(last.0 + 9),
                bytes::low32(last.0 as int),
                bytes::low32(last.1 as int),
            ));
        } else if 0 <= i < before.len() {
            assert(command_at(all, i) =~= command_at(acpi::checksum_commands(before), i));
        }
    }
}

/// Where the parts of the loader stand.
proof fn lemma_parts(
    first: Seq<u8>,
    second: Seq<u8>,
    pointers: Seq<u8>,
    checksums: Seq<u8>,
    rest: Seq<u8>,
    p: nat,
    c: nat,
    i: int,
)
    requires
        first.len() == 128,
        second.len() == 128,
        pointers.len() == 128 * p,
        checksums.len() == 128 * c,
        rest.len() == 384,
    ensures
        ({
            let loader = first + second + pointers + checksums + rest;
            &&& loader.len() == 128 * (5 + p + c)
            &&& command_at(loader, 0) == first
            &&& command_at(loader, 1) == second
            &&& 0 <= i < p ==> command_at(loader, 2 + i) == command_at(pointers, i)
            &&& 0 <= i < c ==> command_at(loader, 2 + p + i) == command_at(checksums, i)
            &&& 0 <= i < 3 ==> command_at(loader, 2 + p + c + i) == command_at(rest, i)
        }),
{
    let loader = first + second + pointers + checksums + rest;
    assert(command_at(loader, 0) =~= first);
    assert(command_at(loader, 1) =~= second);
    if 0 <= i < p {
        assert(command_at(loader, 2 + i) =~= command_at(pointers, i));
    }
    if 0 <= i < c {
        assert(command_at(loader, 2 + p + i) =~= command_at(checksums, i));
    }
    if 0 <= i < 3 {
        assert(command_at(loader, 2 + p + c + i) =~= command_at(rest, i));
    }
}

/// The commands for the root pointer.
spec fn root_commands() -> Seq<u8> {
    let rsdp = directory::file_name("acpi/rsdp"@);
    let tables = directory::file_name("acpi/tables"@);
    acpi::pointer_command(rsdp, tables, 24, 8) + acpi::checksum_command(rsdp, 8, 0, 20)
        + acpi::checksum_command(rsdp, 32, 0, 36)
}

proof fn lemma_root_commands()
    ensures
        root_commands().len() == 384,
        points(command_at(root_commands(), 0), "acpi/rsdp"@, "acpi/tables"@, 24),
        sums(command_at(root_commands(), 1), "acpi/rsdp"@, 8, 0, 20),
        sums(command_at(root_commands(), 2), "acpi/rsdp"@, 32, 0, 36),
{
    let rsdp = directory::file_name("acpi/rsdp"@);
    let tables = directory::file_name("acpi/tables"@);
    lemma_points("acpi/rsdp"@, "acpi/tables"@, 24);
    lemma_sums("acpi/rsdp"@, 8, 0, 20);
    lemma_sums("acpi/rsdp"@, 32, 0, 36);
    assert(command_at(root_commands(), 0) =~= acpi::pointer_command(rsdp, tables, 24, 8));
    assert(command_at(root_commands(), 1) =~= acpi::checksum_command(rsdp, 8, 0, 20));
    assert(command_at(root_commands(), 2) =~= acpi::checksum_command(rsdp, 32, 0, 36));
}

proof fn lemma_loader(pointers: Seq<usize>, checksums: Seq<(usize, usize)>)
    ensures
        acpi::table_loader(pointers, checksums) == acpi::allocate_command(
            directory::file_name("acpi/rsdp"@),
            4,
            2,
        ) + acpi::allocate_command(directory::file_name("acpi/tables"@), 4, 1)
            + acpi::pointer_commands(pointers) + acpi::checksum_commands(checksums)
            + root_commands(),
{
    assert(acpi::table_loader(pointers, checksums) =~= acpi::allocate_command(
        directory::file_name("acpi/rsdp"@),
        4,
        2,
    ) + acpi::allocate_command(directory::file_name("acpi/tables"@), 4, 1)
        + acpi::pointer_commands(pointers) + acpi::checksum_commands(checksums) + root_commands());
}

/// Firmware is told to place both files first: the root pointer in the zone
/// where it is looked for, the tables in high memory. Then each pointer in the
/// tables has one command, in order, which adds the tables' address to the 8
/// bytes at its place. Then each table has one command, in order, which puts
/// the checksum of the table into the tenth byte of its header.
pub proof fn law_each_pointer_and_table_has_its_command(
    pointers: Seq<usize>,
    checksums: Seq<(usize, usize)>,
    i: int,
)
    ensures
        ({
            let loader = acpi::table_loader(pointers, checksums);
            &&& loader.len() == 128 * (5 + pointers.len() + checksums.len())
            &&& places(command_at(loader, 0), "acpi/rsdp"@, 2)
            &&& places(command_at(loader, 1), "acpi/tables"@, 1)
            &&& 0 <= i < pointers.len() ==> points(
                command_at(loader, 2 + i),
                "acpi/tables"@,
                "acpi/tables"@,
                pointers[i] as int % 0x1_0000_0000,
            )
            &&& 0 <= i < checksums.len() ==> sums(
                command_at(loader, 2 + pointers.len() + i),
                "acpi/tables"@,
                (checksums[i].0 + 9) % 0x1_0000_0000,
                checksums[i].0 as int % 0x1_0000_0000,
                checksums[i].1 as int % 0x1_0000_0000,
            )
        }),
{
    let rsdp = acpi::allocate_command(directory::file_name("acpi/rsdp"@), 4, 2);
    let tables = acpi::allocate_command(directory::file_name("acpi/tables"@), 4, 1);
    lemma_loader(pointers, checksums);
    lemma_root_commands();
    lemma_places("acpi/rsdp"@, 2);
    lemma_places("acpi/tables"@, 1);
    lemma_pointers(pointers, i);
    lemma_checksums(checksums, i);
    lemma_parts(
        rsdp,
        tables,
        acpi::pointer_commands(pointers),
        acpi::checksum_commands(checksums),
        root_commands(),
        pointers.len(),
        checksums.len(),
        i,
    );
}

/// The last three commands are about the root pointer: the address of the
/// tables goes to its byte 24, the checksum of its first 20 bytes to byte 8, and
/// then the checksum of all its 36 bytes to byte 32.
pub proof fn law_root_pointer_comes_last(pointers: Seq<usize>, checksums: Seq<(usize, usize)>)
    ensures
        ({
            let loader = acpi::table_loader(pointers, checksums);
            let n = (2 + pointers.len() + checksums.len()) as int;
            &&& loader.len() == 128 * (n + 3)
            &&& points(command_at(loader, n), "acpi/rsdp"@, "acpi/tables"@, 24)
            &&& sums(command_at(loader, n + 1), "acpi/rsdp"@, 8, 0, 20)
            &&& sums(command_at(loader, n + 2), "acpi/rsdp"@, 32, 0, 36)
        }),
{
    let rsdp = acpi::allocate_command(directory::file_name("acpi/rsdp"@), 4, 2);
    let tables = acpi::allocate_command(directory::file_name("acpi/tables"@), 4, 1);
    lemma_loader(pointers, checksums);
    lemma_root_commands();
    lemma_places("acpi/rsdp"@, 2);
    lemma_places("acpi/tables"@, 1);
    lemma_pointers(pointers, 0);
    lemma_checksums(checksums, 0);
    lemma_parts(
        rsdp,
        tables,
        acpi::pointer_commands(pointers),
        acpi::checksum_commands(checksums),
        root_commands(),
        pointers.len(),
        checksums.len(),
        0,
    );
    lemma_parts(
        rsdp,
        tables,
        acpi::pointer_commands(pointers),
        acpi::checksum_commands(checksums),
        root_commands(),
        pointers.len(),
        checksums.len(),
        1,
    );
    lemma_parts(
        rsdp,
        tables,
        acpi::pointer_commands(pointers),
        acpi::checksum_commands(checksums),
        root_commands(),
        pointers.len(),
        checksums.len(),
        2,
    );
}

/// The bytes of the root pointer in memory: its fields in order, with the old
/// table address and the reserved bytes zero.
pub proof fn law_root_pointer_bytes(rsdp: Rsdp, i: int)
    ensures
        rsdp@.len() == 36,
        0 <= i < 8 ==> rsdp@[i] == rsdp.signature@[i],
        rsdp@[8] == rsdp.checksum,
        9 <= i < 15 ==> rsdp@[i] == rsdp.oem_id@[i - 9],
        rsdp@[15] == rsdp.revision,
        16 <= i < 20 ==> rsdp@[i] == 0,
        bytes::le_value(rsdp@.subrange(20, 24)) == rsdp.length,
        bytes::le_value(rsdp@.subrange(24, 32)) == rsdp.xsdt_addr,
        rsdp@[32] == rsdp.extended_checksum,
        33 <= i < 36 ==> rsdp@[i] == 0,
{
    bytes::law_32bit_numbers_are_read_back(rsdp.length);
    bytes::law_64bit_numbers_are_read_back(rsdp.xsdt_addr);
    assert(rsdp@.subrange(20, 24) =~= bytes::le32(rsdp.length));
    assert(rsdp@.subrange(24, 32) =~= bytes::le64(rsdp.xsdt_addr));
}

/// The guest finds three files behind the items that were there, in this order:
/// the loader, the root pointer and the tables, each whole.
#[verifier::rlimit(50)]
pub proof fn law_acpi_files_are_added(
    m: FwCfgModel,
    rsdp: Rsdp,
    tables: Seq<u8>,
    checksums: Seq<(usize, usize)>,
    pointers: Seq<usize>,
)
    requires
        128 * (5 + pointers.len() + checksums.len()) <= u32::MAX,
        tables.len() <= u32::MAX,
    ensures
        ({
            let (next, r) = m.add_items(
                FwCfgModel::acpi_items(rsdp@, tables, checksums, pointers),
            );
            let n = m.items.len() as int;
            &&& r is Ok
            &&& next.items.len() == n + 3
            &&& next.items.take(n) == m.items
            &&& next.items[n].name == "etc/table-loader"@
            &&& next.items[n].content == ContentModel::Data(
                acpi::table_loader(pointers, checksums),
            )
            &&& next.items[n + 1].name == "acpi/rsdp"@
            &&& next.items[n + 1].content == ContentModel::Data(rsdp@)
            &&& next.items[n + 2].name == "acpi/tables"@
            &&& next.items[n + 2].content == ContentModel::Data(tables)
        }),
{
    lemma_sizes(rsdp, tables, checksums, pointers);
    lemma_three_items(m, FwCfgModel::acpi_items(rsdp@, tables, checksums, pointers));
}

#[verifier::rlimit(50)]
proof fn lemma_sizes(
    rsdp: Rsdp,
    tables: Seq<u8>,
    checksums: Seq<(usize, usize)>,
    pointers: Seq<usize>,
)
    requires
        128 * (5 + pointers.len() + checksums.len()) <= u32::MAX,
        tables.len() <= u32::MAX,
    ensures
        ({
            let items = FwCfgModel::acpi_items(rsdp@, tables, checksums, pointers);
            &&& items[0].content.recorded_size() is Ok
            &&& items[1].content.recorded_size() is Ok
            &&& items[2].content.recorded_size() is Ok
        }),
{
    assert(acpi::table_loader(pointers, checksums).len() <= u32::MAX) by {
        law_each_pointer_and_table_has_its_command(pointers, checksums, 0);
    }
    assert(rsdp@.len() <= u32::MAX) by {
        law_root_pointer_bytes(rsdp, 0);
    }
}

proof fn lemma_three_items(m: FwCfgModel, items: Seq<ItemModel>)
    requires
        items.len() == 3,
        items[0].content.recorded_size() is Ok,
        items[1].content.recorded_size() is Ok,
        items[2].content.recorded_size() is Ok,
    ensures
        ({
            let (next, r) = m.add_items(items);
            let n = m.items.len() as int;
            &&& r is Ok
            &&& next.items.len() == n + 3
            &&& next.items.take(n) == m.items
            &&& next.items[n] == items[0]
            &&& next.items[n + 1] == items[1]
            &&& next.items[n + 2] == items[2]
        }),
{
    let m1 = m.add_item(items[0]).0;
    let m2 = m1.add_item(items[1]).0;
    let m3 = m2.add_item(items[2]).0;
    let second = items.drop_first();
    let third = second.drop_first();
    let none = third.drop_first();
    assert(second.first() == items[1] && third.first() == items[2] && none.len() == 0);
    assert(m3.add_items(none) == (m3, Ok::<(), IoErrorKind>(())));
    assert(m2.add_items(third) == m3.add_items(none));
    assert(m1.add_items(second) == m2.add_items(third));
    assert(m.add_items(items) == m1.add_items(second));
    assert(m3.items.take(m.items.len() as int) =~= m.items);
}

} // verus!
