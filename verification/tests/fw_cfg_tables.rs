use vm_memory::bitmap::AtomicBitmap;
use vm_memory::GuestMemoryMmap;
use vmm_core::fw_cfg::acpi::create_acpi_loader;
use vmm_core::fw_cfg::acpi::create_acpi_table_checksum;
use vmm_core::fw_cfg::acpi::create_intra_pointer;
use vmm_core::fw_cfg::acpi::AcpiTable;
use vmm_core::fw_cfg::acpi::Rsdp;
use vmm_core::fw_cfg::content::FileAccess;
use vmm_core::fw_cfg::content::FwCfgContent;
use vmm_core::fw_cfg::device::FwCfg;
use vmm_core::fw_cfg::device::PORT_FW_CFG_DATA_OFFSET;
use vmm_core::fw_cfg::device::PORT_FW_CFG_SELECTOR_OFFSET;
use vmm_core::fw_cfg::directory::create_file_name;
use vmm_core::fw_cfg::e820::encode_memory_map;
use vmm_core::fw_cfg::e820::MemoryLayout;
use vmm_core::fw_cfg::e820::Region;
use vmm_core::fw_cfg::e820::RegionType;

fn rsdp(outside: &acpi_tables::rsdp::Rsdp) -> Rsdp {
    Rsdp {
        signature: outside.signature,
        checksum: outside.checksum,
        oem_id: outside.oem_id,
        revision: outside.revision,
        length: outside.length.get(),
        xsdt_addr: outside.xsdt_addr.get(),
        extended_checksum: outside.extended_checksum,
    }
}

fn bytes_of(content: FwCfgContent) -> Vec<u8> {
    match content {
        FwCfgContent::Bytes(b) => b,
        _ => panic!("not in memory"),
    }
}

fn padded(name: &str) -> Vec<u8> {
    let mut b = name.as_bytes().to_vec();
    b.resize(56, 0);
    b
}

#[test]
fn file_names_are_cut_and_terminated() {
    assert_eq!(create_file_name("abc").to_vec(), padded("abc"));
    assert_eq!(create_file_name("").to_vec(), vec![0; 56]);
    let long = "x".repeat(60);
    let mut expected = vec![b'x'; 55];
    expected.push(0);
    assert_eq!(create_file_name(&long).to_vec(), expected);
    assert_eq!(create_file_name(&"y".repeat(55))[54..], [b'y', 0]);
}

#[test]
fn intra_pointer_is_encoded() {
    let mut out = Vec::new();
    create_intra_pointer("acpi/tables", 0x1234, 8).append_to(&mut out);
    let mut expected = vec![2, 0, 0, 0];
    expected.extend_from_slice(&padded("acpi/tables"));
    expected.extend_from_slice(&padded("acpi/tables"));
    expected.extend_from_slice(&[0x34, 0x12, 0, 0, 8, 0, 0, 0, 0, 0, 0, 0]);
    assert_eq!(out, expected);
    assert_eq!(out.len(), 128);
}

#[test]
fn table_checksum_is_encoded() {
    let mut out = Vec::new();
    create_acpi_table_checksum(0x100, 0x24).append_to(&mut out);
    let mut expected = vec![3, 0, 0, 0];
    expected.extend_from_slice(&padded("acpi/tables"));
    expected.extend_from_slice(&[9, 1, 0, 0, 0, 1, 0, 0, 0x24, 0, 0, 0]);
    expected.resize(128, 0);
    assert_eq!(out, expected);
}

#[test]
fn loader_holds_all_commands_in_order() {
    let outside = acpi_tables::rsdp::Rsdp::new(*b"CLOUDH", 0x1122_3344_5566);
    let (loader, root, tables) = create_acpi_loader(AcpiTable {
        rsdp: rsdp(&outside),
        tables: vec![1, 2, 3],
        table_pointers: vec![36, 44],
        table_checksums: vec![(0, 36)],
    });
    assert_eq!(loader.name, "etc/table-loader");
    assert_eq!(root.name, "acpi/rsdp");
    assert_eq!(tables.name, "acpi/tables");
    assert_eq!(bytes_of(tables.content), [1, 2, 3]);
    let root = bytes_of(root.content);
    assert_eq!(root, zerocopy::IntoBytes::as_bytes(&outside));
    assert_eq!(root.len(), 36);
    assert_eq!(root.iter().fold(0_u8, |a, b| a.wrapping_add(*b)), 0);

    let commands = bytes_of(loader.content);
    assert_eq!(commands.len(), 8 * 128);
    let kinds: Vec<u8> = commands.chunks(128).map(|c| c[0]).collect();
    assert_eq!(kinds, [1, 1, 2, 2, 3, 2, 3, 3]);
    // The root pointer goes to low memory, the tables to high memory.
    assert_eq!(commands[4..60].to_vec(), padded("acpi/rsdp"));
    assert_eq!(commands[60..65], [4, 0, 0, 0, 2]);
    assert_eq!(commands[128 + 4..128 + 60].to_vec(), padded("acpi/tables"));
    assert_eq!(commands[128 + 60..128 + 65], [4, 0, 0, 0, 1]);
    // The pointer to the table list, and the two checksums of the root pointer.
    let pointer = &commands[5 * 128..6 * 128];
    assert_eq!(pointer[4..60].to_vec(), padded("acpi/rsdp"));
    assert_eq!(pointer[60..116].to_vec(), padded("acpi/tables"));
    assert_eq!(pointer[116..121], [24, 0, 0, 0, 8]);
    assert_eq!(
        commands[6 * 128 + 60..6 * 128 + 72],
        [8, 0, 0, 0, 0, 0, 0, 0, 20, 0, 0, 0]
    );
    assert_eq!(
        commands[7 * 128 + 60..7 * 128 + 72],
        [32, 0, 0, 0, 0, 0, 0, 0, 36, 0, 0, 0]
    );
}

#[test]
fn acpi_items_can_be_read() {
    let mem: GuestMemoryMmap<AtomicBitmap> = GuestMemoryMmap::new();
    let mut fw_cfg = FwCfg::new(mem);
    let outside = acpi_tables::rsdp::Rsdp::new(*b"CLOUDH", 0xdead_beef);
    fw_cfg
        .add_acpi(rsdp(&outside), vec![9; 7], vec![(0, 7)], vec![])
        .unwrap();
    fw_cfg.write(0, PORT_FW_CFG_SELECTOR_OFFSET, &[0x21, 0]);
    let mut data = [0xEF; 36];
    fw_cfg.read(0, PORT_FW_CFG_DATA_OFFSET, &mut data, &FileAccess::none());
    assert_eq!(data, zerocopy::IntoBytes::as_bytes(&outside));
    fw_cfg.write(0, PORT_FW_CFG_SELECTOR_OFFSET, &[0x22, 0]);
    let mut data = [0xEF; 8];
    fw_cfg.read(0, PORT_FW_CFG_DATA_OFFSET, &mut data, &FileAccess::none());
    assert_eq!(data, [9, 9, 9, 9, 9, 9, 9, 0]);
}

const LAYOUT: MemoryLayout = MemoryLayout {
    ebda_start: 0xa_0000,
    high_ram_start: 0x10_0000,
    mem_32bit_devices_start: 0xc000_0000,
    mem_32bit_devices_size: 640 << 20,
    mem_32bit_reserved_start: 0xc000_0000,
    pci_mmconfig_start: 0xe800_0000,
    pci_mmconfig_size: 256 << 20,
    ram_64bit_start: 0x1_0000_0000,
};

#[test]
fn small_guests_have_one_high_region() {
    let regions = LAYOUT.memory_regions(0x2000_0000);
    let seen: Vec<(u64, u64, RegionType)> =
        regions.iter().map(|r| (r.start, r.size, r.kind)).collect();
    assert_eq!(
        seen,
        [
            (0, 0xa_0000, RegionType::Ram),
            (0xc000_0000, 640 << 20, RegionType::Reserved),
            (0xe800_0000, 256 << 20, RegionType::Reserved),
            (0xfffe_0000, 0x2_0000, RegionType::Reserved),
            (0x10_0000, 0x2000_0000 - 0x10_0000, RegionType::Ram),
        ]
    );
}

#[test]
fn large_guests_have_memory_above_the_hole() {
    let regions = LAYOUT.memory_regions(0x1_4000_0000);
    assert_eq!(regions.len(), 6);
    assert_eq!(regions[4].size, 0xc000_0000 - 0x10_0000);
    assert_eq!(regions[5].start, 0x1_0000_0000);
    assert_eq!(regions[5].size, 0x8000_0000);
}

#[test]
fn memory_map_leaves_sub_regions_out() {
    let region = |start, size, kind| Region { start, size, kind };
    let map = encode_memory_map(&[
        region(1, 2, RegionType::Ram),
        region(3, 4, RegionType::SubRegion),
        region(5, 0x0102_0304_0506_0708, RegionType::Reserved),
    ]);
    let mut expected = vec![1, 0, 0, 0, 0, 0, 0, 0, 2, 0, 0, 0, 0, 0, 0, 0, 1, 0, 0, 0];
    expected.extend_from_slice(&[5, 0, 0, 0, 0, 0, 0, 0, 8, 7, 6, 5, 4, 3, 2, 1, 2, 0, 0, 0]);
    assert_eq!(map, expected);
}
