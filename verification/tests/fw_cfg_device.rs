use linux_loader::loader::bootparam::boot_params;
use std::io::Read;
use std::io::Seek;
use std::io::SeekFrom;
use std::io::Write;
use vm_memory::bitmap::AtomicBitmap;
use vm_memory::ByteValued;
use vm_memory::Bytes;
use vm_memory::GuestAddress;
use vm_memory::GuestMemoryMmap;
use vmm_core::fw_cfg::content::FileAccess;
use vmm_core::fw_cfg::content::FileRef;
use vmm_core::fw_cfg::content::FwCfgContent;
use vmm_core::fw_cfg::content::FwCfgContentAccessError;
use vmm_core::fw_cfg::content::FwCfgItem;
use vmm_core::fw_cfg::content::IoErrorKind;
use vmm_core::fw_cfg::device::FileWindow;
use vmm_core::fw_cfg::device::FwCfg;
use vmm_core::fw_cfg::device::FW_CFG_BOOT_MENU;
use vmm_core::fw_cfg::device::FW_CFG_CMDLINE_DATA;
use vmm_core::fw_cfg::device::FW_CFG_CMDLINE_SIZE;
use vmm_core::fw_cfg::device::FW_CFG_FILE_DIR;
use vmm_core::fw_cfg::device::FW_CFG_ID;
use vmm_core::fw_cfg::device::FW_CFG_INITRD_DATA;
use vmm_core::fw_cfg::device::FW_CFG_INITRD_SIZE;
use vmm_core::fw_cfg::device::FW_CFG_KERNEL_ADDR;
use vmm_core::fw_cfg::device::FW_CFG_KERNEL_DATA;
use vmm_core::fw_cfg::device::FW_CFG_KERNEL_SIZE;
use vmm_core::fw_cfg::device::FW_CFG_MAX_CPUS;
use vmm_core::fw_cfg::device::FW_CFG_NB_CPUS;
use vmm_core::fw_cfg::device::FW_CFG_NOGRAPHIC;
use vmm_core::fw_cfg::device::FW_CFG_RAM_SIZE;
use vmm_core::fw_cfg::device::FW_CFG_SETUP_DATA;
use vmm_core::fw_cfg::device::FW_CFG_SETUP_SIZE;
use vmm_core::fw_cfg::device::FW_CFG_SIGNATURE;
use vmm_core::fw_cfg::device::FW_CFG_SIGNATURE_CONTENT;
use vmm_core::fw_cfg::device::FW_CFG_UUID;
use vmm_core::fw_cfg::device::PORT_FW_CFG_DATA_OFFSET;
use vmm_core::fw_cfg::device::PORT_FW_CFG_DMA_HI_OFFSET;
use vmm_core::fw_cfg::device::PORT_FW_CFG_DMA_LO_OFFSET;
use vmm_core::fw_cfg::device::PORT_FW_CFG_SELECTOR_OFFSET;
use vmm_core::fw_cfg::directory::FW_CFG_FILE_FIRST;
use vmm_core::fw_cfg::dma::FW_CFG_DMA_CTL_READ;
use vmm_core::fw_cfg::dma::FW_CFG_DMA_CTL_SELECT;
use vmm_core::fw_cfg::dma::FW_CFG_DMA_CTL_SKIP;
use vmm_core::fw_cfg::dma::FW_CFG_DMA_CTL_WRITE;
use vmm_core::fw_cfg::e820::MemoryLayout;
use vmm_core::fw_cfg::kernel::setup_tail_len;
use vmm_core::fw_cfg::kernel::KernelFile;
use vmm_core::fw_cfg::kernel::BOOT_PARAMS_SIZE;
use vmm_core::fw_cfg::populate::FwCfgInit;
use vmm_core::fw_cfg::populate::InitramfsFile;
use vmm_sys_util::tempfile::TempFile;

const GUEST_MEMORY_SIZE: usize = 0x10_0000;

const LAYOUT: MemoryLayout = MemoryLayout {
    ebda_start: 0xa_0000,
    high_ram_start: 0x10_0000,
    mem_32bit_devices_start: 0xc000_0000,
    mem_32bit_devices_size: 640 << 20,
    mem_32bit_reserved_start: 0xc000_0000,
    pci_mmconfig_start: 0xe800_0000,
    pci_mmconfig_size: 256 << 20,
    ram_64bit_start: 0x1_0000_0000,
};

fn guest_memory() -> GuestMemoryMmap<AtomicBitmap> {
    GuestMemoryMmap::from_ranges(&[(GuestAddress(0), GUEST_MEMORY_SIZE)]).unwrap()
}

fn no_memory() -> GuestMemoryMmap<AtomicBitmap> {
    GuestMemoryMmap::new()
}

fn read(fw_cfg: &mut FwCfg, offset: u64, data: &mut [u8]) {
    fw_cfg.read(0, offset, data, &FileAccess::none());
}

fn read_byte(fw_cfg: &mut FwCfg, offset: u64, byte: &mut u8) {
    read(fw_cfg, offset, std::slice::from_mut(byte));
}

fn select(fw_cfg: &mut FwCfg, selector: u16) {
    assert!(fw_cfg
        .write(0, PORT_FW_CFG_SELECTOR_OFFSET, &selector.to_le_bytes())
        .is_none());
}

fn read_item(fw_cfg: &mut FwCfg, selector: u16, n: usize) -> Vec<u8> {
    select(fw_cfg, selector);
    let mut data = vec![0xCD_u8; n];
    read(fw_cfg, PORT_FW_CFG_DATA_OFFSET, &mut data);
    data
}

fn read_at(file: &TempFile, position: u64, n: usize) -> Result<Vec<u8>, IoErrorKind> {
    let mut f = file.as_file();
    f.seek(SeekFrom::Start(position)).unwrap();
    let mut bytes = vec![0u8; n];
    match f.read_exact(&mut bytes) {
        Ok(()) => Ok(bytes),
        Err(_) => Err(IoErrorKind::UnexpectedEof),
    }
}

fn len_of(file: &TempFile) -> u64 {
    file.as_file().metadata().unwrap().len()
}

fn file_ref(file: &TempFile) -> FileRef {
    FileRef {
        id: 1,
        len: Ok(len_of(file)),
    }
}

fn read_from_file(fw_cfg: &mut FwCfg, file: &TempFile, data: &mut [u8]) {
    assert_eq!(fw_cfg.selected_file().unwrap().id, 1);
    let len = len_of(file);
    let window = fw_cfg.file_window(len, data.len()).unwrap();
    let access = FileAccess {
        len: Ok(len),
        bytes: read_at(file, window.position, window.count as usize),
    };
    fw_cfg.read(0, PORT_FW_CFG_DATA_OFFSET, data, &access);
}

fn kernel_file(file: &TempFile) -> KernelFile {
    let header = read_at(file, 0, BOOT_PARAMS_SIZE);
    let tail = match &header {
        Ok(h) => read_at(file, BOOT_PARAMS_SIZE as u64, setup_tail_len(h)),
        Err(e) => Err(*e),
    };
    KernelFile {
        file: file_ref(file),
        header,
        setup_tail: tail,
        reopened: Ok(()),
    }
}

#[test]
fn test_signature() {
    let mut fw_cfg = FwCfg::new(guest_memory());
    let mut data = vec![0u8];
    fw_cfg.write(0, PORT_FW_CFG_SELECTOR_OFFSET, &[FW_CFG_SIGNATURE as u8, 0]);
    for char in FW_CFG_SIGNATURE_CONTENT {
        read(&mut fw_cfg, PORT_FW_CFG_DATA_OFFSET, &mut data);
        assert_eq!(data[0], char);
    }
}

#[test]
fn test_kernel_cmdline() {
    let mut fw_cfg = FwCfg::new(guest_memory());
    let cmdline = *b"cmdline\0";
    fw_cfg.add_kernel_cmdline(cmdline[..7].to_vec());

    let mut data = vec![0u8];
    fw_cfg.write(
        0,
        PORT_FW_CFG_SELECTOR_OFFSET,
        &[FW_CFG_CMDLINE_DATA as u8, 0],
    );
    for char in cmdline {
        read(&mut fw_cfg, PORT_FW_CFG_DATA_OFFSET, &mut data);
        assert_eq!(data[0], char);
    }
    assert_eq!(read_item(&mut fw_cfg, FW_CFG_CMDLINE_SIZE, 4), [8, 0, 0, 0]);
}

#[test]
fn test_cfg_uuid() {
    let mut fw_cfg = FwCfg::new(guest_memory());
    let expected_uuid_bytes = [
        0x11, 0x22, 0x33, 0x44, 0x55, 0x66, 0x77, 0x88, 0x99, 0xAA, 0xBB, 0xCC, 0xDD, 0xFF, 0xBC,
        0xFE,
    ];
    fw_cfg
        .populate_fw_cfg(
            FwCfgInit {
                uuid: expected_uuid_bytes,
                ..Default::default()
            },
            false,
            &LAYOUT,
        )
        .unwrap();

    // One byte more than there is, to check that reading beyond the end returns zero.
    let mut result_bytes = [0xCD_u8; 17];
    fw_cfg.write(0, PORT_FW_CFG_SELECTOR_OFFSET, &[FW_CFG_UUID as u8, 0]);
    assert_eq!(fw_cfg.selector(), FW_CFG_UUID);
    for byte in result_bytes.as_mut_slice() {
        read_byte(&mut fw_cfg, PORT_FW_CFG_DATA_OFFSET, byte);
    }
    assert_eq!(fw_cfg.data_offset(), 16);
    assert_eq!(expected_uuid_bytes, result_bytes[0..16]);
    assert_eq!([0x0; 1], result_bytes[16..]);
}

#[test]
fn test_cfg_memory_size() {
    let mut fw_cfg = FwCfg::new(guest_memory());
    let expected_memory_size: u64 = 0x1122_3344_5566_7788;
    fw_cfg
        .populate_fw_cfg(
            FwCfgInit {
                memory_size: expected_memory_size,
                ..Default::default()
            },
            false,
            &LAYOUT,
        )
        .unwrap();

    let mut result_bytes = [0xCD_u8; 9];
    fw_cfg.write(0, PORT_FW_CFG_SELECTOR_OFFSET, &[FW_CFG_RAM_SIZE as u8, 0]);
    assert_eq!(fw_cfg.selector(), FW_CFG_RAM_SIZE);
    for byte in result_bytes.as_mut_slice() {
        read_byte(&mut fw_cfg, PORT_FW_CFG_DATA_OFFSET, byte);
    }
    assert_eq!(fw_cfg.data_offset(), 8);
    assert_eq!(expected_memory_size.to_le_bytes(), result_bytes[0..8]);
    assert_eq!([0x0; 1], result_bytes[8..]);
}

fn check_u16_item(init: FwCfgInit, selector: u16, expected: u16) {
    let mut fw_cfg = FwCfg::new(guest_memory());
    fw_cfg.populate_fw_cfg(init, false, &LAYOUT).unwrap();

    let mut result_bytes = [0xCD_u8; 3];
    fw_cfg.write(0, PORT_FW_CFG_SELECTOR_OFFSET, &[selector as u8, 0]);
    assert_eq!(fw_cfg.selector(), selector);
    for byte in result_bytes.as_mut_slice() {
        read_byte(&mut fw_cfg, PORT_FW_CFG_DATA_OFFSET, byte);
    }
    assert_eq!(fw_cfg.data_offset(), 2);
    assert_eq!(expected.to_le_bytes(), result_bytes[0..2]);
    assert_eq!([0x0; 1], result_bytes[2..]);
}

#[test]
fn test_cfg_nographic() {
    check_u16_item(
        FwCfgInit {
            no_graphics: true,
            ..Default::default()
        },
        FW_CFG_NOGRAPHIC,
        0x1_u16,
    );
}

#[test]
fn test_cfg_nb_cpus() {
    check_u16_item(
        FwCfgInit {
            nb_cpus: 0xFFFF_u16,
            ..Default::default()
        },
        FW_CFG_NB_CPUS,
        0xFFFF_u16,
    );
}

#[test]
fn test_cfg_max_cpus() {
    check_u16_item(
        FwCfgInit {
            max_cpus: 0xFFFF_u16,
            ..Default::default()
        },
        FW_CFG_MAX_CPUS,
        0xFFFF_u16,
    );
}

#[test]
fn test_cfg_boot_menu() {
    check_u16_item(
        FwCfgInit {
            boot_menu: true,
            ..Default::default()
        },
        FW_CFG_BOOT_MENU,
        0x1_u16,
    );
}

#[test]
fn test_x86_cfg_kernel_data() {
    const BUFFER_SIZE: usize = 2 * 4096;
    const INIT_VALUE: u8 = 0xFE;
    const READ_BUFFER_INIT_VALUE: u8 = 0xCD;
    const EXPECTED_KERNEL_START: usize = 5 * 512;
    const EXPECTED_KERNEL_SIZE: usize = BUFFER_SIZE - EXPECTED_KERNEL_START;

    let mut bp = boot_params::default();
    bp.hdr.header = 0x5372_6448;
    bp.hdr.version = 0x0200;
    bp.hdr.loadflags |= 1;

    let mut buffer = [INIT_VALUE; BUFFER_SIZE];
    buffer[0..BOOT_PARAMS_SIZE].copy_from_slice(bp.as_slice());

    let temp = TempFile::new().unwrap();
    temp.as_file().write_all(&buffer).unwrap();
    bp.hdr.setup_sects = 4;
    bp.hdr.type_of_loader = 0xff;
    buffer[0..BOOT_PARAMS_SIZE].copy_from_slice(bp.as_slice());

    let mut fw_cfg = FwCfg::new(guest_memory());
    fw_cfg.add_kernel_data(&kernel_file(&temp), false).unwrap();

    let mut read_buffer = [READ_BUFFER_INIT_VALUE; BUFFER_SIZE];

    fw_cfg.write(
        0,
        PORT_FW_CFG_SELECTOR_OFFSET,
        &[FW_CFG_SETUP_SIZE as u8, 0],
    );
    assert_eq!(fw_cfg.selector(), FW_CFG_SETUP_SIZE);
    for byte in &mut read_buffer[0..4] {
        read_byte(&mut fw_cfg, PORT_FW_CFG_DATA_OFFSET, byte);
    }
    assert_eq!(fw_cfg.data_offset(), 4);
    assert_eq!(
        u32::try_from(EXPECTED_KERNEL_START).unwrap().to_le_bytes(),
        read_buffer[0..4]
    );

    read_buffer.fill(READ_BUFFER_INIT_VALUE);
    fw_cfg.write(
        0,
        PORT_FW_CFG_SELECTOR_OFFSET,
        &[FW_CFG_SETUP_DATA as u8, 0],
    );
    assert_eq!(fw_cfg.selector(), FW_CFG_SETUP_DATA);
    for byte in &mut read_buffer[..EXPECTED_KERNEL_START] {
        read_byte(&mut fw_cfg, PORT_FW_CFG_DATA_OFFSET, byte);
    }
    assert_eq!(fw_cfg.data_offset() as usize, EXPECTED_KERNEL_START);
    assert_eq!(
        buffer[0..EXPECTED_KERNEL_START],
        read_buffer[0..EXPECTED_KERNEL_START]
    );

    read_buffer.fill(READ_BUFFER_INIT_VALUE);
    fw_cfg.write(
        0,
        PORT_FW_CFG_SELECTOR_OFFSET,
        &[FW_CFG_KERNEL_ADDR as u8, 0],
    );
    assert_eq!(fw_cfg.selector(), FW_CFG_KERNEL_ADDR);
    for byte in &mut read_buffer[0..4] {
        read_byte(&mut fw_cfg, PORT_FW_CFG_DATA_OFFSET, byte);
    }
    assert_eq!(fw_cfg.data_offset(), 4);
    assert_eq!(0x10_0000_u32.to_le_bytes(), read_buffer[0..4]);

    read_buffer.fill(READ_BUFFER_INIT_VALUE);
    fw_cfg.write(
        0,
        PORT_FW_CFG_SELECTOR_OFFSET,
        &[FW_CFG_KERNEL_SIZE as u8, 0],
    );
    assert_eq!(fw_cfg.selector(), FW_CFG_KERNEL_SIZE);
    for byte in &mut read_buffer[0..4] {
        read_byte(&mut fw_cfg, PORT_FW_CFG_DATA_OFFSET, byte);
    }
    assert_eq!(fw_cfg.data_offset(), 4);
    assert_eq!(
        u32::try_from(EXPECTED_KERNEL_SIZE).unwrap().to_le_bytes(),
        read_buffer[0..4]
    );

    read_buffer.fill(READ_BUFFER_INIT_VALUE);
    fw_cfg.write(
        0,
        PORT_FW_CFG_SELECTOR_OFFSET,
        &[FW_CFG_KERNEL_DATA as u8, 0],
    );
    assert_eq!(fw_cfg.selector(), FW_CFG_KERNEL_DATA);
    for byte in &mut read_buffer[..EXPECTED_KERNEL_SIZE] {
        read_from_file(&mut fw_cfg, &temp, std::slice::from_mut(byte));
    }
    assert_eq!(fw_cfg.data_offset() as usize, EXPECTED_KERNEL_SIZE);
    assert_eq!(
        buffer[BUFFER_SIZE - EXPECTED_KERNEL_SIZE..],
        read_buffer[0..EXPECTED_KERNEL_SIZE]
    );
}

#[test]
fn test_x86_add_kernel_data_rejects_invalid_header() {
    let mut fw_cfg = FwCfg::new(guest_memory());
    let mut bp = boot_params::default();
    bp.hdr.header = 0x5372_6448;
    bp.hdr.version = 0x0200;
    bp.hdr.loadflags |= 1;

    let mut illegal_header = bp;
    illegal_header.hdr.header = 0;
    let temp = TempFile::new().unwrap();
    temp.as_file().write_all(illegal_header.as_slice()).unwrap();
    let e = fw_cfg
        .add_kernel_data(&kernel_file(&temp), false)
        .unwrap_err();
    assert_eq!(e, IoErrorKind::InvalidInput);

    let mut illegal_header = bp;
    illegal_header.hdr.version = 0;
    let temp = TempFile::new().unwrap();
    temp.as_file().write_all(illegal_header.as_slice()).unwrap();
    let e = fw_cfg
        .add_kernel_data(&kernel_file(&temp), false)
        .unwrap_err();
    assert_eq!(e, IoErrorKind::InvalidInput);

    let mut illegal_header = bp;
    illegal_header.hdr.loadflags = 0;
    let temp = TempFile::new().unwrap();
    temp.as_file().write_all(illegal_header.as_slice()).unwrap();
    let e = fw_cfg
        .add_kernel_data(&kernel_file(&temp), false)
        .unwrap_err();
    assert_eq!(e, IoErrorKind::InvalidInput);
}

#[test]
fn kernel_with_long_setup_code_is_served_whole() {
    let mut bp = boot_params::default();
    bp.hdr.header = 0x5372_6448;
    bp.hdr.version = 0x020f;
    bp.hdr.loadflags = 1;
    bp.hdr.setup_sects = 15;
    let mut image = bp.as_slice().to_vec();
    for i in 0..8192_usize {
        image.push(i as u8);
    }
    let temp = TempFile::new().unwrap();
    temp.as_file().write_all(&image).unwrap();
    let kernel = kernel_file(&temp);

    // A SEV-SNP guest gets the setup code as it is.
    let mut fw_cfg = FwCfg::new(no_memory());
    fw_cfg.add_kernel_data(&kernel, true).unwrap();
    assert_eq!(
        read_item(&mut fw_cfg, FW_CFG_SETUP_DATA, 8192),
        image[..8192]
    );

    // Any other guest gets it with the loader type filled in.
    let mut fw_cfg = FwCfg::new(no_memory());
    fw_cfg.add_kernel_data(&kernel, false).unwrap();
    image[0x210] = 0xff;
    assert_eq!(
        read_item(&mut fw_cfg, FW_CFG_SETUP_DATA, 8192),
        image[..8192]
    );
    assert_eq!(
        read_item(&mut fw_cfg, FW_CFG_SETUP_SIZE, 4),
        8192_u32.to_le_bytes()
    );
    assert_eq!(
        read_item(&mut fw_cfg, FW_CFG_KERNEL_SIZE, 4),
        4096_u32.to_le_bytes()
    );
    select(&mut fw_cfg, FW_CFG_KERNEL_DATA);
    assert_eq!(
        fw_cfg.file_window(12288, 100000),
        Some(FileWindow {
            position: 8192,
            count: 4096
        })
    );
}

#[test]
fn kernel_errors_leave_what_was_set_before() {
    let mut bp = boot_params::default();
    bp.hdr.header = 0x5372_6448;
    bp.hdr.version = 0x0200;
    bp.hdr.loadflags = 1;
    let header = bp.as_slice().to_vec();
    let make = |header: Result<Vec<u8>, IoErrorKind>, len, reopened| KernelFile {
        file: FileRef { id: 1, len },
        header,
        setup_tail: Ok(vec![]),
        reopened,
    };

    let mut fw_cfg = FwCfg::new(no_memory());
    let e = fw_cfg.add_kernel_data(&make(Err(IoErrorKind::UnexpectedEof), Ok(1), Ok(())), false);
    assert_eq!(e, Err(IoErrorKind::UnexpectedEof));
    assert_eq!(read_item(&mut fw_cfg, FW_CFG_SETUP_SIZE, 4), [0; 4]);

    let e = fw_cfg.add_kernel_data(
        &make(Ok(header.clone()), Err(IoErrorKind::Other(5)), Ok(())),
        false,
    );
    assert_eq!(e, Err(IoErrorKind::Other(5)));
    assert_eq!(
        read_item(&mut fw_cfg, FW_CFG_SETUP_SIZE, 4),
        2560_u32.to_le_bytes()
    );
    assert_eq!(read_item(&mut fw_cfg, FW_CFG_KERNEL_SIZE, 4), [0; 4]);

    let e = fw_cfg.add_kernel_data(
        &make(Ok(header), Ok(10000), Err(IoErrorKind::Other(24))),
        false,
    );
    assert_eq!(e, Err(IoErrorKind::Other(24)));
    assert_eq!(
        read_item(&mut fw_cfg, FW_CFG_KERNEL_SIZE, 4),
        7440_u32.to_le_bytes()
    );
    select(&mut fw_cfg, FW_CFG_KERNEL_DATA);
    assert!(fw_cfg.selected_file().is_none());
}

#[test]
fn test_initram_fs() {
    let mut fw_cfg = FwCfg::new(guest_memory());
    let temp = TempFile::new().unwrap();
    let initram_content = b"this is the initramfs";
    let written = temp.as_file().write(initram_content);
    assert_eq!(written.unwrap(), 21);
    let _ = fw_cfg.add_initramfs_data(&InitramfsFile {
        file: file_ref(&temp),
        reopened: Ok(()),
    });

    let mut data = vec![0u8];
    fw_cfg.write(
        0,
        PORT_FW_CFG_SELECTOR_OFFSET,
        &[FW_CFG_INITRD_DATA as u8, 0],
    );
    for char in *initram_content {
        read_from_file(&mut fw_cfg, &temp, &mut data);
        assert_eq!(data[0], char);
    }
    assert_eq!(read_item(&mut fw_cfg, FW_CFG_INITRD_SIZE, 4), [21, 0, 0, 0]);
}

#[test]
fn initramfs_errors() {
    let mut fw_cfg = FwCfg::new(no_memory());
    let e = fw_cfg.add_initramfs_data(&InitramfsFile {
        file: FileRef {
            id: 1,
            len: Err(IoErrorKind::NotFound),
        },
        reopened: Ok(()),
    });
    assert_eq!(e, Err(IoErrorKind::NotFound));
    let e = fw_cfg.add_initramfs_data(&InitramfsFile {
        file: FileRef {
            id: 1,
            len: Ok(0x1_0000_0007),
        },
        reopened: Err(IoErrorKind::Other(24)),
    });
    assert_eq!(e, Err(IoErrorKind::Other(24)));
    assert_eq!(read_item(&mut fw_cfg, FW_CFG_INITRD_SIZE, 4), [7, 0, 0, 0]);
}

#[test]
fn test_string_item() {
    let mut fw_cfg = FwCfg::new(guest_memory());
    let item = FwCfgItem {
        name: "opt/ovmf/X-PciMmio64Mb".to_owned(),
        content: FwCfgContent::Bytes("262144".as_bytes().to_vec()),
    };
    fw_cfg.add_item(item).unwrap();

    let expected = b"262144";
    let mut data = vec![0u8];
    fw_cfg.write(
        0,
        PORT_FW_CFG_SELECTOR_OFFSET,
        &[FW_CFG_FILE_FIRST as u8, 0],
    );
    for &byte in expected.iter() {
        read(&mut fw_cfg, PORT_FW_CFG_DATA_OFFSET, &mut data);
        assert_eq!(data[0], byte);
    }
}

fn dma_request(control: u32, length: u32, address: u64) -> Vec<u8> {
    let mut access = control.to_be_bytes().to_vec();
    access.extend_from_slice(&length.to_be_bytes());
    access.extend_from_slice(&address.to_be_bytes());
    access
}

const CODE: [u8; 12] = [
    0xba, 0xf8, 0x03, 0x00, 0xd8, 0x04, b'0', 0xee, 0xb0, b'\n', 0xee, 0xf4,
];

#[test]
fn test_dma() {
    let code = CODE;
    let content = FwCfgContent::Bytes(code.to_vec());
    let mem_size = 0x1000;
    let load_addr = GuestAddress(0x1000);
    let mem: GuestMemoryMmap<AtomicBitmap> =
        GuestMemoryMmap::from_ranges(&[(load_addr, mem_size)]).unwrap();

    let code_address = 0x1900_u64;
    let access = dma_request(FW_CFG_DMA_CTL_READ, code.len() as u32, code_address);
    let access_address = GuestAddress(load_addr.0);
    let address_bytes = access_address.0.to_be_bytes();
    let dma_lo: [u8; 4] = address_bytes[0..4].try_into().unwrap();
    let dma_hi: [u8; 4] = address_bytes[4..8].try_into().unwrap();

    let _ = mem.write(&access, access_address);
    let mut fw_cfg = FwCfg::new(mem.clone());
    let cfg_item = FwCfgItem {
        name: "code".to_string(),
        content,
    };
    let _ = fw_cfg.add_item(cfg_item);

    let mut data = [0u8; 12];
    let _ = mem.read(&mut data, GuestAddress(code_address));
    assert_ne!(data, code);

    fw_cfg.write(
        0,
        PORT_FW_CFG_SELECTOR_OFFSET,
        &[FW_CFG_FILE_FIRST as u8, 0],
    );
    fw_cfg.write(0, PORT_FW_CFG_DMA_LO_OFFSET, &dma_lo);
    fw_cfg.write(0, PORT_FW_CFG_DMA_HI_OFFSET, &dma_hi);
    let _ = mem.read(&mut data, GuestAddress(code_address));

    // The DMA path is not active.
    assert_eq!(data, [0u8; 12]);
    assert_eq!(fw_cfg.data_offset(), 0);
}

struct DmaGuest {
    mem: GuestMemoryMmap<AtomicBitmap>,
    fw_cfg: FwCfg,
}

impl DmaGuest {
    fn new() -> DmaGuest {
        let mem: GuestMemoryMmap<AtomicBitmap> =
            GuestMemoryMmap::from_ranges(&[(GuestAddress(0x1000), 0x1000)]).unwrap();
        let mut fw_cfg = FwCfg::new(mem.clone());
        fw_cfg
            .add_item(FwCfgItem {
                name: "code".to_string(),
                content: FwCfgContent::Bytes(CODE.to_vec()),
            })
            .unwrap();
        select(&mut fw_cfg, FW_CFG_FILE_FIRST);
        fw_cfg.write(0, PORT_FW_CFG_DMA_HI_OFFSET, &[0; 4]);
        fw_cfg.write(0, PORT_FW_CFG_DMA_LO_OFFSET, &0x1000_u32.to_be_bytes());
        DmaGuest { mem, fw_cfg }
    }

    fn run(&mut self, control: u32, length: u32, address: u64) -> [u8; 4] {
        self.mem
            .write(&dma_request(control, length, address), GuestAddress(0x1000))
            .unwrap();
        let returned = self.fw_cfg.run_dma(&FileAccess::none()).unwrap();
        let mut outcome = [0xCD; 4];
        self.mem.read(&mut outcome, GuestAddress(0x1000)).unwrap();
        assert_eq!(returned.is_err(), outcome == 1_u32.to_be_bytes());
        outcome
    }
}

#[test]
fn dma_requests_are_performed() {
    let mut guest = DmaGuest::new();
    assert_eq!(guest.run(FW_CFG_DMA_CTL_READ, 5, 0x1900), [0; 4]);
    assert_eq!(guest.fw_cfg.data_offset(), 5);
    assert_eq!(guest.run(FW_CFG_DMA_CTL_SKIP, 2, 0), [0; 4]);
    assert_eq!(guest.fw_cfg.data_offset(), 7);
    assert_eq!(guest.run(FW_CFG_DMA_CTL_READ, 100, 0x1907), [0; 4]);
    assert_eq!(guest.fw_cfg.data_offset(), 12);
    let mut data = [0xCD_u8; 12];
    guest.mem.read(&mut data, GuestAddress(0x1900)).unwrap();
    assert_eq!(data[..5], CODE[..5]);
    assert_eq!(data[5..7], [0, 0]);
    assert_eq!(data[7..], CODE[7..]);
}

#[test]
fn dma_errors_are_reported() {
    let mut guest = DmaGuest::new();
    let error = 1_u32.to_be_bytes();
    assert_eq!(guest.run(FW_CFG_DMA_CTL_WRITE, 1, 0x1900), error);
    assert_eq!(guest.run(0, 1, 0x1900), error);
    // There is no memory at the target.
    assert_eq!(guest.run(FW_CFG_DMA_CTL_READ, 1, 0x9000), error);
    assert_eq!(guest.fw_cfg.data_offset(), 0);
    // A read takes precedence, and selection comes first.
    let both = FW_CFG_DMA_CTL_SELECT | FW_CFG_DMA_CTL_READ | FW_CFG_DMA_CTL_WRITE;
    assert_eq!(guest.run(both, 4, 0x1900), [0; 4]);
    assert_eq!(guest.fw_cfg.selector(), FW_CFG_ID);
    let mut data = [0xCD_u8; 4];
    guest.mem.read(&mut data, GuestAddress(0x1900)).unwrap();
    assert_eq!(data, [1, 0, 0, 0]);
    // A selector that no item has.
    select(&mut guest.fw_cfg, 0xff);
    assert_eq!(guest.run(FW_CFG_DMA_CTL_READ, 4, 0x1900), error);
    // A request outside of memory is ignored.
    guest
        .fw_cfg
        .write(0, PORT_FW_CFG_DMA_LO_OFFSET, &0x9000_u32.to_be_bytes());
    assert_eq!(guest.fw_cfg.run_dma(&FileAccess::none()), None);
    assert_eq!(guest.fw_cfg.data_offset(), 0);
}

#[test]
fn dma_stops_where_the_memory_does() {
    let mut guest = DmaGuest::new();
    // Three bytes are left at the target.
    assert_eq!(guest.run(FW_CFG_DMA_CTL_READ, 12, 0x1ffd), [0; 4]);
    assert_eq!(guest.fw_cfg.data_offset(), 3);
    let mut data = [0xCD_u8; 3];
    guest.mem.read(&mut data, GuestAddress(0x1ffd)).unwrap();
    assert_eq!(data, CODE[..3]);
    // The low half of the target's address is not in memory, and so zero.
    let request = dma_request(FW_CFG_DMA_CTL_READ, 5, 0x1900);
    guest.mem.write(&request, GuestAddress(0x1ff4)).unwrap();
    guest
        .fw_cfg
        .write(0, PORT_FW_CFG_DMA_LO_OFFSET, &0x1ff4_u32.to_be_bytes());
    assert_eq!(
        guest.fw_cfg.run_dma(&FileAccess::none()),
        Some(Err(IoErrorKind::InvalidInput))
    );
    assert_eq!(guest.fw_cfg.data_offset(), 3);
}

#[test]
fn test_register_allow_arbitrary_length_reads_from_data() {
    let mut fw_cfg = FwCfg::new(no_memory());
    fw_cfg.write(0, PORT_FW_CFG_SELECTOR_OFFSET, &[FW_CFG_SIGNATURE as u8, 0]);

    let mut buff = [0xEF; 2];
    read(&mut fw_cfg, PORT_FW_CFG_DATA_OFFSET, &mut buff);
    assert_eq!(buff, *b"QE");
    assert_eq!(fw_cfg.data_offset(), 2);
    let mut buff = [0xEF; 4];
    fw_cfg.write(0, PORT_FW_CFG_SELECTOR_OFFSET, &[FW_CFG_SIGNATURE as u8, 0]);
    read(&mut fw_cfg, PORT_FW_CFG_DATA_OFFSET, &mut buff);
    assert_eq!(buff, *b"QEMU");
    assert_eq!(fw_cfg.data_offset(), 4);
    let mut buff = [0xEF; 8];
    fw_cfg.write(0, PORT_FW_CFG_SELECTOR_OFFSET, &[FW_CFG_SIGNATURE as u8, 0]);
    read(&mut fw_cfg, PORT_FW_CFG_DATA_OFFSET, &mut buff);
    assert_eq!(buff, *b"QEMU\0\0\0\0");
    assert_eq!(fw_cfg.data_offset(), 4);
}

#[test]
fn test_register_invalid_ports_leaves_buffer_untouched() {
    let mut fw_cfg = FwCfg::new(no_memory());
    fw_cfg.write(0, PORT_FW_CFG_SELECTOR_OFFSET, &[FW_CFG_SIGNATURE as u8, 0]);
    let mut buff = [0xCD; 1];
    read(&mut fw_cfg, PORT_FW_CFG_DMA_LO_OFFSET + 4, &mut buff);
    assert_eq!(fw_cfg.data_offset(), 0);
    assert_eq!(buff, [0xCD; 1]);
    let mut buff = [0xCD; 1];
    read(&mut fw_cfg, PORT_FW_CFG_DATA_OFFSET + 1, &mut buff);
    assert_eq!(fw_cfg.data_offset(), 0);
    assert_eq!(buff, [0xCD; 1]);
    let mut buff = [0xCD; 1];
    read(&mut fw_cfg, PORT_FW_CFG_DATA_OFFSET + 2, &mut buff);
    assert_eq!(fw_cfg.data_offset(), 0);
    assert_eq!(buff, [0xCD; 1]);
}

#[test]
fn test_register_qemu_selector_read_quirk() {
    let mut fw_cfg = FwCfg::new(no_memory());
    fw_cfg.write(0, PORT_FW_CFG_SELECTOR_OFFSET, &[FW_CFG_SIGNATURE as u8, 0]);
    let mut buff = [0xEF; 1];
    read(&mut fw_cfg, PORT_FW_CFG_SELECTOR_OFFSET, &mut buff);
    assert_eq!(fw_cfg.data_offset(), 1);
    assert_eq!(buff, [b'Q']);
    let mut buff = [0xEF; 2];
    read(&mut fw_cfg, PORT_FW_CFG_SELECTOR_OFFSET, &mut buff);
    assert_eq!(fw_cfg.data_offset(), 1);
    assert_eq!(buff, [0x0; 2]);
}

#[test]
fn test_register_reads_past_eof_return_zero() {
    let mut fw_cfg = FwCfg::new(no_memory());
    fw_cfg.write(0, PORT_FW_CFG_SELECTOR_OFFSET, &[FW_CFG_SIGNATURE as u8, 0]);
    let mut buff = [0xEF; 8];
    let max_offset = FW_CFG_SIGNATURE_CONTENT.len() as u32;
    for (offset, byte) in buff.iter_mut().enumerate() {
        read_byte(&mut fw_cfg, PORT_FW_CFG_DATA_OFFSET, byte);
        let expected_offset = if (offset as u32 + 1) < max_offset {
            offset as u32 + 1
        } else {
            max_offset
        };
        assert_eq!(fw_cfg.data_offset(), expected_offset);
    }
    assert_eq!(buff[..4], FW_CFG_SIGNATURE_CONTENT);
    assert_eq!(buff[4..], [0; 4]);
}

#[test]
fn test_register_reads_with_invalid_selector() {
    const SELECTOR_INITIALIZED_WITH_DEFAULT: u16 = 0x08;
    let mut fw_cfg = FwCfg::new(no_memory());
    fw_cfg.set_known_item(SELECTOR_INITIALIZED_WITH_DEFAULT, FwCfgContent::Slice(&[]));
    fw_cfg.write(0, PORT_FW_CFG_SELECTOR_OFFSET, &[0xFF, 0]);
    let mut buff = [0xEF_u8; 8];
    for byte in buff.iter_mut() {
        read_byte(&mut fw_cfg, PORT_FW_CFG_DATA_OFFSET, byte);
        assert_eq!(fw_cfg.data_offset(), 0);
    }
    assert_eq!(buff, [0; 8]);

    fw_cfg.write(
        0,
        PORT_FW_CFG_SELECTOR_OFFSET,
        &SELECTOR_INITIALIZED_WITH_DEFAULT.to_le_bytes(),
    );
    let mut buff = [0xEF_u8; 8];
    for byte in buff.iter_mut() {
        read_byte(&mut fw_cfg, PORT_FW_CFG_DATA_OFFSET, byte);
        assert_eq!(fw_cfg.data_offset(), 0);
    }
    assert_eq!(buff, [0; 8]);
}

#[test]
fn test_register_writing_select_resets_internal_cursor() {
    let mut fw_cfg = FwCfg::new(no_memory());
    let payload_bytes = [0x11, 0x22, 0x33, 0x44, 0x55, 0x66];
    let content = FwCfgContent::Bytes(payload_bytes.to_vec());
    let cfg_item = FwCfgItem {
        name: "payload".to_string(),
        content,
    };
    fw_cfg.add_item(cfg_item).unwrap();

    for _ in 0..2 {
        fw_cfg.write(
            0,
            PORT_FW_CFG_SELECTOR_OFFSET,
            &FW_CFG_FILE_FIRST.to_le_bytes(),
        );
        assert_eq!(fw_cfg.data_offset(), 0);
        let mut buffer = [0xEF_u8; 6];
        const MAX_INDEX: usize = 4;
        for (index, byte) in buffer.iter_mut().enumerate().take(MAX_INDEX) {
            read_byte(&mut fw_cfg, PORT_FW_CFG_DATA_OFFSET, byte);
            assert_eq!(fw_cfg.data_offset() as usize, index + 1);
        }
        assert_eq!(buffer[..MAX_INDEX], payload_bytes[..MAX_INDEX]);
        assert_eq!(buffer[MAX_INDEX..], [0xEF; 2]);
        assert_eq!(fw_cfg.data_offset(), MAX_INDEX as u32);
    }
}

#[test]
fn dma_address_reads_back() {
    let mut fw_cfg = FwCfg::new(no_memory());
    fw_cfg.write(0, PORT_FW_CFG_DMA_HI_OFFSET, &[1, 2, 3, 4]);
    fw_cfg.write(0, PORT_FW_CFG_DMA_LO_OFFSET, &[5, 6, 7, 8]);
    let mut buff = [0xEF; 4];
    read(&mut fw_cfg, PORT_FW_CFG_DMA_HI_OFFSET, &mut buff);
    assert_eq!(buff, [1, 2, 3, 4]);
    read(&mut fw_cfg, PORT_FW_CFG_DMA_LO_OFFSET, &mut buff);
    assert_eq!(buff, [5, 6, 7, 8]);
    // Other lengths are cleared.
    let mut buff = [0xEF; 3];
    read(&mut fw_cfg, PORT_FW_CFG_DMA_LO_OFFSET, &mut buff);
    assert_eq!(buff, [0; 3]);
}

#[test]
fn directory_lists_added_items() {
    let mut fw_cfg = FwCfg::new(no_memory());
    assert_eq!(read_item(&mut fw_cfg, FW_CFG_FILE_DIR, 6), [0; 6]);
    for (name, n) in [("first", 3_u8), ("second", 5)] {
        fw_cfg
            .add_item(FwCfgItem {
                name: name.to_string(),
                content: FwCfgContent::Bytes(vec![n; n as usize]),
            })
            .unwrap();
    }
    let mut expected = vec![0, 0, 0, 2];
    expected.extend_from_slice(&[0, 0, 0, 3, 0, 0x20, 0, 0]);
    expected.extend_from_slice(b"first");
    expected.extend_from_slice(&[0; 51]);
    expected.extend_from_slice(&[0, 0, 0, 5, 0, 0x21, 0, 0]);
    expected.extend_from_slice(b"second");
    expected.extend_from_slice(&[0; 50]);
    assert_eq!(read_item(&mut fw_cfg, FW_CFG_FILE_DIR, 132), expected);
    assert_eq!(read_item(&mut fw_cfg, 0x21, 5), [5; 5]);
}

#[test]
fn item_without_size_is_refused() {
    let mut fw_cfg = FwCfg::new(no_memory());
    for (len, error) in [
        (Err(IoErrorKind::Other(13)), IoErrorKind::Other(13)),
        (Ok(9), IoErrorKind::UnexpectedEof),
        (Ok(10 + 0x1_0000_0000), IoErrorKind::InvalidInput),
    ] {
        let r = fw_cfg.add_item(FwCfgItem {
            name: "file".to_string(),
            content: FwCfgContent::File(10, FileRef { id: 1, len }),
        });
        assert_eq!(r, Err(error));
    }
    assert_eq!(read_item(&mut fw_cfg, FW_CFG_FILE_DIR, 4), [0; 4]);
}

#[test]
fn read_errors_are_told_apart() {
    let mut fw_cfg = FwCfg::new(no_memory());
    fw_cfg.set_known_item(
        FW_CFG_INITRD_DATA,
        FwCfgContent::File(10, FileRef { id: 1, len: Ok(14) }),
    );
    let mut data = [0xEF; 4];
    let access = |len, bytes| FileAccess { len, bytes };

    select(&mut fw_cfg, 0x7777);
    assert_eq!(
        fw_cfg.read_content(&mut data, &FileAccess::none()),
        Err(FwCfgContentAccessError::IllegalSelector(0x7777))
    );
    select(&mut fw_cfg, FW_CFG_INITRD_DATA);
    assert_eq!(
        fw_cfg.read_content(&mut data, &access(Ok(9), Ok(vec![]))),
        Err(FwCfgContentAccessError::UnexpectedEof)
    );
    assert_eq!(
        fw_cfg.read_content(&mut data, &access(Ok(1 << 40), Ok(vec![]))),
        Err(FwCfgContentAccessError::TooLarge)
    );
    assert_eq!(
        fw_cfg.read_content(&mut data, &access(Err(IoErrorKind::NotFound), Ok(vec![]))),
        Err(FwCfgContentAccessError::FileAccessFailed(
            IoErrorKind::NotFound
        ))
    );
    assert_eq!(
        fw_cfg.read_content(&mut data, &access(Ok(14), Err(IoErrorKind::UnexpectedEof))),
        Err(FwCfgContentAccessError::ReadError)
    );
    assert_eq!(
        fw_cfg.read_content(&mut data, &access(Ok(14), Ok(vec![1, 2, 3]))),
        Err(FwCfgContentAccessError::ReadError)
    );
    assert_eq!(data, [0xEF; 4]);
    assert_eq!(fw_cfg.data_offset(), 0);
    assert_eq!(
        fw_cfg.read_content(&mut data, &access(Ok(13), Ok(vec![1, 2, 3]))),
        Ok(3)
    );
    assert_eq!(data, [1, 2, 3, 0xEF]);
    assert_eq!(fw_cfg.data_offset(), 3);
    // The file is shrunk, so that it ends before the cursor.
    assert_eq!(
        fw_cfg.read_content(&mut data, &access(Ok(12), Ok(vec![]))),
        Err(FwCfgContentAccessError::UnexpectedEof)
    );
    assert_eq!(data, [1, 2, 3, 0xEF]);
    assert_eq!(fw_cfg.data_offset(), 3);
    // The cursor may be at its end.
    assert_eq!(
        fw_cfg.read_content(&mut data, &access(Ok(13), Ok(vec![]))),
        Ok(0)
    );
    assert_eq!(data, [1, 2, 3, 0xEF]);
    fw_cfg.read(
        0,
        PORT_FW_CFG_DATA_OFFSET,
        &mut data,
        &access(Ok(12), Ok(vec![])),
    );
    assert_eq!(data, [0; 4]);
    assert_eq!(fw_cfg.data_offset(), 3);
}

#[test]
fn file_reads_compose() {
    let file = TempFile::new().unwrap();
    file.as_file()
        .write_all(&(0..20).collect::<Vec<u8>>())
        .unwrap();
    let mut fw_cfg = FwCfg::new(no_memory());
    fw_cfg.set_known_item(FW_CFG_INITRD_DATA, FwCfgContent::File(5, file_ref(&file)));
    select(&mut fw_cfg, FW_CFG_INITRD_DATA);
    let mut whole = vec![0xEF; 24];
    read_from_file(&mut fw_cfg, &file, &mut whole);
    assert_eq!(whole[..15], (5..20).collect::<Vec<u8>>());
    assert_eq!(whole[15..], [0; 9]);
    select(&mut fw_cfg, FW_CFG_INITRD_DATA);
    let mut parts = Vec::new();
    for n in [7, 7, 10] {
        let mut part = vec![0xEF; n];
        read_from_file(&mut fw_cfg, &file, &mut part);
        parts.extend_from_slice(&part);
    }
    assert_eq!(parts, whole);
    assert_eq!(fw_cfg.data_offset(), 15);
}

#[test]
fn a_write_changes_one_register() {
    let mem = guest_memory();
    let mut fw_cfg = FwCfg::new(mem.clone());
    let mut before = vec![0; 0x1000];
    mem.read(&mut before, GuestAddress(0x1000)).unwrap();
    let dma_bytes = |fw_cfg: &mut FwCfg| {
        let mut high = [0; 4];
        let mut low = [0; 4];
        read(fw_cfg, PORT_FW_CFG_DMA_HI_OFFSET, &mut high);
        read(fw_cfg, PORT_FW_CFG_DMA_LO_OFFSET, &mut low);
        (high, low)
    };
    select(&mut fw_cfg, FW_CFG_SIGNATURE);
    read(&mut fw_cfg, PORT_FW_CFG_DATA_OFFSET, &mut [0; 3]);
    assert!(fw_cfg
        .write(0, PORT_FW_CFG_DMA_HI_OFFSET, &[1, 2, 3, 4])
        .is_none());
    assert_eq!(dma_bytes(&mut fw_cfg), ([1, 2, 3, 4], [0; 4]));
    assert!(fw_cfg
        .write(0, PORT_FW_CFG_DMA_LO_OFFSET, &[5, 6, 7, 8])
        .is_none());
    assert_eq!(dma_bytes(&mut fw_cfg), ([1, 2, 3, 4], [5, 6, 7, 8]));
    // These lengths and offsets are not served.
    for (offset, len) in [
        (PORT_FW_CFG_SELECTOR_OFFSET, 1),
        (PORT_FW_CFG_SELECTOR_OFFSET, 4),
        (PORT_FW_CFG_DATA_OFFSET, 2),
        (PORT_FW_CFG_DMA_HI_OFFSET, 8),
        (PORT_FW_CFG_DMA_LO_OFFSET, 2),
        (PORT_FW_CFG_DMA_LO_OFFSET + 4, 4),
    ] {
        assert!(fw_cfg.write(0, offset, &vec![0xAB; len]).is_none());
    }
    assert_eq!(dma_bytes(&mut fw_cfg), ([1, 2, 3, 4], [5, 6, 7, 8]));
    assert_eq!(fw_cfg.selector(), FW_CFG_SIGNATURE);
    assert_eq!(fw_cfg.data_offset(), 3);
    assert!(fw_cfg
        .write(0, PORT_FW_CFG_SELECTOR_OFFSET, &[0x34, 0x12])
        .is_none());
    assert_eq!(fw_cfg.selector(), 0x1234);
    assert_eq!(fw_cfg.data_offset(), 0);
    assert_eq!(dma_bytes(&mut fw_cfg), ([1, 2, 3, 4], [5, 6, 7, 8]));
    let mut after = vec![0xEF; 0x1000];
    mem.read(&mut after, GuestAddress(0x1000)).unwrap();
    assert_eq!(after, before);
}

#[test]
fn reads_compose() {
    let mut fw_cfg = FwCfg::new(no_memory());
    fw_cfg.set_known_item(FW_CFG_UUID, FwCfgContent::Bytes((0..20).collect()));
    let whole = read_item(&mut fw_cfg, FW_CFG_UUID, 24);
    select(&mut fw_cfg, FW_CFG_UUID);
    let mut parts = Vec::new();
    for n in [7, 8, 9] {
        let mut part = vec![0xEF; n];
        read(&mut fw_cfg, PORT_FW_CFG_DATA_OFFSET, &mut part);
        parts.extend_from_slice(&part);
    }
    assert_eq!(parts, whole);
    assert_eq!(fw_cfg.data_offset(), 20);
}

#[test]
fn populate_stops_at_the_first_error() {
    let mut fw_cfg = FwCfg::new(no_memory());
    let r = fw_cfg.populate_fw_cfg(
        FwCfgInit {
            e820: Some(0x4000_0000),
            cmdline: Some(b"quiet".to_vec()),
            initramfs: Some(InitramfsFile {
                file: FileRef {
                    id: 2,
                    len: Err(IoErrorKind::NotFound),
                },
                reopened: Ok(()),
            }),
            uuid: [7; 16],
            ..Default::default()
        },
        false,
        &LAYOUT,
    );
    assert_eq!(r, Err(IoErrorKind::NotFound));
    assert_eq!(read_item(&mut fw_cfg, FW_CFG_CMDLINE_DATA, 6), *b"quiet\0");
    assert_eq!(read_item(&mut fw_cfg, FW_CFG_UUID, 16), [0; 16]);
    assert_eq!(read_item(&mut fw_cfg, FW_CFG_FILE_DIR, 4), [0, 0, 0, 1]);
    let e820 = read_item(&mut fw_cfg, FW_CFG_FILE_FIRST, 101);
    assert_eq!(e820[80..88], 0x10_0000_u64.to_le_bytes());
    assert_eq!(e820[88..96], (0x4000_0000_u64 - 0x10_0000).to_le_bytes());
    assert_eq!(e820[96..100], [1, 0, 0, 0]);
    assert_eq!(e820[100], 0);
}

#[test]
fn populate_adds_the_listed_items_in_order() {
    let mut fw_cfg = FwCfg::new(no_memory());
    let item = |name: &str, content| FwCfgItem {
        name: name.to_string(),
        content,
    };
    fw_cfg
        .populate_fw_cfg(
            FwCfgInit {
                item_list: Some(vec![
                    item("a", FwCfgContent::U64(1)),
                    item("b", FwCfgContent::U16(2)),
                ]),
                ..Default::default()
            },
            true,
            &LAYOUT,
        )
        .unwrap();
    assert_eq!(
        read_item(&mut fw_cfg, FW_CFG_FILE_FIRST, 8),
        1_u64.to_le_bytes()
    );
    assert_eq!(read_item(&mut fw_cfg, FW_CFG_FILE_FIRST + 1, 3), [2, 0, 0]);
}

#[test]
fn selected_content_is_what_the_selector_names() {
    let mut fw_cfg = FwCfg::new(no_memory());
    select(&mut fw_cfg, FW_CFG_SIGNATURE);
    match fw_cfg.get_selected_content() {
        Ok(FwCfgContent::Slice(b)) => assert_eq!(*b, FW_CFG_SIGNATURE_CONTENT),
        other => panic!("{other:?}"),
    }

    fw_cfg
        .add_item(FwCfgItem {
            name: "opt/number".to_string(),
            content: FwCfgContent::U32(7),
        })
        .unwrap();
    select(&mut fw_cfg, FW_CFG_FILE_FIRST);
    assert!(matches!(fw_cfg.get_selected_content(), Ok(FwCfgContent::U32(7))));

    select(&mut fw_cfg, FW_CFG_FILE_FIRST + 1);
    match fw_cfg.get_selected_content() {
        Err(e) => assert_eq!(
            e,
            FwCfgContentAccessError::IllegalSelector(FW_CFG_FILE_FIRST + 1)
        ),
        Ok(content) => panic!("{content:?}"),
    }
}

#[test]
fn new_memory_takes_the_place_of_the_old() {
    let mut fw_cfg = FwCfg::new(no_memory());
    select(&mut fw_cfg, FW_CFG_SIGNATURE);
    let memory = guest_memory();
    let request = dma_request(FW_CFG_DMA_CTL_READ, 4, 0x2000);
    memory.write(&request, GuestAddress(0x1000)).unwrap();
    let address: u64 = 0x1000;
    let b = address.to_be_bytes();
    fw_cfg.write(0, PORT_FW_CFG_DMA_HI_OFFSET, &b[..4]);
    fw_cfg.write(0, PORT_FW_CFG_DMA_LO_OFFSET, &b[4..]);

    assert_eq!(fw_cfg.run_dma(&FileAccess::none()), None);
    let mut read_back = [0u8; 4];
    memory.read(&mut read_back, GuestAddress(0x2000)).unwrap();
    assert_eq!(read_back, [0; 4]);

    fw_cfg.set_memory(memory.clone());
    assert_eq!(fw_cfg.selector(), FW_CFG_SIGNATURE);
    assert_eq!(fw_cfg.run_dma(&FileAccess::none()), Some(Ok(())));
    memory.read(&mut read_back, GuestAddress(0x2000)).unwrap();
    assert_eq!(read_back, FW_CFG_SIGNATURE_CONTENT);
}
