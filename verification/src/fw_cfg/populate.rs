//! Filling the device before the guest starts.
use crate::bytes;
use crate::fw_cfg::acpi;
use crate::fw_cfg::acpi::AcpiTable;
use crate::fw_cfg::acpi::Rsdp;
use crate::fw_cfg::content::ContentModel;
use crate::fw_cfg::content::FileRef;
use crate::fw_cfg::content::FwCfgContent;
use crate::fw_cfg::content::FwCfgItem;
use crate::fw_cfg::content::IoErrorKind;
use crate::fw_cfg::content::ItemModel;
use crate::fw_cfg::device::FwCfg;
use crate::fw_cfg::device::FwCfgModel;
use crate::fw_cfg::device::FW_CFG_BOOT_MENU;
use crate::fw_cfg::device::FW_CFG_CMDLINE_DATA;
use crate::fw_cfg::device::FW_CFG_CMDLINE_SIZE;
use crate::fw_cfg::device::FW_CFG_INITRD_DATA;
use crate::fw_cfg::device::FW_CFG_INITRD_SIZE;
use crate::fw_cfg::device::FW_CFG_KERNEL_ADDR;
use crate::fw_cfg::device::FW_CFG_KERNEL_DATA;
use crate::fw_cfg::device::FW_CFG_KERNEL_SIZE;
use crate::fw_cfg::device::FW_CFG_MAX_CPUS;
use crate::fw_cfg::device::FW_CFG_NB_CPUS;
use crate::fw_cfg::device::FW_CFG_NOGRAPHIC;
use crate::fw_cfg::device::FW_CFG_RAM_SIZE;
use crate::fw_cfg::device::FW_CFG_SETUP_DATA;
use crate::fw_cfg::device::FW_CFG_SETUP_SIZE;
use crate::fw_cfg::device::FW_CFG_UUID;
use crate::fw_cfg::directory::MAX_ITEMS;
use crate::fw_cfg::e820;
use crate::fw_cfg::e820::MemoryLayout;
use crate::fw_cfg::kernel;
use crate::fw_cfg::kernel::KernelFile;
use vstd::prelude::*;

verus! {

/// An initial RAM disk.
#[derive(Clone, Copy, Debug)]
pub struct InitramfsFile {
    /// The file.
    pub file: FileRef,
    /// Whether it could be opened a second time, to serve it.
    pub reopened: Result<(), IoErrorKind>,
}

/// What the device is filled with.
#[derive(Debug)]
pub struct FwCfgInit {
    /// The size of the memory that the memory map is made for.
    pub e820: Option<usize>,
    pub kernel: Option<KernelFile>,
    pub initramfs: Option<InitramfsFile>,
    /// The kernel command line, without the final zero.
    pub cmdline: Option<Vec<u8>>,
    pub item_list: Option<Vec<FwCfgItem>>,
    pub uuid: [u8; 16],
    pub memory_size: u64,
    pub no_graphics: bool,
    pub nb_cpus: u16,
    pub max_cpus: u16,
    pub boot_menu: bool,
}

impl Default for FwCfgInit {
    fn default() -> (r: Self)
        ensures
            r.e820 is None,
            r.kernel is None,
            r.initramfs is None,
            r.cmdline is None,
            r.item_list is None,
            r.uuid@ == bytes::zeros(16),
            r.memory_size == 0,
            !r.no_graphics,
            r.nb_cpus == 0,
            r.max_cpus == 0,
            !r.boot_menu,
    {
        let uuid: [u8; 16] = [0u8; 16];
        assert(uuid@ =~= bytes::zeros(16));
        FwCfgInit {
            e820: None,
            kernel: None,
            initramfs: None,
            cmdline: None,
            item_list: None,
            uuid,
            memory_size: 0,
            no_graphics: false,
            nb_cpus: 0,
            max_cpus: 0,
            boot_menu: false,
        }
    }
}

/// The values of items.
pub open spec fn item_models(items: Seq<FwCfgItem>) -> Seq<ItemModel> {
    Seq::new(items.len(), |i: int| items[i]@)
}

/// A content that is a 32-bit number.
pub open spec fn number32(n: u32) -> ContentModel {
    ContentModel::Data(bytes::le32(n))
}

/// A content that is a 16-bit number.
pub open spec fn number16(n: u16) -> ContentModel {
    ContentModel::Data(bytes::le16(n))
}

/// A flag as a 16-bit number.
pub open spec fn flag16(b: bool) -> u16 {
    if b {
        1
    } else {
        0
    }
}

impl KernelFile {
    /// Whether the low 32 bits of the file's length reach the start of the
    /// kernel, from where its size is counted.
    pub open spec fn kernel_size_fits(self, sev_snp: bool) -> bool {
        match (self.setup(sev_snp), self.file.len) {
            (Ok((_, start)), Ok(len)) => start <= bytes::low32(len as int),
            _ => true,
        }
    }
}

impl FwCfgModel {
    /// The device after a kernel was handed over, and whether all of it was.
    pub open spec fn with_kernel(self, kernel: KernelFile, sev_snp: bool) -> (
        FwCfgModel,
        Result<(), IoErrorKind>,
    ) {
        match kernel.setup(sev_snp) {
            Err(e) => (self, Err(e)),
            Ok((data, start)) => {
                let m1 = self.set(FW_CFG_SETUP_SIZE, number32(start as u32)).set(
                    FW_CFG_SETUP_DATA,
                    ContentModel::Data(data),
                ).set(FW_CFG_KERNEL_ADDR, number32(kernel::KERNEL_LOAD_ADDRESS));
                match kernel.file.len {
                    Err(e) => (m1, Err(e)),
                    Ok(len) => {
                        let m2 = m1.set(
                            FW_CFG_KERNEL_SIZE,
                            number32((bytes::low32(len as int) - start) as u32),
                        );
                        match kernel.reopened {
                            Err(e) => (m2, Err(e)),
                            Ok(_) => (
                                m2.set(
                                    FW_CFG_KERNEL_DATA,
                                    ContentModel::File(start as u64, kernel.file),
                                ),
                                Ok(()),
                            ),
                        }
                    },
                }
            },
        }
    }

    /// The device after an initial RAM disk was handed over, and whether all
    /// of it was.
    pub open spec fn with_initramfs(self, initramfs: InitramfsFile) -> (
        FwCfgModel,
        Result<(), IoErrorKind>,
    ) {
        match initramfs.file.len {
            Err(e) => (self, Err(e)),
            Ok(len) => {
                let m1 = self.set(FW_CFG_INITRD_SIZE, number32(bytes::low32(len as int)));
                match initramfs.reopened {
                    Err(e) => (m1, Err(e)),
                    Ok(_) => (
                        m1.set(FW_CFG_INITRD_DATA, ContentModel::File(0, initramfs.file)),
                        Ok(()),
                    ),
                }
            },
        }
    }

    /// The device with a kernel command line, which gets a final zero.
    pub open spec fn with_cmdline(self, cmdline: Seq<u8>) -> FwCfgModel {
        self.set(
            FW_CFG_CMDLINE_SIZE,
            number32(bytes::low32(cmdline.push(0).len() as int)),
        ).set(FW_CFG_CMDLINE_DATA, ContentModel::Data(cmdline.push(0)))
    }

    /// The device after the memory map was added, and whether it was.
    pub open spec fn with_e820(self, mem_size: usize, layout: MemoryLayout) -> (
        FwCfgModel,
        Result<(), IoErrorKind>,
    ) {
        self.add_item(
            ItemModel {
                name: e820::FW_CFG_FILENAME_E820@,
                content: ContentModel::Data(e820::memory_map(layout.regions(mem_size as u64))),
            },
        )
    }

    /// The three items for the ACPI tables.
    pub open spec fn acpi_items(
        rsdp: Seq<u8>,
        tables: Seq<u8>,
        checksums: Seq<(usize, usize)>,
        pointers: Seq<usize>,
    ) -> Seq<ItemModel> {
        seq![
            ItemModel {
                name: acpi::FW_CFG_FILENAME_TABLE_LOADER@,
                content: ContentModel::Data(acpi::table_loader(pointers, checksums)),
            },
            ItemModel { name: acpi::FW_CFG_FILENAME_RSDP@, content: ContentModel::Data(rsdp) },
            ItemModel {
                name: acpi::FW_CFG_FILENAME_ACPI_TABLES@,
                content: ContentModel::Data(tables),
            },
        ]
    }

    /// The device with the items that are set whatever else is handed over.
    pub open spec fn with_basics(self, init: FwCfgInit) -> FwCfgModel {
        self.set(FW_CFG_UUID, ContentModel::Data(init.uuid@)).set(
            FW_CFG_RAM_SIZE,
            ContentModel::Data(bytes::le64(init.memory_size)),
        ).set(FW_CFG_NOGRAPHIC, number16(flag16(init.no_graphics))).set(
            FW_CFG_NB_CPUS,
            number16(init.nb_cpus),
        ).set(FW_CFG_MAX_CPUS, number16(init.max_cpus)).set(
            FW_CFG_BOOT_MENU,
            number16(flag16(init.boot_menu)),
        )
    }

    /// The device after it was filled, and whether all went well. The parts
    /// are handed over one after the other, up to the first that fails.
    pub open spec fn populate(self, init: FwCfgInit, sev_snp: bool, layout: MemoryLayout) -> (
        FwCfgModel,
        Result<(), IoErrorKind>,
    ) {
        let (m1, r1) = match init.e820 {
            Some(mem_size) => self.with_e820(mem_size, layout),
            None => (self, Ok(())),
        };
        let (m2, r2) = match init.kernel {
            Some(kernel) => m1.with_kernel(kernel, sev_snp),
            None => (m1, Ok(())),
        };
        let m3 = match init.cmdline {
            Some(cmdline) => m2.with_cmdline(cmdline@),
            None => m2,
        };
        let (m4, r4) = match init.initramfs {
            Some(initramfs) => m3.with_initramfs(initramfs),
            None => (m3, Ok(())),
        };
        let (m5, r5) = match init.item_list {
            Some(items) => m4.add_items(item_models(items@)),
            None => (m4, Ok(())),
        };
        if r1 is Err {
            (m1, r1)
        } else if r2 is Err {
            (m2, r2)
        } else if r4 is Err {
            (m4, r4)
        } else if r5 is Err {
            (m5, r5)
        } else {
            (m5.with_basics(init), Ok(()))
        }
    }
}

impl FwCfgInit {
    /// How many items the device gets.
    pub open spec fn item_count(self) -> nat {
        (if self.e820 is Some {
            1nat
        } else {
            0nat
        }) + (match self.item_list {
            Some(items) => items@.len(),
            None => 0,
        })
    }

    /// Whether the parts are such as they are handed over.
    pub open spec fn wf(self, sev_snp: bool, layout: MemoryLayout) -> bool {
        &&& self.e820 matches Some(mem_size) ==> layout.admits(mem_size as u64)
        &&& self.kernel matches Some(kernel) ==> kernel.wf() && kernel.kernel_size_fits(sev_snp)
        &&& self.cmdline matches Some(cmdline) ==> cmdline@.len() < usize::MAX
    }
}

impl FwCfg {
    /// Hands a kernel over.
    pub fn add_kernel_data(&mut self, file: &KernelFile, sev_snp: bool) -> (r: Result<
        (),
        IoErrorKind,
    >)
        requires
            old(self).wf(),
            file.wf(),
            file.kernel_size_fits(sev_snp),
        ensures
            final(self).wf(),
            (final(self)@, r) == old(self)@.with_kernel(*file, sev_snp),
    {
        let setup = match kernel::split_kernel(file, sev_snp) {
            Ok(setup) => setup,
            Err(e) => {
                return Err(e);
            },
        };
        let start: u32 = setup.kernel_start as u32;
        self.set_known_item(FW_CFG_SETUP_SIZE, FwCfgContent::U32(start));
        self.set_known_item(FW_CFG_SETUP_DATA, FwCfgContent::Bytes(setup.data));
        self.set_known_item(FW_CFG_KERNEL_ADDR, FwCfgContent::U32(kernel::KERNEL_LOAD_ADDRESS));
        let len: u64 = match file.file.len {
            Ok(len) => len,
            Err(e) => {
                return Err(e);
            },
        };
        self.set_known_item(
            FW_CFG_KERNEL_SIZE,
            FwCfgContent::U32(bytes::truncate32(len) - start),
        );
        if let Err(e) = file.reopened {
            return Err(e);
        }
        self.set_known_item(FW_CFG_KERNEL_DATA, FwCfgContent::File(start as u64, file.file));
        Ok(())
    }

    /// Hands a kernel command line over. A zero is added at its end.
    pub fn add_kernel_cmdline(&mut self, s: Vec<u8>)
        requires
            old(self).wf(),
            s@.len() < usize::MAX,
        ensures
            final(self).wf(),
            final(self)@ == old(self)@.with_cmdline(s@),
    {
        let mut cmdline: Vec<u8> = s;
        cmdline.push(0);
        self.set_known_item(
            FW_CFG_CMDLINE_SIZE,
            FwCfgContent::U32(bytes::truncate32(cmdline.len() as u64)),
        );
        self.set_known_item(FW_CFG_CMDLINE_DATA, FwCfgContent::Bytes(cmdline));
    }

    /// Hands the ACPI tables over, with the lengths of the tables and the
    /// places of the pointers in them.
    pub fn add_acpi(
        &mut self,
        rsdp: Rsdp,
        tables: Vec<u8>,
        table_checksums: Vec<(usize, usize)>,
        table_pointers: Vec<usize>,
    ) -> (r: Result<(), IoErrorKind>)
        requires
            old(self).wf(),
            old(self)@.items.len() + 3 <= MAX_ITEMS,
            forall|i: int|
                0 <= i < table_checksums@.len() ==> (#[trigger] table_checksums@[i]).0
                    + acpi::TABLE_CHECKSUM_OFFSET <= usize::MAX,
        ensures
            final(self).wf(),
            (final(self)@, r) == old(self)@.add_items(
                FwCfgModel::acpi_items(rsdp@, tables@, table_checksums@, table_pointers@),
            ),
    {
        let ghost items = FwCfgModel::acpi_items(
            rsdp@,
            tables@,
            table_checksums@,
            table_pointers@,
        );
        let acpi_table = AcpiTable { rsdp, tables, table_checksums, table_pointers };
        let (table_loader, acpi_rsdp, acpi_tables) = acpi::create_acpi_loader(acpi_table);
        proof {
            reveal_with_fuel(FwCfgModel::add_items, 4);
            assert(items.first() == table_loader@);
            assert(items.drop_first().first() == acpi_rsdp@);
            assert(items.drop_first().drop_first().first() == acpi_tables@);
        }
        if let Err(e) = self.add_item(table_loader) {
            return Err(e);
        }
        if let Err(e) = self.add_item(acpi_rsdp) {
            return Err(e);
        }
        self.add_item(acpi_tables)
    }

    /// Hands an initial RAM disk over.
    pub fn add_initramfs_data(&mut self, file: &InitramfsFile) -> (r: Result<(), IoErrorKind>)
        requires
            old(self).wf(),
        ensures
            final(self).wf(),
            (final(self)@, r) == old(self)@.with_initramfs(*file),
    {
        let len: u64 = match file.file.len {
            Ok(len) => len,
            Err(e) => {
                return Err(e);
            },
        };
        self.set_known_item(FW_CFG_INITRD_SIZE, FwCfgContent::U32(bytes::truncate32(len)));
        if let Err(e) = file.reopened {
            return Err(e);
        }
        self.set_known_item(FW_CFG_INITRD_DATA, FwCfgContent::File(0, file.file));
        Ok(())
    }

    /// Adds the memory map of a guest with `mem_size` bytes of memory.
    pub fn add_e820(&mut self, mem_size: usize, layout: &MemoryLayout) -> (r: Result<
        (),
        IoErrorKind,
    >)
        requires
            old(self).wf(),
            old(self)@.items.len() < MAX_ITEMS,
            layout.admits(mem_size as u64),
        ensures
            final(self).wf(),
            (final(self)@, r) == old(self)@.with_e820(mem_size, *layout),
    {
        let item = e820::create_e820_item(mem_size as u64, layout);
        self.add_item(item)
    }

    fn add_item_list(&mut self, items: Vec<FwCfgItem>) -> (r: Result<(), IoErrorKind>)
        requires
            old(self).wf(),
            old(self)@.items.len() + items@.len() <= MAX_ITEMS,
        ensures
            final(self).wf(),
            (final(self)@, r) == old(self)@.add_items(item_models(items@)),
    {
        let mut rest: Vec<FwCfgItem> = items;
        let ghost all = old(self)@.add_items(item_models(items@));
        while rest.len() > 0
            invariant
                self.wf(),
                self@.items.len() + rest@.len() <= MAX_ITEMS,
                self@.add_items(item_models(rest@)) == all,
                all == old(self)@.add_items(item_models(items@)),
            decreases rest@.len(),
        {
            let ghost before = rest@;
            let item = rest.remove(0);
            proof {
                assert(item_models(before).first() == item@);
                assert(item_models(before).drop_first() =~= item_models(rest@));
            }
            if let Err(e) = self.add_item(item) {
                return Err(e);
            }
        }
        Ok(())
    }

    /// Fills the device.
    pub fn populate_fw_cfg(
        &mut self,
        fw_cfg_init: FwCfgInit,
        sev_snp: bool,
        layout: &MemoryLayout,
    ) -> (r: Result<(), IoErrorKind>)
        requires
            old(self).wf(),
            fw_cfg_init.wf(sev_snp, *layout),
            old(self)@.items.len() + fw_cfg_init.item_count() <= MAX_ITEMS,
        ensures
            final(self).wf(),
            (final(self)@, r) == old(self)@.populate(fw_cfg_init, sev_snp, *layout),
    {
        let ghost init = fw_cfg_init;
        if let Some(mem_size) = fw_cfg_init.e820 {
            if let Err(e) = self.add_e820(mem_size, layout) {
                return Err(e);
            }
        }
        if let Some(kernel) = &fw_cfg_init.kernel {
            if let Err(e) = self.add_kernel_data(kernel, sev_snp) {
                return Err(e);
            }
        }
        if let Some(cmdline) = fw_cfg_init.cmdline {
            self.add_kernel_cmdline(cmdline);
        }
        if let Some(initramfs) = &fw_cfg_init.initramfs {
            if let Err(e) = self.add_initramfs_data(initramfs) {
                return Err(e);
            }
        }
        if let Some(fw_cfg_item_list) = fw_cfg_init.item_list {
            if let Err(e) = self.add_item_list(fw_cfg_item_list) {
                return Err(e);
            }
        }
        let mut uuid: Vec<u8> = Vec::new();
        bytes::push_all(&mut uuid, fw_cfg_init.uuid.as_slice());
        assert(uuid@ =~= init.uuid@);
        self.set_known_item(FW_CFG_UUID, FwCfgContent::Bytes(uuid));
        self.set_known_item(FW_CFG_RAM_SIZE, FwCfgContent::U64(fw_cfg_init.memory_size));
        self.set_known_item(
            FW_CFG_NOGRAPHIC,
            FwCfgContent::U16(
                if fw_cfg_init.no_graphics {
                    1
                } else {
                    0
                },
            ),
        );
        self.set_known_item(FW_CFG_NB_CPUS, FwCfgContent::U16(fw_cfg_init.nb_cpus));
        self.set_known_item(FW_CFG_MAX_CPUS, FwCfgContent::U16(fw_cfg_init.max_cpus));
        self.set_known_item(
            FW_CFG_BOOT_MENU,
            FwCfgContent::U16(
                if fw_cfg_init.boot_menu {
                    1
                } else {
                    0
                },
            ),
        );
        Ok(())
    }
}

} // verus!
