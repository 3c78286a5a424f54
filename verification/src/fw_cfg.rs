//! The QEMU firmware configuration device (`fw_cfg`).
//!
//! A guest selects an item by number and reads its bytes one after the other
//! through an I/O port. Items 0x00 to 0x1f are well-known; the others are
//! named files that the item `FW_CFG_FILE_DIR` lists.
//!
//! * [`content`] is what an item holds, and how it is read,
//! * [`directory`] is the list of the named items,
//! * [`device`] is the device itself,
//! * [`populate`] fills it before the guest starts,
//! * [`acpi`] builds the items from which firmware loads the ACPI tables,
//! * [`e820`] builds the memory map item,
//! * [`kernel`] takes a bzImage apart,
//! * [`dma`] is the DMA interface, which [`guest_memory`] serves,
//! * [`laws`] states what holds of the device as a whole.
pub mod acpi;
pub mod content;
pub mod device;
pub mod directory;
pub mod dma;
pub mod e820;
pub mod guest_memory;
pub mod kernel;
pub mod laws;
pub mod populate;
