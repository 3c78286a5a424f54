//! The parts of a bzImage that the guest's firmware asks for.
//!
//! A bzImage starts with the real-mode setup code, whose first 4096 bytes hold
//! the setup header; the kernel proper follows it.
use crate::bytes;
use crate::fw_cfg::content::FileRef;
use crate::fw_cfg::content::IoErrorKind;
use vstd::prelude::*;

verus! {

/// The size of the boot parameters, which the setup header is a part of.
pub const BOOT_PARAMS_SIZE: usize = 4096;

/// "HdrS", the mark of a setup header.
pub const SETUP_HEADER_MAGIC: u32 = 0x5372_6448;

/// The first version of the boot protocol with high-loaded images.
pub const MIN_BOOT_PROTOCOL: u16 = 0x0200;

/// Where a high-loaded image is placed.
pub const KERNEL_LOAD_ADDRESS: u32 = 0x10_0000;

/// The loader type for a loader without a number of its own.
pub const LOADER_TYPE_UNDEFINED: u8 = 0xff;

/// How many setup sectors an image has that leaves their number out.
pub const DEFAULT_SETUP_SECTS: u8 = 4;

pub const SETUP_SECTS_OFFSET: usize = 0x1f1;

pub const HEADER_MAGIC_OFFSET: usize = 0x202;

pub const VERSION_OFFSET: usize = 0x206;

pub const TYPE_OF_LOADER_OFFSET: usize = 0x210;

pub const LOADFLAGS_OFFSET: usize = 0x211;

/// The fields of the setup header that decide how an image is served.
#[derive(Clone, Copy, Debug)]
pub struct SetupHeader {
    pub setup_sects: u8,
    pub header: u32,
    pub version: u16,
    pub loadflags: u8,
}

/// Whether `h` is what stands in the boot parameters `b`.
pub open spec fn header_of(b: Seq<u8>, h: SetupHeader) -> bool {
    &&& h.setup_sects == b[SETUP_SECTS_OFFSET as int]
    &&& h.header == bytes::le_value(
        b.subrange(HEADER_MAGIC_OFFSET as int, HEADER_MAGIC_OFFSET + 4),
    )
    &&& h.version == bytes::le_value(b.subrange(VERSION_OFFSET as int, VERSION_OFFSET + 2))
    &&& h.loadflags == b[LOADFLAGS_OFFSET as int]
}

/// The setup header inside the boot parameters, as
/// `vm_memory::ByteValued::from_slice` for
/// `linux_loader::loader::bootparam::boot_params` shows it. That structure is
/// packed and 4096 bytes long, so every slice of that length is one.
#[verifier::external_body]
fn read_setup_header(b: &[u8]) -> (h: SetupHeader)
    requires
        b@.len() == BOOT_PARAMS_SIZE,
    ensures
        header_of(b@, h),
{
    let bp: &linux_loader::loader::bootparam::boot_params =
        vm_memory::ByteValued::from_slice(b).unwrap();
    SetupHeader {
        setup_sects: bp.hdr.setup_sects,
        header: bp.hdr.header,
        version: bp.hdr.version,
        loadflags: bp.hdr.loadflags,
    }
}

/// Sets two fields of the setup header through
/// `vm_memory::ByteValued::from_mut_slice` for
/// `linux_loader::loader::bootparam::boot_params`. Each of them is one byte of
/// the slice; all others stay as they are.
#[verifier::external_body]
fn write_setup_header(b: &mut [u8], setup_sects: u8, type_of_loader: u8)
    requires
        old(b)@.len() == BOOT_PARAMS_SIZE,
    ensures
        final(b)@ == old(b)@.update(SETUP_SECTS_OFFSET as int, setup_sects).update(
            TYPE_OF_LOADER_OFFSET as int,
            type_of_loader,
        ),
{
    let bp: &mut linux_loader::loader::bootparam::boot_params =
        vm_memory::ByteValued::from_mut_slice(b).unwrap();
    bp.hdr.setup_sects = setup_sects;
    bp.hdr.type_of_loader = type_of_loader;
}

/// A kernel image, as far as it was read.
#[derive(Debug)]
pub struct KernelFile {
    /// The file.
    pub file: FileRef,
    /// Its first 4096 bytes.
    pub header: Result<Vec<u8>, IoErrorKind>,
    /// The bytes from there to the end of the setup code, where that is later.
    pub setup_tail: Result<Vec<u8>, IoErrorKind>,
    /// Whether the file could be opened a second time, to serve the kernel.
    pub reopened: Result<(), IoErrorKind>,
}

/// Whether the boot parameters are those of a high-loaded bzImage with boot
/// protocol 2.00 or later.
pub open spec fn is_high_loaded(b: Seq<u8>) -> bool {
    &&& bytes::le_value(b.subrange(HEADER_MAGIC_OFFSET as int, HEADER_MAGIC_OFFSET + 4))
        == SETUP_HEADER_MAGIC
    &&& bytes::le_value(b.subrange(VERSION_OFFSET as int, VERSION_OFFSET + 2))
        >= MIN_BOOT_PROTOCOL
    &&& b[LOADFLAGS_OFFSET as int] % 2 == 1
}

/// The number of setup sectors, with the default in place.
pub open spec fn setup_sectors(b: Seq<u8>) -> u8 {
    if b[SETUP_SECTS_OFFSET as int] == 0 {
        DEFAULT_SETUP_SECTS
    } else {
        b[SETUP_SECTS_OFFSET as int]
    }
}

/// Where the kernel proper starts: after the boot sector and the setup code.
pub open spec fn kernel_start(b: Seq<u8>) -> int {
    (setup_sectors(b) + 1) * 512
}

/// The boot parameters as the guest gets to see them. Those of a SEV-SNP guest
/// stay as they are, so that they match the measured ones.
pub open spec fn patched(b: Seq<u8>, sev_snp: bool) -> Seq<u8> {
    if sev_snp {
        b
    } else {
        b.update(SETUP_SECTS_OFFSET as int, setup_sectors(b)).update(
            TYPE_OF_LOADER_OFFSET as int,
            LOADER_TYPE_UNDEFINED,
        )
    }
}

/// The setup code as the guest gets to see it.
pub open spec fn setup_data(b: Seq<u8>, tail: Seq<u8>, sev_snp: bool) -> Seq<u8> {
    if kernel_start(b) <= BOOT_PARAMS_SIZE {
        patched(b, sev_snp).take(kernel_start(b))
    } else {
        patched(b, sev_snp) + tail
    }
}

impl KernelFile {
    /// Whether the two reads returned as many bytes as were asked for.
    pub open spec fn wf(self) -> bool {
        match self.header {
            Err(_) => true,
            Ok(b) => {
                &&& b@.len() == BOOT_PARAMS_SIZE
                &&& kernel_start(b@) > BOOT_PARAMS_SIZE ==> (self.setup_tail matches Ok(t)
                    ==> t@.len() == kernel_start(b@) - BOOT_PARAMS_SIZE)
            },
        }
    }

    /// The setup code and where the kernel starts, or why there is none.
    pub open spec fn setup(self, sev_snp: bool) -> Result<(Seq<u8>, int), IoErrorKind> {
        match self.header {
            Err(e) => Err(e),
            Ok(b) => if !is_high_loaded(b@) {
                Err(IoErrorKind::InvalidInput)
            } else if kernel_start(b@) <= BOOT_PARAMS_SIZE {
                Ok((setup_data(b@, Seq::empty(), sev_snp), kernel_start(b@)))
            } else {
                match self.setup_tail {
                    Err(e) => Err(e),
                    Ok(t) => Ok((setup_data(b@, t@, sev_snp), kernel_start(b@))),
                }
            },
        }
    }
}

/// How many bytes from offset 4096 on belong to the setup code of the image
/// with these boot parameters.
pub fn setup_tail_len(b: &[u8]) -> (r: usize)
    requires
        b@.len() == BOOT_PARAMS_SIZE,
    ensures
        r == if kernel_start(b@) > BOOT_PARAMS_SIZE {
            kernel_start(b@) - BOOT_PARAMS_SIZE
        } else {
            0
        },
{
    let h = read_setup_header(b);
    let sects: u8 = if h.setup_sects == 0 {
        DEFAULT_SETUP_SECTS
    } else {
        h.setup_sects
    };
    let start: usize = (sects as usize + 1) * 512;
    if start > BOOT_PARAMS_SIZE {
        start - BOOT_PARAMS_SIZE
    } else {
        0
    }
}

/// The setup code of an image and where its kernel starts.
#[derive(Debug)]
pub struct SetupImage {
    pub data: Vec<u8>,
    pub kernel_start: usize,
}

/// Takes an image apart. Only high-loaded images in bzImage format with boot
/// protocol 2.00 or later are accepted.
pub fn split_kernel(kernel: &KernelFile, sev_snp: bool) -> (r: Result<SetupImage, IoErrorKind>)
    requires
        kernel.wf(),
    ensures
        match kernel.setup(sev_snp) {
            Ok((data, start)) => r is Ok && r->Ok_0.data@ == data && r->Ok_0.kernel_start == start
                && data.len() == start && 1024 <= start <= 131072,
            Err(e) => r == Err::<SetupImage, IoErrorKind>(e),
        },
{
    let header: &Vec<u8> = match &kernel.header {
        Ok(b) => b,
        Err(e) => {
            return Err(*e);
        },
    };
    let mut buffer: Vec<u8> = Vec::new();
    bytes::push_all(&mut buffer, header.as_slice());
    assert(buffer@ =~= header@);
    let h = read_setup_header(buffer.as_slice());
    if h.header != SETUP_HEADER_MAGIC || h.version < MIN_BOOT_PROTOCOL || h.loadflags % 2 == 0 {
        return Err(IoErrorKind::InvalidInput);
    }
    let sects: u8 = if h.setup_sects == 0 {
        DEFAULT_SETUP_SECTS
    } else {
        h.setup_sects
    };
    if !sev_snp {
        write_setup_header(&mut buffer, sects, LOADER_TYPE_UNDEFINED);
    }
    assert(buffer@ =~= patched(header@, sev_snp));
    let start: usize = (sects as usize + 1) * 512;
    if start <= BOOT_PARAMS_SIZE {
        buffer.truncate(start);
        assert(buffer@ =~= setup_data(header@, Seq::empty(), sev_snp));
    } else {
        match &kernel.setup_tail {
            Err(e) => {
                return Err(*e);
            },
            Ok(t) => {
                bytes::push_all(&mut buffer, t.as_slice());
            },
        }
    }
    Ok(SetupImage { data: buffer, kernel_start: start })
}

} // verus!
