//! The requests of the DMA interface.
//!
//! A guest describes a transfer in 16 bytes of its memory, all numbers in
//! big-endian order: a control word, a length and an address. The device
//! performs the transfer and overwrites the control word with its outcome.
use crate::bytes;
use crate::fw_cfg::content::ContentModel;
use crate::fw_cfg::content::FileAccess;
use crate::fw_cfg::content::FileAccessModel;
use crate::fw_cfg::content::FwCfgContent;
use crate::fw_cfg::content::IoErrorKind;
use vstd::prelude::*;

verus! {

/// The size of a request in guest memory.
pub const DMA_ACCESS_SIZE: usize = 16;

pub const FW_CFG_DMA_CTL_ERROR: u32 = 0x01;

pub const FW_CFG_DMA_CTL_READ: u32 = 0x02;

pub const FW_CFG_DMA_CTL_SKIP: u32 = 0x04;

pub const FW_CFG_DMA_CTL_SELECT: u32 = 0x08;

pub const FW_CFG_DMA_CTL_WRITE: u32 = 0x10;

/// A request.
#[derive(Clone, Copy, Debug)]
pub struct FwCfgDmaAccess {
    pub control: u32,
    pub length: u32,
    pub address: u64,
}

/// Whether the control word has the one-bit flag `flag`.
pub open spec fn has_flag(control: u32, flag: u32) -> bool {
    (control / flag) % 2 == 1
}

fn check_flag(control: u32, flag: u32) -> (r: bool)
    requires
        flag > 0,
    ensures
        r == has_flag(control, flag),
{
    (control / flag) % 2 == 1
}

/// What a request asks for.
#[derive(Clone, Copy, Debug, PartialEq, Eq, Structural)]
pub enum DmaOperation {
    /// Copy a part of the selected item to guest memory.
    Read,
    /// Overwrite a part of the selected item, which is not supported.
    Write,
    /// Move the cursor on.
    Skip,
    /// Nothing known.
    Unknown,
}

impl FwCfgDmaAccess {
    /// The request that 16 bytes describe.
    pub open spec fn decoded(b: Seq<u8>) -> FwCfgDmaAccess {
        FwCfgDmaAccess {
            control: bytes::be_value(b.subrange(0, 4)) as u32,
            length: bytes::be_value(b.subrange(4, 8)) as u32,
            address: (bytes::be_value(b.subrange(8, 12)) * 0x1_0000_0000 + bytes::be_value(
                b.subrange(12, 16),
            )) as u64,
        }
    }

    /// Whether the request selects an item first.
    pub open spec fn selects(self) -> bool {
        has_flag(self.control, FW_CFG_DMA_CTL_SELECT)
    }

    /// What the request asks for.
    pub open spec fn asks(self) -> DmaOperation {
        if has_flag(self.control, FW_CFG_DMA_CTL_READ) {
            DmaOperation::Read
        } else if has_flag(self.control, FW_CFG_DMA_CTL_WRITE) {
            DmaOperation::Write
        } else if has_flag(self.control, FW_CFG_DMA_CTL_SKIP) {
            DmaOperation::Skip
        } else {
            DmaOperation::Unknown
        }
    }

    /// Decodes a request.
    pub fn decode(b: &[u8]) -> (r: FwCfgDmaAccess)
        requires
            b@.len() == DMA_ACCESS_SIZE,
        ensures
            r == FwCfgDmaAccess::decoded(b@),
    {
        let control: u32 = bytes::read_be32(vstd::slice::slice_subrange(b, 0, 4));
        let length: u32 = bytes::read_be32(vstd::slice::slice_subrange(b, 4, 8));
        let high: u32 = bytes::read_be32(vstd::slice::slice_subrange(b, 8, 12));
        let low: u32 = bytes::read_be32(vstd::slice::slice_subrange(b, 12, 16));
        FwCfgDmaAccess { control, length, address: high as u64 * 0x1_0000_0000 + low as u64 }
    }

    /// Whether the request selects an item first.
    pub fn is_select(&self) -> (r: bool)
        ensures
            r == self.selects(),
    {
        check_flag(self.control, FW_CFG_DMA_CTL_SELECT)
    }

    /// What the request asks for.
    pub fn operation(&self) -> (r: DmaOperation)
        ensures
            r == self.asks(),
    {
        if check_flag(self.control, FW_CFG_DMA_CTL_READ) {
            DmaOperation::Read
        } else if check_flag(self.control, FW_CFG_DMA_CTL_WRITE) {
            DmaOperation::Write
        } else if check_flag(self.control, FW_CFG_DMA_CTL_SKIP) {
            DmaOperation::Skip
        } else {
            DmaOperation::Unknown
        }
    }
}

/// The bytes that a read request transfers: those from the cursor on, up to
/// the end of the item and no more than `len`.
pub open spec fn dma_data(
    content: ContentModel,
    offset: u32,
    len: u32,
    file: FileAccessModel,
) -> Result<Seq<u8>, IoErrorKind> {
    match content.size(file.len) {
        Err(e) => Err(e),
        Ok(size) => {
            let rest = if size > offset {
                size - offset
            } else {
                0
            };
            let count = if rest < len {
                rest
            } else {
                len as int
            };
            if count == 0 {
                Ok(Seq::empty())
            } else {
                match content {
                    ContentModel::Data(d) => Ok(d.subrange(offset as int, offset + count)),
                    ContentModel::File(_, _) => match file.bytes {
                        Err(e) => Err(e),
                        Ok(b) => if b.len() == count {
                            Ok(b)
                        } else {
                            Err(IoErrorKind::UnexpectedEof)
                        },
                    },
                }
            }
        },
    }
}

/// Collects the bytes that a read request transfers.
pub fn read_for_dma(content: &FwCfgContent, offset: u32, len: u32, file: &FileAccess) -> (r: Result<
    Vec<u8>,
    IoErrorKind,
>)
    ensures
        match dma_data(content@, offset, len, file@) {
            Ok(b) => r is Ok && r->Ok_0@ == b && b.len() <= len && offset + b.len() <= u32::MAX,
            Err(e) => r == Err::<Vec<u8>, IoErrorKind>(e),
        },
{
    let size: u32 = match content.size_with(file.len) {
        Ok(size) => size,
        Err(e) => {
            return Err(e);
        },
    };
    let rest: u32 = size.saturating_sub(offset);
    let count: u32 = if rest < len {
        rest
    } else {
        len
    };
    let mut buf: Vec<u8> = Vec::new();
    bytes::push_zeros(&mut buf, count as usize);
    assert(buf@.len() == count);
    if count == 0 {
        assert(buf@ =~= Seq::empty());
        return Ok(buf);
    }
    let ghost before = buf@;
    match content.access(offset).read(&mut buf, &file.bytes) {
        Err(e) => Err(e),
        Ok(n) => if n == count as usize {
            assert(content@ is Data ==> buf@ =~= content@->Data_0.subrange(
                offset as int,
                offset + count,
            ));
            proof {
                if content@ is File {
                    assert(file.bytes->Ok_0@.len() == file.bytes->Ok_0.len());
                    assert(buf@ =~= file@.bytes->Ok_0);
                }
            }
            Ok(buf)
        } else {
            Err(IoErrorKind::UnexpectedEof)
        },
    }
}

/// What is left to do for a request.
#[derive(Debug)]
pub enum DmaStep {
    /// Write these bytes to guest memory.
    Transfer(Vec<u8>),
    /// Report this outcome.
    Done(Result<(), IoErrorKind>),
}

/// The mathematical value of a [`DmaStep`].
pub ghost enum DmaStepModel {
    Transfer(Seq<u8>),
    Done(Result<(), IoErrorKind>),
}

impl View for DmaStep {
    type V = DmaStepModel;

    open spec fn view(&self) -> DmaStepModel {
        match *self {
            DmaStep::Transfer(b) => DmaStepModel::Transfer(b@),
            DmaStep::Done(r) => DmaStepModel::Done(r),
        }
    }
}

/// The control word that reports the outcome of a request.
pub open spec fn dma_outcome(r: Result<(), IoErrorKind>) -> u32 {
    if r is Ok {
        0
    } else {
        FW_CFG_DMA_CTL_ERROR
    }
}

/// The bytes that report the outcome of a request.
pub fn dma_response(r: &Result<(), IoErrorKind>) -> (b: Vec<u8>)
    ensures
        b@ == bytes::be32(dma_outcome(*r)),
{
    let mut out: Vec<u8> = Vec::new();
    let control: u32 = match r {
        Ok(_) => 0,
        Err(_) => FW_CFG_DMA_CTL_ERROR,
    };
    bytes::push_be32(&mut out, control);
    assert(out@ =~= bytes::be32(control));
    out
}

} // verus!
