//! What a `fw_cfg` item holds.
//!
//! Most items live in memory. An item may also stand for the rest of a file,
//! from some offset on; the file itself is outside of this crate, which names
//! it by a number and works on what the file gave when it was looked at.
use crate::bytes;
use vstd::prelude::*;

verus! {

/// Why an input or output operation failed.
#[derive(Clone, Copy, Debug, PartialEq, Eq, Structural)]
pub enum IoErrorKind {
    /// The data ended before the operation could complete.
    UnexpectedEof,
    /// A parameter does not fit the operation.
    InvalidInput,
    /// The data is malformed.
    InvalidData,
    /// There is no such thing.
    NotFound,
    /// Any other failure, with the operating system's error number.
    Other(i32),
}

/// A file that backs an item.
#[derive(Clone, Copy, Debug)]
pub struct FileRef {
    /// Which file it is.
    pub id: u32,
    /// The file's length when it was handed over, or why that is not known.
    pub len: Result<u64, IoErrorKind>,
}

/// What a file gave when it was accessed on behalf of the guest.
///
/// Items that live in memory take no notice of it.
#[derive(Debug)]
pub struct FileAccess {
    /// The file's length at that moment.
    pub len: Result<u64, IoErrorKind>,
    /// The bytes read from the position that was asked for.
    pub bytes: Result<Vec<u8>, IoErrorKind>,
}

/// The mathematical value of a [`FileAccess`].
pub ghost struct FileAccessModel {
    pub len: Result<u64, IoErrorKind>,
    pub bytes: Result<Seq<u8>, IoErrorKind>,
}

impl View for FileAccess {
    type V = FileAccessModel;

    open spec fn view(&self) -> FileAccessModel {
        FileAccessModel {
            len: self.len,
            bytes: match self.bytes {
                Ok(b) => Ok(b@),
                Err(e) => Err(e),
            },
        }
    }
}

impl FileAccess {
    /// The access record for items that need no file.
    pub fn none() -> (r: FileAccess)
        ensures
            r@ == (FileAccessModel {
                len: Err(IoErrorKind::NotFound),
                bytes: Err(IoErrorKind::NotFound),
            }),
    {
        FileAccess { len: Err(IoErrorKind::NotFound), bytes: Err(IoErrorKind::NotFound) }
    }
}

/// The content of an item.
#[derive(Debug)]
pub enum FwCfgContent {
    /// Bytes that the item owns.
    Bytes(Vec<u8>),
    /// Bytes that are part of the program.
    Slice(&'static [u8]),
    /// The rest of a file from an offset on.
    File(u64, FileRef),
    /// A number, read in little-endian order.
    U64(u64),
    /// A number, read in little-endian order.
    U32(u32),
    /// A number, read in little-endian order.
    U16(u16),
}

/// The mathematical value of a content: the bytes that a guest can read, or
/// the part of a file that it can read.
pub ghost enum ContentModel {
    Data(Seq<u8>),
    File(u64, FileRef),
}

impl View for FwCfgContent {
    type V = ContentModel;

    open spec fn view(&self) -> ContentModel {
        match *self {
            FwCfgContent::Bytes(v) => ContentModel::Data(v@),
            FwCfgContent::Slice(s) => ContentModel::Data(s@),
            FwCfgContent::File(offset, file) => ContentModel::File(offset, file),
            FwCfgContent::U64(n) => ContentModel::Data(bytes::le64(n)),
            FwCfgContent::U32(n) => ContentModel::Data(bytes::le32(n)),
            FwCfgContent::U16(n) => ContentModel::Data(bytes::le16(n)),
        }
    }
}

/// A size as a 32-bit number, if it is one.
pub open spec fn fits_u32(n: int) -> Result<u32, IoErrorKind> {
    if n <= u32::MAX {
        Ok(n as u32)
    } else {
        Err(IoErrorKind::InvalidInput)
    }
}

impl ContentModel {
    /// The size of the content, given what is known of its file's length.
    pub open spec fn size(self, file_len: Result<u64, IoErrorKind>) -> Result<u32, IoErrorKind> {
        match self {
            ContentModel::Data(d) => fits_u32(d.len() as int),
            ContentModel::File(offset, _) => match file_len {
                Err(e) => Err(e),
                Ok(len) => if len < offset {
                    Err(IoErrorKind::UnexpectedEof)
                } else {
                    fits_u32(len - offset)
                },
            },
        }
    }

    /// The size when the item was handed over.
    pub open spec fn recorded_size(self) -> Result<u32, IoErrorKind> {
        match self {
            ContentModel::Data(_) => self.size(Err(IoErrorKind::NotFound)),
            ContentModel::File(_, file) => self.size(file.len),
        }
    }

    /// What reading `n` bytes at `offset` yields.
    pub open spec fn read_at(
        self,
        offset: u32,
        n: nat,
        file: Result<Seq<u8>, IoErrorKind>,
    ) -> Result<Seq<u8>, IoErrorKind> {
        match self {
            ContentModel::Data(d) => if offset > d.len() {
                Err(IoErrorKind::UnexpectedEof)
            } else if d.len() - offset < n {
                Ok(d.skip(offset as int))
            } else {
                Ok(d.subrange(offset as int, offset + n))
            },
            ContentModel::File(_, _) => file,
        }
    }
}

/// A content together with a position in it.
#[derive(Debug)]
pub struct FwCfgContentAccess<'a> {
    pub content: &'a FwCfgContent,
    pub offset: u32,
}

/// Copies as much of `src`, from `offset` on, as there is and as fits `buf`.
fn read_slice(src: &[u8], offset: u32, buf: &mut [u8]) -> (r: Result<usize, IoErrorKind>)
    ensures
        final(buf)@.len() == old(buf)@.len(),
        match ContentModel::Data(src@).read_at(
            offset,
            old(buf)@.len(),
            Err(IoErrorKind::NotFound),
        ) {
            Ok(b) => r == Ok::<usize, IoErrorKind>(b.len() as usize) && final(buf)@ == b + old(
                buf,
            )@.skip(b.len() as int),
            Err(e) => r == Err::<usize, IoErrorKind>(e) && final(buf)@ == old(buf)@,
        },
{
    if offset as u64 > src.len() as u64 {
        return Err(IoErrorKind::UnexpectedEof);
    }
    let start: usize = offset as usize;
    let rest: usize = src.len() - start;
    let n: usize = if rest < buf.len() {
        rest
    } else {
        buf.len()
    };
    let part = vstd::slice::slice_subrange(src, start, start + n);
    bytes::copy_prefix(buf, part);
    proof {
        if src@.len() - offset < old(buf)@.len() {
            assert(part@ =~= src@.skip(offset as int));
        }
    }
    Ok(n)
}

impl<'a> FwCfgContentAccess<'a> {
    /// Reads from the position on into `buf`, and says how many bytes there
    /// were. For an item that a file backs, `file` is what reading the file
    /// gave.
    pub fn read(&self, buf: &mut [u8], file: &Result<Vec<u8>, IoErrorKind>) -> (r: Result<
        usize,
        IoErrorKind,
    >)
        ensures
            final(buf)@.len() == old(buf)@.len(),
            match self.content@.read_at(
                self.offset,
                old(buf)@.len(),
                match *file {
                    Ok(b) => Ok(b@),
                    Err(e) => Err(e),
                },
            ) {
                Ok(b) => r == Ok::<usize, IoErrorKind>(b.len() as usize) && (b.len() <= old(
                    buf,
                )@.len() ==> final(buf)@ == b + old(buf)@.skip(b.len() as int)),
                Err(e) => r == Err::<usize, IoErrorKind>(e) && final(buf)@ == old(buf)@,
            },
    {
        match self.content {
            FwCfgContent::Bytes(b) => read_slice(b.as_slice(), self.offset, buf),
            FwCfgContent::Slice(b) => read_slice(b, self.offset, buf),
            FwCfgContent::File(_, _) => match file {
                Ok(b) => {
                    if b.len() <= buf.len() {
                        bytes::copy_prefix(buf, b.as_slice());
                    }
                    Ok(b.len())
                },
                Err(e) => Err(*e),
            },
            FwCfgContent::U64(n) => {
                let mut b: Vec<u8> = Vec::new();
                bytes::push_le64(&mut b, *n);
                assert(b@ =~= bytes::le64(*n));
                read_slice(b.as_slice(), self.offset, buf)
            },
            FwCfgContent::U32(n) => {
                let mut b: Vec<u8> = Vec::new();
                bytes::push_le32(&mut b, *n);
                assert(b@ =~= bytes::le32(*n));
                read_slice(b.as_slice(), self.offset, buf)
            },
            FwCfgContent::U16(n) => {
                let mut b: Vec<u8> = Vec::new();
                bytes::push_le16(&mut b, *n);
                assert(b@ =~= bytes::le16(*n));
                read_slice(b.as_slice(), self.offset, buf)
            },
        }
    }
}

fn to_u32(n: u64) -> (r: Result<u32, IoErrorKind>)
    ensures
        r == fits_u32(n as int),
{
    if n <= 0xffff_ffff {
        Ok(n as u32)
    } else {
        Err(IoErrorKind::InvalidInput)
    }
}

impl Default for FwCfgContent {
    fn default() -> (r: Self)
        ensures
            r@ == ContentModel::Data(Seq::empty()),
    {
        let r = FwCfgContent::Slice(&[]);
        assert(r@ == ContentModel::Data(Seq::empty())) by {
            assert(r->Slice_0@ =~= Seq::<u8>::empty());
        }
        r
    }
}

impl FwCfgContent {
    /// The size of the content in bytes, where `file_len` is the present
    /// length of the file behind it.
    pub fn size_with(&self, file_len: Result<u64, IoErrorKind>) -> (r: Result<u32, IoErrorKind>)
        ensures
            r == self@.size(file_len),
    {
        match self {
            FwCfgContent::Bytes(v) => to_u32(v.len() as u64),
            FwCfgContent::Slice(s) => to_u32(s.len() as u64),
            FwCfgContent::File(offset, _) => match file_len {
                Err(e) => Err(e),
                Ok(len) => if len < *offset {
                    Err(IoErrorKind::UnexpectedEof)
                } else {
                    to_u32(len - *offset)
                },
            },
            FwCfgContent::U64(_) => Ok(8),
            FwCfgContent::U32(_) => Ok(4),
            FwCfgContent::U16(_) => Ok(2),
        }
    }

    /// The size of the content in bytes, as of when it was handed over.
    pub fn size(&self) -> (r: Result<u32, IoErrorKind>)
        ensures
            r == self@.recorded_size(),
    {
        match self {
            FwCfgContent::File(_, file) => self.size_with(file.len),
            _ => self.size_with(Err(IoErrorKind::NotFound)),
        }
    }

    /// A position in this content.
    pub fn access(&self, offset: u32) -> (r: FwCfgContentAccess<'_>)
        ensures
            r.content == self,
            r.offset == offset,
    {
        FwCfgContentAccess { content: self, offset }
    }
}

/// A named item.
#[derive(Debug)]
pub struct FwCfgItem {
    pub name: String,
    pub content: FwCfgContent,
}

/// The mathematical value of a [`FwCfgItem`].
pub ghost struct ItemModel {
    pub name: Seq<char>,
    pub content: ContentModel,
}

impl View for FwCfgItem {
    type V = ItemModel;

    open spec fn view(&self) -> ItemModel {
        ItemModel { name: self.name@, content: self.content@ }
    }
}

impl Default for FwCfgItem {
    fn default() -> (r: Self)
        ensures
            r@ == (ItemModel { name: Seq::empty(), content: ContentModel::Data(Seq::empty()) }),
    {
        FwCfgItem { name: String::new(), content: FwCfgContent::default() }
    }
}

/// Why the selected item could not be read.
#[derive(Clone, Copy, Debug, PartialEq, Eq, Structural)]
pub enum FwCfgContentAccessError {
    /// Failed to access the data source that is backing the item.
    ReadError,
    /// There is no item that the given selector refers to.
    IllegalSelector(u16),
    /// The size of the item does not fit a 32-bit unsigned integer.
    TooLarge,
    /// The cursor pointed behind the end of the item, which means that its
    /// file was shrunk after the last access.
    UnexpectedEof,
    /// Accessing the file behind the item failed.
    FileAccessFailed(IoErrorKind),
}

} // verus!
