//! The file directory, item `FW_CFG_FILE_DIR`.
//!
//! The directory is the number of named items, followed by one entry of
//! 64 bytes for each of them: its size, its selector and its name.
use crate::bytes;
use crate::fw_cfg::content::FwCfgContent;
use crate::fw_cfg::content::IoErrorKind;
use crate::fw_cfg::content::ItemModel;
use vstd::prelude::*;

verus! {

/// The size of a file name in a directory entry, the final zero included.
pub const FILE_NAME_SIZE: usize = 56;

/// The selector of the first named item.
pub const FW_CFG_FILE_FIRST: u16 = 0x20;

/// How many named items 16-bit selectors can tell apart.
pub const MAX_ITEMS: usize = 65504;

/// A name as a zero-terminated field: as many of its bytes as leave room for
/// one zero, and zeros up to the end.
pub open spec fn file_name(name: Seq<char>) -> Seq<u8> {
    let b = vstd::utf8::encode_utf8(name);
    if b.len() < FILE_NAME_SIZE {
        b + bytes::zeros((FILE_NAME_SIZE - b.len()) as nat)
    } else {
        b.take(FILE_NAME_SIZE - 1) + bytes::zeros(1)
    }
}

/// The directory entry of an item.
pub open spec fn entry(size: u32, selector: u16, name: Seq<char>) -> Seq<u8> {
    bytes::be32(size) + bytes::be16(selector) + bytes::zeros(2) + file_name(name)
}

/// The selector of the named item at `index`.
pub open spec fn item_selector(index: int) -> u16 {
    (FW_CFG_FILE_FIRST + index) as u16
}

/// The entry of the item at `index`.
pub open spec fn item_entry(item: ItemModel, index: int) -> Seq<u8> {
    entry(item.content.recorded_size()->Ok_0, item_selector(index), item.name)
}

/// The entries of the items, one after the other.
pub open spec fn entries(items: Seq<ItemModel>) -> Seq<u8>
    decreases items.len(),
{
    if items.len() == 0 {
        Seq::empty()
    } else {
        entries(items.drop_last()) + item_entry(items.last(), items.len() - 1)
    }
}

/// The whole directory.
pub open spec fn directory(items: Seq<ItemModel>) -> Seq<u8> {
    bytes::be32(items.len() as u32) + entries(items)
}

/// A file name always fills its field and ends with a zero.
pub proof fn lemma_file_name(name: Seq<char>)
    ensures
        file_name(name).len() == FILE_NAME_SIZE,
        file_name(name).last() == 0,
{
}

/// A directory entry is 64 bytes long.
pub proof fn lemma_entry_len(size: u32, selector: u16, name: Seq<char>)
    ensures
        entry(size, selector, name).len() == 64,
{
    lemma_file_name(name);
}

/// The entries take 64 bytes each.
pub proof fn lemma_entries_len(items: Seq<ItemModel>)
    ensures
        entries(items).len() == 64 * items.len(),
    decreases items.len(),
{
    if items.len() > 0 {
        lemma_entries_len(items.drop_last());
        lemma_entry_len(
            items.last().content.recorded_size()->Ok_0,
            item_selector(items.len() - 1),
            items.last().name,
        );
    }
}

/// The entry of the item at `index` stands at its place in the directory,
/// whatever follows.
pub proof fn lemma_entry_at(items: Seq<ItemModel>, index: int)
    requires
        0 <= index < items.len(),
    ensures
        4 + 64 * index + 64 <= directory(items).len(),
        directory(items).subrange(4 + 64 * index, 4 + 64 * index + 64) == item_entry(
            items[index],
            index,
        ),
    decreases items.len(),
{
    lemma_entries_len(items);
    lemma_entries_len(items.drop_last());
    let last = items.last();
    lemma_entry_len(
        last.content.recorded_size()->Ok_0,
        item_selector(items.len() - 1),
        last.name,
    );
    if index == items.len() - 1 {
        assert(directory(items).subrange(4 + 64 * index, 4 + 64 * index + 64) =~= item_entry(
            last,
            index,
        ));
    } else {
        lemma_entry_at(items.drop_last(), index);
        assert(directory(items).subrange(4 + 64 * index, 4 + 64 * index + 64) =~= directory(
            items.drop_last(),
        ).subrange(4 + 64 * index, 4 + 64 * index + 64));
    }
}

/// The file name field for `name`.
pub fn create_file_name(name: &str) -> (r: [u8; FILE_NAME_SIZE])
    ensures
        r@ == file_name(name@),
{
    let b = name.as_bytes();
    let mut c_name: [u8; FILE_NAME_SIZE] = [0u8; FILE_NAME_SIZE];
    let c_len: usize = if FILE_NAME_SIZE - 1 < b.len() {
        FILE_NAME_SIZE - 1
    } else {
        b.len()
    };
    let mut i: usize = 0;
    while i < c_len
        invariant
            i <= c_len,
            c_len <= b@.len(),
            c_len < FILE_NAME_SIZE,
            c_name@.len() == FILE_NAME_SIZE,
            forall|k: int| 0 <= k < i ==> c_name@[k] == b@[k],
            forall|k: int| i <= k < FILE_NAME_SIZE ==> c_name@[k] == 0,
        decreases c_len - i,
    {
        c_name[i] = b[i];
        i = i + 1;
    }
    assert(c_name@ =~= file_name(name@));
    c_name
}

/// The directory entry for an item, if its size is known.
pub fn create_entry(name: &str, content: &FwCfgContent, index: usize) -> (r: Result<
    Vec<u8>,
    IoErrorKind,
>)
    requires
        index < MAX_ITEMS,
    ensures
        match content@.recorded_size() {
            Ok(size) => r is Ok && r->Ok_0@ == entry(size, item_selector(index as int), name@),
            Err(e) => r == Err::<Vec<u8>, IoErrorKind>(e),
        },
{
    let c_name = create_file_name(name);
    let size: u32 = match content.size() {
        Ok(size) => size,
        Err(e) => {
            return Err(e);
        },
    };
    let mut out: Vec<u8> = Vec::new();
    bytes::push_be32(&mut out, size);
    bytes::push_be16(&mut out, FW_CFG_FILE_FIRST + index as u16);
    bytes::push_zeros(&mut out, 2);
    bytes::push_all(&mut out, c_name.as_slice());
    assert(out@ =~= entry(size, item_selector(index as int), name@));
    Ok(out)
}

} // verus!
