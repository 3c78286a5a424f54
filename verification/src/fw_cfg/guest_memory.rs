//! Access to the guest's memory.
//!
//! The memory is shared with the running guest. Nothing is known of what a
//! read finds there, nor of what a later read finds after a write. What is
//! known is which bytes were written here, and where.
use vm_memory::bitmap::AtomicBitmap;
use vm_memory::Bytes;
use vm_memory::GuestAddress;
use vm_memory::GuestMemoryMmap;
use vstd::prelude::*;

verus! {

/// `vm_memory::GuestRegionCollection`, the regions of a guest's memory.
#[verifier::external_type_specification]
#[verifier::external_body]
#[verifier::reject_recursive_types(R)]
pub struct ExGuestRegionCollection<R>(vm_memory::GuestRegionCollection<R>);

/// `vm_memory::GuestRegionMmap`, one mapped region.
#[verifier::external_type_specification]
#[verifier::external_body]
#[verifier::reject_recursive_types(B)]
pub struct ExGuestRegionMmap<B>(vm_memory::GuestRegionMmap<B>);

/// `vm_memory::bitmap::AtomicBitmap`, which records written pages.
#[verifier::external_type_specification]
#[verifier::external_body]
pub struct ExAtomicBitmap(vm_memory::bitmap::AtomicBitmap);

/// The guest addresses that lie in a region of the memory, which
/// `vm_memory::GuestMemoryBackend::find_region` looks for.
pub uninterp spec fn mapped(memory: GuestMemoryMmap<AtomicBitmap>) -> Set<u64>;

/// How many of `n` bytes from `address` on lie in memory before the first that
/// does not.
pub open spec fn reach(mapped: Set<u64>, address: int, n: nat) -> nat
    decreases n,
{
    if n == 0 || address > u64::MAX || !mapped.contains(address as u64) {
        0
    } else {
        1 + reach(mapped, address + 1, (n - 1) as nat)
    }
}

/// How many bytes an access to `n` bytes at `address` transfers. It fails if
/// there is no memory at `address`, and stops where the memory does.
pub open spec fn transfer(mapped: Set<u64>, address: u64, n: nat) -> Result<usize, ()> {
    if n > 0 && !mapped.contains(address) {
        Err(())
    } else {
        Ok(reach(mapped, address as int, n) as usize)
    }
}

/// An access does not transfer more bytes than it asks for.
pub proof fn lemma_reach(mapped: Set<u64>, address: int, n: nat)
    ensures
        reach(mapped, address, n) <= n,
    decreases n,
{
    if n > 0 {
        lemma_reach(mapped, address + 1, (n - 1) as nat);
    }
}

/// Bytes that were written to guest memory.
#[verifier::ext_equal]
pub ghost struct GuestWrite {
    /// Where the first of them went.
    pub address: u64,
    pub bytes: Seq<u8>,
}

/// The writes so far, and then one of `b` to `address`. It counts as far as
/// there is memory.
pub open spec fn recorded(
    writes: Seq<GuestWrite>,
    mapped: Set<u64>,
    address: u64,
    b: Seq<u8>,
) -> Seq<GuestWrite> {
    let n = reach(mapped, address as int, b.len());
    if n == 0 {
        writes
    } else {
        writes.push(GuestWrite { address, bytes: b.take(n as int) })
    }
}

/// The guest's memory, with a record of all that was written to it through
/// this value.
pub struct GuestRam {
    memory: GuestMemoryMmap<AtomicBitmap>,
    writes: Ghost<Seq<GuestWrite>>,
}

impl GuestRam {
    /// The addresses at which there is memory.
    pub closed spec fn mapped(&self) -> Set<u64> {
        mapped(self.memory)
    }

    /// What was written, in the order in which it was.
    pub closed spec fn writes(&self) -> Seq<GuestWrite> {
        self.writes@
    }

    /// The given memory, to which nothing was written yet.
    pub fn new(memory: GuestMemoryMmap<AtomicBitmap>) -> (r: GuestRam)
        ensures
            r.mapped() == mapped(memory),
            r.writes() == Seq::<GuestWrite>::empty(),
    {
        GuestRam { memory, writes: Ghost(Seq::empty()) }
    }

    /// Puts other memory in place of this one. The record stays.
    pub fn replace(&mut self, memory: GuestMemoryMmap<AtomicBitmap>)
        ensures
            final(self).mapped() == mapped(memory),
            final(self).writes() == old(self).writes(),
    {
        self.memory = memory;
    }

    /// Reads from `address` on into `buf`, as far as there is memory. The
    /// bytes behind stay as they are.
    pub fn read(&self, buf: &mut [u8], address: u64) -> (r: Result<usize, ()>)
        ensures
            r == transfer(self.mapped(), address, old(buf)@.len()),
            final(buf)@.len() == old(buf)@.len(),
            final(buf)@.skip(reach(self.mapped(), address as int, old(buf)@.len()) as int) == old(
                buf,
            )@.skip(reach(self.mapped(), address as int, old(buf)@.len()) as int),
    {
        read_guest(&self.memory, buf, address)
    }
}

/// Reads guest memory from `address` on into `buf`, by `vm_memory::Bytes::read`.
///
/// The read stops where the memory does; it fails if there is none at
/// `address`, and then leaves `buf` as it is. The returned number is that of
/// the bytes that were read; those behind them stay as they are. Nothing is
/// said of the bytes that were read, which the guest may change at any time.
#[verifier::external_body]
fn read_guest(
    memory: &GuestMemoryMmap<AtomicBitmap>,
    buf: &mut [u8],
    address: u64,
) -> (r: Result<usize, ()>)
    ensures
        r == transfer(mapped(*memory), address, old(buf)@.len()),
        final(buf)@.len() == old(buf)@.len(),
        final(buf)@.skip(reach(mapped(*memory), address as int, old(buf)@.len()) as int) == old(
            buf,
        )@.skip(reach(mapped(*memory), address as int, old(buf)@.len()) as int),
{
    memory.read(buf, GuestAddress(address)).map_err(|_| ())
}

/// Writes `buf` to guest memory from `address` on, by `vm_memory::Bytes::write`.
///
/// The write stops where the memory does; it fails if there is none at
/// `address`. The returned number is that of the bytes that were written.
/// These bytes are what the record, which exists in proofs only, gains by it.
/// Nothing is said of what the memory holds then, which the guest may change
/// at any time.
#[verifier::external_body]
pub(crate) fn write_guest(ram: &mut GuestRam, buf: &[u8], address: u64) -> (r: Result<usize, ()>)
    ensures
        r == transfer(old(ram).mapped(), address, buf@.len()),
        final(ram).mapped() == old(ram).mapped(),
        final(ram).writes() == recorded(old(ram).writes(), old(ram).mapped(), address, buf@),
{
    ram.memory.write(buf, GuestAddress(address)).map_err(|_| ())
}

} // verus!
