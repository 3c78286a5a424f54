//! The debug console, a device that prints what is written to it.
//!
//! The device is only available on x86. It resembles the QEMU `debugcon`
//! device.
use crate::fw_cfg::content::IoErrorKind;
use std::sync::Arc;
use std::sync::Barrier;
use vstd::prelude::*;

verus! {

/// I/O-port.
pub const DEFAULT_PORT: u64 = 0xe9;

/// `std::sync::Barrier`, which a bus device hands back when the writing thread
/// has to wait. No device of this crate makes or uses one.
#[verifier::external_type_specification]
#[verifier::external_body]
pub struct ExBarrier(std::sync::Barrier);

/// The state of the console that a snapshot holds: nothing.
#[derive(Default, Debug)]
pub struct DebugconState {}

/// Where a console prints to.
pub trait ConsoleWriter: Sized {
    /// The bytes written so far.
    spec fn written(&self) -> Seq<u8>;

    /// Whether a writer in this state takes all of `data`.
    spec fn takes(&self, data: Seq<u8>) -> bool;

    /// Writes all of `data`, or fails after a part of it.
    fn write_all(&mut self, data: &[u8]) -> (r: Result<(), IoErrorKind>)
        ensures
            r is Ok <==> old(self).takes(data@),
            r is Ok ==> final(self).written() == old(self).written() + data@,
            r is Err ==> exists|n: int|
                0 <= n <= data@.len() && final(self).written() == old(self).written()
                    + #[trigger] data@.take(n),
    ;
}

impl ConsoleWriter for Vec<u8> {
    open spec fn written(&self) -> Seq<u8> {
        self@
    }

    open spec fn takes(&self, data: Seq<u8>) -> bool {
        true
    }

    fn write_all(&mut self, data: &[u8]) -> (r: Result<(), IoErrorKind>) {
        crate::bytes::push_all(self, data);
        Ok(())
    }
}

/// Emulates a debug console similar to the QEMU debugcon device. This device
/// is stateless and only prints the bytes (usually text) that are written to
/// it.
#[derive(Debug)]
pub struct DebugConsole<W: ConsoleWriter> {
    id: String,
    out: W,
}

impl<W: ConsoleWriter> DebugConsole<W> {
    /// The name of the console.
    pub closed spec fn name(&self) -> Seq<char> {
        self.id@
    }

    /// Where the console prints to.
    pub closed spec fn writer(&self) -> W {
        self.out
    }

    /// A console with the name `id` that prints to `out`.
    pub fn new(id: String, out: W) -> (r: Self)
        ensures
            r.name() == id@,
            r.writer() == out,
    {
        Self { id, out }
    }

    /// The writer, for a look at what was printed.
    pub fn out(&self) -> (r: &W)
        ensures
            *r == self.writer(),
    {
        &self.out
    }

    /// The name under which the console is part of a snapshot.
    pub fn id(&self) -> (r: String)
        ensures
            r@ == self.name(),
    {
        self.id.clone()
    }

    /// A read by the guest, which leaves the buffer as it is.
    pub fn read(&mut self, base: u64, offset: u64, data: &mut [u8])
        ensures
            *final(self) == *old(self),
            final(data)@ == old(data)@,
    {
    }

    /// A write by the guest: `data` is printed, at whatever offset. A failure
    /// to print is not reported to the guest.
    pub fn write(&mut self, base: u64, offset: u64, data: &[u8]) -> (r: Option<Arc<Barrier>>)
        ensures
            r is None,
            final(self).name() == old(self).name(),
            old(self).writer().takes(data@) ==> final(self).writer().written() == old(
                self,
            ).writer().written() + data@,
            exists|n: int|
                0 <= n <= data@.len() && final(self).writer().written() == old(
                    self,
                ).writer().written() + #[trigger] data@.take(n),
    {
        let written = self.out.write_all(data);
        proof {
            if written is Ok {
                assert(data@.take(data@.len() as int) =~= data@);
            }
        }
        None
    }
}

impl DebugConsole<Vec<u8>> {
    /// Hands out what was printed since the last time, for a stream that the
    /// console does not know of.
    pub fn take_output(&mut self) -> (r: Vec<u8>)
        ensures
            r@ == old(self).writer()@,
            final(self).writer()@ == Seq::<u8>::empty(),
            final(self).name() == old(self).name(),
    {
        let mut r: Vec<u8> = Vec::new();
        std::mem::swap(&mut r, &mut self.out);
        r
    }
}

} // verus!
