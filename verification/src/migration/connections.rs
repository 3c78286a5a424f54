//! Additional connections for memory.
//!
//! The sender may hand its memory out to several threads, each with a
//! connection of its own. It cuts the memory into chunks and puts them into a
//! channel that the threads take them from. When all are in, it waits until
//! every thread has reported that it has nothing left.
use crate::migration::endpoint::Readiness;
use crate::migration::error::Failure;
use crate::migration::error::MigratableError;
use crate::migration::error::Reason;
use crate::migration::memory;
use crate::migration::memory::MemoryRange;
use crate::migration::protocol::Command;
use vstd::prelude::*;

verus! {

/// How many requests can be waiting to be sent for each connection.
pub const BUFFERED_REQUESTS_PER_THREAD: usize = 64;

/// The size of each chunk of memory to send: 64 MiB. Each chunk is
/// acknowledged before the next one is sent on the same connection.
pub const CHUNK_SIZE: u64 = 67_108_864;

/// How many messages the channel to the threads holds.
pub fn buffer_size(connections: u32) -> (r: usize)
    requires
        BUFFERED_REQUESTS_PER_THREAD * connections <= usize::MAX,
    ensures
        r == BUFFERED_REQUESTS_PER_THREAD * connections,
{
    BUFFERED_REQUESTS_PER_THREAD * connections as usize
}

/// Additional connections that are being opened.
///
/// With one connection, the main thread does the sending. With more, there is
/// one thread for each.
#[derive(Clone, Copy, Debug, PartialEq, Eq, Structural)]
pub struct SendAdditionalConnections {
    /// The configured number of connections, at least one.
    pub configured: u32,
    /// The connections that were opened.
    pub opened: u32,
}

impl SendAdditionalConnections {
    /// Whether another connection is to be opened.
    pub open spec fn wants(self) -> bool {
        self.configured > 1 && self.opened < self.configured
    }

    /// No connection is open yet.
    pub fn new(configured: u32) -> (r: Self)
        ensures
            r == (SendAdditionalConnections { configured, opened: 0 }),
    {
        SendAdditionalConnections { configured, opened: 0 }
    }

    /// Whether another connection is to be opened.
    pub fn wants_more(&self) -> (r: bool)
        ensures
            r == self.wants(),
    {
        self.configured > 1 && self.opened < self.configured
    }

    /// Takes note of a connection, or of a failure to open it. If the very
    /// first one fails, the other side is taken not to support additional
    /// connections, and there are none; any other failure is an error.
    pub fn connected<E>(&mut self, outcome: Result<(), MigratableError<E>>) -> (r: Result<
        bool,
        MigratableError<E>,
    >)
        requires
            old(self).wants(),
        ensures
            match outcome {
                Ok(_) => *final(self) == (SendAdditionalConnections {
                    opened: (old(self).opened + 1) as u32,
                    ..*old(self)
                }) && r == Ok::<bool, MigratableError<E>>(final(self).wants()),
                Err(e) => *final(self) == *old(self) && (if old(self).opened == 0 {
                    r == Ok::<bool, MigratableError<E>>(false)
                } else {
                    r == Err::<bool, MigratableError<E>>(e)
                }),
            },
    {
        match outcome {
            Ok(_) => {
                self.opened = self.opened + 1;
                Ok(self.wants_more())
            },
            Err(e) => {
                if self.opened == 0 {
                    Ok(false)
                } else {
                    Err(e)
                }
            },
        }
    }
}

/// The different kinds of messages for memory sending threads.
#[derive(Debug)]
pub enum SendMemoryThreadMessage {
    /// A chunk of memory that the thread should send.
    Memory(Vec<MemoryRange>),
    /// A synchronization point after each iteration of sending memory.
    Gate,
    /// Sending memory is done and the threads are not needed anymore.
    Disconnect,
}

/// What a memory sending thread does next.
#[derive(Clone, Copy, Debug, PartialEq, Eq, Structural)]
pub enum WorkerAction {
    /// Take the next message.
    Receive,
    /// Send the chunk.
    Send,
    /// Tell the main thread that the shared gate was reached.
    NotifyGate,
    /// Wait until the shared gate opens.
    WaitAtGate,
    /// Tell the main thread of the error, then end.
    NotifyError,
    /// End.
    Stop,
}

/// What a thread does with a message. Once the migration was cancelled, chunks
/// are only taken out of the channel.
pub fn on_message(message: &SendMemoryThreadMessage, external_cancel: bool) -> (r: WorkerAction)
    ensures
        r == match message {
            SendMemoryThreadMessage::Memory(_) => if external_cancel {
                WorkerAction::Receive
            } else {
                WorkerAction::Send
            },
            SendMemoryThreadMessage::Gate => WorkerAction::NotifyGate,
            SendMemoryThreadMessage::Disconnect => WorkerAction::Stop,
        },
{
    match message {
        SendMemoryThreadMessage::Memory(_) => {
            if external_cancel {
                WorkerAction::Receive
            } else {
                WorkerAction::Send
            }
        },
        SendMemoryThreadMessage::Gate => WorkerAction::NotifyGate,
        SendMemoryThreadMessage::Disconnect => WorkerAction::Stop,
    }
}

/// What a thread does after it sent a chunk, or failed to. Only the first
/// thread that fails tells the main thread: `already_failed` says whether
/// another one was first.
pub fn after_send(sent: bool, already_failed: bool) -> (r: WorkerAction)
    ensures
        r == if sent {
            WorkerAction::Receive
        } else if already_failed {
            WorkerAction::Stop
        } else {
            WorkerAction::NotifyError
        },
{
    if sent {
        WorkerAction::Receive
    } else if already_failed {
        WorkerAction::Stop
    } else {
        WorkerAction::NotifyError
    }
}

/// What a thread does after it told the main thread that the shared gate was
/// reached, or failed to.
pub fn after_gate_notify(told: bool) -> (r: WorkerAction)
    ensures
        r == if told {
            WorkerAction::WaitAtGate
        } else {
            WorkerAction::Stop
        },
{
    if told {
        WorkerAction::WaitAtGate
    } else {
        WorkerAction::Stop
    }
}

/// The bytes that a thread has sent, with another chunk.
pub fn count_sent(total_sent: u64, chunk: &[MemoryRange]) -> (r: u64)
    requires
        total_sent + memory::total(chunk@) <= u64::MAX,
    ensures
        r == total_sent + memory::total(chunk@),
{
    total_sent + memory::total_length(chunk)
}

/// What a memory sending thread tells the main thread.
#[derive(Debug)]
pub enum SendMemoryThreadNotify<E> {
    /// The thread arrived at the shared gate.
    Gate,
    /// The thread encountered an error while sending memory.
    Error(MigratableError<E>),
}

/// What a look for a notification gives.
#[derive(Debug)]
pub enum TryNotify<E> {
    Notified(SendMemoryThreadNotify<E>),
    /// There is none yet.
    Empty,
    /// No thread is left.
    Disconnected,
}

/// What the main thread does next while it waits for the threads.
#[derive(Debug)]
pub enum WaitStep<E> {
    /// Sleep for two milliseconds, and look for a notification.
    Poll,
    /// Open the shared gate, let the threads drop what is left, tell the
    /// receiver, and stop.
    Cancel,
    /// Open the shared gate, so that no thread hangs, and return.
    OpenGate(Result<(), MigratableError<E>>),
    /// Return.
    Return(Result<(), MigratableError<E>>),
}

/// The wait for all data that is in flight.
#[derive(Clone, Copy, Debug, PartialEq, Eq, Structural)]
pub struct PendingData {
    /// The number of threads, at least one.
    pub threads: usize,
    /// The number of those that arrived at the shared gate.
    pub seen: usize,
}

impl PendingData {
    /// Whether there are threads that have not arrived.
    pub open spec fn wf(self) -> bool {
        self.seen < self.threads
    }

    /// What follows a look for a notification.
    pub open spec fn after<E>(self, notify: TryNotify<E>) -> (PendingData, WaitStep<E>) {
        match notify {
            TryNotify::Notified(SendMemoryThreadNotify::Error(e)) => (
                self,
                WaitStep::OpenGate(Err(e)),
            ),
            TryNotify::Notified(SendMemoryThreadNotify::Gate) => (
                PendingData { seen: (self.seen + 1) as usize, ..self },
                if self.seen + 1 == self.threads {
                    WaitStep::OpenGate(Ok(()))
                } else {
                    WaitStep::Poll
                },
            ),
            TryNotify::Empty => (self, WaitStep::Poll),
            TryNotify::Disconnected => (
                self,
                WaitStep::Return(
                    Err(MigratableError::MigrateSend(Failure::Reason(Reason::SendersDied))),
                ),
            ),
        }
    }

    /// No thread has arrived yet.
    pub fn new(threads: usize) -> (r: Self)
        requires
            threads > 0,
        ensures
            r == (PendingData { threads, seen: 0 }),
            r.wf(),
    {
        PendingData { threads, seen: 0 }
    }

    /// What comes before each look for a notification: it is checked whether
    /// the migration was cancelled.
    pub fn before_poll<E>(&self, cancelled: bool) -> (r: WaitStep<E>)
        ensures
            r == if cancelled {
                WaitStep::<E>::Cancel
            } else {
                WaitStep::<E>::Poll
            },
    {
        if cancelled {
            WaitStep::Cancel
        } else {
            WaitStep::Poll
        }
    }

    /// Goes on after a look for a notification. The threads are let through when
    /// all have arrived, or when one has failed.
    pub fn notified<E>(&mut self, notify: TryNotify<E>) -> (r: WaitStep<E>)
        requires
            old(self).wf(),
        ensures
            (*final(self), r) == old(self).after(notify),
            r is Poll ==> final(self).wf(),
    {
        match notify {
            TryNotify::Notified(SendMemoryThreadNotify::Error(e)) => WaitStep::OpenGate(Err(e)),
            TryNotify::Notified(SendMemoryThreadNotify::Gate) => {
                self.seen = self.seen + 1;
                if self.seen == self.threads {
                    WaitStep::OpenGate(Ok(()))
                } else {
                    WaitStep::Poll
                }
            },
            TryNotify::Empty => WaitStep::Poll,
            TryNotify::Disconnected => WaitStep::Return(
                Err(MigratableError::MigrateSend(Failure::Reason(Reason::SendersDied))),
            ),
        }
    }
}

/// What the main thread does next while it sends memory.
#[derive(Clone, Copy, Debug, PartialEq, Eq, Structural)]
pub enum MemoryStep {
    /// Send the next chunk itself and wait for the acknowledgement.
    SendChunk,
    /// Put the next chunk into the channel.
    OfferChunk,
    /// Sleep for ten milliseconds, because the channel is full.
    Sleep,
    /// Look for the error of a thread, past its other notifications.
    TakeError,
    /// Let the threads drop what is left, tell the receiver, and stop.
    Cancel,
    /// Stop, because no thread is left.
    Died,
    /// Wait until all threads are done.
    WaitForPending,
    /// All memory was sent and acknowledged.
    Done,
}

/// What happened meanwhile.
#[derive(Clone, Copy, Debug, PartialEq, Eq, Structural)]
pub enum MemoryEvent {
    /// The chunk was sent, or taken by the channel.
    Taken,
    /// The channel is full.
    Full,
    /// No thread is left.
    Disconnected,
    /// The main thread has slept.
    Slept,
    /// The threads are done.
    Finished,
}

/// Memory that is being sent, chunk by chunk.
#[derive(Clone, Copy, Debug, PartialEq, Eq, Structural)]
pub struct MemorySend {
    /// The number of threads; none if the main thread sends the memory itself.
    pub threads: usize,
    pub chunks: usize,
    /// The number of chunks that were sent, or put into the channel.
    pub taken: usize,
}

impl MemorySend {
    /// No more chunks were taken than there are.
    pub open spec fn wf(self) -> bool {
        self.taken <= self.chunks
    }

    /// What comes next, if the migration was not cancelled and no thread has
    /// failed.
    pub open spec fn ahead(self) -> MemoryStep {
        if self.taken < self.chunks {
            if self.threads == 0 {
                MemoryStep::SendChunk
            } else {
                MemoryStep::OfferChunk
            }
        } else if self.threads == 0 {
            MemoryStep::Done
        } else {
            MemoryStep::WaitForPending
        }
    }

    /// What comes next. Before each chunk it is checked whether the migration
    /// was cancelled, and whether a thread has failed.
    pub open spec fn checked(self, cancelled: bool, worker_failed: bool) -> MemoryStep {
        if self.taken < self.chunks && cancelled {
            MemoryStep::Cancel
        } else if self.taken < self.chunks && self.threads > 0 && worker_failed {
            MemoryStep::TakeError
        } else {
            self.ahead()
        }
    }

    /// Whether an event can happen: a chunk can be taken if one is left, and
    /// the threads can finish only what they have got.
    pub open spec fn accepts(self, event: MemoryEvent) -> bool {
        &&& event == MemoryEvent::Taken ==> self.taken < self.chunks
        &&& event == MemoryEvent::Finished ==> self.taken == self.chunks
    }

    /// What follows an event.
    pub open spec fn after(self, event: MemoryEvent, cancelled: bool, worker_failed: bool) -> (
        MemorySend,
        MemoryStep,
    ) {
        match event {
            MemoryEvent::Taken => {
                let next = MemorySend { taken: (self.taken + 1) as usize, ..self };
                (next, next.checked(cancelled, worker_failed))
            },
            MemoryEvent::Full => (self, MemoryStep::Sleep),
            MemoryEvent::Disconnected => (self, MemoryStep::Died),
            MemoryEvent::Slept => (self, self.checked(cancelled, worker_failed)),
            MemoryEvent::Finished => (self, MemoryStep::Done),
        }
    }

    /// What comes next.
    pub fn next_step(&self, cancelled: bool, worker_failed: bool) -> (r: MemoryStep)
        ensures
            r == self.checked(cancelled, worker_failed),
    {
        if self.taken < self.chunks {
            if cancelled {
                MemoryStep::Cancel
            } else if self.threads == 0 {
                MemoryStep::SendChunk
            } else if worker_failed {
                MemoryStep::TakeError
            } else {
                MemoryStep::OfferChunk
            }
        } else if self.threads == 0 {
            MemoryStep::Done
        } else {
            MemoryStep::WaitForPending
        }
    }

    /// Nothing was sent yet.
    pub fn new(threads: usize, chunks: usize) -> (r: Self)
        ensures
            r == (MemorySend { threads, chunks, taken: 0 }),
            r.wf(),
    {
        MemorySend { threads, chunks, taken: 0 }
    }

    /// Goes on after an event.
    pub fn advance(&mut self, event: MemoryEvent, cancelled: bool, worker_failed: bool) -> (r:
        MemoryStep)
        requires
            old(self).wf(),
            old(self).accepts(event),
        ensures
            final(self).wf(),
            (*final(self), r) == old(self).after(event, cancelled, worker_failed),
    {
        match event {
            MemoryEvent::Taken => {
                self.taken = self.taken + 1;
                self.next_step(cancelled, worker_failed)
            },
            MemoryEvent::Full => MemoryStep::Sleep,
            MemoryEvent::Disconnected => MemoryStep::Died,
            MemoryEvent::Slept => self.next_step(cancelled, worker_failed),
            MemoryEvent::Finished => MemoryStep::Done,
        }
    }
}

/// The error when no thread is left to send memory.
pub fn died<E>() -> (r: MigratableError<E>)
    ensures
        r == MigratableError::<E>::MigrateSend(Failure::Reason(Reason::SendingThreadsDied)),
{
    MigratableError::MigrateSend(Failure::Reason(Reason::SendingThreadsDied))
}

/// The error in a notification, if it is not about the shared gate.
pub fn error_of<E>(notify: SendMemoryThreadNotify<E>) -> (r: Option<MigratableError<E>>)
    ensures
        r == match notify {
            SendMemoryThreadNotify::Gate => None::<MigratableError<E>>,
            SendMemoryThreadNotify::Error(e) => Some(e),
        },
{
    match notify {
        SendMemoryThreadNotify::Gate => None,
        SendMemoryThreadNotify::Error(e) => Some(e),
    }
}

/// Whether a table is sent at all: one without ranges is not.
pub fn needs_request(ranges: &[MemoryRange]) -> (r: bool)
    ensures
        r == (ranges@.len() > 0),
{
    ranges.len() > 0
}

/// The outcome of a chunk, from what the receiver answered.
pub fn chunk_outcome<E>(handled: bool) -> (r: Result<(), MigratableError<E>>)
    ensures
        r == if handled {
            Ok::<(), MigratableError<E>>(())
        } else {
            Err::<(), MigratableError<E>>(
                MigratableError::MigrateSend(Failure::Reason(Reason::BadMemoryResponse)),
            )
        },
{
    if handled {
        Ok(())
    } else {
        Err(MigratableError::MigrateSend(Failure::Reason(Reason::BadMemoryResponse)))
    }
}

/// What happened on an additional connection of the receiver.
#[derive(Debug)]
pub enum ExtraEvent<E> {
    /// What waiting for a command, or for the signal to stop, gave.
    Waited(Readiness, E),
    /// A command, with the length of what follows.
    Request(Command, u64),
    /// The peer has closed the connection.
    Closed,
    /// Reading a command, reading a table or answering failed.
    Failed(E),
    /// Filling memory failed.
    FillFailed(E),
    /// The memory was filled.
    Filled,
    /// The command was answered.
    Answered,
}

/// What is to be done on an additional connection of the receiver.
#[derive(Debug)]
pub enum ExtraStep<E> {
    /// Wait for a command, or for the signal to stop.
    Wait,
    ReadRequest,
    /// Read a table with as many bytes, and fill its ranges.
    Fill(u64),
    /// Tell the sender that its command was handled.
    Answer,
    Finished(Result<(), MigratableError<E>>),
}

/// What follows an event on an additional connection. Only memory may come
/// there; everything else needs to come via the main connection.
pub fn handle_requests<E>(event: ExtraEvent<E>) -> (r: ExtraStep<E>)
    ensures
        r == match event {
            ExtraEvent::Waited(Readiness::PollFailed, e) => ExtraStep::Finished(
                Err(MigratableError::MigrateReceive(Failure::Outside(e))),
            ),
            ExtraEvent::Waited(Readiness::Signaled, _) => ExtraStep::Finished(Ok(())),
            ExtraEvent::Waited(Readiness::Readable, _) => ExtraStep::ReadRequest,
            ExtraEvent::Request(Command::Memory, length) => ExtraStep::Fill(length),
            ExtraEvent::Request(_, _) => ExtraStep::Finished(
                Err(
                    MigratableError::MigrateReceive(Failure::Reason(Reason::OnlyMemoryCommands)),
                ),
            ),
            ExtraEvent::Closed => ExtraStep::Finished(Ok(())),
            ExtraEvent::Failed(e) => ExtraStep::Finished(Err(MigratableError::Outside(e))),
            ExtraEvent::FillFailed(e) => ExtraStep::Finished(
                Err(MigratableError::MigrateReceive(Failure::Outside(e))),
            ),
            ExtraEvent::Filled => ExtraStep::Answer,
            ExtraEvent::Answered => ExtraStep::Wait,
        },
{
    match event {
        ExtraEvent::Waited(readiness, e) => match readiness {
            Readiness::PollFailed => ExtraStep::Finished(
                Err(MigratableError::MigrateReceive(Failure::Outside(e))),
            ),
            Readiness::Signaled => ExtraStep::Finished(Ok(())),
            Readiness::Readable => ExtraStep::ReadRequest,
        },
        ExtraEvent::Request(command, length) => {
            if command == Command::Memory {
                ExtraStep::Fill(length)
            } else {
                ExtraStep::Finished(
                    Err(
                        MigratableError::MigrateReceive(
                            Failure::Reason(Reason::OnlyMemoryCommands),
                        ),
                    ),
                )
            }
        },
        ExtraEvent::Closed => ExtraStep::Finished(Ok(())),
        ExtraEvent::Failed(e) => ExtraStep::Finished(Err(MigratableError::Outside(e))),
        ExtraEvent::FillFailed(e) => ExtraStep::Finished(
            Err(MigratableError::MigrateReceive(Failure::Outside(e))),
        ),
        ExtraEvent::Filled => ExtraStep::Answer,
        ExtraEvent::Answered => ExtraStep::Wait,
    }
}

} // verus!
