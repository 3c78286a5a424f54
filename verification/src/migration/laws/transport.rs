//! Connections, and the memory that goes through them.
use crate::migration::connections::MemoryEvent;
use crate::migration::connections::MemorySend;
use crate::migration::connections::MemoryStep;
use crate::migration::connections::PendingData;
use crate::migration::connections::SendAdditionalConnections;
use crate::migration::connections::SendMemoryThreadNotify;
use crate::migration::connections::TryNotify;
use crate::migration::connections::WaitStep;
use crate::migration::endpoint;
use crate::migration::endpoint::SocketStep;
use crate::migration::memory;
use crate::migration::memory::MemoryRange;
use vstd::prelude::*;

verus! {

/// What is left behind a prefix, put behind the prefix again, is the text. It is
/// left if and only if the text starts with the prefix.
pub proof fn law_prefix_and_rest_are_the_text(s: Seq<char>, prefix: Seq<char>, rest: Seq<char>)
    ensures
        endpoint::stripped(s, prefix) matches Some(left) ==> s == prefix + left,
        s == prefix + rest ==> endpoint::stripped(s, prefix) == Some(rest),
{
    if prefix.is_prefix_of(s) {
        assert(s =~= prefix + s.skip(prefix.len() as int));
    }
    if s == prefix + rest {
        assert(prefix =~= s.take(prefix.len() as int));
        assert(s.skip(prefix.len() as int) =~= rest);
    }
}

/// The host of an address is what stands before its first colon, and the whole
/// address if it has none. There is no other.
pub proof fn law_host_stands_before_the_colon(
    host: Seq<char>,
    port: Seq<char>,
    other: Seq<char>,
)
    requires
        !host.contains(':'),
    ensures
        endpoint::is_host_of(host, host),
        endpoint::is_host_of(host, host + seq![':'] + port),
        endpoint::is_host_of(other, host) ==> other == host,
        endpoint::is_host_of(other, host + seq![':'] + port) ==> other == host,
{
    let address = host + seq![':'] + port;
    assert(address[host.len() as int] == ':');
    assert(host + seq![':'] =~= address.take(host.len() as int + 1));
    if endpoint::is_host_of(other, address) {
        let n = other.len() as int;
        let front = other + seq![':'];
        assert(address.take(n + 1) =~= front);
        assert forall|i: int| 0 <= i < n implies other[i] == address[i] by {
            assert(front[i] == address.take(n + 1)[i]);
        }
        assert(front[n] == address.take(n + 1)[n]);
        if n < host.len() {
            assert(host[n] == ':');
            assert(host.contains(host[n]));
        }
        if n > host.len() {
            assert(other.contains(other[host.len() as int]));
        }
        assert(other =~= host);
    }
}

/// A network connection is given timeouts of 10 s for reads and 5 s for writes
/// before anything else. It is encrypted if and only if that is wanted, and
/// only the main connection is kept alive, with a message every 5 s; that comes
/// last.
pub proof fn law_network_connections_are_set_up(tls: bool, main_connection: bool, initiator: bool)
    ensures
        ({
            let steps = endpoint::network_steps(tls, main_connection, initiator);
            &&& steps[0] == SocketStep::SetReadTimeout(10_000)
            &&& steps[1] == SocketStep::SetWriteTimeout(5_000)
            &&& tls ==> steps[2] == SocketStep::TlsHandshake
            &&& main_connection ==> steps.last() == SocketStep::StartKeepAlive(initiator, 5_000)
            &&& steps.len() == 2 + (if tls {
                1int
            } else {
                0int
            }) + (if main_connection {
                1int
            } else {
                0int
            })
        }),
        endpoint::MIGRATION_ACCEPT_TIMEOUT_MS == 60_000,
{
}

/// So many bytes as ranges have are counted: those of one range are its length,
/// and those of two tables add up. So many pages hold them as are needed, and
/// none is empty.
pub proof fn law_bytes_and_pages_are_counted(
    range: MemoryRange,
    a: Seq<MemoryRange>,
    b: Seq<MemoryRange>,
    n: int,
)
    requires
        n >= 0,
    ensures
        memory::total(Seq::empty()) == 0,
        memory::total(seq![range]) == range.length,
        memory::total(a + b) == memory::total(a) + memory::total(b),
        n <= 4096 * memory::pages(n) < n + 4096,
{
    memory::lemma_total_add(a, b);
    assert(seq![range].drop_last() =~= Seq::empty());
    assert(memory::total(seq![range].drop_last()) == 0);
}

/// The addresses of ranges: those of one range count up from its start, and
/// those of a table come before those of the next.
pub proof fn law_addresses_of_ranges(
    range: MemoryRange,
    a: Seq<MemoryRange>,
    b: Seq<MemoryRange>,
    i: int,
)
    ensures
        memory::addresses(seq![range]).len() == range.length,
        0 <= i < range.length ==> memory::addresses(seq![range])[i] == range.gpa + i,
        memory::addresses(a + b) == memory::addresses(a) + memory::addresses(b),
    decreases b.len(),
{
    assert(seq![range].drop_last() =~= Seq::empty());
    assert(memory::addresses(seq![range].drop_last()) =~= Seq::empty());
    assert(memory::addresses(seq![range]) =~= range.addresses());
    if b.len() == 0 {
        assert(a + b =~= a);
        assert(memory::addresses(a) + memory::addresses(b) =~= memory::addresses(a));
    } else {
        law_addresses_of_ranges(range, a, b.drop_last(), i);
        assert((a + b).drop_last() =~= a + b.drop_last());
        assert(memory::addresses(a + b) =~= memory::addresses(a) + memory::addresses(b));
    }
}

/// With one connection none is opened besides the main one. With more, one is
/// opened for each, until there are as many as configured.
pub proof fn law_as_many_connections_as_configured(c: SendAdditionalConnections)
    requires
        c.opened <= c.configured,
    ensures
        c.configured <= 1 ==> !c.wants(),
        c.configured > 1 ==> (c.wants() <==> c.opened != c.configured),
{
}

/// Chunks are sent one after the other until all were taken. The main thread
/// sends them itself if there are no other threads. It looks before each chunk
/// whether the migration was cancelled, and then whether a thread has failed.
pub proof fn law_chunks_are_sent_one_by_one(s: MemorySend, cancelled: bool, worker_failed: bool)
    requires
        s.wf(),
    ensures
        s.taken == s.chunks ==> s.checked(cancelled, worker_failed) == if s.threads == 0 {
            MemoryStep::Done
        } else {
            MemoryStep::WaitForPending
        },
        s.taken < s.chunks && cancelled ==> s.checked(cancelled, worker_failed)
            == MemoryStep::Cancel,
        s.taken < s.chunks && !cancelled && s.threads == 0 ==> s.checked(cancelled, worker_failed)
            == MemoryStep::SendChunk,
        s.taken < s.chunks && !cancelled && s.threads > 0 ==> s.checked(cancelled, worker_failed)
            == if worker_failed {
            MemoryStep::TakeError
        } else {
            MemoryStep::OfferChunk
        },
        s.taken < s.chunks ==> s.after(MemoryEvent::Taken, cancelled, worker_failed).0.taken
            == s.taken + 1,
        s.after(MemoryEvent::Full, cancelled, worker_failed) == (s, MemoryStep::Sleep),
        s.after(MemoryEvent::Slept, cancelled, worker_failed) == (
            s,
            s.checked(cancelled, worker_failed),
        ),
        s.after(MemoryEvent::Disconnected, cancelled, worker_failed) == (s, MemoryStep::Died),
{
}

/// A thread that fails ends the wait with its own error, and the other threads
/// are let through so that none hangs.
pub proof fn law_failed_threads_end_the_wait<E>(
    p: PendingData,
    e: crate::migration::error::MigratableError<E>,
)
    ensures
        p.after(TryNotify::Notified(SendMemoryThreadNotify::Error(e))) == (
            p,
            WaitStep::OpenGate(Err(e)),
        ),
        p.after(TryNotify::<E>::Empty) == (p, WaitStep::<E>::Poll),
        p.after(TryNotify::<E>::Disconnected).1 matches WaitStep::Return(Err(_)),
{
}

} // verus!
