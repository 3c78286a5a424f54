//! Where a migration goes to, or comes from.
use crate::migration::error::Reason;
use vstd::prelude::*;

verus! {

/// How long a write may block on a connection, in milliseconds. It is also the
/// interval of keep-alive messages.
pub const MIGRATION_WRITE_TIMEOUT_MS: u64 = 5_000;

/// How long a read may block on a connection, in milliseconds. It is longer
/// than a write may block, so that a keep-alive message comes in time.
pub const MIGRATION_READ_TIMEOUT_MS: u64 = 10_000;

/// How long the receiver waits for a connection, in milliseconds.
pub const MIGRATION_ACCEPT_TIMEOUT_MS: u64 = 60_000;

/// The text behind a prefix, by `str::strip_prefix`: what is left if the text
/// starts with the prefix, and nothing if it does not.
#[verifier::external_body]
fn strip_prefix<'a>(s: &'a str, prefix: &str) -> (r: Option<&'a str>)
    ensures
        match r {
            Some(rest) => s@ == prefix@ + rest@,
            None => !prefix@.is_prefix_of(s@),
        },
{
    s.strip_prefix(prefix)
}

/// The text around a character, by `str::split_once`: what stands before its
/// first occurrence and what stands behind it, if it occurs.
#[verifier::external_body]
fn split_once<'a>(s: &'a str, delimiter: char) -> (r: Option<(&'a str, &'a str)>)
    ensures
        match r {
            Some((before, behind)) => s@ == before@ + seq![delimiter] + behind@
                && !before@.contains(delimiter),
            None => !s@.contains(delimiter),
        },
{
    s.split_once(delimiter)
}

/// The text behind a prefix.
pub open spec fn stripped(s: Seq<char>, prefix: Seq<char>) -> Option<Seq<char>> {
    if prefix.is_prefix_of(s) {
        Some(s.skip(prefix.len() as int))
    } else {
        None
    }
}

/// Whether `host` is what stands before the first colon, or all if there is
/// none.
pub open spec fn is_host_of(host: Seq<char>, address: Seq<char>) -> bool {
    if address.contains(':') {
        (host + seq![':']).is_prefix_of(address) && !host.contains(':')
    } else {
        host == address
    }
}

fn strip(s: &str, prefix: &str) -> (r: Option<String>)
    ensures
        match stripped(s@, prefix@) {
            Some(rest) => r is Some && r->Some_0@ == rest,
            None => r is None,
        },
{
    match strip_prefix(s, prefix) {
        Some(rest) => {
            assert(prefix@ =~= s@.take(prefix@.len() as int));
            assert(s@.skip(prefix@.len() as int) =~= rest@);
            Some(rest.to_owned())
        },
        None => None,
    }
}

/// The host of an address.
pub fn host_of(address: &str) -> (r: String)
    ensures
        is_host_of(r@, address@),
{
    match split_once(address, ':') {
        Some((host, port)) => {
            proof {
                let i = host@.len() as int;
                assert(address@[i] == ':');
                assert(address@.contains(':'));
                assert(host@ + seq![':'] =~= address@.take(i + 1));
            }
            host.to_owned()
        },
        None => address.to_owned(),
    }
}

/// Where to connect to.
#[derive(Clone, Debug)]
pub enum Endpoint {
    /// An address.
    Tcp(String),
    /// An address, and the host whose certificate is expected there.
    Tls(String, String),
    /// A path.
    Unix(String),
}

/// Where a URL says to connect to; with TLS if `tls` says so.
pub fn destination(url: &str, tls: bool) -> (r: Result<Endpoint, Reason>)
    ensures
        match (stripped(url@, "tcp:"@), stripped(url@, "unix:"@)) {
            (Some(address), _) => if tls {
                r matches Ok(Endpoint::Tls(a, host)) && a@ == address && is_host_of(
                    host@,
                    address,
                )
            } else {
                r matches Ok(Endpoint::Tcp(a)) && a@ == address
            },
            (None, Some(path)) => r matches Ok(Endpoint::Unix(p)) && p@ == path,
            (None, None) => r == Err::<Endpoint, Reason>(Reason::InvalidDestination),
        },
{
    if let Some(address) = strip(url, "tcp:") {
        if tls {
            let host = host_of(address.as_str());
            return Ok(Endpoint::Tls(address, host));
        }
        return Ok(Endpoint::Tcp(address));
    }
    if let Some(path) = strip(url, "unix:") {
        return Ok(Endpoint::Unix(path));
    }
    Err(Reason::InvalidDestination)
}

/// Where to listen.
#[derive(Clone, Debug)]
pub enum Listener {
    /// An address.
    Tcp(String),
    /// An address, with TLS.
    Tls(String),
    /// A path. It is removed once the first connection has come.
    Unix(String),
}

/// Where a URL says to listen; with TLS if `tls` says so.
pub fn source(url: &str, tls: bool) -> (r: Result<Listener, Reason>)
    ensures
        match (stripped(url@, "tcp:"@), stripped(url@, "unix:"@)) {
            (Some(address), _) => if tls {
                r matches Ok(Listener::Tls(a)) && a@ == address
            } else {
                r matches Ok(Listener::Tcp(a)) && a@ == address
            },
            (None, Some(path)) => r matches Ok(Listener::Unix(p)) && p@ == path,
            (None, None) => r == Err::<Listener, Reason>(Reason::InvalidSource),
        },
{
    if let Some(address) = strip(url, "tcp:") {
        if tls {
            return Ok(Listener::Tls(address));
        }
        return Ok(Listener::Tcp(address));
    }
    if let Some(path) = strip(url, "unix:") {
        return Ok(Listener::Unix(path));
    }
    Err(Reason::InvalidSource)
}

/// A step on the way to a connection.
#[derive(Clone, Copy, Debug, PartialEq, Eq, Structural)]
pub enum SocketStep {
    Connect,
    /// Wait for a connection, no longer than so many milliseconds.
    AcceptWithin(u64),
    /// Wait for a connection.
    Accept,
    /// Remove the path that was listened at.
    RemovePath,
    SetReadTimeout(u64),
    SetWriteTimeout(u64),
    TlsHandshake,
    /// Send keep-alive messages, as the side that begins or as the other one,
    /// with so many milliseconds between them.
    StartKeepAlive(bool, u64),
}

/// The steps of a network connection once it stands.
pub open spec fn network_steps(tls: bool, main_connection: bool, initiator: bool) -> Seq<
    SocketStep,
> {
    seq![
        SocketStep::SetReadTimeout(MIGRATION_READ_TIMEOUT_MS),
        SocketStep::SetWriteTimeout(MIGRATION_WRITE_TIMEOUT_MS),
    ] + (if tls {
        seq![SocketStep::TlsHandshake]
    } else {
        Seq::empty()
    }) + (if main_connection {
        seq![SocketStep::StartKeepAlive(initiator, MIGRATION_WRITE_TIMEOUT_MS)]
    } else {
        Seq::empty()
    })
}

fn push_network_steps(out: &mut Vec<SocketStep>, tls: bool, main_connection: bool, initiator: bool)
    ensures
        final(out)@ == old(out)@ + network_steps(tls, main_connection, initiator),
{
    out.push(SocketStep::SetReadTimeout(MIGRATION_READ_TIMEOUT_MS));
    out.push(SocketStep::SetWriteTimeout(MIGRATION_WRITE_TIMEOUT_MS));
    if tls {
        out.push(SocketStep::TlsHandshake);
    }
    if main_connection {
        out.push(SocketStep::StartKeepAlive(initiator, MIGRATION_WRITE_TIMEOUT_MS));
    }
    assert(out@ =~= old(out)@ + network_steps(tls, main_connection, initiator));
}

/// The steps of the sender. Only the main connection is kept alive.
pub fn connect_steps(endpoint: &Endpoint, main_connection: bool) -> (r: Vec<SocketStep>)
    ensures
        r@ == match endpoint {
            Endpoint::Tcp(_) => seq![SocketStep::Connect] + network_steps(
                false,
                main_connection,
                true,
            ),
            Endpoint::Tls(_, _) => seq![SocketStep::Connect] + network_steps(
                true,
                main_connection,
                true,
            ),
            Endpoint::Unix(_) => seq![SocketStep::Connect],
        },
{
    let mut steps: Vec<SocketStep> = Vec::new();
    steps.push(SocketStep::Connect);
    match endpoint {
        Endpoint::Tcp(_) => push_network_steps(&mut steps, false, main_connection, true),
        Endpoint::Tls(_, _) => push_network_steps(&mut steps, true, main_connection, true),
        Endpoint::Unix(_) => {},
    }
    steps
}

/// The steps of the receiver. `path_left` says whether the path of the
/// listener was not removed yet.
pub fn accept_steps(listener: &Listener, main_connection: bool, path_left: bool) -> (r: Vec<
    SocketStep,
>)
    ensures
        r@ == match listener {
            Listener::Tcp(_) => seq![SocketStep::AcceptWithin(MIGRATION_ACCEPT_TIMEOUT_MS)]
                + network_steps(false, main_connection, false),
            Listener::Tls(_) => seq![SocketStep::AcceptWithin(MIGRATION_ACCEPT_TIMEOUT_MS)]
                + network_steps(true, main_connection, false),
            Listener::Unix(_) => if path_left {
                seq![SocketStep::Accept, SocketStep::RemovePath]
            } else {
                seq![SocketStep::Accept]
            },
        },
{
    let mut steps: Vec<SocketStep> = Vec::new();
    match listener {
        Listener::Tcp(_) => {
            steps.push(SocketStep::AcceptWithin(MIGRATION_ACCEPT_TIMEOUT_MS));
            push_network_steps(&mut steps, false, main_connection, false);
        },
        Listener::Tls(_) => {
            steps.push(SocketStep::AcceptWithin(MIGRATION_ACCEPT_TIMEOUT_MS));
            push_network_steps(&mut steps, true, main_connection, false);
        },
        Listener::Unix(_) => {
            steps.push(SocketStep::Accept);
            if path_left {
                steps.push(SocketStep::RemovePath);
            }
        },
    }
    assert(steps@ =~= match listener {
        Listener::Tcp(_) => seq![SocketStep::AcceptWithin(MIGRATION_ACCEPT_TIMEOUT_MS)]
            + network_steps(false, main_connection, false),
        Listener::Tls(_) => seq![SocketStep::AcceptWithin(MIGRATION_ACCEPT_TIMEOUT_MS)]
            + network_steps(true, main_connection, false),
        Listener::Unix(_) => if path_left {
            seq![SocketStep::Accept, SocketStep::RemovePath]
        } else {
            seq![SocketStep::Accept]
        },
    });
    steps
}

/// What polling an event descriptor and a connection says.
#[derive(Clone, Copy, Debug, PartialEq, Eq, Structural)]
pub enum Readiness {
    /// Polling failed.
    PollFailed,
    /// The event was signaled, whatever the connection does.
    Signaled,
    /// The connection can be read from.
    Readable,
}

/// Interprets what `poll` returned, and which events it reported of the event
/// descriptor and of the connection. It reports at least one of the two unless
/// it fails.
pub fn readiness(ret: i32, event: u16, connection: u16) -> (r: Readiness)
    requires
        ret < 0 || event % 2 == 1 || connection % 2 == 1,
    ensures
        r == if ret < 0 {
            Readiness::PollFailed
        } else if event % 2 == 1 {
            Readiness::Signaled
        } else {
            Readiness::Readable
        },
{
    if ret < 0 {
        Readiness::PollFailed
    } else if event % 2 == 1 {
        Readiness::Signaled
    } else {
        Readiness::Readable
    }
}

} // verus!
