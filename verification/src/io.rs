//! Results of stream operations and socket errors, as plain values.
use vstd::prelude::*;

verus! {

/// Identifies a stream of the connection: the TUN device, or a socket that
/// the VPN client library asked to open.
#[derive(Debug, Copy, Clone, PartialEq, Eq, Structural, Hash)]
pub enum StreamId {
    Tun,
    Socket(u64),
}

impl StreamId {
    /// Whether this is the TUN stream.
    pub fn is_tun(&self) -> (r: bool)
        ensures
            r == (*self is Tun),
    {
        match self {
            StreamId::Tun => true,
            StreamId::Socket(_) => false,
        }
    }
}

/// The kinds of I/O error that the connection logic tells apart.
#[derive(Debug, Copy, Clone, PartialEq, Eq, Structural)]
pub enum IoErrorKind {
    ConnectionRefused,
    TimedOut,
    HostUnreachable,
    NetworkUnreachable,
    AddrInUse,
    AddrNotAvailable,
    ConnectionAborted,
    ConnectionReset,
    NotConnected,
    WouldBlock,
    Interrupted,
    Other,
}

/// Socket errors as the VPN client library takes them.
#[derive(Debug, Copy, Clone, PartialEq, Eq, Structural)]
pub enum SocketErr {
    ConnectionRefused,
    Timeout,
    HostUnreachable,
    NetworkUnreachable,
    AddressInUse,
    ConnectionAborted,
    ConnectionReset,
    NotConnected,
    Unknown,
}

/// The socket error reported to the client library for an I/O error kind.
pub open spec fn socket_err_of(kind: IoErrorKind) -> SocketErr {
    match kind {
        IoErrorKind::ConnectionRefused => SocketErr::ConnectionRefused,
        IoErrorKind::TimedOut => SocketErr::Timeout,
        IoErrorKind::HostUnreachable => SocketErr::HostUnreachable,
        IoErrorKind::NetworkUnreachable => SocketErr::NetworkUnreachable,
        IoErrorKind::AddrInUse => SocketErr::AddressInUse,
        IoErrorKind::ConnectionAborted => SocketErr::ConnectionAborted,
        IoErrorKind::ConnectionReset => SocketErr::ConnectionReset,
        IoErrorKind::NotConnected => SocketErr::NotConnected,
        _ => SocketErr::Unknown,
    }
}

/// Law: each I/O error kind is reported to the client library as the socket
/// error of the same meaning; kinds the client library has no error for are
/// unknown.
pub proof fn lemma_socket_err_table()
    ensures
        socket_err_of(IoErrorKind::ConnectionRefused) == SocketErr::ConnectionRefused,
        socket_err_of(IoErrorKind::TimedOut) == SocketErr::Timeout,
        socket_err_of(IoErrorKind::HostUnreachable) == SocketErr::HostUnreachable,
        socket_err_of(IoErrorKind::NetworkUnreachable) == SocketErr::NetworkUnreachable,
        socket_err_of(IoErrorKind::AddrInUse) == SocketErr::AddressInUse,
        socket_err_of(IoErrorKind::ConnectionAborted) == SocketErr::ConnectionAborted,
        socket_err_of(IoErrorKind::ConnectionReset) == SocketErr::ConnectionReset,
        socket_err_of(IoErrorKind::NotConnected) == SocketErr::NotConnected,
        socket_err_of(IoErrorKind::AddrNotAvailable) == SocketErr::Unknown,
        socket_err_of(IoErrorKind::WouldBlock) == SocketErr::Unknown,
        socket_err_of(IoErrorKind::Interrupted) == SocketErr::Unknown,
        socket_err_of(IoErrorKind::Other) == SocketErr::Unknown,
{
}

/// The socket error reported to the client library for an I/O error kind.
pub fn error_kind_to_socket_err(error_kind: IoErrorKind) -> (e: SocketErr)
    ensures
        e == socket_err_of(error_kind),
{
    match error_kind {
        IoErrorKind::ConnectionRefused => SocketErr::ConnectionRefused,
        IoErrorKind::TimedOut => SocketErr::Timeout,
        IoErrorKind::HostUnreachable => SocketErr::HostUnreachable,
        IoErrorKind::NetworkUnreachable => SocketErr::NetworkUnreachable,
        IoErrorKind::AddrInUse => SocketErr::AddressInUse,
        IoErrorKind::ConnectionAborted => SocketErr::ConnectionAborted,
        IoErrorKind::ConnectionReset => SocketErr::ConnectionReset,
        IoErrorKind::NotConnected => SocketErr::NotConnected,
        _ => SocketErr::Unknown,
    }
}

/// An I/O error of a stream: its kind and its printed form.
pub struct StreamError {
    pub kind: IoErrorKind,
    pub message: String,
}

/// The result of reading from or writing to a stream.
pub enum StreamResult {
    Success { bytes_count: usize, would_block: bool, pending_write: bool },
    Failure(StreamError),
}

impl StreamResult {
    /// A successful result.
    pub fn ok(bytes_count: usize, would_block: bool, pending_write: bool) -> (r: StreamResult)
        ensures
            r == (StreamResult::Success { bytes_count, would_block, pending_write }),
    {
        StreamResult::Success { bytes_count, would_block, pending_write }
    }
}

/// The TUN error that a stream result shows: the error's printed form, or
/// nothing where the operation succeeded.
pub open spec fn tun_error_of(res: &StreamResult) -> Option<Seq<char>> {
    match res {
        StreamResult::Success { .. } => None,
        StreamResult::Failure(e) => Some(e.message@),
    }
}

/// The TUN error that a stream result shows.
pub fn to_tun_error(res: &StreamResult) -> (e: Option<String>)
    ensures
        match e {
            Some(m) => tun_error_of(res) == Some(m@),
            None => tun_error_of(res) is None,
        },
{
    match res {
        StreamResult::Success { bytes_count: _, would_block: _, pending_write: _ } => None,
        StreamResult::Failure(e) => Some(e.message.clone()),
    }
}

} // verus!
