//! Bookkeeping of the connection's streams: the write buffer of a TCP stream,
//! the readiness flags of a UDP socket on Windows, the decoding of a Windows
//! wait result, and the registry of open streams.
use vstd::prelude::*;
use std::collections::VecDeque;
use crate::io::{IoErrorKind, StreamError, StreamId, StreamResult};
use crate::connection::SocketAddress;
use crate::ip::IpAddress;

verus! {

/// The outcome of one read or write on a socket: the number of bytes
/// transferred, or the error.
pub enum IoOutcome {
    Transferred(usize),
    Failed(StreamError),
}

// ---------------------------------------------------------------------------
// TCP write buffer
// ---------------------------------------------------------------------------

/// All bytes of a list of chunks, in order.
pub open spec fn flatten(chunks: Seq<Seq<u8>>) -> Seq<u8>
    decreases chunks.len(),
{
    if chunks.len() == 0 {
        Seq::empty()
    } else {
        chunks[0] + flatten(chunks.drop_first())
    }
}

pub open spec fn chunk_views(chunks: Seq<Vec<u8>>) -> Seq<Seq<u8>> {
    chunks.map_values(|c: Vec<u8>| c@)
}

/// The data of a TCP stream that is still to be written, and the bytes
/// written by the flush under way.
pub struct TcpWriteBuffer {
    chunks: VecDeque<Vec<u8>>,
    bytes_written: usize,
}

pub struct TcpWriteBufferView {
    /// The chunks still to be written, in order.
    pub chunks: Seq<Seq<u8>>,
    /// The bytes still to be written, in order: the chunks end to end.
    pub pending: Seq<u8>,
    /// Whether some chunk is still to be written.
    pub has_pending: bool,
    pub bytes_written: usize,
}

impl View for TcpWriteBuffer {
    type V = TcpWriteBufferView;

    closed spec fn view(&self) -> TcpWriteBufferView {
        TcpWriteBufferView {
            chunks: chunk_views(self.chunks@),
            pending: flatten(chunk_views(self.chunks@)),
            has_pending: self.chunks@.len() > 0,
            bytes_written: self.bytes_written,
        }
    }
}

proof fn lemma_flatten_cons(c: Seq<u8>, rest: Seq<Seq<u8>>)
    ensures
        flatten(seq![c] + rest) == c + flatten(rest),
{
    assert((seq![c] + rest).drop_first() =~= rest);
}

proof fn lemma_flatten_push(chunks: Seq<Seq<u8>>, c: Seq<u8>)
    ensures
        flatten(chunks.push(c)) == flatten(chunks) + c,
    decreases chunks.len(),
{
    if chunks.len() == 0 {
        assert(chunks.push(c).drop_first() =~= Seq::<Seq<u8>>::empty());
        assert(flatten(Seq::<Seq<u8>>::empty()) == Seq::<u8>::empty());
        assert(chunks.push(c)[0] == c);
        assert(flatten(chunks.push(c)) =~= c);
    } else {
        assert(chunks.push(c).drop_first() =~= chunks.drop_first().push(c));
        lemma_flatten_push(chunks.drop_first(), c);
        assert(flatten(chunks.push(c)) =~= flatten(chunks) + c);
    }
}

/// What is left to flush: the bytes still to be written and the chunks that
/// hold them. Each socket write of a flush is one chunk taken by
/// [TcpWriteBuffer::next_chunk].
pub open spec fn flush_measure(chunks: Seq<Seq<u8>>) -> nat {
    flatten(chunks).len() + chunks.len()
}

/// A flush makes progress: taking the first chunk and writing `count` of its
/// bytes, where the socket wrote at least one byte or the chunk was empty,
/// leaves strictly less to flush. So a flush on which every write of a
/// non-empty chunk moves some bytes or fails ends after at most
/// `flush_measure` of the buffer's chunks socket writes.
pub proof fn lemma_flush_progress(
    before: Seq<Seq<u8>>,
    taken: Seq<u8>,
    middle: Seq<Seq<u8>>,
    count: nat,
    after: Seq<Seq<u8>>,
)
    requires
        before.len() > 0,
        taken == before[0],
        middle == before.drop_first(),
        count <= taken.len(),
        count > 0 || taken.len() == 0,
        after == (if count < taken.len() {
            seq![taken.skip(count as int)] + middle
        } else {
            middle
        }),
    ensures
        flush_measure(after) < flush_measure(before),
{
    if count < taken.len() {
        lemma_flatten_cons(taken.skip(count as int), middle);
    }
}

/// How the parts of a buffer's view agree: data is pending exactly while
/// some chunk is left, and the pending bytes are the chunks end to end.
pub open spec fn buffer_consistent(v: TcpWriteBufferView) -> bool {
    &&& v.has_pending == (v.chunks.len() > 0)
    &&& v.pending == flatten(v.chunks)
}

/// Every buffer's view is consistent, see [buffer_consistent]: in particular
/// a buffer that reports pending data has a first chunk for
/// [TcpWriteBuffer::next_chunk] to take, so [lemma_flush_progress] applies to
/// each write of a flush.
pub proof fn lemma_buffer_consistent(b: &TcpWriteBuffer)
    ensures
        buffer_consistent(b@),
{
}

impl TcpWriteBuffer {
    /// An empty buffer.
    pub fn new() -> (b: TcpWriteBuffer)
        ensures
            b@.chunks == Seq::<Seq<u8>>::empty(),
            b@.pending == Seq::<u8>::empty(),
            !b@.has_pending,
            b@.bytes_written == 0,
            buffer_consistent(b@),
    {
        let b = TcpWriteBuffer { chunks: VecDeque::new(), bytes_written: 0 };
        assert(chunk_views(b.chunks@) =~= Seq::<Seq<u8>>::empty());
        b
    }

    /// The bytes written by the flush under way.
    pub fn bytes_written(&self) -> (n: usize)
        ensures
            n == self@.bytes_written,
    {
        self.bytes_written
    }

    /// Whether some data is still to be written.
    pub fn is_pending(&self) -> (r: bool)
        ensures
            r == self@.has_pending,
    {
        self.chunks.len() != 0
    }

    /// Appends data to be written.
    pub fn push(&mut self, data: Vec<u8>)
        ensures
            final(self)@.chunks == old(self)@.chunks.push(data@),
            final(self)@.pending == old(self)@.pending + data@,
            final(self)@.has_pending,
            final(self)@.bytes_written == old(self)@.bytes_written,
            buffer_consistent(final(self)@),
    {
        let ghost before = self.chunks@;
        self.chunks.push_back(data);
        proof {
            assert(chunk_views(self.chunks@) =~= chunk_views(before).push(data@));
            lemma_flatten_push(chunk_views(before), data@);
        }
    }

    /// Starts flushing the buffer: no byte is written yet.
    pub fn start_flush(&mut self)
        ensures
            final(self)@ == (TcpWriteBufferView { bytes_written: 0, ..old(self)@ }),
            buffer_consistent(final(self)@),
    {
        self.bytes_written = 0;
    }

    /// Takes the next chunk to write, if any.
    pub fn next_chunk(&mut self) -> (c: Option<Vec<u8>>)
        ensures
            old(self)@.has_pending <==> c is Some,
            c matches Some(chunk) ==> {
                &&& chunk@ == old(self)@.chunks[0]
                &&& final(self)@.chunks == old(self)@.chunks.drop_first()
                &&& old(self)@.pending == chunk@ + final(self)@.pending
            },
            c is None ==> final(self)@ == old(self)@,
            final(self)@.bytes_written == old(self)@.bytes_written,
            buffer_consistent(old(self)@),
            buffer_consistent(final(self)@),
    {
        let ghost before = self.chunks@;
        let c = self.chunks.pop_front();
        proof {
            if before.len() > 0 {
                assert(before =~= seq![before[0]] + self.chunks@);
                assert(chunk_views(before) =~= seq![before[0]@] + chunk_views(self.chunks@));
                lemma_flatten_cons(before[0]@, chunk_views(self.chunks@));
            }
        }
        c
    }

    /// The result of a flush that found nothing more to write.
    pub fn finished(&self) -> (r: StreamResult)
        ensures
            r == (StreamResult::Success { bytes_count: self@.bytes_written, would_block: false, pending_write: false }),
    {
        StreamResult::Success { bytes_count: self.bytes_written, would_block: false, pending_write: false }
    }

    /// Records the outcome of writing a chunk taken by [TcpWriteBuffer::next_chunk].
    /// What was not written goes back to the front of the buffer. The flush
    /// goes on (`None`) after a write; it ends on an error, reporting that it
    /// would block with data pending where the socket would block, and the
    /// error otherwise.
    pub fn on_write(&mut self, chunk: Vec<u8>, outcome: IoOutcome) -> (r: Option<StreamResult>)
        requires
            outcome matches IoOutcome::Transferred(count) ==> count <= chunk@.len() && old(self)@.bytes_written
                + count <= usize::MAX,
        ensures
            buffer_consistent(final(self)@),
            match outcome {
                IoOutcome::Transferred(count) => {
                    &&& r is None
                    &&& final(self)@.chunks == (if count < chunk@.len() {
                        seq![chunk@.skip(count as int)] + old(self)@.chunks
                    } else {
                        old(self)@.chunks
                    })
                    &&& final(self)@.pending == chunk@.skip(count as int) + old(self)@.pending
                    &&& final(self)@.bytes_written == old(self)@.bytes_written + count
                },
                IoOutcome::Failed(e) => {
                    &&& final(self)@.chunks == seq![chunk@] + old(self)@.chunks
                    &&& final(self)@.pending == chunk@ + old(self)@.pending
                    &&& final(self)@.bytes_written == old(self)@.bytes_written
                    &&& final(self)@.has_pending
                    &&& r matches Some(res)
                    &&& e.kind == IoErrorKind::WouldBlock ==> res == (StreamResult::Success {
                        bytes_count: old(self)@.bytes_written,
                        would_block: true,
                        pending_write: true,
                    })
                    &&& e.kind != IoErrorKind::WouldBlock ==> (res matches StreamResult::Failure(f) && f == e)
                },
            },
    {
        let ghost before = self.chunks@;
        match outcome {
            IoOutcome::Transferred(count) => {
                self.bytes_written = self.bytes_written + count;
                let ghost rest = chunk@.skip(count as int);
                if count < chunk.len() {
                    let mut remainder: Vec<u8> = Vec::new();
                    let mut i: usize = count;
                    while i < chunk.len()
                        invariant
                            count <= i <= chunk@.len(),
                            remainder@ == chunk@.subrange(count as int, i as int),
                        decreases chunk.len() - i,
                    {
                        remainder.push(chunk[i]);
                        i = i + 1;
                        assert(remainder@ =~= chunk@.subrange(count as int, i as int));
                    }
                    self.chunks.push_front(remainder);
                    proof {
                        assert(remainder@ =~= rest);
                        assert(self.chunks@ =~= seq![remainder] + before);
                        assert(chunk_views(self.chunks@) =~= seq![rest] + chunk_views(before));
                        lemma_flatten_cons(rest, chunk_views(before));
                    }
                } else {
                    assert(rest =~= Seq::<u8>::empty());
                    assert(rest + flatten(chunk_views(before)) =~= flatten(chunk_views(before)));
                }
                None
            },
            IoOutcome::Failed(e) => {
                let would_block = match e.kind {
                    IoErrorKind::WouldBlock => true,
                    _ => false,
                };
                self.chunks.push_front(chunk);
                proof {
                    assert(self.chunks@ =~= seq![chunk] + before);
                    assert(chunk_views(self.chunks@) =~= seq![chunk@] + chunk_views(before));
                    lemma_flatten_cons(chunk@, chunk_views(before));
                }
                if would_block {
                    Some(StreamResult::Success { bytes_count: self.bytes_written, would_block: true, pending_write: true })
                } else {
                    Some(StreamResult::Failure(e))
                }
            },
        }
    }

    /// The result of a read from the TCP socket: an error that it would block
    /// reads as no bytes; `pending_write` tells whether data waits in this
    /// buffer.
    pub fn read_result(&self, outcome: IoOutcome) -> (r: StreamResult)
        ensures
            match outcome {
                IoOutcome::Transferred(n) => r == (StreamResult::Success {
                    bytes_count: n,
                    would_block: false,
                    pending_write: self@.has_pending,
                }),
                IoOutcome::Failed(e) => if e.kind == IoErrorKind::WouldBlock {
                    r == (StreamResult::Success { bytes_count: 0, would_block: true, pending_write: self@.has_pending })
                } else {
                    r matches StreamResult::Failure(f) && f == e
                },
            },
    {
        let pending_write = self.is_pending();
        match outcome {
            IoOutcome::Transferred(bytes_count) => StreamResult::Success { bytes_count, would_block: false, pending_write },
            IoOutcome::Failed(e) => match e.kind {
                IoErrorKind::WouldBlock => StreamResult::Success { bytes_count: 0, would_block: true, pending_write },
                _ => StreamResult::Failure(e),
            },
        }
    }
}

/// Law: taking a chunk and writing `count` of its bytes removes exactly the
/// first `count` pending bytes; nothing is lost or reordered.
pub proof fn lemma_write_removes_prefix(before: Seq<u8>, chunk: Seq<u8>, rest: Seq<u8>, count: int)
    requires
        before == chunk + rest,
        0 <= count <= chunk.len(),
    ensures
        chunk.skip(count) + rest == before.skip(count),
{
    assert(chunk.skip(count) + rest =~= before.skip(count));
}

// ---------------------------------------------------------------------------
// UDP socket readiness (Windows)
// ---------------------------------------------------------------------------

/// The local address that a UDP socket to `remote` is bound to on Windows:
/// the address of the internet interface of the remote's family, with any
/// port (0); none where the machine has no such interface.
pub open spec fn udp_bind_address_of(
    remote: SocketAddress,
    ipv4_interface: Option<u32>,
    ipv6_interface: Option<u128>,
) -> Option<SocketAddress> {
    match remote.ip {
        IpAddress::V4(_) => match ipv4_interface {
            Some(a) => Some(SocketAddress { ip: IpAddress::V4(a), port: 0 }),
            None => None,
        },
        IpAddress::V6(_) => match ipv6_interface {
            Some(a) => Some(SocketAddress { ip: IpAddress::V6(a), port: 0 }),
            None => None,
        },
    }
}

/// The message of the error for a remote whose family has no internet
/// interface.
pub open spec fn no_interface_message(remote: SocketAddress) -> Seq<char> {
    match remote.ip {
        IpAddress::V4(_) => "Can't find an IPv4 internet interface"@,
        IpAddress::V6(_) => "Can't find an IPv6 internet interface"@,
    }
}

/// The local address for a UDP socket to `remote`, see
/// [udp_bind_address_of], given the addresses of the machine's IPv4 and IPv6
/// internet interfaces, if any; an error that the address is not available
/// where the remote's family has none.
pub fn udp_bind_address(
    remote: SocketAddress,
    ipv4_interface: Option<u32>,
    ipv6_interface: Option<u128>,
) -> (r: Result<SocketAddress, StreamError>)
    ensures
        match r {
            Ok(a) => udp_bind_address_of(remote, ipv4_interface, ipv6_interface) == Some(a),
            Err(e) => {
                &&& udp_bind_address_of(remote, ipv4_interface, ipv6_interface) is None
                &&& e.kind == IoErrorKind::AddrNotAvailable
                &&& e.message@ == no_interface_message(remote)
            },
        },
{
    match remote.ip {
        IpAddress::V4(_) => match ipv4_interface {
            Some(a) => Ok(SocketAddress { ip: IpAddress::V4(a), port: 0 }),
            None => Err(
                StreamError {
                    kind: IoErrorKind::AddrNotAvailable,
                    message: String::from_str("Can't find an IPv4 internet interface"),
                },
            ),
        },
        IpAddress::V6(_) => match ipv6_interface {
            Some(a) => Ok(SocketAddress { ip: IpAddress::V6(a), port: 0 }),
            None => Err(
                StreamError {
                    kind: IoErrorKind::AddrNotAvailable,
                    message: String::from_str("Can't find an IPv6 internet interface"),
                },
            ),
        },
    }
}

/// Readiness of a socket as reported by a poll.
#[derive(Debug, Copy, Clone, PartialEq, Eq, Structural)]
pub struct WindowsStreamState {
    pub is_readable: bool,
    pub is_writable: bool,
}

/// Whether a UDP socket is known to be readable or writable: set by socket
/// events and by successful operations, cleared by failed ones.
#[derive(Debug, Copy, Clone, PartialEq, Eq, Structural)]
pub struct UdpReadiness {
    pub is_readable: bool,
    pub is_writable: bool,
}

/// The result of a datagram operation: an error that it would block reads as
/// no bytes; a datagram socket never has data pending.
pub open spec fn datagram_result(outcome: IoOutcome) -> StreamResult {
    match outcome {
        IoOutcome::Transferred(n) => StreamResult::Success { bytes_count: n, would_block: false, pending_write: false },
        IoOutcome::Failed(e) => if e.kind == IoErrorKind::WouldBlock {
            StreamResult::Success { bytes_count: 0, would_block: true, pending_write: false }
        } else {
            StreamResult::Failure(e)
        },
    }
}

fn to_datagram_result(outcome: IoOutcome) -> (r: StreamResult)
    ensures
        r == datagram_result(outcome),
{
    match outcome {
        IoOutcome::Transferred(n) => StreamResult::ok(n, false, false),
        IoOutcome::Failed(e) => match e.kind {
            IoErrorKind::WouldBlock => StreamResult::ok(0, true, false),
            _ => StreamResult::Failure(e),
        },
    }
}

impl UdpReadiness {
    /// A socket not known to be ready.
    pub fn new() -> (r: UdpReadiness)
        ensures
            !r.is_readable && !r.is_writable,
    {
        UdpReadiness { is_readable: false, is_writable: false }
    }

    /// Records a receive: the socket stays readable exactly when it succeeded.
    pub fn on_read(&mut self, outcome: IoOutcome) -> (r: StreamResult)
        ensures
            final(self).is_readable == (outcome is Transferred),
            final(self).is_writable == old(self).is_writable,
            r == datagram_result(outcome),
    {
        self.is_readable = match &outcome {
            IoOutcome::Transferred(_) => true,
            IoOutcome::Failed(_) => false,
        };
        to_datagram_result(outcome)
    }

    /// Records a send: the socket stays writable exactly when it succeeded.
    pub fn on_write(&mut self, outcome: IoOutcome) -> (r: StreamResult)
        ensures
            final(self).is_writable == (outcome is Transferred),
            final(self).is_readable == old(self).is_readable,
            r == datagram_result(outcome),
    {
        self.is_writable = match &outcome {
            IoOutcome::Transferred(_) => true,
            IoOutcome::Failed(_) => false,
        };
        to_datagram_result(outcome)
    }

    /// Records the events of a poll; a socket once known ready stays so until
    /// an operation fails.
    pub fn get_state(&mut self, events: WindowsStreamState) -> (s: WindowsStreamState)
        ensures
            final(self).is_readable == (old(self).is_readable || events.is_readable),
            final(self).is_writable == (old(self).is_writable || events.is_writable),
            s == (WindowsStreamState { is_readable: final(self).is_readable, is_writable: final(self).is_writable }),
    {
        self.is_readable = self.is_readable || events.is_readable;
        self.is_writable = self.is_writable || events.is_writable;
        WindowsStreamState { is_readable: self.is_readable, is_writable: self.is_writable }
    }

    /// Flushing a datagram socket writes nothing: it buffers nothing.
    pub fn write_from_buffer(&self) -> (r: StreamResult)
        ensures
            r == (StreamResult::Success { bytes_count: 0, would_block: false, pending_write: false }),
    {
        StreamResult::ok(0, false, false)
    }
}

// ---------------------------------------------------------------------------
// Windows wait results
// ---------------------------------------------------------------------------

/// Wait-object index of the waker handle (the first handle waited on).
pub const WAKER_EVENT: u32 = 0;

/// Wait-object index of the TUN stream's handle (the second handle).
pub const TUN_EVENT: u32 = 1;

/// What a wait on the handles of the streams returned.
#[derive(Debug, Copy, Clone, PartialEq, Eq, Structural)]
pub enum WaitEvent {
    Timeout,
    /// The waker was signalled: the poll is interrupted.
    Waker,
    Tun,
    /// The stream at this position of the registry was signalled.
    Stream(usize),
    /// The TUN stream was signalled, but no stream is registered.
    NoTunStream,
    /// A stream position beyond the registered streams was signalled.
    InvalidIndex(usize),
}

/// The event for a wait result: the handles are the waker's, then those of
/// the `stream_count` streams in registry order, the TUN stream first. A
/// position with no registered stream is an error.
pub open spec fn wait_event_of(result_index: u32, timeout_event: u32, stream_count: usize) -> WaitEvent {
    if result_index == timeout_event {
        WaitEvent::Timeout
    } else if result_index == WAKER_EVENT {
        WaitEvent::Waker
    } else if result_index == TUN_EVENT {
        if stream_count > 0 {
            WaitEvent::Tun
        } else {
            WaitEvent::NoTunStream
        }
    } else if result_index - 1 < stream_count {
        WaitEvent::Stream((result_index - 1) as usize)
    } else {
        WaitEvent::InvalidIndex((result_index - 1) as usize)
    }
}

/// The event for a wait result, see [wait_event_of]; `timeout_event` is the
/// value the wait returns on timeout, `stream_count` the number of registered
/// streams.
pub fn classify_wait_result(result_index: u32, timeout_event: u32, stream_count: usize) -> (e: WaitEvent)
    ensures
        e == wait_event_of(result_index, timeout_event, stream_count),
{
    if result_index == timeout_event {
        WaitEvent::Timeout
    } else if result_index == WAKER_EVENT {
        WaitEvent::Waker
    } else if result_index == TUN_EVENT {
        if stream_count > 0 {
            WaitEvent::Tun
        } else {
            WaitEvent::NoTunStream
        }
    } else {
        let index = (result_index - 1) as usize;
        if index < stream_count {
            WaitEvent::Stream(index)
        } else {
            WaitEvent::InvalidIndex(index)
        }
    }
}

/// The poll timeout in milliseconds for a wakeup deadline (in nanoseconds from
/// now): the deadline, capped at `infinite`, the value that waits without end;
/// without a deadline, `infinite`.
pub open spec fn poll_timeout_millis(deadline_nanos: Option<u128>, infinite: u32) -> u32 {
    match deadline_nanos {
        None => infinite,
        Some(t) => if t / 1_000_000 < infinite as u128 {
            (t / 1_000_000) as u32
        } else {
            infinite
        },
    }
}

/// The poll timeout in milliseconds, see [poll_timeout_millis].
pub fn poll_timeout(deadline_nanos: Option<u128>, infinite: u32) -> (t: u32)
    ensures
        t == poll_timeout_millis(deadline_nanos, infinite),
{
    match deadline_nanos {
        None => infinite,
        Some(t) => {
            let millis = t / 1_000_000;
            if millis < infinite as u128 {
                millis as u32
            } else {
                infinite
            }
        },
    }
}

// ---------------------------------------------------------------------------
// Registry of open streams
// ---------------------------------------------------------------------------

/// The open streams of a connection with their ids, in the order in which
/// they were opened.
pub struct StreamRegistry<S> {
    entries: Vec<(StreamId, S)>,
}

impl<S> View for StreamRegistry<S> {
    type V = Seq<(StreamId, S)>;

    closed spec fn view(&self) -> Seq<(StreamId, S)> {
        self.entries@
    }
}

/// The position of the first stream with the id, if any.
pub open spec fn position_of<S>(entries: Seq<(StreamId, S)>, id: StreamId) -> Option<int>
    decreases entries.len(),
{
    if entries.len() == 0 {
        None
    } else {
        match position_of(entries.drop_last(), id) {
            Some(i) => Some(i),
            None => if entries.last().0 == id {
                Some(entries.len() - 1)
            } else {
                None
            },
        }
    }
}

/// The streams without those with the id, in order.
pub open spec fn without_id<S>(entries: Seq<(StreamId, S)>, id: StreamId) -> Seq<(StreamId, S)>
    decreases entries.len(),
{
    if entries.len() == 0 {
        Seq::empty()
    } else {
        let prev = without_id(entries.drop_last(), id);
        if entries.last().0 != id {
            prev.push(entries.last())
        } else {
            prev
        }
    }
}

proof fn lemma_position_of_bounds<S>(entries: Seq<(StreamId, S)>, id: StreamId)
    ensures
        position_of(entries, id) matches Some(i) ==> 0 <= i < entries.len() && entries[i].0 == id && forall|k: int|
            0 <= k < i ==> (#[trigger] entries[k]).0 != id,
        position_of(entries, id) is None ==> forall|k: int| 0 <= k < entries.len() ==> (#[trigger] entries[k]).0 != id,
    decreases entries.len(),
{
    if entries.len() > 0 {
        lemma_position_of_bounds(entries.drop_last(), id);
        assert forall|k: int| 0 <= k < entries.len() - 1 implies entries.drop_last()[k] == #[trigger] entries[k] by {}
    }
}

impl<S> StreamRegistry<S> {
    /// A registry with the TUN stream only.
    pub fn new(tun: S) -> (r: StreamRegistry<S>)
        ensures
            r@ == seq![(StreamId::Tun, tun)],
    {
        let mut entries: Vec<(StreamId, S)> = Vec::new();
        entries.push((StreamId::Tun, tun));
        StreamRegistry { entries }
    }

    /// The number of open streams.
    pub fn len(&self) -> (n: usize)
        ensures
            n == self@.len(),
    {
        self.entries.len()
    }

    /// Adds an opened stream.
    pub fn register(&mut self, stream_id: StreamId, stream: S)
        ensures
            final(self)@ == old(self)@.push((stream_id, stream)),
    {
        self.entries.push((stream_id, stream));
    }

    /// The position of the first stream with the id, if any.
    pub fn find(&self, stream_id: StreamId) -> (r: Option<usize>)
        ensures
            match r {
                Some(i) => position_of(self@, stream_id) == Some(i as int),
                None => position_of(self@, stream_id) is None,
            },
    {
        let mut i: usize = 0;
        while i < self.entries.len()
            invariant
                i <= self.entries@.len(),
                forall|k: int| 0 <= k < i ==> (#[trigger] self.entries@[k]).0 != stream_id,
            decreases self.entries.len() - i,
        {
            if self.entries[i].0 == stream_id {
                proof {
                    lemma_position_of_bounds(self@, stream_id);
                    lemma_position_is_first(self@, stream_id, i as int);
                }
                return Some(i);
            }
            i = i + 1;
        }
        proof {
            lemma_position_of_bounds(self@, stream_id);
            if position_of(self@, stream_id) is Some {
                let p = position_of(self@, stream_id).unwrap();
                assert(self.entries@[p].0 == stream_id);
            }
        }
        None
    }

    /// The stream at a position.
    pub fn stream_at(&self, index: usize) -> (s: &S)
        requires
            index < self@.len(),
        ensures
            *s == self@[index as int].1,
    {
        &self.entries[index].1
    }

    /// The stream at a position, for an operation on it.
    pub fn stream_at_mut(&mut self, index: usize) -> (s: &mut S)
        requires
            index < old(self)@.len(),
        ensures
            *s == old(self)@[index as int].1,
            final(self)@ == old(self)@.update(index as int, (old(self)@[index as int].0, *final(s))),
    {
        &mut self.entries[index].1
    }

    /// Closes every stream with the id; the others keep their order, and no
    /// stream with the id is left.
    pub fn close(&mut self, stream_id: StreamId)
        ensures
            final(self)@ == without_id(old(self)@, stream_id),
            position_of(final(self)@, stream_id) is None,
    {
        let mut kept: Vec<(StreamId, S)> = Vec::new();
        let mut old_entries: Vec<(StreamId, S)> = Vec::new();
        std::mem::swap(&mut old_entries, &mut self.entries);
        let ghost all = old_entries@;
        for e in it: old_entries.into_iter()
            invariant
                it.seq() == all,
                kept@ == without_id(all.take(it.index() as int), stream_id),
        {
            let ghost n = it.index() as int;
            proof {
                assert(e == all[n]);
                assert(all.take(n + 1) =~= all.take(n).push(all[n]));
                assert(all.take(n + 1).drop_last() =~= all.take(n));
            }
            if e.0 != stream_id {
                kept.push(e);
            }
        }
        proof {
            assert(all.take(all.len() as int) =~= all);
            lemma_without_id_lacks_id(all, stream_id);
            lemma_position_of_bounds(kept@, stream_id);
            if position_of(kept@, stream_id) is Some {
                let p = position_of(kept@, stream_id).unwrap();
                assert(kept@[p].0 == stream_id);
            }
        }
        self.entries = kept;
    }
}

proof fn lemma_without_id_lacks_id<S>(entries: Seq<(StreamId, S)>, id: StreamId)
    ensures
        forall|k: int| 0 <= k < without_id(entries, id).len() ==> (#[trigger] without_id(entries, id)[k]).0 != id,
    decreases entries.len(),
{
    if entries.len() > 0 {
        lemma_without_id_lacks_id(entries.drop_last(), id);
    }
}

proof fn lemma_position_is_first<S>(entries: Seq<(StreamId, S)>, id: StreamId, i: int)
    requires
        0 <= i < entries.len(),
        entries[i].0 == id,
        forall|k: int| 0 <= k < i ==> (#[trigger] entries[k]).0 != id,
    ensures
        position_of(entries, id) == Some(i),
{
    lemma_position_of_bounds(entries, id);
    if position_of(entries, id) is Some {
        let p = position_of(entries, id).unwrap();
        assert(p == i) by {
            if p < i {
                assert(entries[p].0 != id);
            }
        }
    }
}

} // verus!
