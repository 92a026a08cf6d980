//! The decisions of the connection loop.
//!
//! The loop itself (receiving messages, driving the VPN client library and
//! polling the streams) runs outside the library: it hands each event to a
//! [PvpnConnectionCore] and carries out the [Command]s it gets back, in order.
use vstd::prelude::*;
use crate::api::{ConnectivityEvent, PcapFileInfo, PcapFileInfoView};
use crate::client::{client_state, opt_string_view, opt_tunnel_view, to_client_state, TunnelInfo};
use crate::io::{socket_err_of, to_tun_error, error_kind_to_socket_err, tun_error_of, IoErrorKind, SocketErr, StreamId, StreamResult};
use crate::ip::IpAddress;
use crate::keys::WgClientPrivateKey;
use crate::peers::{all_ports_valid, client_peer_of, peer_views, ClientPeer, ClientPeerView, PeerInfo, PeerInfoView};
use crate::state::{ConnStateView, PvpnConnectionState, WaitReason, WaitReasonView};

verus! {

/// Messages that can be sent to the connection loop.
pub enum PvpnMessage {
    /// Disconnect and stop the connection loop.
    Disconnect,
    SetPeers(Vec<PeerInfo>),
    SetIsNetworkAvailable(bool),
    ConnectivityChange(ConnectivityEvent),
    /// The TUN device is now the one behind this file descriptor.
    UpdateTun { tun_fd: i32 },
    UpdateWgPrivateKey(WgClientPrivateKey),
    StartPacketCapture(PcapFileInfo),
    StopPacketCapture,
    RequestStats,
}

/// What the loop is to do, in order, after an event.
pub enum Command {
    /// Hand the private key to the client library.
    SetPrivateKey(WgClientPrivateKey),
    /// Register a candidate peer with the client library.
    AddPeer(ClientPeer),
    /// Remove the peer with this address from the client library.
    RemovePeer(IpAddress),
    /// Replace the TUN stream by one on this file descriptor.
    ReplaceTun { tun_fd: i32 },
    StartPacketCapture(PcapFileInfo),
    StopPacketCapture,
    /// Report the tunnel statistics to the event callback.
    RequestStats,
    /// Push the bytes just read from a stream to the client library.
    PushRead { stream_id: StreamId, bytes_count: usize },
    /// Push a stream error to the client library.
    PushError { stream_id: StreamId, error: SocketErr },
    /// Tell the client library that a write on a stream completed.
    PushDone { stream_id: StreamId },
    /// Whether to poll a stream for writability.
    SetPollWaitForWrite { stream_id: StreamId, enabled: bool },
}

pub enum CommandView {
    SetPrivateKey(Seq<u8>),
    AddPeer(ClientPeerView),
    RemovePeer(IpAddress),
    ReplaceTun { tun_fd: i32 },
    StartPacketCapture(PcapFileInfoView),
    StopPacketCapture,
    RequestStats,
    PushRead { stream_id: StreamId, bytes_count: usize },
    PushError { stream_id: StreamId, error: SocketErr },
    PushDone { stream_id: StreamId },
    SetPollWaitForWrite { stream_id: StreamId, enabled: bool },
}

impl View for Command {
    type V = CommandView;

    open spec fn view(&self) -> CommandView {
        match self {
            Command::SetPrivateKey(k) => CommandView::SetPrivateKey(k@),
            Command::AddPeer(p) => CommandView::AddPeer(p@),
            Command::RemovePeer(a) => CommandView::RemovePeer(*a),
            Command::ReplaceTun { tun_fd } => CommandView::ReplaceTun { tun_fd: *tun_fd },
            Command::StartPacketCapture(f) => CommandView::StartPacketCapture(f@),
            Command::StopPacketCapture => CommandView::StopPacketCapture,
            Command::RequestStats => CommandView::RequestStats,
            Command::PushRead { stream_id, bytes_count } => CommandView::PushRead {
                stream_id: *stream_id,
                bytes_count: *bytes_count,
            },
            Command::PushError { stream_id, error } => CommandView::PushError {
                stream_id: *stream_id,
                error: *error,
            },
            Command::PushDone { stream_id } => CommandView::PushDone { stream_id: *stream_id },
            Command::SetPollWaitForWrite { stream_id, enabled } => CommandView::SetPollWaitForWrite {
                stream_id: *stream_id,
                enabled: *enabled,
            },
        }
    }
}

pub open spec fn command_views(s: Seq<Command>) -> Seq<CommandView> {
    s.map_values(|c: Command| c@)
}

/// Removing every peer of the list from the client library.
pub open spec fn removals(peers: Seq<PeerInfoView>) -> Seq<CommandView> {
    Seq::new(peers.len(), |i: int| CommandView::RemovePeer(peers[i].server_ip))
}

/// Registering every peer of the list with the client library.
pub open spec fn additions(peers: Seq<PeerInfoView>) -> Seq<CommandView> {
    Seq::new(peers.len(), |i: int| CommandView::AddPeer(client_peer_of(peers[i])))
}

/// The commands and state change of an event.
pub struct Step {
    pub commands: Vec<Command>,
    /// Whether the connection state changed, so that the state callback is to
    /// be told the new state.
    pub state_changed: bool,
}

/// What the decisions of a connection loop rest on.
pub struct PvpnConnectionCore {
    state: PvpnConnectionState,
    peers: Vec<PeerInfo>,
    network_available: bool,
    should_stop: bool,
    current_tun_error: Option<String>,
}

pub struct CoreView {
    pub state: ConnStateView,
    pub peers: Seq<PeerInfoView>,
    pub network_available: bool,
    pub should_stop: bool,
    pub tun_error: Option<Seq<char>>,
}

impl View for PvpnConnectionCore {
    type V = CoreView;

    closed spec fn view(&self) -> CoreView {
        CoreView {
            state: self.state@,
            peers: peer_views(self.peers@),
            network_available: self.network_available,
            should_stop: self.should_stop,
            tun_error: opt_string_view(self.current_tun_error),
        }
    }
}

/// The state of waiting for the network.
pub open spec fn waiting_for_network() -> ConnStateView {
    ConnStateView::WaitingForAction(WaitReasonView::WaitingForNetwork)
}

/// The addresses of a peer list.
pub open spec fn peer_addresses(peers: Seq<PeerInfoView>) -> Set<IpAddress> {
    Set::new(|a: IpAddress| exists|i: int| 0 <= i < peers.len() && peers[i].server_ip == a)
}

/// The addresses of the peers that the client library is to hold for a core:
/// all current peers while the network is available, none otherwise.
pub open spec fn registered_peers(v: CoreView) -> Set<IpAddress> {
    if v.network_available {
        peer_addresses(v.peers)
    } else {
        Set::empty()
    }
}

/// The peer addresses that a client library holding `reg` holds after the
/// commands `cmds` were carried out.
pub open spec fn apply_peer_commands(reg: Set<IpAddress>, cmds: Seq<CommandView>) -> Set<IpAddress>
    decreases cmds.len(),
{
    if cmds.len() == 0 {
        reg
    } else {
        let prev = apply_peer_commands(reg, cmds.drop_last());
        match cmds.last() {
            CommandView::AddPeer(p) => prev.insert(p.addr),
            CommandView::RemovePeer(a) => prev.remove(a),
            _ => prev,
        }
    }
}

/// A change of network availability: where the network becomes or stays
/// available, or becomes unavailable, all peers are removed from the client,
/// then added again while it is available; where it becomes unavailable the
/// loop waits for the network. Being told again that there is no network
/// changes nothing.
pub open spec fn network_step(v: CoreView, available: bool) -> (CoreView, Seq<CommandView>, bool) {
    let changed = available != v.network_available;
    if available || changed {
        let state = if available {
            v.state
        } else {
            waiting_for_network()
        };
        (
            CoreView { network_available: available, state, ..v },
            removals(v.peers) + if available {
                additions(v.peers)
            } else {
                Seq::empty()
            },
            state != v.state,
        )
    } else {
        (v, Seq::empty(), false)
    }
}

/// A new peer list: the old peers are removed from the client, the new ones
/// added while the network is available.
pub open spec fn peers_step(v: CoreView, peers: Seq<PeerInfoView>) -> (CoreView, Seq<CommandView>) {
    (
        CoreView { peers, ..v },
        removals(v.peers) + if v.network_available {
            additions(peers)
        } else {
            Seq::empty()
        },
    )
}

/// Whether a connectivity event leaves the network available.
pub open spec fn available_after(event: ConnectivityEvent) -> bool {
    event != ConnectivityEvent::Down
}

/// The effect of a message on the core: its new view, the commands and
/// whether the state changed.
pub open spec fn message_step(v: CoreView, m: PvpnMessage) -> (CoreView, Seq<CommandView>, bool) {
    match m {
        PvpnMessage::Disconnect => (CoreView { should_stop: true, ..v }, Seq::empty(), false),
        PvpnMessage::SetPeers(peers) => {
            let r = peers_step(v, peer_views(peers@));
            (r.0, r.1, false)
        },
        PvpnMessage::SetIsNetworkAvailable(available) => network_step(v, available),
        PvpnMessage::ConnectivityChange(event) => network_step(v, available_after(event)),
        PvpnMessage::UpdateTun { tun_fd } => (v, seq![CommandView::ReplaceTun { tun_fd }], false),
        PvpnMessage::UpdateWgPrivateKey(k) => (v, seq![CommandView::SetPrivateKey(k@)], false),
        PvpnMessage::StartPacketCapture(f) => (v, seq![CommandView::StartPacketCapture(f@)], false),
        PvpnMessage::StopPacketCapture => (v, seq![CommandView::StopPacketCapture], false),
        PvpnMessage::RequestStats => (v, seq![CommandView::RequestStats], false),
    }
}

/// The peers that a message has registered with the client have valid ports:
/// a new peer list while the network is available, and the current peers
/// where the network becomes or stays available. (A zero port cannot be handed
/// to the client.)
pub open spec fn message_ports_valid(v: CoreView, m: PvpnMessage) -> bool {
    match m {
        PvpnMessage::SetPeers(peers) => v.network_available ==> all_ports_valid(peer_views(peers@)),
        PvpnMessage::SetIsNetworkAvailable(available) => available ==> all_ports_valid(v.peers),
        PvpnMessage::ConnectivityChange(event) => available_after(event) ==> all_ports_valid(v.peers),
        _ => true,
    }
}

/// The state the loop reports for a tunnel report: the client's state while
/// the network is available, waiting for the network otherwise.
pub open spec fn reported_state(v: CoreView, tunnel: Option<crate::client::TunnelInfoView>) -> ConnStateView {
    if v.network_available {
        client_state(tunnel, v.tun_error)
    } else {
        waiting_for_network()
    }
}

/// The TUN error kept after a stream operation.
pub open spec fn tun_error_after(v: CoreView, stream_id: StreamId, res: &StreamResult) -> Option<Seq<char>> {
    if stream_id is Tun {
        tun_error_of(res)
    } else {
        v.tun_error
    }
}

/// The commands after a write to a stream (or a flush of its buffer): on
/// success, poll it for writability while data is pending, and tell the client
/// the write is done once nothing is pending (not for the TUN stream); on
/// failure, push the error.
pub open spec fn write_result_commands(stream_id: StreamId, res: &StreamResult) -> Seq<CommandView> {
    match res {
        StreamResult::Success { pending_write, .. } => seq![
            CommandView::SetPollWaitForWrite { stream_id, enabled: *pending_write },
        ] + if !*pending_write && !(stream_id is Tun) {
            seq![CommandView::PushDone { stream_id }]
        } else {
            Seq::empty()
        },
        StreamResult::Failure(e) => seq![CommandView::PushError { stream_id, error: socket_err_of(e.kind) }],
    }
}

/// The commands after one read from a stream: bytes read are pushed to the
/// client while the network is available (dropped otherwise); an error is
/// pushed.
pub open spec fn read_result_commands(v: CoreView, stream_id: StreamId, res: &StreamResult) -> Seq<CommandView> {
    match res {
        StreamResult::Success { bytes_count, .. } => if *bytes_count > 0 && v.network_available {
            seq![CommandView::PushRead { stream_id, bytes_count: *bytes_count }]
        } else {
            Seq::empty()
        },
        StreamResult::Failure(e) => seq![CommandView::PushError { stream_id, error: socket_err_of(e.kind) }],
    }
}

/// Law: what the loop tells the client after a stream operation. After a
/// write, the stream is polled for writability exactly while data is pending,
/// and a stream other than TUN is reported done once nothing is pending; a
/// failed write, read or open pushes the error of its kind. Bytes read are
/// pushed, with their count, only while the network is available.
pub proof fn lemma_stream_result_commands(v: CoreView, stream_id: StreamId, res: &StreamResult)
    ensures
        res matches StreamResult::Success { pending_write, .. } ==> {
            &&& write_result_commands(stream_id, res)[0] == (CommandView::SetPollWaitForWrite {
                stream_id,
                enabled: *pending_write,
            })
            &&& write_result_commands(stream_id, res).len() == (if *pending_write == false && !(stream_id is Tun) {
                2int
            } else {
                1int
            })
            &&& write_result_commands(stream_id, res).len() == 2 ==> write_result_commands(stream_id, res)[1]
                == (CommandView::PushDone { stream_id })
        },
        res matches StreamResult::Failure(e) ==> {
            &&& write_result_commands(stream_id, res) == seq![CommandView::PushError { stream_id, error: socket_err_of(e.kind) }]
            &&& read_result_commands(v, stream_id, res) == seq![CommandView::PushError { stream_id, error: socket_err_of(e.kind) }]
        },
        res matches StreamResult::Success { bytes_count, .. } ==> read_result_commands(v, stream_id, res) == (
        if bytes_count > 0 && v.network_available {
            seq![CommandView::PushRead { stream_id, bytes_count: *bytes_count }]
        } else {
            Seq::empty()
        }),
        open_result_commands(stream_id, true, None) == Seq::<CommandView>::empty(),
        open_result_commands(stream_id, false, None) == seq![CommandView::SetPollWaitForWrite { stream_id, enabled: true }],
        forall|k: IoErrorKind| #[trigger] open_result_commands(stream_id, false, Some(k)) == seq![CommandView::PushError { stream_id, error: socket_err_of(k) }]
            && open_result_commands(stream_id, true, Some(k)) == seq![CommandView::PushError { stream_id, error: socket_err_of(k) }],
{
}

/// Whether to read again from a stream after a read: only after a successful
/// read of some bytes that did not report that it would block.
pub open spec fn read_again(res: &StreamResult) -> bool {
    match res {
        StreamResult::Success { bytes_count, would_block, .. } => !(*would_block || *bytes_count == 0),
        StreamResult::Failure(_) => false,
    }
}

/// Law: the loop reads again only after a read that moved some bytes and did
/// not report that it would block; a read of no bytes (the peer closed the
/// connection), a read that would block and a failed read end the reads.
pub proof fn lemma_read_again_only_after_bytes(res: &StreamResult)
    ensures
        read_again(res) <==> (res matches StreamResult::Success { bytes_count, would_block, .. } && bytes_count > 0
            && would_block == false),
        res matches StreamResult::Success { bytes_count, .. } && bytes_count == 0 ==> !read_again(res),
{
}

/// The commands after the attempt to open a stream: a TCP stream that opened
/// is polled for writability; a failure is pushed to the client.
pub open spec fn open_result_commands(stream_id: StreamId, is_udp: bool, error: Option<IoErrorKind>) -> Seq<CommandView> {
    match error {
        None => if is_udp {
            Seq::empty()
        } else {
            seq![CommandView::SetPollWaitForWrite { stream_id, enabled: true }]
        },
        Some(kind) => seq![CommandView::PushError { stream_id, error: socket_err_of(kind) }],
    }
}

/// What to do after one read from a stream.
pub struct ReadStep {
    pub commands: Vec<Command>,
    pub keep_reading: bool,
}

impl PvpnConnectionCore {
    fn push_additions(&self, cmds: &mut Vec<Command>)
        requires
            all_ports_valid(self@.peers),
        ensures
            command_views(final(cmds)@) == command_views(old(cmds)@) + additions(self@.peers),
    {
        let ghost start = command_views(cmds@);
        let mut i: usize = 0;
        while i < self.peers.len()
            invariant
                i <= self.peers.len(),
                all_ports_valid(self@.peers),
                command_views(cmds@) == start + additions(self@.peers).take(i as int),
            decreases self.peers.len() - i,
        {
            proof {
                assert(crate::peers::peer_ports_valid(self@.peers[i as int]));
            }
            let p = self.peers[i].as_peer();
            let ghost before = cmds@;
            cmds.push(Command::AddPeer(p));
            proof {
                assert(cmds@ == before.push(Command::AddPeer(p)));
                assert(command_views(cmds@) =~= command_views(before).push(CommandView::AddPeer(p@)));
                assert(additions(self@.peers)[i as int] == CommandView::AddPeer(p@));
                assert(additions(self@.peers).take(i + 1) =~= additions(self@.peers).take(i as int).push(
                    CommandView::AddPeer(p@),
                ));
            }
            i = i + 1;
            assert(command_views(cmds@) =~= start + additions(self@.peers).take(i as int));
        }
        assert(additions(self@.peers).take(self.peers.len() as int) =~= additions(self@.peers));
    }

    fn push_removals(&self, cmds: &mut Vec<Command>)
        ensures
            command_views(final(cmds)@) == command_views(old(cmds)@) + removals(self@.peers),
    {
        let ghost start = command_views(cmds@);
        let mut i: usize = 0;
        while i < self.peers.len()
            invariant
                i <= self.peers.len(),
                command_views(cmds@) == start + removals(self@.peers).take(i as int),
            decreases self.peers.len() - i,
        {
            let a = self.peers[i].addr();
            let ghost before = cmds@;
            cmds.push(Command::RemovePeer(a));
            proof {
                assert(cmds@ == before.push(Command::RemovePeer(a)));
                assert(command_views(cmds@) =~= command_views(before).push(CommandView::RemovePeer(a)));
                assert(removals(self@.peers)[i as int] == CommandView::RemovePeer(a));
                assert(removals(self@.peers).take(i + 1) =~= removals(self@.peers).take(i as int).push(
                    CommandView::RemovePeer(a),
                ));
            }
            i = i + 1;
            assert(command_views(cmds@) =~= start + removals(self@.peers).take(i as int));
        }
        assert(removals(self@.peers).take(self.peers.len() as int) =~= removals(self@.peers));
    }

    /// Makes `state` the current state; tells whether it differs from the
    /// previous one.
    fn set_state(&mut self, state: PvpnConnectionState) -> (changed: bool)
        ensures
            changed == (old(self)@.state != state@),
            final(self)@ == (CoreView { state: state@, ..old(self)@ }),
    {
        let changed = !state.same_as(&self.state);
        self.state = state;
        changed
    }
}

impl PvpnConnectionCore {
    /// The core of a loop started with the given peers, network availability
    /// and private key: the key is handed to the client, and the peers are
    /// registered while the network is available; otherwise the loop waits for
    /// the network.
    pub fn new(peers: Vec<PeerInfo>, network_available: bool, wg_private_key: WgClientPrivateKey) -> (r: (
        PvpnConnectionCore,
        Step,
    ))
        requires
            network_available ==> all_ports_valid(peer_views(peers@)),
        ensures
            r.0@ == (CoreView {
                state: if network_available {
                    ConnStateView::Disconnected(None)
                } else {
                    waiting_for_network()
                },
                peers: peer_views(peers@),
                network_available,
                should_stop: false,
                tun_error: None,
            }),
            command_views(r.1.commands@) == seq![CommandView::SetPrivateKey(wg_private_key@)] + if network_available {
                additions(peer_views(peers@))
            } else {
                Seq::empty()
            },
            r.1.state_changed == !network_available,
            apply_peer_commands(Set::empty(), command_views(r.1.commands@)) == registered_peers(r.0@),
    {
        let mut core = PvpnConnectionCore {
            state: PvpnConnectionState::Disconnected(None),
            peers,
            network_available,
            should_stop: false,
            current_tun_error: None,
        };
        let mut commands: Vec<Command> = Vec::new();
        let ghost key = wg_private_key@;
        commands.push(Command::SetPrivateKey(wg_private_key));
        assert(command_views(commands@) =~= seq![CommandView::SetPrivateKey(key)]);
        let mut state_changed = false;
        if core.network_available {
            core.push_additions(&mut commands);
        } else {
            state_changed = core.set_state(PvpnConnectionState::WaitingForAction(WaitReason::WaitingForNetwork));
        }
        proof {
            let cmds = command_views(commands@);
            lemma_apply_concat(Set::empty(), seq![CommandView::SetPrivateKey(key)], cmds.skip(1));
            assert(cmds =~= seq![CommandView::SetPrivateKey(key)] + cmds.skip(1));
            lemma_single_command_keeps(Set::empty(), seq![CommandView::SetPrivateKey(key)]);
            if network_available {
                assert(cmds.skip(1) =~= additions(core@.peers));
                lemma_apply_additions(Set::empty(), core@.peers);
                assert(Set::<IpAddress>::empty().union(peer_addresses(core@.peers)) =~= peer_addresses(core@.peers));
            } else {
                assert(cmds.skip(1) =~= Seq::<CommandView>::empty());
            }
        }
        (core, Step { commands, state_changed })
    }

    /// Whether the loop is to stop.
    pub fn should_stop(&self) -> (r: bool)
        ensures
            r == self@.should_stop,
    {
        self.should_stop
    }

    /// Whether the network is available.
    pub fn network_available(&self) -> (r: bool)
        ensures
            r == self@.network_available,
    {
        self.network_available
    }

    /// The current peers.
    pub fn peers(&self) -> (p: &Vec<PeerInfo>)
        ensures
            peer_views(p@) == self@.peers,
    {
        &self.peers
    }

    /// The current state.
    pub fn state(&self) -> (s: &PvpnConnectionState)
        ensures
            s@ == self@.state,
    {
        &self.state
    }

    /// Applies a change of network availability, see [network_step].
    pub fn set_network_available(&mut self, is_network_available: bool) -> (r: Step)
        requires
            is_network_available ==> all_ports_valid(old(self)@.peers),
        ensures
            (final(self)@, command_views(r.commands@), r.state_changed) == network_step(
                old(self)@,
                is_network_available,
            ),
            apply_peer_commands(registered_peers(old(self)@), command_views(r.commands@))
                == registered_peers(final(self)@),
    {
        let ghost v = self@;
        let changed = is_network_available != self.network_available;
        let mut commands: Vec<Command> = Vec::new();
        let mut state_changed = false;
        if is_network_available || changed {
            self.network_available = is_network_available;
            self.push_removals(&mut commands);
            if is_network_available {
                self.push_additions(&mut commands);
            } else {
                state_changed = self.set_state(
                    PvpnConnectionState::WaitingForAction(WaitReason::WaitingForNetwork),
                );
            }
            proof {
                assert(command_views(commands@) =~= network_step(v, is_network_available).1);
                lemma_reset_registry(v, v.peers, is_network_available);
            }
        } else {
            assert(command_views(commands@) =~= Seq::<CommandView>::empty());
        }
        Step { commands, state_changed }
    }

    /// Replaces the peer list, see [peers_step].
    pub fn set_peers(&mut self, new_peers: Vec<PeerInfo>) -> (commands: Vec<Command>)
        requires
            old(self)@.network_available ==> all_ports_valid(peer_views(new_peers@)),
        ensures
            (final(self)@, command_views(commands@)) == peers_step(old(self)@, peer_views(new_peers@)),
            apply_peer_commands(registered_peers(old(self)@), command_views(commands@))
                == registered_peers(final(self)@),
    {
        let ghost v = self@;
        let mut commands: Vec<Command> = Vec::new();
        self.push_removals(&mut commands);
        self.peers = new_peers;
        if self.network_available {
            self.push_additions(&mut commands);
        }
        proof {
            assert(command_views(commands@) =~= peers_step(v, peer_views(new_peers@)).1);
            assert(self@ =~= peers_step(v, peer_views(new_peers@)).0);
            lemma_reset_registry(v, peer_views(new_peers@), v.network_available);
        }
        commands
    }

    /// Handles one message, see [message_step].
    pub fn handle_message(&mut self, m: PvpnMessage) -> (r: Step)
        requires
            message_ports_valid(old(self)@, m),
        ensures
            (final(self)@, command_views(r.commands@), r.state_changed) == message_step(old(self)@, m),
            apply_peer_commands(registered_peers(old(self)@), command_views(r.commands@))
                == registered_peers(final(self)@),
    {
        let ghost v = self@;
        let ghost mm = m;
        let mut commands: Vec<Command> = Vec::new();
        match m {
            PvpnMessage::Disconnect => {
                self.should_stop = true;
                assert(command_views(commands@) =~= Seq::<CommandView>::empty());
                Step { commands, state_changed: false }
            },
            PvpnMessage::SetPeers(peers) => {
                let commands = self.set_peers(peers);
                Step { commands, state_changed: false }
            },
            PvpnMessage::SetIsNetworkAvailable(available) => self.set_network_available(available),
            PvpnMessage::ConnectivityChange(event) => {
                let available = match event {
                    ConnectivityEvent::Down => false,
                    _ => true,
                };
                self.set_network_available(available)
            },
            PvpnMessage::UpdateTun { tun_fd } => {
                commands.push(Command::ReplaceTun { tun_fd });
                proof { lemma_single_command_keeps(registered_peers(v), command_views(commands@)); }
                Step { commands, state_changed: false }
            },
            PvpnMessage::UpdateWgPrivateKey(k) => {
                commands.push(Command::SetPrivateKey(k));
                proof { lemma_single_command_keeps(registered_peers(v), command_views(commands@)); }
                Step { commands, state_changed: false }
            },
            PvpnMessage::StartPacketCapture(f) => {
                commands.push(Command::StartPacketCapture(f));
                proof { lemma_single_command_keeps(registered_peers(v), command_views(commands@)); }
                Step { commands, state_changed: false }
            },
            PvpnMessage::StopPacketCapture => {
                commands.push(Command::StopPacketCapture);
                proof { lemma_single_command_keeps(registered_peers(v), command_views(commands@)); }
                Step { commands, state_changed: false }
            },
            PvpnMessage::RequestStats => {
                commands.push(Command::RequestStats);
                proof { lemma_single_command_keeps(registered_peers(v), command_views(commands@)); }
                Step { commands, state_changed: false }
            },
        }
    }

    /// Updates the state from what the client reports of its tunnel, see
    /// [reported_state]; tells whether the state changed.
    pub fn update_state(&mut self, tunnel_info: Option<TunnelInfo>) -> (changed: bool)
        ensures
            final(self)@ == (CoreView { state: reported_state(old(self)@, opt_tunnel_view(tunnel_info)), ..old(self)@ }),
            changed == (old(self)@.state != reported_state(old(self)@, opt_tunnel_view(tunnel_info))),
    {
        if self.network_available {
            let error = match &self.current_tun_error {
                Some(e) => Some(e.clone()),
                None => None,
            };
            let state = to_client_state(tunnel_info, error);
            self.set_state(state)
        } else {
            self.set_state(PvpnConnectionState::WaitingForAction(WaitReason::WaitingForNetwork))
        }
    }

    /// Ends the loop: the state becomes disconnected (without error) unless it
    /// already is; tells whether it changed.
    pub fn finish(&mut self) -> (changed: bool)
        ensures
            old(self)@.state is Disconnected ==> final(self)@ == old(self)@ && !changed,
            !(old(self)@.state is Disconnected) ==> changed && final(self)@ == (CoreView {
                state: ConnStateView::Disconnected(None),
                ..old(self)@
            }),
    {
        if self.state.is_disconnected() {
            false
        } else {
            self.set_state(PvpnConnectionState::Disconnected(None))
        }
    }

    /// Handles the result of a write to a stream (or of flushing its buffer),
    /// see [write_result_commands]; the TUN error follows the result on the TUN
    /// stream.
    pub fn handle_stream_write_result(&mut self, stream_id: StreamId, res: &StreamResult) -> (commands: Vec<Command>)
        ensures
            final(self)@ == (CoreView { tun_error: tun_error_after(old(self)@, stream_id, res), ..old(self)@ }),
            command_views(commands@) == write_result_commands(stream_id, res),
    {
        if stream_id.is_tun() {
            self.current_tun_error = to_tun_error(res);
        }
        let mut commands: Vec<Command> = Vec::new();
        match res {
            StreamResult::Success { bytes_count: _, would_block: _, pending_write } => {
                commands.push(Command::SetPollWaitForWrite { stream_id, enabled: *pending_write });
                if !*pending_write && !stream_id.is_tun() {
                    commands.push(Command::PushDone { stream_id });
                }
            },
            StreamResult::Failure(e) => {
                commands.push(Command::PushError { stream_id, error: error_kind_to_socket_err(e.kind) });
            },
        }
        assert(command_views(commands@) =~= write_result_commands(stream_id, res));
        commands
    }

    /// Handles the result of one read from a stream, see
    /// [read_result_commands] and [read_again]; the TUN error follows the
    /// result on the TUN stream.
    pub fn on_read_result(&mut self, stream_id: StreamId, res: &StreamResult) -> (r: ReadStep)
        ensures
            final(self)@ == (CoreView { tun_error: tun_error_after(old(self)@, stream_id, res), ..old(self)@ }),
            command_views(r.commands@) == read_result_commands(old(self)@, stream_id, res),
            r.keep_reading == read_again(res),
            r.keep_reading <==> (res matches StreamResult::Success { bytes_count, would_block, .. } && bytes_count
                > 0 && would_block == false),
    {
        if stream_id.is_tun() {
            self.current_tun_error = to_tun_error(res);
        }
        let mut commands: Vec<Command> = Vec::new();
        let keep_reading = match res {
            StreamResult::Success { bytes_count, would_block, pending_write: _ } => {
                if *bytes_count > 0 && self.network_available {
                    commands.push(Command::PushRead { stream_id, bytes_count: *bytes_count });
                }
                !(*would_block || *bytes_count == 0)
            },
            StreamResult::Failure(e) => {
                commands.push(Command::PushError { stream_id, error: error_kind_to_socket_err(e.kind) });
                false
            },
        };
        assert(command_views(commands@) =~= read_result_commands(old(self)@, stream_id, res));
        ReadStep { commands, keep_reading }
    }

    /// Handles the outcome of opening a stream (`None` where it opened), see
    /// [open_result_commands].
    pub fn on_open_result(&self, stream_id: StreamId, is_udp: bool, error: Option<IoErrorKind>) -> (commands: Vec<Command>)
        ensures
            command_views(commands@) == open_result_commands(stream_id, is_udp, error),
    {
        let mut commands: Vec<Command> = Vec::new();
        match error {
            None => {
                if !is_udp {
                    commands.push(Command::SetPollWaitForWrite { stream_id, enabled: true });
                }
            },
            Some(kind) => {
                commands.push(Command::PushError { stream_id, error: error_kind_to_socket_err(kind) });
            },
        }
        assert(command_views(commands@) =~= open_result_commands(stream_id, is_udp, error));
        commands
    }
}

// ---------------------------------------------------------------------------
// Actions pulled from the client library
// ---------------------------------------------------------------------------

/// A socket address: an IP address and a port.
#[derive(Debug, Copy, Clone, PartialEq, Eq, Structural)]
pub struct SocketAddress {
    pub ip: IpAddress,
    pub port: u16,
}

/// The transport of a stream that the client library asks to open.
#[derive(Debug, Copy, Clone, PartialEq, Eq, Structural)]
pub enum VpnStreamKind {
    Udp,
    Tcp,
}

/// What an action pulled from the client library asks for; `O` is the
/// client library's socket option type, which the loop only passes on.
pub enum ClientActionKind<O> {
    Open { kind: VpnStreamKind, addr: SocketAddress },
    Write(Vec<u8>),
    SetOption(O),
    Close,
    Shutdown,
    /// Only ever pushed to the client library.
    Read(Vec<u8>),
    /// Only ever pushed to the client library.
    Error(SocketErr),
    /// Only ever pushed to the client library.
    Done,
}

/// The stream operation that carries out a pulled action.
pub enum StreamOp<O> {
    OpenUdp(SocketAddress),
    OpenTcp(SocketAddress),
    Write(Vec<u8>),
    SetOption(O),
    Close,
    ShutdownWrite,
    /// The action is one that the client library only takes, never gives:
    /// nothing is done but reporting it.
    Unexpected,
}

/// The stream operation for each kind of pulled action.
pub open spec fn stream_op_of<O>(kind: ClientActionKind<O>) -> StreamOp<O> {
    match kind {
        ClientActionKind::Open { kind: VpnStreamKind::Udp, addr } => StreamOp::OpenUdp(addr),
        ClientActionKind::Open { kind: VpnStreamKind::Tcp, addr } => StreamOp::OpenTcp(addr),
        ClientActionKind::Write(data) => StreamOp::Write(data),
        ClientActionKind::SetOption(option) => StreamOp::SetOption(option),
        ClientActionKind::Close => StreamOp::Close,
        ClientActionKind::Shutdown => StreamOp::ShutdownWrite,
        _ => StreamOp::Unexpected,
    }
}

/// Law: an opening action opens a stream of the kind it names (UDP as UDP, TCP
/// as TCP) to the address it names; a write writes the very data; an option
/// is set as given; a close closes and a shutdown shuts the write side down;
/// the actions the client library only takes are not carried out.
pub proof fn lemma_stream_op_matches_action<O>(addr: SocketAddress, data: Vec<u8>, option: O, err: SocketErr)
    ensures
        stream_op_of(ClientActionKind::<O>::Open { kind: VpnStreamKind::Udp, addr }) == StreamOp::<O>::OpenUdp(addr),
        stream_op_of(ClientActionKind::<O>::Open { kind: VpnStreamKind::Tcp, addr }) == StreamOp::<O>::OpenTcp(addr),
        stream_op_of(ClientActionKind::<O>::Write(data)) == StreamOp::<O>::Write(data),
        stream_op_of(ClientActionKind::SetOption(option)) == StreamOp::SetOption(option),
        stream_op_of(ClientActionKind::<O>::Close) == StreamOp::<O>::Close,
        stream_op_of(ClientActionKind::<O>::Shutdown) == StreamOp::<O>::ShutdownWrite,
        stream_op_of(ClientActionKind::<O>::Read(data)) == StreamOp::<O>::Unexpected,
        stream_op_of(ClientActionKind::<O>::Error(err)) == StreamOp::<O>::Unexpected,
        stream_op_of(ClientActionKind::<O>::Done) == StreamOp::<O>::Unexpected,
{
}

/// The stream operation that carries out an action pulled from the client.
pub fn stream_op_for<O>(kind: ClientActionKind<O>) -> (op: StreamOp<O>)
    ensures
        op == stream_op_of(kind),
{
    match kind {
        ClientActionKind::Open { kind: VpnStreamKind::Udp, addr } => StreamOp::OpenUdp(addr),
        ClientActionKind::Open { kind: VpnStreamKind::Tcp, addr } => StreamOp::OpenTcp(addr),
        ClientActionKind::Write(data) => StreamOp::Write(data),
        ClientActionKind::SetOption(option) => StreamOp::SetOption(option),
        ClientActionKind::Close => StreamOp::Close,
        ClientActionKind::Shutdown => StreamOp::ShutdownWrite,
        ClientActionKind::Read(_) | ClientActionKind::Error(_) | ClientActionKind::Done => StreamOp::Unexpected,
    }
}

// ---------------------------------------------------------------------------
// The peers registered with the client library
// ---------------------------------------------------------------------------

/// Carrying out two command lists in turn is carrying out their concatenation.
pub proof fn lemma_apply_concat(reg: Set<IpAddress>, a: Seq<CommandView>, b: Seq<CommandView>)
    ensures
        apply_peer_commands(reg, a + b) == apply_peer_commands(apply_peer_commands(reg, a), b),
    decreases b.len(),
{
    if b.len() == 0 {
        assert(a + b =~= a);
    } else {
        assert((a + b).drop_last() =~= a + b.drop_last());
        assert((a + b).last() == b.last());
        lemma_apply_concat(reg, a, b.drop_last());
    }
}

proof fn lemma_peer_addresses_last(peers: Seq<PeerInfoView>)
    requires
        peers.len() > 0,
    ensures
        peer_addresses(peers) == peer_addresses(peers.drop_last()).insert(peers.last().server_ip),
{
    let l = peers.drop_last();
    assert forall|a: IpAddress| #[trigger] peer_addresses(peers).contains(a) <==> peer_addresses(l).insert(peers.last().server_ip).contains(a) by {
        if peer_addresses(peers).contains(a) {
            let i = choose|i: int| 0 <= i < peers.len() && peers[i].server_ip == a;
            if i < peers.len() - 1 {
                assert(l[i] == peers[i]);
            }
        }
        if peer_addresses(l).contains(a) {
            let i = choose|i: int| 0 <= i < l.len() && l[i].server_ip == a;
            assert(peers[i] == l[i]);
        }
        if a == peers.last().server_ip {
            assert(peers[peers.len() - 1].server_ip == a);
        }
    }
    assert(peer_addresses(peers) =~= peer_addresses(l).insert(peers.last().server_ip));
}

/// Removing every peer of a list removes exactly their addresses.
pub proof fn lemma_apply_removals(reg: Set<IpAddress>, peers: Seq<PeerInfoView>)
    ensures
        apply_peer_commands(reg, removals(peers)) == reg.difference(peer_addresses(peers)),
    decreases peers.len(),
{
    if peers.len() == 0 {
        assert(reg.difference(peer_addresses(peers)) =~= reg);
    } else {
        let l = peers.drop_last();
        assert(removals(peers).drop_last() =~= removals(l));
        lemma_apply_removals(reg, l);
        lemma_peer_addresses_last(peers);
        assert(reg.difference(peer_addresses(l)).remove(peers.last().server_ip) =~= reg.difference(
            peer_addresses(peers),
        ));
    }
}

/// Registering every peer of a list adds exactly their addresses.
pub proof fn lemma_apply_additions(reg: Set<IpAddress>, peers: Seq<PeerInfoView>)
    ensures
        apply_peer_commands(reg, additions(peers)) == reg.union(peer_addresses(peers)),
    decreases peers.len(),
{
    if peers.len() == 0 {
        assert(reg.union(peer_addresses(peers)) =~= reg);
    } else {
        let l = peers.drop_last();
        assert(additions(peers).drop_last() =~= additions(l));
        lemma_apply_additions(reg, l);
        lemma_peer_addresses_last(peers);
        assert(reg.union(peer_addresses(l)).insert(peers.last().server_ip) =~= reg.union(
            peer_addresses(peers),
        ));
    }
}

/// Removing all old peers, then adding the new ones where the network is
/// available, leaves the client with the registered peers of the new state.
proof fn lemma_reset_registry(v: CoreView, new_peers: Seq<PeerInfoView>, available: bool)
    ensures
        apply_peer_commands(
            registered_peers(v),
            removals(v.peers) + if available {
                additions(new_peers)
            } else {
                Seq::empty()
            },
        ) == if available {
            peer_addresses(new_peers)
        } else {
            Set::<IpAddress>::empty()
        },
{
    let tail = if available {
        additions(new_peers)
    } else {
        Seq::<CommandView>::empty()
    };
    lemma_apply_concat(registered_peers(v), removals(v.peers), tail);
    lemma_apply_removals(registered_peers(v), v.peers);
    assert(registered_peers(v).difference(peer_addresses(v.peers)) =~= Set::<IpAddress>::empty());
    if available {
        lemma_apply_additions(Set::empty(), new_peers);
        assert(Set::<IpAddress>::empty().union(peer_addresses(new_peers)) =~= peer_addresses(new_peers));
    }
}

/// A single command that is no peer command leaves the registered peers as
/// they are.
proof fn lemma_single_command_keeps(reg: Set<IpAddress>, cmds: Seq<CommandView>)
    requires
        cmds.len() == 1,
        !(cmds[0] is AddPeer),
        !(cmds[0] is RemovePeer),
    ensures
        apply_peer_commands(reg, cmds) == reg,
{
    assert(cmds.drop_last() =~= Seq::<CommandView>::empty());
    assert(apply_peer_commands(reg, cmds.drop_last()) == reg);
    assert(cmds.last() == cmds[0]);
}

/// Law: whatever message the loop handles, its commands take a client library
/// that holds the registered peers of the state before (the current peers
/// while the network is available, none otherwise) to one that holds the
/// registered peers of the state after.
pub proof fn lemma_message_keeps_registry(v: CoreView, m: PvpnMessage)
    ensures
        apply_peer_commands(registered_peers(v), message_step(v, m).1) == registered_peers(message_step(v, m).0),
{
    match m {
        PvpnMessage::Disconnect => {},
        PvpnMessage::SetPeers(peers) => {
            lemma_reset_registry(v, peer_views(peers@), v.network_available);
        },
        PvpnMessage::SetIsNetworkAvailable(available) => {
            lemma_network_keeps_registry(v, available);
        },
        PvpnMessage::ConnectivityChange(event) => {
            lemma_network_keeps_registry(v, available_after(event));
        },
        _ => {
            lemma_single_command_keeps(registered_peers(v), message_step(v, m).1);
        },
    }
}

proof fn lemma_network_keeps_registry(v: CoreView, available: bool)
    ensures
        apply_peer_commands(registered_peers(v), network_step(v, available).1) == registered_peers(
            network_step(v, available).0,
        ),
{
    if available || available != v.network_available {
        lemma_reset_registry(v, v.peers, available);
    }
}

/// Law: the loop reports a state change at most once for the same tunnel
/// report: the state that [PvpnConnectionCore::update_state] sets is the one a
/// second update with the same report finds, so the second reports no change.
pub proof fn lemma_update_state_once(v: CoreView, tunnel: Option<crate::client::TunnelInfoView>)
    ensures
        ({
            let after = CoreView { state: reported_state(v, tunnel), ..v };
            reported_state(after, tunnel) == after.state
        }),
{
}

/// Law: a change of network availability told twice changes the state at most
/// once: the second time reports no state change.
pub proof fn lemma_network_step_once(v: CoreView, available: bool)
    ensures
        !network_step(network_step(v, available).0, available).2,
{
}

/// Law: ending the loop leaves it disconnected, so ending it again reports no
/// state change.
pub proof fn lemma_finish_once(v: CoreView)
    ensures
        ({
            let after = if v.state is Disconnected {
                v
            } else {
                CoreView { state: ConnStateView::Disconnected(None), ..v }
            };
            after.state is Disconnected
        }),
{
}

/// Law: when the network goes away the loop waits for the network, removes
/// every peer from the client and adds none; when it is (or stays) available
/// the state is kept and every peer is removed and added again, in list
/// order. A new peer list removes the old peers and, while the network is
/// available, adds the new ones; the rest of the loop is unchanged.
pub proof fn lemma_network_and_peer_steps(v: CoreView, peers: Seq<PeerInfoView>)
    ensures
        v.network_available ==> network_step(v, false) == (
            CoreView { network_available: false, state: waiting_for_network(), ..v },
            removals(v.peers),
            v.state != waiting_for_network(),
        ),
        !v.network_available ==> network_step(v, false) == (v, Seq::<CommandView>::empty(), false),
        network_step(v, true) == (
            CoreView { network_available: true, ..v },
            removals(v.peers) + additions(v.peers),
            false,
        ),
        peers_step(v, peers).0 == (CoreView { peers, ..v }),
        peers_step(v, peers).1 == removals(v.peers) + (if v.network_available {
            additions(peers)
        } else {
            Seq::empty()
        }),
        forall|i: int| 0 <= i < v.peers.len() ==> #[trigger] removals(v.peers)[i] == CommandView::RemovePeer(v.peers[i].server_ip),
        forall|i: int| 0 <= i < peers.len() ==> #[trigger] additions(peers)[i] == CommandView::AddPeer(client_peer_of(peers[i])),
        removals(v.peers).len() == v.peers.len(),
        additions(peers).len() == peers.len(),
{
    assert(removals(v.peers) + Seq::<CommandView>::empty() =~= removals(v.peers));
}

} // verus!
