//! The values that the connection loop exchanges with the VPN client library
//! and with its streams, held as plain values, and the conversions between
//! them and the library's own states.
use vstd::prelude::*;
use crate::ip::IpAddress;
use crate::state::{
    peer_info_views, ConnStateView, PeerConnectionInfo, PeerConnectionInfoView, Protocol, PvpnConnectionState,
    WaitReason, WaitReasonView,
};

verus! {

/// Protocol of a tunnel, as the VPN client library reports it.
#[derive(Debug, Copy, Clone, PartialEq, Eq, Structural)]
pub enum VpnProtocol {
    WireguardUdp,
    WireguardTcp,
    Stealth,
}

/// The [Protocol] reported for a tunnel protocol.
pub open spec fn protocol_of(p: VpnProtocol) -> Protocol {
    match p {
        VpnProtocol::WireguardUdp => Protocol::WireguardUdp,
        VpnProtocol::WireguardTcp => Protocol::WireguardTcp,
        VpnProtocol::Stealth => Protocol::Stealth,
    }
}

/// Law: each tunnel protocol is reported as the protocol of the same name.
pub proof fn lemma_protocol_same_name()
    ensures
        protocol_of(VpnProtocol::WireguardUdp) == Protocol::WireguardUdp,
        protocol_of(VpnProtocol::WireguardTcp) == Protocol::WireguardTcp,
        protocol_of(VpnProtocol::Stealth) == Protocol::Stealth,
{
}

impl From<VpnProtocol> for Protocol {
    fn from(protocol: VpnProtocol) -> (p: Protocol)
        ensures
            protocol == VpnProtocol::WireguardUdp ==> p == Protocol::WireguardUdp,
            protocol == VpnProtocol::WireguardTcp ==> p == Protocol::WireguardTcp,
            protocol == VpnProtocol::Stealth ==> p == Protocol::Stealth,
    {
        match protocol {
            VpnProtocol::WireguardUdp => Protocol::WireguardUdp,
            VpnProtocol::WireguardTcp => Protocol::WireguardTcp,
            VpnProtocol::Stealth => Protocol::Stealth,
        }
    }
}

impl vstd::std_specs::convert::FromSpecImpl<VpnProtocol> for Protocol {
    open spec fn obeys_from_spec() -> bool {
        true
    }

    open spec fn from_spec(v: VpnProtocol) -> Protocol {
        protocol_of(v)
    }
}

/// The peer end of a tunnel: the peer's tag (its id, where the peer was
/// added with one), the textual form of its address and its port.
pub struct TunnelPeer {
    pub tag: Option<String>,
    pub ip_text: String,
    pub port: u16,
}

/// What the VPN client library reports of its tunnel.
pub enum TunnelInfo {
    Connected { protocol: VpnProtocol, peer: TunnelPeer },
    Connecting { protocol: VpnProtocol, peer: TunnelPeer },
    /// Any other report (no tunnel being set up).
    Inactive,
}

pub struct TunnelPeerView {
    pub tag: Option<Seq<char>>,
    pub ip_text: Seq<char>,
    pub port: u16,
}

pub enum TunnelInfoView {
    Connected { protocol: VpnProtocol, peer: TunnelPeerView },
    Connecting { protocol: VpnProtocol, peer: TunnelPeerView },
    Inactive,
}

pub open spec fn opt_string_view(s: Option<String>) -> Option<Seq<char>> {
    match s {
        Some(x) => Some(x@),
        None => None,
    }
}

impl View for TunnelPeer {
    type V = TunnelPeerView;

    open spec fn view(&self) -> TunnelPeerView {
        TunnelPeerView { tag: opt_string_view(self.tag), ip_text: self.ip_text@, port: self.port }
    }
}

impl View for TunnelInfo {
    type V = TunnelInfoView;

    open spec fn view(&self) -> TunnelInfoView {
        match self {
            TunnelInfo::Connected { protocol, peer } => TunnelInfoView::Connected {
                protocol: *protocol,
                peer: peer@,
            },
            TunnelInfo::Connecting { protocol, peer } => TunnelInfoView::Connecting {
                protocol: *protocol,
                peer: peer@,
            },
            TunnelInfo::Inactive => TunnelInfoView::Inactive,
        }
    }
}

pub open spec fn opt_tunnel_view(t: Option<TunnelInfo>) -> Option<TunnelInfoView> {
    match t {
        Some(x) => Some(x@),
        None => None,
    }
}

/// The id under which a tunnel peer is reported: its tag, or else the text of
/// its address.
pub open spec fn peer_id_of(peer: TunnelPeerView) -> Seq<char> {
    match peer.tag {
        Some(t) => t,
        None => peer.ip_text,
    }
}

/// The connection info reported for a tunnel peer.
pub open spec fn peer_connection_info_of(peer: TunnelPeerView, protocol: VpnProtocol) -> PeerConnectionInfoView {
    PeerConnectionInfoView {
        peer_id: peer_id_of(peer),
        entry_ip: peer.ip_text,
        protocol: protocol_of(protocol),
        port: peer.port,
    }
}

/// The loop state for what the client reports of its tunnel and the last I/O
/// error of the TUN stream: connected where the tunnel is; connecting to the
/// tunnel's peer, or waiting on a TUN error where there was one, while it is
/// being set up; connecting to no peer otherwise.
pub open spec fn client_state(info: Option<TunnelInfoView>, last_tun_error: Option<Seq<char>>) -> ConnStateView {
    match info {
        Some(TunnelInfoView::Connected { protocol, peer }) => ConnStateView::Connected(
            peer_connection_info_of(peer, protocol),
        ),
        Some(TunnelInfoView::Connecting { protocol, peer }) => match last_tun_error {
            None => ConnStateView::Connecting(seq![peer_connection_info_of(peer, protocol)]),
            Some(error) => ConnStateView::WaitingForAction(WaitReasonView::TunIoError { message: error }),
        },
        _ => ConnStateView::Connecting(Seq::empty()),
    }
}

/// Law: a tunnel that is up is reported as connected to its peer: with the
/// peer's tag as id (its address text where it has none), its address text as
/// entry address, its port and the protocol of the tunnel. A tunnel being set
/// up is reported as connecting to that same peer, or, after a TUN error, as
/// waiting on that error; without a tunnel the loop connects to no peer.
pub proof fn lemma_client_state_reports_tunnel_peer(
    protocol: VpnProtocol,
    peer: TunnelPeerView,
    last_tun_error: Option<Seq<char>>,
)
    ensures
        ({
            let info = PeerConnectionInfoView {
                peer_id: match peer.tag {
                    Some(t) => t,
                    None => peer.ip_text,
                },
                entry_ip: peer.ip_text,
                protocol: protocol_of(protocol),
                port: peer.port,
            };
            &&& client_state(Some(TunnelInfoView::Connected { protocol, peer }), last_tun_error)
                == ConnStateView::Connected(info)
            &&& last_tun_error is None ==> client_state(
                Some(TunnelInfoView::Connecting { protocol, peer }),
                last_tun_error,
            ) == ConnStateView::Connecting(seq![info])
            &&& last_tun_error matches Some(e) ==> client_state(
                Some(TunnelInfoView::Connecting { protocol, peer }),
                last_tun_error,
            ) == ConnStateView::WaitingForAction(WaitReasonView::TunIoError { message: e })
            &&& client_state(None, last_tun_error) == ConnStateView::Connecting(Seq::empty())
            &&& client_state(Some(TunnelInfoView::Inactive), last_tun_error) == ConnStateView::Connecting(
                Seq::empty(),
            )
        }),
{
}

/// The id under which a tunnel peer is reported.
pub fn get_peer_id(peer: &TunnelPeer) -> (id: String)
    ensures
        id@ == peer_id_of(peer@),
{
    match &peer.tag {
        Some(t) => t.clone(),
        None => peer.ip_text.clone(),
    }
}

/// The connection info reported for a tunnel peer.
pub fn get_peer_connection_info(peer: &TunnelPeer, protocol: VpnProtocol) -> (info: PeerConnectionInfo)
    ensures
        info@ == peer_connection_info_of(peer@, protocol),
{
    PeerConnectionInfo {
        peer_id: get_peer_id(peer),
        entry_ip: peer.ip_text.clone(),
        protocol: Protocol::from(protocol),
        port: peer.port,
    }
}

/// The loop state for what the client reports of its tunnel, see [client_state].
pub fn to_client_state(tunnel_info: Option<TunnelInfo>, last_tun_error: Option<String>) -> (s: PvpnConnectionState)
    ensures
        s@ == client_state(opt_tunnel_view(tunnel_info), opt_string_view(last_tun_error)),
{
    match tunnel_info {
        Some(TunnelInfo::Connected { protocol, peer }) => PvpnConnectionState::Connected(
            get_peer_connection_info(&peer, protocol),
        ),
        Some(TunnelInfo::Connecting { protocol, peer }) => match last_tun_error {
            None => {
                let mut peers: Vec<PeerConnectionInfo> = Vec::new();
                peers.push(get_peer_connection_info(&peer, protocol));
                let s = PvpnConnectionState::Connecting(peers);
                assert(s@ == client_state(opt_tunnel_view(tunnel_info), opt_string_view(last_tun_error))) by {
                    assert(peer_info_views(peers@) =~= seq![peer_connection_info_of(peer@, protocol)]);
                }
                s
            },
            Some(error) => PvpnConnectionState::WaitingForAction(WaitReason::TunIoError { message: error }),
        },
        _ => {
            let s = PvpnConnectionState::Connecting(Vec::new());
            assert(peer_info_views(Seq::<PeerConnectionInfo>::empty()) =~= Seq::empty());
            s
        },
    }
}

/// What the loop keeps of the last answer of the VPN client library: whether
/// it has actions to be pulled, and when it wants to be woken up (in
/// nanoseconds of monotonic time), if at all.
pub struct ClientSchedule {
    pub need_pull: bool,
    pub wakeup_deadline: Option<u64>,
}

impl ClientSchedule {
    /// Before the first answer the client is asked for its actions.
    pub fn new() -> (s: ClientSchedule)
        ensures
            s.need_pull,
            s.wakeup_deadline is None,
    {
        ClientSchedule { need_pull: true, wakeup_deadline: None }
    }

    /// Keeps an answer: whether its task is to pull actions, and its deadline.
    pub fn handle_result(&mut self, task_is_need_pull: bool, wakeup_deadline: Option<u64>)
        ensures
            final(self).need_pull == task_is_need_pull,
            final(self).wakeup_deadline == wakeup_deadline,
    {
        self.need_pull = task_is_need_pull;
        self.wakeup_deadline = wakeup_deadline;
    }
}

} // verus!
