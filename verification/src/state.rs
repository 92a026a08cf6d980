//! Connection states: the one the connection loop keeps, and the one reported
//! to the embedding application.
use vstd::prelude::*;
use crate::local_agent::{
    opt_wait_view, AgentConnectionInfo, AgentConnectionInfoView, AgentConnectionWaitReason,
    AgentConnectionWaitReasonView,
};

verus! {

#[derive(Debug, Copy, Clone, PartialEq, Eq, Structural)]
pub enum Protocol {
    WireguardUdp,
    WireguardTcp,
    Stealth,
}

#[derive(Clone, Debug, PartialEq)]
pub enum WaitReason {
    /// Device currently has no network (airplane mode, no signal, etc.)
    WaitingForNetwork,
    /// There is I/O problem with TUN interface. Calling code might need to wait, recreate TUN or
    /// disconnect (when it was caused by connection by another VPN app).
    TunIoError { message: String },
}

#[derive(Clone, Debug, PartialEq)]
pub enum DisconnectReason {
    /// There was a problem establishing TUN interface.
    TunEstablishError { message: String },
}

#[derive(PartialEq, Clone, Debug)]
pub struct PeerConnectionInfo {
    pub peer_id: String,
    pub entry_ip: String,
    pub protocol: Protocol,
    pub port: u16,
}

/// State of the VPN connection.
#[derive(Debug)]
pub enum State {
    /// Disconnected. `error` will be set if disconnection happened due to an error.
    Disconnected { error: Option<DisconnectReason> },
    /// Library is attempting VPN connection to one or more candidate peers.
    Connecting { peers: Vec<PeerConnectionInfo> },
    /// Library connection attempt requires app, user or system action to proceed.
    WaitingForAction { reason: WaitReason },
    /// Connection to `peer` is established.
    Connected { peer: PeerConnectionInfo },
}

/// State of the connection loop.
#[derive(Clone, PartialEq, Debug)]
pub enum PvpnConnectionState {
    Disconnected(Option<DisconnectReason>),
    Connecting(Vec<PeerConnectionInfo>),
    WaitingForAction(WaitReason),
    Connected(PeerConnectionInfo),
}

// ---------------------------------------------------------------------------
// Mathematical views
// ---------------------------------------------------------------------------

pub enum WaitReasonView {
    WaitingForNetwork,
    TunIoError { message: Seq<char> },
}

pub enum DisconnectReasonView {
    TunEstablishError { message: Seq<char> },
}

pub struct PeerConnectionInfoView {
    pub peer_id: Seq<char>,
    pub entry_ip: Seq<char>,
    pub protocol: Protocol,
    pub port: u16,
}

/// The view of both [State] and [PvpnConnectionState]: they hold the same.
pub enum ConnStateView {
    Disconnected(Option<DisconnectReasonView>),
    Connecting(Seq<PeerConnectionInfoView>),
    WaitingForAction(WaitReasonView),
    Connected(PeerConnectionInfoView),
}

impl View for WaitReason {
    type V = WaitReasonView;

    open spec fn view(&self) -> WaitReasonView {
        match self {
            WaitReason::WaitingForNetwork => WaitReasonView::WaitingForNetwork,
            WaitReason::TunIoError { message } => WaitReasonView::TunIoError { message: message@ },
        }
    }
}

impl View for DisconnectReason {
    type V = DisconnectReasonView;

    open spec fn view(&self) -> DisconnectReasonView {
        match self {
            DisconnectReason::TunEstablishError { message } => DisconnectReasonView::TunEstablishError {
                message: message@,
            },
        }
    }
}

impl View for PeerConnectionInfo {
    type V = PeerConnectionInfoView;

    open spec fn view(&self) -> PeerConnectionInfoView {
        PeerConnectionInfoView {
            peer_id: self.peer_id@,
            entry_ip: self.entry_ip@,
            protocol: self.protocol,
            port: self.port,
        }
    }
}

pub open spec fn disconnect_reason_view(e: Option<DisconnectReason>) -> Option<DisconnectReasonView> {
    match e {
        Some(r) => Some(r@),
        None => None,
    }
}

pub open spec fn peer_info_views(s: Seq<PeerConnectionInfo>) -> Seq<PeerConnectionInfoView> {
    s.map_values(|p: PeerConnectionInfo| p@)
}

impl View for PvpnConnectionState {
    type V = ConnStateView;

    open spec fn view(&self) -> ConnStateView {
        match self {
            PvpnConnectionState::Disconnected(e) => ConnStateView::Disconnected(disconnect_reason_view(*e)),
            PvpnConnectionState::Connecting(peers) => ConnStateView::Connecting(peer_info_views(peers@)),
            PvpnConnectionState::WaitingForAction(r) => ConnStateView::WaitingForAction(r@),
            PvpnConnectionState::Connected(p) => ConnStateView::Connected(p@),
        }
    }
}

impl View for State {
    type V = ConnStateView;

    open spec fn view(&self) -> ConnStateView {
        match self {
            State::Disconnected { error } => ConnStateView::Disconnected(disconnect_reason_view(*error)),
            State::Connecting { peers } => ConnStateView::Connecting(peer_info_views(peers@)),
            State::WaitingForAction { reason } => ConnStateView::WaitingForAction(reason@),
            State::Connected { peer } => ConnStateView::Connected(peer@),
        }
    }
}

// ---------------------------------------------------------------------------
// Copies and comparisons
// ---------------------------------------------------------------------------

fn copy_string(s: &String) -> (r: String)
    ensures
        r@ == s@,
{
    s.clone()
}

impl WaitReason {
    /// A copy of the reason.
    pub fn duplicate(&self) -> (r: WaitReason)
        ensures
            r@ == self@,
    {
        match self {
            WaitReason::WaitingForNetwork => WaitReason::WaitingForNetwork,
            WaitReason::TunIoError { message } => WaitReason::TunIoError { message: copy_string(message) },
        }
    }

    /// Whether two reasons are the same.
    pub fn same_as(&self, other: &WaitReason) -> (r: bool)
        ensures
            r == (self@ == other@),
    {
        match (self, other) {
            (WaitReason::WaitingForNetwork, WaitReason::WaitingForNetwork) => true,
            (WaitReason::TunIoError { message: a }, WaitReason::TunIoError { message: b }) => *a == *b,
            _ => false,
        }
    }
}

impl DisconnectReason {
    /// A copy of the reason.
    pub fn duplicate(&self) -> (r: DisconnectReason)
        ensures
            r@ == self@,
    {
        match self {
            DisconnectReason::TunEstablishError { message } => DisconnectReason::TunEstablishError {
                message: copy_string(message),
            },
        }
    }

    /// Whether two reasons are the same.
    pub fn same_as(&self, other: &DisconnectReason) -> (r: bool)
        ensures
            r == (self@ == other@),
    {
        match (self, other) {
            (
                DisconnectReason::TunEstablishError { message: a },
                DisconnectReason::TunEstablishError { message: b },
            ) => *a == *b,
        }
    }
}

impl PeerConnectionInfo {
    /// A copy of the peer info.
    pub fn duplicate(&self) -> (r: PeerConnectionInfo)
        ensures
            r@ == self@,
    {
        PeerConnectionInfo {
            peer_id: copy_string(&self.peer_id),
            entry_ip: copy_string(&self.entry_ip),
            protocol: self.protocol,
            port: self.port,
        }
    }

    /// Whether two peer infos are the same.
    pub fn same_as(&self, other: &PeerConnectionInfo) -> (r: bool)
        ensures
            r == (self@ == other@),
    {
        self.peer_id == other.peer_id && self.entry_ip == other.entry_ip && self.protocol
            == other.protocol && self.port == other.port
    }
}

fn duplicate_peer_infos(v: &Vec<PeerConnectionInfo>) -> (r: Vec<PeerConnectionInfo>)
    ensures
        peer_info_views(r@) == peer_info_views(v@),
{
    let mut r: Vec<PeerConnectionInfo> = Vec::new();
    let mut i: usize = 0;
    while i < v.len()
        invariant
            i <= v.len(),
            r@.len() == i,
            forall|k: int| 0 <= k < i ==> (#[trigger] r@[k])@ == v@[k]@,
        decreases v.len() - i,
    {
        let d = v[i].duplicate();
        r.push(d);
        i = i + 1;
    }
    assert(peer_info_views(r@) =~= peer_info_views(v@));
    r
}

fn same_peer_infos(a: &Vec<PeerConnectionInfo>, b: &Vec<PeerConnectionInfo>) -> (r: bool)
    ensures
        r == (peer_info_views(a@) == peer_info_views(b@)),
{
    if a.len() != b.len() {
        assert(peer_info_views(a@).len() != peer_info_views(b@).len());
        return false;
    }
    let mut i: usize = 0;
    while i < a.len()
        invariant
            i <= a.len(),
            a.len() == b.len(),
            forall|k: int| 0 <= k < i ==> peer_info_views(a@)[k] == peer_info_views(b@)[k],
        decreases a.len() - i,
    {
        if !a[i].same_as(&b[i]) {
            assert(peer_info_views(a@)[i as int] != peer_info_views(b@)[i as int]);
            return false;
        }
        i = i + 1;
    }
    assert(peer_info_views(a@) =~= peer_info_views(b@));
    true
}

impl PvpnConnectionState {
    /// A copy of the state.
    pub fn duplicate(&self) -> (r: PvpnConnectionState)
        ensures
            r@ == self@,
    {
        match self {
            PvpnConnectionState::Disconnected(e) => PvpnConnectionState::Disconnected(
                match e {
                    Some(r) => Some(r.duplicate()),
                    None => None,
                },
            ),
            PvpnConnectionState::Connecting(peers) => PvpnConnectionState::Connecting(
                duplicate_peer_infos(peers),
            ),
            PvpnConnectionState::WaitingForAction(r) => PvpnConnectionState::WaitingForAction(r.duplicate()),
            PvpnConnectionState::Connected(p) => PvpnConnectionState::Connected(p.duplicate()),
        }
    }

    /// Whether two states are the same.
    pub fn same_as(&self, other: &PvpnConnectionState) -> (r: bool)
        ensures
            r == (self@ == other@),
    {
        match (self, other) {
            (PvpnConnectionState::Disconnected(a), PvpnConnectionState::Disconnected(b)) => match (a, b) {
                (None, None) => true,
                (Some(x), Some(y)) => x.same_as(y),
                _ => false,
            },
            (PvpnConnectionState::Connecting(a), PvpnConnectionState::Connecting(b)) => same_peer_infos(a, b),
            (PvpnConnectionState::WaitingForAction(a), PvpnConnectionState::WaitingForAction(b)) => a.same_as(b),
            (PvpnConnectionState::Connected(a), PvpnConnectionState::Connected(b)) => a.same_as(b),
            _ => false,
        }
    }

    /// Whether the loop is disconnected.
    pub fn is_disconnected(&self) -> (r: bool)
        ensures
            r == (self@ is Disconnected),
    {
        match self {
            PvpnConnectionState::Disconnected(_) => true,
            _ => false,
        }
    }

    /// The state reported to the embedding application for this loop state.
    pub fn to_api_state(self) -> (s: State)
        ensures
            s@ == self@,
    {
        match self {
            PvpnConnectionState::Disconnected(error) => State::Disconnected { error },
            PvpnConnectionState::Connecting(peers) => State::Connecting { peers },
            PvpnConnectionState::WaitingForAction(reason) => State::WaitingForAction { reason },
            PvpnConnectionState::Connected(peer) => State::Connected { peer },
        }
    }
}

// ---------------------------------------------------------------------------
// Connection state with local agent details
// ---------------------------------------------------------------------------

/// Why the connection to a peer waits.
pub type PeerConnectionWaitReason = WaitReason;

/// State of the connection, including the local agent of the connected peer.
#[derive(Debug)]
pub enum ConnectionState {
    Disconnected { error: Option<DisconnectReason> },
    Connecting { peers: Vec<PeerConnectionInfo>, wait_reasons: Vec<PeerConnectionWaitReason> },
    /// Connected with the peer, waiting for its local agent.
    ConnectingToLocalAgent { peer: PeerConnectionInfo, wait_reason: Option<AgentConnectionWaitReason> },
    Connected { peer: PeerConnectionInfo, agent_info: Option<AgentConnectionInfo> },
}

/// State of the VPN as reported to the embedding application.
#[derive(Debug)]
pub struct VpnState {
    pub connection_state: ConnectionState,
}

pub enum ConnectionStateView {
    Disconnected { error: Option<DisconnectReasonView> },
    Connecting { peers: Seq<PeerConnectionInfoView>, wait_reasons: Seq<WaitReasonView> },
    ConnectingToLocalAgent { peer: PeerConnectionInfoView, wait_reason: Option<AgentConnectionWaitReasonView> },
    Connected { peer: PeerConnectionInfoView, agent_info: Option<AgentConnectionInfoView> },
}

pub open spec fn wait_reason_views(s: Seq<WaitReason>) -> Seq<WaitReasonView> {
    s.map_values(|w: WaitReason| w@)
}

pub open spec fn opt_agent_info_view(a: Option<AgentConnectionInfo>) -> Option<AgentConnectionInfoView> {
    match a {
        Some(x) => Some(x@),
        None => None,
    }
}

impl View for ConnectionState {
    type V = ConnectionStateView;

    open spec fn view(&self) -> ConnectionStateView {
        match self {
            ConnectionState::Disconnected { error } => ConnectionStateView::Disconnected {
                error: disconnect_reason_view(*error),
            },
            ConnectionState::Connecting { peers, wait_reasons } => ConnectionStateView::Connecting {
                peers: peer_info_views(peers@),
                wait_reasons: wait_reason_views(wait_reasons@),
            },
            ConnectionState::ConnectingToLocalAgent { peer, wait_reason } => ConnectionStateView::ConnectingToLocalAgent {
                peer: peer@,
                wait_reason: opt_wait_view(*wait_reason),
            },
            ConnectionState::Connected { peer, agent_info } => ConnectionStateView::Connected {
                peer: peer@,
                agent_info: opt_agent_info_view(*agent_info),
            },
        }
    }
}

} // verus!
