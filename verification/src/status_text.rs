//! The one-line status text that the Windows network adapter shows for a
//! connection state.
use vstd::prelude::*;
use crate::local_agent::{opt_wait_view, AgentConnectionWaitReason};
use crate::state::{
    disconnect_reason_view, peer_info_views, wait_reason_views, ConnectionState, ConnectionStateView,
    DisconnectReason, DisconnectReasonView, PeerConnectionInfo, PeerConnectionInfoView,
    PeerConnectionWaitReason, WaitReasonView,
};
use crate::local_agent::AgentConnectionWaitReasonView;
use crate::text::{decimal, push_decimal};

verus! {

/// The text for a disconnected state.
pub open spec fn disconnected_text(error: Option<DisconnectReasonView>) -> Seq<char> {
    match error {
        Some(_) => "Disconnected with error"@,
        None => "Disconnected"@,
    }
}

/// The suffix marking that something is waited for.
pub open spec fn waiting_label(waiting: bool) -> Seq<char> {
    if waiting {
        " (waiting...)"@
    } else {
        ""@
    }
}

/// The text while connecting: the number of candidate peers where there are
/// several, the id of the one peer where there is one.
pub open spec fn connecting_text(peers: Seq<PeerConnectionInfoView>, wait_reasons: Seq<WaitReasonView>) -> Seq<char> {
    let label = waiting_label(wait_reasons.len() != 0);
    if peers.len() > 1 {
        "Connecting ("@ + decimal(peers.len()) + " peers)"@ + label
    } else if peers.len() == 1 {
        "Connecting to "@ + peers[0].peer_id + label
    } else {
        "Connecting"@ + label
    }
}

/// The text while connected.
pub open spec fn connected_text(peer: PeerConnectionInfoView) -> Seq<char> {
    "Connected to "@ + peer.peer_id
}

/// The text while waiting for the local agent of the connected peer.
pub open spec fn connecting_local_agent_text(
    peer: PeerConnectionInfoView,
    wait_reason: Option<AgentConnectionWaitReasonView>,
) -> Seq<char> {
    "Connecting to "@ + peer.peer_id + waiting_label(wait_reason is Some)
}

/// The status text for a connection state.
pub open spec fn status_text(state: ConnectionStateView) -> Seq<char> {
    match state {
        ConnectionStateView::Disconnected { error } => disconnected_text(error),
        ConnectionStateView::Connecting { peers, wait_reasons } => connecting_text(peers, wait_reasons),
        ConnectionStateView::ConnectingToLocalAgent { peer, wait_reason } => connecting_local_agent_text(
            peer,
            wait_reason,
        ),
        ConnectionStateView::Connected { peer, .. } => connected_text(peer),
    }
}

/// The status text for a connection state, see [status_text].
pub fn map_status_to_text(connection_state: &ConnectionState) -> (s: String)
    ensures
        s@ == status_text(connection_state@),
{
    match connection_state {
        ConnectionState::Disconnected { error } => disconnected_to_string(error),
        ConnectionState::Connecting { peers, wait_reasons } => connecting_to_string(
            peers.as_slice(),
            wait_reasons.as_slice(),
        ),
        ConnectionState::ConnectingToLocalAgent { peer, wait_reason } => connecting_local_agent_to_string(
            peer,
            wait_reason,
        ),
        ConnectionState::Connected { peer, .. } => connected_to_string(peer),
    }
}

/// The text for a disconnected state, see [disconnected_text].
pub fn disconnected_to_string(error: &Option<DisconnectReason>) -> (s: String)
    ensures
        s@ == disconnected_text(disconnect_reason_view(*error)),
{
    proof {
        reveal_strlit("Disconnected with error");
        reveal_strlit("Disconnected");
    }
    match error {
        Some(_) => String::from_str("Disconnected with error"),
        None => String::from_str("Disconnected"),
    }
}

/// The text while connecting, see [connecting_text].
pub fn connecting_to_string(peers: &[PeerConnectionInfo], wait_reasons: &[PeerConnectionWaitReason]) -> (s: String)
    ensures
        s@ == connecting_text(peer_info_views(peers@), wait_reason_views(wait_reasons@)),
{
    proof {
        reveal_strlit("");
        reveal_strlit(" (waiting...)");
    }
    let label = if wait_reasons.len() == 0 {
        ""
    } else {
        " (waiting...)"
    };
    assert(label@ == waiting_label(wait_reason_views(wait_reasons@).len() != 0));
    let num_peers: usize = peers.len();
    if num_peers > 1 {
        let mut s = String::from_str("Connecting (");
        push_decimal(&mut s, num_peers as u64);
        s.append(" peers)");
        s.append(label);
        s
    } else if num_peers == 1 {
        let mut s = String::from_str("Connecting to ");
        s.append(peers[0].peer_id.as_str());
        s.append(label);
        s
    } else {
        let mut s = String::from_str("Connecting");
        s.append(label);
        s
    }
}

/// The text while connected, see [connected_text].
pub fn connected_to_string(peer: &PeerConnectionInfo) -> (s: String)
    ensures
        s@ == connected_text(peer@),
{
    let mut s = String::from_str("Connected to ");
    s.append(peer.peer_id.as_str());
    s
}

/// The text while waiting for the local agent, see [connecting_local_agent_text].
pub fn connecting_local_agent_to_string(
    peer: &PeerConnectionInfo,
    wait_reason: &Option<AgentConnectionWaitReason>,
) -> (s: String)
    ensures
        s@ == connecting_local_agent_text(peer@, opt_wait_view(*wait_reason)),
{
    let mut s = String::from_str("Connecting to ");
    s.append(peer.peer_id.as_str());
    if wait_reason.is_some() {
        s.append(" (waiting...)");
    }
    proof {
        reveal_strlit("");
    }
    assert(s@ =~= connecting_local_agent_text(peer@, opt_wait_view(*wait_reason)));
    s
}

/// Law: the status text names the state and the peer it concerns, and marks
/// with " (waiting...)" exactly the states that wait for something: a
/// disconnection says whether it came with an error, a connection names its
/// peer, a connection attempt names its one peer or counts its several, and a
/// wait for the local agent names the peer.
pub proof fn lemma_status_text_parts(
    peer: PeerConnectionInfoView,
    peers: Seq<PeerConnectionInfoView>,
    wait_reasons: Seq<WaitReasonView>,
    agent_wait: Option<AgentConnectionWaitReasonView>,
    error: Option<DisconnectReasonView>,
    agent_info: Option<crate::local_agent::AgentConnectionInfoView>,
)
    ensures
        status_text(ConnectionStateView::Disconnected { error }) == (if error is Some {
            "Disconnected with error"@
        } else {
            "Disconnected"@
        }),
        status_text(ConnectionStateView::Connected { peer, agent_info }) == "Connected to "@ + peer.peer_id,
        status_text(ConnectionStateView::ConnectingToLocalAgent { peer, wait_reason: agent_wait }) == "Connecting to "@
            + peer.peer_id + (if agent_wait is Some {
            " (waiting...)"@
        } else {
            ""@
        }),
        ({
            let label = if wait_reasons.len() > 0 {
                " (waiting...)"@
            } else {
                ""@
            };
            &&& peers.len() == 0 ==> status_text(ConnectionStateView::Connecting { peers, wait_reasons })
                == "Connecting"@ + label
            &&& peers.len() == 1 ==> status_text(ConnectionStateView::Connecting { peers, wait_reasons })
                == "Connecting to "@ + peers[0].peer_id + label
            &&& peers.len() > 1 ==> status_text(ConnectionStateView::Connecting { peers, wait_reasons })
                == "Connecting ("@ + decimal(peers.len()) + " peers)"@ + label
        }),
{
}

} // verus!
