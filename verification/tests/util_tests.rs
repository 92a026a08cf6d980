use protun::ip::IpAddress;
use protun::keys::WgPeerPublicKey;
use protun::peers::{PeerInfo, SanitizedPeers};

/// The address for the textual forms used below: dotted IPv4, or `::n`.
fn ip(text: &str) -> IpAddress {
    if let Some(last) = text.strip_prefix("::") {
        IpAddress::V6(u128::from_str_radix(last, 16).unwrap())
    } else {
        let octets: Vec<u8> = text.split('.').map(|o| o.parse::<u8>().unwrap()).collect();
        IpAddress::v4(octets[0], octets[1], octets[2], octets[3])
    }
}

fn peer(ip_text: &str, priority: i32) -> PeerInfo {
    peer_with_id(ip_text, priority, format!("peer-{ip_text}-{priority}"))
}

fn peer_with_id(ip_text: &str, priority: i32, id: String) -> PeerInfo {
    PeerInfo {
        peer_id: id,
        server_ip: ip(ip_text),
        server_public_key: WgPeerPublicKey([0u8; 32]),
        udp_ports: vec![51820],
        tcp_ports: vec![],
        tls_ports: vec![],
        priority,
    }
}

#[test]
fn sanitize_empty_list() {
    let result = SanitizedPeers::from(vec![]);
    assert!(result.is_empty());
}

#[test]
fn sanitize_single_peer() {
    let peers = vec![peer("10.0.0.1", 1)];
    let result = SanitizedPeers::from(peers.clone());
    assert_eq!(result.0, peers);
}

#[test]
fn sanitize_no_duplicates() {
    let peers = vec![
        peer("10.0.0.1", 1),
        peer("10.0.0.2", 2),
        peer("10.0.0.3", 3),
    ];
    let result = SanitizedPeers::from(peers.clone());
    assert_eq!(result.0, peers);
}

#[test]
fn sanitize_remove_duplicates_by_priority() {
    let peers = vec![
        peer("10.0.0.1", 5),
        peer("10.0.0.2", 3),
        peer("10.0.0.1", 1),
        peer("10.0.0.3", 7),
    ];
    let result = SanitizedPeers::from(peers);
    assert_eq!(result.0.len(), 3);
    let priorities: Vec<_> = result.0.iter().map(|p| (p.server_ip, p.priority)).collect();
    assert!(priorities.contains(&(ip("10.0.0.1"), 1)));
    assert!(priorities.contains(&(ip("10.0.0.2"), 3)));
    assert!(priorities.contains(&(ip("10.0.0.3"), 7)));
}

#[test]
fn sanitize_keeps_higher_priority_peer() {
    // Lower numeric priority = higher priority
    let peers = vec![
        peer("10.0.0.1", 5),
        peer("10.0.0.1", 1),
    ];
    let result = SanitizedPeers::from(peers);
    assert_eq!(result.0.len(), 1);
    assert_eq!(result.0[0].priority, 1);
}

#[test]
fn sanitize_keeps_first_on_equal_priority() {
    let peers = vec![
        peer_with_id("10.0.0.1", 3, "1".to_string()),
        peer_with_id("10.0.0.1", 3, "2".to_string()),
    ];
    let result = SanitizedPeers::from(peers);
    assert_eq!(result.0.len(), 1);
    assert_eq!(result.0[0].peer_id, "1");
}

#[test]
fn sanitize_ipv6_peers() {
    let peers = vec![
        peer("::1", 2),
        peer("::1", 1),
        peer("::2", 3),
    ];
    let result = SanitizedPeers::from(peers);
    assert_eq!(result.0.len(), 2);
    assert_eq!(
        result.0.iter().find(|p| p.server_ip == ip("::1")).unwrap().priority,
        1
    );
}

#[test]
fn sanitize_keeps_order_of_first_appearance() {
    let peers = vec![
        peer("10.0.0.2", 4),
        peer("10.0.0.1", 2),
        peer("10.0.0.2", 1),
    ];
    let result = SanitizedPeers::from(peers);
    let kept: Vec<_> = result.0.iter().map(|p| (p.server_ip, p.priority)).collect();
    assert_eq!(kept, vec![(ip("10.0.0.2"), 1), (ip("10.0.0.1"), 2)]);
}
