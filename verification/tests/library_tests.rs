use protun::api::{ConnectivityEvent, FileWriteMode};
use protun::capture::{capture_open_options, CaptureBudget, CaptureOpenOptions, CaptureWrite};
use protun::client::{to_client_state, TunnelInfo, TunnelPeer, VpnProtocol};
use protun::connection::{Command, PvpnConnectionCore, PvpnMessage, SocketAddress};
use protun::events::{ErrorEvent, Event, LocalAgentSettingType};
use protun::io::{error_kind_to_socket_err, to_tun_error, IoErrorKind, SocketErr, StreamError, StreamId, StreamResult};
use protun::ip::IpAddress;
use protun::keys::{WgClientPrivateKey, WgPeerPublicKey};
use protun::local_agent::{
    estimate_data_saved, AgentConnectionWaitReason, AgentStats, Jail, LocalAgentError, LocalAgentHandler,
    LocalAgentMessage, LocalAgentServerError, LocalAgentValue, NetshieldBlockList, WaitJailReason,
};
use protun::peers::PeerInfo;
use protun::state::{
    ConnectionState, DisconnectReason, PeerConnectionInfo, Protocol, PvpnConnectionState, State, WaitReason,
};
use protun::status_text::{
    connected_to_string, connecting_local_agent_to_string, connecting_to_string, disconnected_to_string,
    map_status_to_text,
};
use protun::streams::{
    classify_wait_result, poll_timeout, udp_bind_address, IoOutcome, StreamRegistry, TcpWriteBuffer, UdpReadiness,
    WaitEvent, WindowsStreamState,
};
use protun::text::decimal_string;
use protun::version::{dll_properties, file_version, parse_describe, parse_u16_text, DllPropertiesError};

fn peer(last_octet: u8, priority: i32) -> PeerInfo {
    PeerInfo {
        peer_id: format!("peer_{last_octet}"),
        server_ip: IpAddress::v4(10, 0, 0, last_octet),
        server_public_key: WgPeerPublicKey([7u8; 32]),
        udp_ports: vec![51820],
        tcp_ports: vec![443],
        tls_ports: vec![],
        priority,
    }
}

fn peer_info(id: &str) -> PeerConnectionInfo {
    PeerConnectionInfo {
        peer_id: id.to_string(),
        entry_ip: "10.0.0.1".to_string(),
        protocol: Protocol::WireguardUdp,
        port: 51820,
    }
}

fn stream_error(kind: IoErrorKind, message: &str) -> StreamError {
    StreamError { kind, message: message.to_string() }
}

// --- text and keys ---------------------------------------------------------

#[test]
fn decimal_string_renders_numbers() {
    assert_eq!(decimal_string(0), "0");
    assert_eq!(decimal_string(7), "7");
    assert_eq!(decimal_string(1234), "1234");
    assert_eq!(decimal_string(u64::MAX), "18446744073709551615");
}

#[test]
fn private_key_from_bytes_checks_length() {
    let key = WgClientPrivateKey::from_bytes(vec![5u8; 32]).ok().unwrap();
    assert_eq!(key.to_bytes(), vec![5u8; 32]);
    let err = WgClientPrivateKey::from_bytes(vec![1u8; 31]).err().unwrap();
    assert_eq!(err.message(), "private key must be 32 bytes");
}

#[test]
fn public_key_from_bytes_checks_length() {
    let key: WgPeerPublicKey = vec![9u8; 32].try_into().ok().unwrap();
    assert_eq!(key.0, [9u8; 32]);
    let err = WgPeerPublicKey::from_bytes(vec![]).err().unwrap();
    assert_eq!(err.message(), "peer public key must be 32 bytes");
    let bytes: Vec<u8> = key.into();
    assert_eq!(bytes, vec![9u8; 32]);
}

// --- states ----------------------------------------------------------------

#[test]
fn to_api_state_keeps_content() {
    let s = PvpnConnectionState::Connected(peer_info("a")).to_api_state();
    assert!(matches!(s, State::Connected { peer } if peer == peer_info("a")));
    let s = PvpnConnectionState::Disconnected(Some(DisconnectReason::TunEstablishError { message: "x".to_string() }))
        .to_api_state();
    assert!(matches!(s, State::Disconnected { error: Some(DisconnectReason::TunEstablishError { message }) } if message == "x"));
}

#[test]
fn client_state_follows_tunnel() {
    let tagged = TunnelPeer { tag: Some("peer_1".to_string()), ip_text: "10.0.0.1".to_string(), port: 443 };
    let state = to_client_state(Some(TunnelInfo::Connected { protocol: VpnProtocol::WireguardTcp, peer: tagged }), None);
    assert_eq!(
        state,
        PvpnConnectionState::Connected(PeerConnectionInfo {
            peer_id: "peer_1".to_string(),
            entry_ip: "10.0.0.1".to_string(),
            protocol: Protocol::WireguardTcp,
            port: 443,
        })
    );
    let untagged = TunnelPeer { tag: None, ip_text: "10.0.0.2".to_string(), port: 51820 };
    let state = to_client_state(Some(TunnelInfo::Connecting { protocol: VpnProtocol::Stealth, peer: untagged }), None);
    assert_eq!(
        state,
        PvpnConnectionState::Connecting(vec![PeerConnectionInfo {
            peer_id: "10.0.0.2".to_string(),
            entry_ip: "10.0.0.2".to_string(),
            protocol: Protocol::Stealth,
            port: 51820,
        }])
    );
    let untagged = TunnelPeer { tag: None, ip_text: "10.0.0.2".to_string(), port: 51820 };
    let state = to_client_state(
        Some(TunnelInfo::Connecting { protocol: VpnProtocol::Stealth, peer: untagged }),
        Some("tun broken".to_string()),
    );
    assert_eq!(state, PvpnConnectionState::WaitingForAction(WaitReason::TunIoError { message: "tun broken".to_string() }));
    assert_eq!(to_client_state(None, None), PvpnConnectionState::Connecting(vec![]));
    assert_eq!(to_client_state(Some(TunnelInfo::Inactive), Some("e".to_string())), PvpnConnectionState::Connecting(vec![]));
}

#[test]
fn socket_errors_map_from_io_errors() {
    assert_eq!(error_kind_to_socket_err(IoErrorKind::TimedOut), SocketErr::Timeout);
    assert_eq!(error_kind_to_socket_err(IoErrorKind::AddrInUse), SocketErr::AddressInUse);
    assert_eq!(error_kind_to_socket_err(IoErrorKind::NetworkUnreachable), SocketErr::NetworkUnreachable);
    assert_eq!(error_kind_to_socket_err(IoErrorKind::WouldBlock), SocketErr::Unknown);
    assert_eq!(to_tun_error(&StreamResult::ok(3, false, false)), None);
    assert_eq!(
        to_tun_error(&StreamResult::Failure(stream_error(IoErrorKind::Other, "bad fd"))),
        Some("bad fd".to_string())
    );
}

// --- connection core -------------------------------------------------------

#[test]
fn new_core_with_network_registers_peers() {
    let (core, step) = PvpnConnectionCore::new(vec![peer(1, 1), peer(2, 2)], true, WgClientPrivateKey([1u8; 32]));
    assert!(!step.state_changed);
    assert_eq!(*core.state(), PvpnConnectionState::Disconnected(None));
    assert_eq!(step.commands.len(), 3);
    assert!(matches!(&step.commands[0], Command::SetPrivateKey(k) if k.0 == [1u8; 32]));
    assert!(matches!(&step.commands[1], Command::AddPeer(p) if p.addr == IpAddress::v4(10, 0, 0, 1) && p.tag == "peer_1"));
    assert!(matches!(&step.commands[2], Command::AddPeer(p) if p.addr == IpAddress::v4(10, 0, 0, 2) && p.priority == 2));
}

#[test]
fn new_core_without_network_waits() {
    let (core, step) = PvpnConnectionCore::new(vec![peer(1, 1)], false, WgClientPrivateKey([1u8; 32]));
    assert!(step.state_changed);
    assert_eq!(step.commands.len(), 1);
    assert_eq!(*core.state(), PvpnConnectionState::WaitingForAction(WaitReason::WaitingForNetwork));
}

#[test]
fn network_loss_removes_peers_and_waits() {
    let (mut core, _) = PvpnConnectionCore::new(vec![peer(1, 1), peer(2, 2)], true, WgClientPrivateKey([1u8; 32]));
    let step = core.set_network_available(false);
    assert!(step.state_changed);
    assert_eq!(step.commands.len(), 2);
    assert!(matches!(step.commands[0], Command::RemovePeer(a) if a == IpAddress::v4(10, 0, 0, 1)));
    assert!(matches!(step.commands[1], Command::RemovePeer(a) if a == IpAddress::v4(10, 0, 0, 2)));
    assert!(!core.network_available());
    assert_eq!(*core.state(), PvpnConnectionState::WaitingForAction(WaitReason::WaitingForNetwork));
    // being told again that there is no network changes nothing
    let step = core.set_network_available(false);
    assert!(step.commands.is_empty());
    assert!(!step.state_changed);
}

#[test]
fn network_switch_resets_peers() {
    let (mut core, _) = PvpnConnectionCore::new(vec![peer(1, 1)], true, WgClientPrivateKey([1u8; 32]));
    let step = core.handle_message(PvpnMessage::ConnectivityChange(ConnectivityEvent::NetworkSwitch));
    assert_eq!(step.commands.len(), 2);
    assert!(matches!(step.commands[0], Command::RemovePeer(_)));
    assert!(matches!(step.commands[1], Command::AddPeer(_)));
    assert!(core.network_available());
}

#[test]
fn set_peers_replaces_peers() {
    let (mut core, _) = PvpnConnectionCore::new(vec![peer(1, 1)], true, WgClientPrivateKey([1u8; 32]));
    let step = core.handle_message(PvpnMessage::SetPeers(vec![peer(3, 1), peer(4, 1)]));
    assert_eq!(step.commands.len(), 3);
    assert!(matches!(step.commands[0], Command::RemovePeer(a) if a == IpAddress::v4(10, 0, 0, 1)));
    assert!(matches!(&step.commands[1], Command::AddPeer(p) if p.addr == IpAddress::v4(10, 0, 0, 3)));
    assert!(matches!(&step.commands[2], Command::AddPeer(p) if p.addr == IpAddress::v4(10, 0, 0, 4)));
}

#[test]
fn disconnect_message_stops_loop() {
    let (mut core, _) = PvpnConnectionCore::new(vec![], true, WgClientPrivateKey([1u8; 32]));
    assert!(!core.should_stop());
    let step = core.handle_message(PvpnMessage::Disconnect);
    assert!(step.commands.is_empty());
    assert!(core.should_stop());
    let step = core.handle_message(PvpnMessage::UpdateTun { tun_fd: 5 });
    assert!(matches!(step.commands[0], Command::ReplaceTun { tun_fd: 5 }));
}

#[test]
fn update_state_reports_changes_only() {
    let (mut core, _) = PvpnConnectionCore::new(vec![peer(1, 1)], true, WgClientPrivateKey([1u8; 32]));
    let tunnel = || Some(TunnelInfo::Connected {
        protocol: VpnProtocol::WireguardUdp,
        peer: TunnelPeer { tag: Some("peer_1".to_string()), ip_text: "10.0.0.1".to_string(), port: 51820 },
    });
    assert!(core.update_state(tunnel()));
    assert!(!core.update_state(tunnel()));
    assert!(matches!(core.state(), PvpnConnectionState::Connected(p) if p.peer_id == "peer_1"));
    assert!(core.finish());
    assert_eq!(*core.state(), PvpnConnectionState::Disconnected(None));
    assert!(!core.finish());
}

#[test]
fn write_results_drive_polling_and_done() {
    let (mut core, _) = PvpnConnectionCore::new(vec![], true, WgClientPrivateKey([1u8; 32]));
    let cmds = core.handle_stream_write_result(StreamId::Socket(4), &StreamResult::ok(10, false, false));
    assert_eq!(cmds.len(), 2);
    assert!(matches!(cmds[0], Command::SetPollWaitForWrite { stream_id: StreamId::Socket(4), enabled: false }));
    assert!(matches!(cmds[1], Command::PushDone { stream_id: StreamId::Socket(4) }));
    let cmds = core.handle_stream_write_result(StreamId::Socket(4), &StreamResult::ok(10, true, true));
    assert_eq!(cmds.len(), 1);
    assert!(matches!(cmds[0], Command::SetPollWaitForWrite { enabled: true, .. }));
    let cmds = core.handle_stream_write_result(StreamId::Tun, &StreamResult::ok(10, false, false));
    assert_eq!(cmds.len(), 1);
    let cmds = core.handle_stream_write_result(
        StreamId::Socket(2),
        &StreamResult::Failure(stream_error(IoErrorKind::ConnectionReset, "reset")),
    );
    assert!(matches!(cmds[0], Command::PushError { stream_id: StreamId::Socket(2), error: SocketErr::ConnectionReset }));
}

#[test]
fn tun_read_errors_make_connecting_wait() {
    let (mut core, _) = PvpnConnectionCore::new(vec![peer(1, 1)], true, WgClientPrivateKey([1u8; 32]));
    let step = core.on_read_result(StreamId::Tun, &StreamResult::Failure(stream_error(IoErrorKind::Other, "tun gone")));
    assert!(!step.keep_reading);
    assert!(matches!(step.commands[0], Command::PushError { stream_id: StreamId::Tun, error: SocketErr::Unknown }));
    let connecting = Some(TunnelInfo::Connecting {
        protocol: VpnProtocol::WireguardUdp,
        peer: TunnelPeer { tag: None, ip_text: "10.0.0.1".to_string(), port: 51820 },
    });
    assert!(core.update_state(connecting));
    assert_eq!(
        *core.state(),
        PvpnConnectionState::WaitingForAction(WaitReason::TunIoError { message: "tun gone".to_string() })
    );
    // a good read clears the error
    let step = core.on_read_result(StreamId::Tun, &StreamResult::ok(20, false, false));
    assert!(step.keep_reading);
    assert!(matches!(step.commands[0], Command::PushRead { stream_id: StreamId::Tun, bytes_count: 20 }));
    let step = core.on_read_result(StreamId::Tun, &StreamResult::ok(0, true, false));
    assert!(!step.keep_reading);
    assert!(step.commands.is_empty());
}

#[test]
fn reads_are_dropped_without_network() {
    let (mut core, _) = PvpnConnectionCore::new(vec![], false, WgClientPrivateKey([1u8; 32]));
    let step = core.on_read_result(StreamId::Tun, &StreamResult::ok(20, false, false));
    assert!(step.commands.is_empty());
    assert!(step.keep_reading);
}

#[test]
fn open_results_poll_tcp_and_push_errors() {
    let (core, _) = PvpnConnectionCore::new(vec![], true, WgClientPrivateKey([1u8; 32]));
    assert!(core.on_open_result(StreamId::Socket(1), true, None).is_empty());
    let cmds = core.on_open_result(StreamId::Socket(1), false, None);
    assert!(matches!(cmds[0], Command::SetPollWaitForWrite { enabled: true, .. }));
    let cmds = core.on_open_result(StreamId::Socket(1), false, Some(IoErrorKind::ConnectionRefused));
    assert!(matches!(cmds[0], Command::PushError { error: SocketErr::ConnectionRefused, .. }));
}

// --- local agent -----------------------------------------------------------

#[test]
fn local_agent_errors_become_events() {
    let mut handler = LocalAgentHandler::new();
    let e = handler.handle_message(LocalAgentMessage::Error(LocalAgentError::ServerError(
        LocalAgentServerError::PortFwPolicyRefused,
    )));
    assert!(matches!(
        e,
        Some(Event::Error { error: ErrorEvent::LocalAgentSettingPolicyRefused { setting: LocalAgentSettingType::PortForwarding } })
    ));
    let e = handler.handle_message(LocalAgentMessage::Error(LocalAgentError::Authentication));
    assert!(matches!(e, Some(Event::Error { error: ErrorEvent::ApiSessionExpired })));
    let e = handler.handle_message(LocalAgentMessage::Error(LocalAgentError::CertificateFetching));
    assert!(matches!(e, Some(Event::Error { error: ErrorEvent::CertificateRefreshFatalError })));
    let e = handler.handle_message(LocalAgentMessage::Error(LocalAgentError::ServerError(
        LocalAgentServerError::SessionError,
    )));
    assert!(e.is_none());
    let e = handler.handle_message(LocalAgentMessage::MuonForkSelectorNeeded);
    assert!(matches!(e, Some(Event::Error { error: ErrorEvent::ApiSessionExpired })));
}

#[test]
fn local_agent_state_follows_jails_and_establishment() {
    let mut handler = LocalAgentHandler::new();
    handler.on_connected_to_peer(&peer_info("a"));
    assert!(matches!(
        handler.get_state(peer_info("a")),
        ConnectionState::ConnectingToLocalAgent { wait_reason: None, .. }
    ));
    handler.handle_message(LocalAgentMessage::Value(LocalAgentValue::Jails(Some(vec![
        Jail::Expired2FA("2fa".to_string()),
        Jail::Unknown(42, "other".to_string()),
    ]))));
    match handler.get_wait_reason() {
        Some(AgentConnectionWaitReason::HardJailed { jails }) => {
            assert_eq!(jails.len(), 2);
            assert!(matches!(&jails[0], WaitJailReason::Need2FA { message } if message == "2fa"));
            assert!(matches!(&jails[1], WaitJailReason::Other { code: 42, message } if message == "other"));
        },
        _ => panic!("expected hard jail"),
    }
    handler.handle_message(LocalAgentMessage::Value(LocalAgentValue::SettingsSoftjail(Some(true))));
    assert!(matches!(handler.get_wait_reason(), Some(AgentConnectionWaitReason::SoftJailed)));
    handler.handle_message(LocalAgentMessage::Value(LocalAgentValue::SettingsSoftjail(Some(false))));
    handler.handle_message(LocalAgentMessage::Value(LocalAgentValue::Jails(None)));
    assert!(handler.get_wait_reason().is_none());
    handler.handle_message(LocalAgentMessage::Value(LocalAgentValue::InfoEstablished(Some(1000))));
    handler.handle_message(LocalAgentMessage::Value(LocalAgentValue::SettingsPortForwarding(Some(true))));
    match handler.get_state(peer_info("a")) {
        ConnectionState::Connected { agent_info: Some(info), .. } => {
            assert_eq!(info.settings.port_forwarding, Some(true));
        },
        _ => panic!("expected connected"),
    }
    // connecting to another peer forgets what the agent reported
    handler.on_connected_to_peer(&peer_info("b"));
    assert!(matches!(
        handler.get_state(peer_info("b")),
        ConnectionState::ConnectingToLocalAgent { wait_reason: None, .. }
    ));
}

#[test]
fn local_agent_stats_estimate_saved_bytes() {
    let mut handler = LocalAgentHandler::new();
    let stats = AgentStats {
        bytes_received: 10,
        bytes_sent: 20,
        netshield_dnsbl: Some(vec![(NetshieldBlockList::Ads, 2), (NetshieldBlockList::Malicious, 1)]),
    };
    let e = handler.handle_message(LocalAgentMessage::Value(LocalAgentValue::Stats(Some(stats))));
    match e {
        Some(Event::LocalAgentStats {
            bytes_received,
            bytes_sent,
            malicious_blocked,
            ads_blocked,
            trackers_blocked,
            adult_content_blocked,
            data_saved,
        }) => {
            assert_eq!((bytes_received, bytes_sent), (10, 20));
            assert_eq!(malicious_blocked, Some(1));
            assert_eq!(ads_blocked, Some(2));
            assert_eq!(trackers_blocked, None);
            assert_eq!(adult_content_blocked, None);
            assert_eq!(data_saved, Some(750 * 1024 + 2 * 200 * 1024));
        },
        _ => panic!("expected stats"),
    }
    assert_eq!(estimate_data_saved(None, None, Some(3), Some(1)), 3 * 50 * 1024 + 1454 * 1024);
    assert_eq!(estimate_data_saved(None, None, None, None), 0);
}

// --- status text -----------------------------------------------------------

#[test]
fn status_texts() {
    assert_eq!(disconnected_to_string(&None), "Disconnected");
    assert_eq!(
        disconnected_to_string(&Some(DisconnectReason::TunEstablishError { message: "x".to_string() })),
        "Disconnected with error"
    );
    assert_eq!(connecting_to_string(&[peer_info("a"), peer_info("b")], &[]), "Connecting (2 peers)");
    assert_eq!(connecting_to_string(&[peer_info("a")], &[WaitReason::WaitingForNetwork]), "Connecting to a (waiting...)");
    assert_eq!(connecting_to_string(&[], &[]), "Connecting");
    assert_eq!(connected_to_string(&peer_info("x")), "Connected to x");
    assert_eq!(connecting_local_agent_to_string(&peer_info("y"), &None), "Connecting to y");
    assert_eq!(
        connecting_local_agent_to_string(&peer_info("y"), &Some(AgentConnectionWaitReason::SoftJailed)),
        "Connecting to y (waiting...)"
    );
    let state = ConnectionState::Connected { peer: peer_info("z"), agent_info: None };
    assert_eq!(map_status_to_text(&state), "Connected to z");
}

// --- version ---------------------------------------------------------------

#[test]
fn describe_output_gives_version() {
    let v = parse_describe("v0.1-31-gc364e3f0").ok().unwrap();
    assert_eq!((v.major, v.minor, v.patch, v.release), (0, 1, 31, 0));
    assert_eq!(v.hash, "c364e3f0");
    let v = parse_describe("1.2.3-4-gabc").ok().unwrap();
    assert_eq!((v.major, v.minor, v.patch, v.release), (1, 2, 3, 4));
    let v = parse_describe("release-x-7-gdead").ok().unwrap();
    assert_eq!((v.major, v.minor, v.patch, v.release), (0, 0, 7, 0));
    let v = parse_describe("v3-zz-g1").ok().unwrap();
    assert_eq!((v.major, v.minor, v.patch, v.release), (3, 0, 0, 0));
    assert_eq!(parse_describe("c364e3f0").err(), Some(DllPropertiesError::MissingCount));
    assert_eq!(parse_describe("v1-c364e3f0").err(), Some(DllPropertiesError::MissingTag));
}

#[test]
fn u16_parsing_follows_std() {
    assert_eq!(parse_u16_text("31"), Some(31));
    assert_eq!(parse_u16_text("+7"), Some(7));
    assert_eq!(parse_u16_text("65535"), Some(65535));
    assert_eq!(parse_u16_text("65536"), None);
    assert_eq!(parse_u16_text(""), None);
    assert_eq!(parse_u16_text("+"), None);
    assert_eq!(parse_u16_text("-1"), None);
    assert_eq!(parse_u16_text("1a"), None);
}

#[test]
fn dll_properties_for_x64() {
    let p = dll_properties("v0.1-31-gc364e3f0", "x86_64").ok().unwrap();
    assert_eq!(p.product_version, "0.1.31.0-c364e3f0");
    assert_eq!(p.file_version, (1u64 << 32) | (31u64 << 16));
    assert_eq!(p.file_description, "ProTUN Windows x64");
    assert_eq!(p.product_name, "Proton VPN");
    assert_eq!(p.legal_copyright, "Copyright © 2026 Proton AG");
    assert_eq!(dll_properties("v0.1-31-gc364e3f0", "mips").err(), Some(DllPropertiesError::UnknownArchitecture));
    assert_eq!(file_version(1, 2, 3, 4), 0x0001_0002_0003_0004);
}

// --- streams ---------------------------------------------------------------

#[test]
fn tcp_write_buffer_keeps_unwritten_bytes() {
    let mut buffer = TcpWriteBuffer::new();
    buffer.push(vec![1, 2, 3]);
    buffer.push(vec![4]);
    buffer.start_flush();
    let chunk = buffer.next_chunk().unwrap();
    assert_eq!(chunk, vec![1, 2, 3]);
    assert!(buffer.on_write(chunk, IoOutcome::Transferred(2)).is_none());
    let chunk = buffer.next_chunk().unwrap();
    assert_eq!(chunk, vec![3]);
    let r = buffer.on_write(chunk, IoOutcome::Failed(stream_error(IoErrorKind::WouldBlock, "later")));
    assert!(matches!(r, Some(StreamResult::Success { bytes_count: 2, would_block: true, pending_write: true })));
    assert!(buffer.is_pending());
    buffer.start_flush();
    let chunk = buffer.next_chunk().unwrap();
    assert_eq!(chunk, vec![3]);
    assert!(buffer.on_write(chunk, IoOutcome::Transferred(1)).is_none());
    let chunk = buffer.next_chunk().unwrap();
    assert_eq!(chunk, vec![4]);
    assert!(buffer.on_write(chunk, IoOutcome::Transferred(1)).is_none());
    assert!(buffer.next_chunk().is_none());
    assert!(matches!(buffer.finished(), StreamResult::Success { bytes_count: 2, would_block: false, pending_write: false }));
    assert!(matches!(
        buffer.read_result(IoOutcome::Failed(stream_error(IoErrorKind::WouldBlock, "w"))),
        StreamResult::Success { bytes_count: 0, would_block: true, pending_write: false }
    ));
}

#[test]
fn udp_readiness_tracks_outcomes() {
    let mut r = UdpReadiness::new();
    let s = r.get_state(WindowsStreamState { is_readable: true, is_writable: false });
    assert_eq!(s, WindowsStreamState { is_readable: true, is_writable: false });
    let res = r.on_read(IoOutcome::Failed(stream_error(IoErrorKind::WouldBlock, "w")));
    assert!(matches!(res, StreamResult::Success { bytes_count: 0, would_block: true, pending_write: false }));
    assert!(!r.is_readable);
    let res = r.on_write(IoOutcome::Transferred(12));
    assert!(matches!(res, StreamResult::Success { bytes_count: 12, would_block: false, pending_write: false }));
    assert!(r.is_writable);
    let res = r.on_write(IoOutcome::Failed(stream_error(IoErrorKind::ConnectionReset, "r")));
    assert!(matches!(res, StreamResult::Failure(e) if e.kind == IoErrorKind::ConnectionReset));
    assert!(!r.is_writable);
}

#[test]
fn wait_results_and_timeouts() {
    assert_eq!(classify_wait_result(258, 258, 3), WaitEvent::Timeout);
    assert_eq!(classify_wait_result(0, 258, 3), WaitEvent::Waker);
    assert_eq!(classify_wait_result(1, 258, 3), WaitEvent::Tun);
    assert_eq!(classify_wait_result(1, 258, 0), WaitEvent::NoTunStream);
    assert_eq!(classify_wait_result(3, 258, 3), WaitEvent::Stream(2));
    assert_eq!(classify_wait_result(4, 258, 3), WaitEvent::InvalidIndex(3));
    assert_eq!(poll_timeout(None, u32::MAX), u32::MAX);
    assert_eq!(poll_timeout(Some(2_500_000), u32::MAX), 2);
    assert_eq!(poll_timeout(Some(u128::MAX), 1000), 1000);
}

#[test]
fn stream_registry_finds_and_closes() {
    let mut reg = StreamRegistry::new("tun");
    reg.register(StreamId::Socket(1), "udp");
    reg.register(StreamId::Socket(2), "tcp");
    assert_eq!(reg.find(StreamId::Socket(2)), Some(2));
    assert_eq!(*reg.stream_at(1), "udp");
    reg.close(StreamId::Socket(1));
    assert_eq!(reg.len(), 2);
    assert_eq!(reg.find(StreamId::Socket(1)), None);
    assert_eq!(reg.find(StreamId::Tun), Some(0));
    *reg.stream_at_mut(1) = "tcp2";
    assert_eq!(*reg.stream_at(1), "tcp2");
}

#[test]
fn key_bytes_round_trip_through_vec_from() {
    let bytes = vec![3u8; 32];
    let key = WgClientPrivateKey::try_from(bytes.clone()).ok().unwrap();
    assert_eq!(Vec::<u8>::from(key), bytes);
    let key = WgPeerPublicKey::try_from(vec![4u8; 32]).ok().unwrap();
    assert_eq!(Vec::<u8>::from(key), vec![4u8; 32]);
}

#[test]
fn tcp_flush_takes_whole_chunks_in_order() {
    let mut buffer = TcpWriteBuffer::new();
    buffer.push(vec![]);
    buffer.push(vec![5, 6]);
    buffer.start_flush();
    // an empty chunk is taken, written with no byte, and gone
    let chunk = buffer.next_chunk().unwrap();
    assert!(chunk.is_empty());
    assert!(buffer.on_write(chunk, IoOutcome::Transferred(0)).is_none());
    let chunk = buffer.next_chunk().unwrap();
    assert_eq!(chunk, vec![5, 6]);
    assert!(buffer.on_write(chunk, IoOutcome::Transferred(2)).is_none());
    assert!(!buffer.is_pending());
    assert_eq!(buffer.bytes_written(), 2);
}

#[test]
fn stream_registry_close_removes_every_stream_with_the_id() {
    let mut reg = StreamRegistry::new("tun");
    reg.register(StreamId::Socket(1), "a");
    reg.register(StreamId::Socket(2), "b");
    reg.register(StreamId::Socket(1), "c");
    reg.close(StreamId::Socket(1));
    assert_eq!(reg.len(), 2);
    assert_eq!(reg.find(StreamId::Socket(1)), None);
    assert_eq!(*reg.stream_at(1), "b");
}

#[test]
fn udp_bind_address_follows_remote_family() {
    let v4 = SocketAddress { ip: IpAddress::v4(1, 2, 3, 4), port: 51820 };
    let v6 = SocketAddress { ip: IpAddress::V6(1), port: 443 };
    let a = udp_bind_address(v4, Some(0x0a00_0002), Some(7)).ok().unwrap();
    assert_eq!(a.ip, IpAddress::V4(0x0a00_0002));
    assert_eq!(a.port, 0);
    let a = udp_bind_address(v6, None, Some(7)).ok().unwrap();
    assert_eq!(a.ip, IpAddress::V6(7));
    assert_eq!(a.port, 0);
    let e = udp_bind_address(v4, None, Some(7)).err().unwrap();
    assert_eq!(e.kind, IoErrorKind::AddrNotAvailable);
    assert_eq!(e.message, "Can't find an IPv4 internet interface");
    let e = udp_bind_address(v6, Some(1), None).err().unwrap();
    assert_eq!(e.message, "Can't find an IPv6 internet interface");
}

#[test]
fn capture_file_modes() {
    assert_eq!(capture_open_options(FileWriteMode::Append), CaptureOpenOptions { append: true, truncate: false });
    assert_eq!(capture_open_options(FileWriteMode::Overwrite), CaptureOpenOptions { append: false, truncate: true });
}

#[test]
fn capture_stops_at_size_limit() {
    let mut budget = CaptureBudget::new(Some(100), 40);
    assert_eq!(budget.decide(60), CaptureWrite::Write);
    assert_eq!(budget.size(), 100);
    assert_eq!(budget.decide(1), CaptureWrite::LimitReached);
    assert!(budget.is_stopped());
    assert_eq!(budget.size(), 100);
    // nothing more is written, not even what would fit
    assert_eq!(budget.decide(0), CaptureWrite::Stopped);
    let mut unlimited = CaptureBudget::new(None, u64::MAX - 1);
    assert_eq!(unlimited.decide(10), CaptureWrite::Write);
    assert_eq!(unlimited.size(), u64::MAX);
}

#[test]
fn jails_reported_twice_are_kept_once() {
    let jails = || Some(vec![Jail::Expired2FA("2fa".to_string())]);
    let mut once = LocalAgentHandler::new();
    once.handle_message(LocalAgentMessage::Value(LocalAgentValue::Jails(jails())));
    let mut twice = LocalAgentHandler::new();
    twice.handle_message(LocalAgentMessage::Value(LocalAgentValue::Jails(jails())));
    twice.handle_message(LocalAgentMessage::Value(LocalAgentValue::Jails(jails())));
    match (once.get_wait_reason(), twice.get_wait_reason()) {
        (
            Some(AgentConnectionWaitReason::HardJailed { jails: a }),
            Some(AgentConnectionWaitReason::HardJailed { jails: b }),
        ) => {
            assert_eq!(a.len(), 1);
            assert_eq!(b.len(), 1);
        },
        _ => panic!("expected hard jails"),
    }
    twice.handle_message(LocalAgentMessage::Value(LocalAgentValue::Jails(None)));
    assert!(twice.get_wait_reason().is_none());
}

#[test]
fn same_network_change_told_twice_changes_state_once() {
    let (mut core, _) = PvpnConnectionCore::new(vec![peer(1, 0)], true, WgClientPrivateKey([1u8; 32]));
    let first = core.handle_message(PvpnMessage::SetIsNetworkAvailable(false));
    assert!(first.state_changed);
    let second = core.handle_message(PvpnMessage::SetIsNetworkAvailable(false));
    assert!(!second.state_changed);
    assert!(second.commands.is_empty());
}

#[test]
fn peers_with_zero_port_wait_while_network_is_down() {
    let mut bad = peer(2, 0);
    bad.udp_ports = vec![0];
    let (mut core, step) = PvpnConnectionCore::new(vec![bad], false, WgClientPrivateKey([1u8; 32]));
    assert_eq!(step.commands.len(), 1);
    let mut also_bad = peer(3, 0);
    also_bad.tcp_ports = vec![0];
    let commands = core.handle_message(PvpnMessage::SetPeers(vec![also_bad])).commands;
    assert_eq!(commands.len(), 1);
    assert!(matches!(commands[0], Command::RemovePeer(_)));
    assert_eq!(core.peers().len(), 1);
}
