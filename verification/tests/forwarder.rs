use std::str::FromStr;

use chirpstack_packet_multiplexer::clock::IDLE_TIMEOUT;
use chirpstack_packet_multiplexer::config;
use chirpstack_packet_multiplexer::error::Error;
use chirpstack_packet_multiplexer::filters::EuiPrefix;
use chirpstack_packet_multiplexer::forwarder::setup;
use chirpstack_packet_multiplexer::forwarder::Dispatch;
use chirpstack_packet_multiplexer::forwarder::Downlink;
use chirpstack_packet_multiplexer::forwarder::Forwarder;
use chirpstack_packet_multiplexer::forwarder::Server;
use chirpstack_packet_multiplexer::forwarder::ServerSession;
use chirpstack_packet_multiplexer::listener::Listener;
use chirpstack_packet_multiplexer::listener::SocketAddress;
use chirpstack_packet_multiplexer::listener::UplinkAction;
use chirpstack_packet_multiplexer::monitoring::Metrics;
use chirpstack_packet_multiplexer::packets::GatewayId;
use chirpstack_packet_multiplexer::packets::PacketType;

const GATEWAY: GatewayId = GatewayId([1, 2, 3, 4, 5, 6, 7, 8]);
const OTHER_GATEWAY: GatewayId = GatewayId([1, 1, 3, 4, 5, 6, 7, 8]);
const KEY: u64 = 0x0102030405060708;
const ADDR: SocketAddress = SocketAddress::V4 {
    ip: [127, 0, 0, 1],
    port: 40000,
};

const PUSH_DATA: [u8; 14] = [
    0x02, 0x01, 0x02, 0x00, 0x01, 0x02, 0x03, 0x04, 0x05, 0x06, 0x07, 0x08, 0x7b, 0x7d,
];
const PULL_DATA: [u8; 12] = [
    0x02, 0x01, 0x02, 0x02, 0x01, 0x02, 0x03, 0x04, 0x05, 0x06, 0x07, 0x08,
];
const PULL_RESP: [u8; 6] = [0x02, 0xaa, 0xbb, 0x03, 0x7b, 0x7d];
const TX_ACK: [u8; 14] = [
    0x02, 0xaa, 0xbb, 0x05, 0x01, 0x02, 0x03, 0x04, 0x05, 0x06, 0x07, 0x08, 0x7b, 0x7d,
];

fn ack_of(actions: &[UplinkAction]) -> [u8; 4] {
    match &actions[0] {
        UplinkAction::Ack { frame, .. } => *frame,
        other => panic!("the first action is {:?}", other),
    }
}

fn one_server(uplink_only: bool) -> Forwarder {
    let mut forwarder = Forwarder::new();
    forwarder.add_server("localhost:1711".to_string(), uplink_only, Vec::new());
    forwarder
}

fn filtered() -> Forwarder {
    setup(vec![
        config::Server {
            server: "localhost:1711".into(),
            ..Default::default()
        },
        config::Server {
            server: "localhost:1712".into(),
            gateway_id_prefixes: vec![EuiPrefix::from_str("0101000000000000/16").unwrap()],
            ..Default::default()
        },
    ])
}

#[test]
fn setup_keeps_the_servers_in_their_order() {
    let forwarder = filtered();
    assert_eq!(forwarder.servers.len(), 2);
    assert_eq!(forwarder.servers[0].host, "localhost:1711");
    assert!(!forwarder.servers[0].uplink_only);
    assert!(forwarder.servers[0].gateway_id_prefixes.is_empty());
    assert!(forwarder.servers[0].sessions.is_empty());
    assert_eq!(forwarder.servers[1].host, "localhost:1712");
    assert_eq!(
        forwarder.servers[1].gateway_id_prefixes,
        vec![EuiPrefix::from_str("0101000000000000/16").unwrap()]
    );
    assert!(forwarder.servers[1].sessions.is_empty());
    assert!(setup(Vec::new()).servers.is_empty());
}

#[test]
fn server_without_prefixes_takes_every_gateway() {
    let server = Server::new("a:1".to_string(), false, Vec::new());
    assert!(server.match_prefixes(GATEWAY));
    assert!(server.match_prefixes(GatewayId([0; 8])));
    assert!(server.match_prefixes(GatewayId([0xff; 8])));
}

#[test]
fn server_with_prefixes_takes_the_gateways_that_one_of_them_matches() {
    let server = Server::new(
        "a:1".to_string(),
        false,
        vec![
            EuiPrefix::from_str("0101000000000000/16").unwrap(),
            EuiPrefix::from_str("aa00000000000000/8").unwrap(),
        ],
    );
    assert!(!server.match_prefixes(GATEWAY));
    assert!(server.match_prefixes(OTHER_GATEWAY));
    assert!(server.match_prefixes(GatewayId([0xaa, 9, 9, 9, 9, 9, 9, 9])));
    assert!(!server.match_prefixes(GatewayId([0xab, 1, 0, 0, 0, 0, 0, 0])));
}

#[test]
fn test_filtered_server_test() {
    let mut forwarder = filtered();

    let plan = forwarder
        .handle_uplink_packet(GATEWAY, &PUSH_DATA, 1)
        .unwrap();

    // The first server gets the frame as it is, the second one nothing.
    assert_eq!(
        &[0x02, 0x01, 0x02, 0x00, 0x01, 0x02, 0x03, 0x04, 0x05, 0x06, 0x07, 0x08, 0x7b, 0x7d,],
        &plan.frame[..]
    );
    assert_eq!(plan.packet_type, PacketType::PushData);
    assert_eq!(
        plan.dispatches,
        vec![Dispatch::Forwarded { opened: true }, Dispatch::Skipped]
    );
    assert!(forwarder.servers[1].sessions.is_empty());
    assert_eq!(forwarder.servers[0].sessions.len(), 1);
}

#[test]
fn test_uplink_only_server_test() {
    let mut listener = Listener::new();
    let mut forwarder = one_server(true);
    let mut metrics = Metrics::new();

    // Send PUSH_DATA, expect PUSH_ACK.
    let actions = listener
        .handle_uplink_packet(&mut metrics, ADDR, &PUSH_DATA, 1)
        .unwrap();
    assert_eq!(&[0x02, 0x01, 0x02, 0x01], &ack_of(&actions)[..]);

    // Expect PUSH_DATA forwarded to server.
    let plan = forwarder
        .handle_uplink_packet(GATEWAY, &PUSH_DATA, 1)
        .unwrap();
    assert_eq!(plan.dispatches, vec![Dispatch::Forwarded { opened: true }]);
    assert_eq!(
        &[0x02, 0x01, 0x02, 0x00, 0x01, 0x02, 0x03, 0x04, 0x05, 0x06, 0x07, 0x08, 0x7b, 0x7d,],
        &plan.frame[..]
    );

    // Send PULL_DATA, expect PULL_ACK.
    let actions = listener
        .handle_uplink_packet(&mut metrics, ADDR, &PULL_DATA, 2)
        .unwrap();
    assert_eq!(&[0x02, 0x01, 0x02, 0x04], &ack_of(&actions)[..]);

    // Expect PULL_DATA forwarded to server.
    let plan = forwarder
        .handle_uplink_packet(GATEWAY, &PULL_DATA, 2)
        .unwrap();
    assert_eq!(plan.dispatches, vec![Dispatch::Forwarded { opened: false }]);
    assert_eq!(
        &[0x02, 0x01, 0x02, 0x02, 0x01, 0x02, 0x03, 0x04, 0x05, 0x06, 0x07, 0x08,],
        &plan.frame[..]
    );

    // The PULL_RESP of the server is not handed on to the gateway.
    let downlink = forwarder.handle_downlink_packet(
        &mut metrics,
        0,
        GATEWAY,
        &[0x02, 0x01, 0x02, 0x03, 0x7b, 0x7d],
    );
    assert_eq!(downlink, Ok(Downlink::Dropped));
    assert_eq!(forwarder.servers[0].sessions[&KEY].pull_resp_token, None);
    assert_eq!(
        metrics.server_udp_received_count("localhost:1711", PacketType::PullResp),
        1
    );
}

#[test]
fn uplink_records_tokens_and_time() {
    let mut forwarder = one_server(false);
    forwarder
        .handle_uplink_packet(GATEWAY, &PUSH_DATA, 10)
        .unwrap();
    assert_eq!(
        forwarder.servers[0].sessions[&KEY],
        ServerSession {
            last_uplink: 10,
            push_data_token: Some(0x0102),
            pull_data_token: None,
            pull_resp_token: None,
        }
    );
    let pull = [0x02, 0x0a, 0x0b, 0x02, 1, 2, 3, 4, 5, 6, 7, 8];
    forwarder.handle_uplink_packet(GATEWAY, &pull, 20).unwrap();
    assert_eq!(
        forwarder.servers[0].sessions[&KEY],
        ServerSession {
            last_uplink: 20,
            push_data_token: Some(0x0102),
            pull_data_token: Some(0x0a0b),
            pull_resp_token: None,
        }
    );
}

#[test]
fn uplink_that_cannot_be_decoded_changes_nothing() {
    let mut forwarder = one_server(false);
    assert_eq!(
        forwarder.handle_uplink_packet(GATEWAY, &[0x02, 0x01, 0x02], 1),
        Err(Error::TooShort { expected: 4 })
    );
    assert_eq!(
        forwarder.handle_uplink_packet(GATEWAY, &[0x02, 0x01, 0x02, 0x09], 1),
        Err(Error::UnknownType { value: 9 })
    );
    assert!(forwarder.servers[0].sessions.is_empty());
}

#[test]
fn uplink_of_another_type_is_held() {
    let mut forwarder = one_server(false);
    let plan = forwarder
        .handle_uplink_packet(GATEWAY, &[0x02, 0x01, 0x02, 0x01], 5)
        .unwrap();
    assert_eq!(plan.dispatches, vec![Dispatch::Held { opened: true }]);
    assert_eq!(
        forwarder.servers[0].sessions[&KEY],
        ServerSession {
            last_uplink: 5,
            push_data_token: None,
            pull_data_token: None,
            pull_resp_token: None,
        }
    );
}

#[test]
fn downlink_round_trip_and_tx_ack_gating() {
    let mut forwarder = one_server(false);
    let mut metrics = Metrics::new();
    forwarder
        .handle_uplink_packet(GATEWAY, &PULL_DATA, 1)
        .unwrap();

    let downlink =
        forwarder.handle_downlink_packet(&mut metrics, 0, GATEWAY, &PULL_RESP);
    assert_eq!(
        downlink,
        Ok(Downlink::Deliver {
            frame: PULL_RESP.to_vec()
        })
    );
    assert_eq!(
        forwarder.servers[0].sessions[&KEY].pull_resp_token,
        Some(0xaabb)
    );

    // The first TX_ACK with the token reaches the server, the second does not.
    let plan = forwarder.handle_uplink_packet(GATEWAY, &TX_ACK, 2).unwrap();
    assert_eq!(plan.dispatches, vec![Dispatch::Forwarded { opened: false }]);
    assert_eq!(plan.frame, TX_ACK.to_vec());
    assert_eq!(plan.packet_type, PacketType::TxAck);
    assert_eq!(forwarder.servers[0].sessions[&KEY].pull_resp_token, None);

    let plan = forwarder.handle_uplink_packet(GATEWAY, &TX_ACK, 3).unwrap();
    assert_eq!(plan.dispatches, vec![Dispatch::Held { opened: false }]);
    assert_eq!(forwarder.servers[0].sessions[&KEY].last_uplink, 3);
}

#[test]
fn tx_ack_with_another_token_is_held_and_keeps_the_token() {
    let mut forwarder = one_server(false);
    let mut metrics = Metrics::new();
    forwarder
        .handle_uplink_packet(GATEWAY, &PULL_DATA, 1)
        .unwrap();
    forwarder
        .handle_downlink_packet(&mut metrics, 0, GATEWAY, &PULL_RESP)
        .unwrap();
    let mut other = TX_ACK;
    other[2] = 0xbc;
    let plan = forwarder.handle_uplink_packet(GATEWAY, &other, 2).unwrap();
    assert_eq!(plan.dispatches, vec![Dispatch::Held { opened: false }]);
    assert_eq!(
        forwarder.servers[0].sessions[&KEY].pull_resp_token,
        Some(0xaabb)
    );
}

#[test]
fn tx_ack_reaches_only_the_server_of_the_pull_resp() {
    let mut forwarder = Forwarder::new();
    forwarder.add_server("a:1700".to_string(), false, Vec::new());
    forwarder.add_server("b:1700".to_string(), false, Vec::new());
    forwarder.add_server("c:1700".to_string(), false, Vec::new());
    let mut metrics = Metrics::new();
    forwarder
        .handle_uplink_packet(GATEWAY, &PULL_DATA, 1)
        .unwrap();
    forwarder
        .handle_downlink_packet(&mut metrics, 1, GATEWAY, &PULL_RESP)
        .unwrap();
    let plan = forwarder.handle_uplink_packet(GATEWAY, &TX_ACK, 2).unwrap();
    assert_eq!(
        plan.dispatches,
        vec![
            Dispatch::Held { opened: false },
            Dispatch::Forwarded { opened: false },
            Dispatch::Held { opened: false },
        ]
    );
}

#[test]
fn pull_resp_token_is_recorded_on_one_session_only() {
    let mut forwarder = Forwarder::new();
    forwarder.add_server("a:1700".to_string(), false, Vec::new());
    forwarder.add_server("b:1700".to_string(), false, Vec::new());
    forwarder.add_server("a:1700".to_string(), true, Vec::new());
    forwarder
        .handle_uplink_packet(GATEWAY, &PULL_DATA, 1)
        .unwrap();
    forwarder.set_pull_resp_token(0, GATEWAY, 7);
    assert_eq!(forwarder.servers[0].sessions[&KEY].pull_resp_token, Some(7));
    assert_eq!(forwarder.servers[1].sessions[&KEY].pull_resp_token, None);
    assert_eq!(forwarder.servers[2].sessions[&KEY].pull_resp_token, None);

    // Without a session, or without a server, there is nothing to record the
    // token in.
    forwarder.set_pull_resp_token(1, OTHER_GATEWAY, 9);
    assert_eq!(forwarder.servers[1].sessions.len(), 1);
    assert_eq!(forwarder.servers[1].sessions[&KEY].pull_resp_token, None);
    forwarder.set_pull_resp_token(3, GATEWAY, 9);
    assert_eq!(forwarder.servers[0].sessions[&KEY].pull_resp_token, Some(7));
    assert_eq!(forwarder.servers[1].sessions[&KEY].pull_resp_token, None);
    assert_eq!(forwarder.servers[2].sessions[&KEY].pull_resp_token, None);

    // The session keeps what else it holds.
    assert_eq!(
        forwarder.servers[0].sessions[&KEY],
        ServerSession {
            last_uplink: 1,
            push_data_token: None,
            pull_data_token: Some(0x0102),
            pull_resp_token: Some(7),
        }
    );
}

#[test]
fn downlink_acknowledgements_are_reported_with_their_token() {
    let mut forwarder = one_server(false);
    let mut metrics = Metrics::new();
    assert_eq!(
        forwarder.handle_downlink_packet(
            &mut metrics,
            0,
            GATEWAY,
            &[0x02, 0x01, 0x02, 0x04]
        ),
        Ok(Downlink::PullAcked { token: 0x0102 })
    );
    assert_eq!(
        forwarder.handle_downlink_packet(
            &mut metrics,
            0,
            GATEWAY,
            &[0x02, 0x03, 0x04, 0x01]
        ),
        Ok(Downlink::PushAcked { token: 0x0304 })
    );
    assert_eq!(
        forwarder.handle_downlink_packet(
            &mut metrics,
            0,
            GATEWAY,
            &[0x02, 0x03, 0x04, 0x00]
        ),
        Ok(Downlink::Ignored)
    );
    assert_eq!(
        metrics.server_udp_received_count("localhost:1711", PacketType::PullAck),
        1
    );
    assert_eq!(
        metrics.server_udp_received_count("localhost:1711", PacketType::PushAck),
        1
    );
    assert_eq!(
        metrics.server_udp_received_count("localhost:1711", PacketType::PushData),
        1
    );
}

#[test]
fn downlink_that_cannot_be_decoded_is_not_counted() {
    let mut forwarder = one_server(false);
    let mut metrics = Metrics::new();
    assert_eq!(
        forwarder.handle_downlink_packet(&mut metrics, 0, GATEWAY, &[2, 1, 2]),
        Err(Error::TooShort { expected: 4 })
    );
    assert_eq!(
        forwarder.handle_downlink_packet(
            &mut metrics,
            0,
            GATEWAY,
            &[2, 1, 2, 6]
        ),
        Err(Error::UnknownType { value: 6 })
    );
    for packet_type in [
        PacketType::PushData,
        PacketType::PushAck,
        PacketType::PullData,
        PacketType::PullResp,
        PacketType::PullAck,
        PacketType::TxAck,
    ] {
        assert_eq!(
            metrics.server_udp_received_count("localhost:1711", packet_type),
            0
        );
    }
}

#[test]
fn idle_sessions_are_evicted() {
    let mut forwarder = Forwarder::new();
    forwarder.add_server("a:1700".to_string(), false, Vec::new());
    forwarder.add_server("b:1700".to_string(), false, Vec::new());
    forwarder
        .handle_uplink_packet(GATEWAY, &PUSH_DATA, 1_000)
        .unwrap();
    let mut later = PUSH_DATA;
    later[5] = 1;
    forwarder
        .handle_uplink_packet(OTHER_GATEWAY, &later, 2_000)
        .unwrap();

    // One nanosecond before the first session is idle: nothing goes.
    let evicted = forwarder.cleanup_sockets(1_000 + IDLE_TIMEOUT - 1);
    assert_eq!(evicted, vec![Vec::new(), Vec::new()]);
    assert_eq!(forwarder.servers[0].sessions.len(), 2);

    // At sixty seconds the first session goes, at both servers.
    let evicted = forwarder.cleanup_sockets(1_000 + IDLE_TIMEOUT);
    assert_eq!(evicted, vec![vec![GATEWAY], vec![GATEWAY]]);
    assert_eq!(forwarder.servers[0].sessions.len(), 1);
    assert_eq!(forwarder.servers[1].sessions.len(), 1);
    assert!(forwarder.servers[0]
        .sessions
        .contains_key(&OTHER_GATEWAY.to_key()));

    // The next uplink of the gateway opens a fresh session.
    let plan = forwarder
        .handle_uplink_packet(GATEWAY, &PUSH_DATA, 1_000 + IDLE_TIMEOUT + 1)
        .unwrap();
    assert_eq!(
        plan.dispatches,
        vec![
            Dispatch::Forwarded { opened: true },
            Dispatch::Forwarded { opened: true }
        ]
    );
}

#[test]
fn sessions_from_the_future_are_evicted() {
    let mut forwarder = one_server(false);
    forwarder
        .handle_uplink_packet(GATEWAY, &PUSH_DATA, 5_000)
        .unwrap();
    let evicted = forwarder.cleanup_sockets(4_999);
    assert_eq!(evicted, vec![vec![GATEWAY]]);
    assert!(forwarder.servers[0].sessions.is_empty());
}

#[test]
fn many_idle_sessions_are_each_named_once() {
    let mut server = Server::new("a:1700".to_string(), false, Vec::new());
    for n in 0..100u64 {
        let dispatch =
            server.handle_uplink(GatewayId::from_key(n * 977), PacketType::PullData, 1, n);
        assert_eq!(dispatch, Dispatch::Forwarded { opened: true });
    }
    let mut evicted = server.cleanup(IDLE_TIMEOUT + 49);
    evicted.sort_by_key(|gateway_id| gateway_id.to_key());
    let expected: Vec<GatewayId> = (0..50u64).map(|n| GatewayId::from_key(n * 977)).collect();
    assert_eq!(evicted, expected);
    assert_eq!(server.sessions.len(), 50);
    for n in 50..100u64 {
        assert_eq!(server.sessions[&(n * 977)].last_uplink, n);
    }
}

#[test]
fn session_can_be_removed() {
    let mut forwarder = one_server(false);
    forwarder
        .handle_uplink_packet(GATEWAY, &PUSH_DATA, 1)
        .unwrap();
    forwarder.remove_session(1, GATEWAY);
    assert_eq!(forwarder.servers[0].sessions.len(), 1);
    forwarder.remove_session(0, OTHER_GATEWAY);
    assert_eq!(forwarder.servers[0].sessions.len(), 1);
    forwarder.remove_session(0, GATEWAY);
    assert!(forwarder.servers[0].sessions.is_empty());
}

#[test]
fn downlink_of_a_server_that_is_not_configured_is_refused() {
    let mut forwarder = one_server(false);
    let mut metrics = Metrics::new();
    forwarder
        .handle_uplink_packet(GATEWAY, &PULL_DATA, 1)
        .unwrap();
    assert_eq!(
        forwarder.handle_downlink_packet(&mut metrics, 1, GATEWAY, &PULL_RESP),
        Err(Error::UnknownServer { server: 1 })
    );
    assert_eq!(
        forwarder.handle_downlink_packet(&mut metrics, usize::MAX, GATEWAY, &[2, 1]),
        Err(Error::UnknownServer { server: usize::MAX })
    );
    assert_eq!(forwarder.servers[0].sessions[&KEY].pull_resp_token, None);
    assert_eq!(
        metrics.server_udp_received_count("localhost:1711", PacketType::PullResp),
        0
    );
}

#[test]
fn pull_resp_of_one_of_two_servers_of_a_host_is_recorded_at_that_one() {
    let mut forwarder = Forwarder::new();
    forwarder.add_server("a:1700".to_string(), true, Vec::new());
    forwarder.add_server("a:1700".to_string(), false, Vec::new());
    forwarder.add_server("a:1700".to_string(), false, Vec::new());
    let mut metrics = Metrics::new();
    forwarder
        .handle_uplink_packet(GATEWAY, &PULL_DATA, 1)
        .unwrap();
    // The uplink-only server drops the frame and never holds a token.
    assert_eq!(
        forwarder.handle_downlink_packet(&mut metrics, 0, GATEWAY, &PULL_RESP),
        Ok(Downlink::Dropped)
    );
    for server in 0..3 {
        assert_eq!(
            forwarder.servers[server].sessions[&KEY].pull_resp_token,
            None
        );
    }
    // The second server delivers it, and its session alone holds the token.
    assert_eq!(
        forwarder.handle_downlink_packet(&mut metrics, 1, GATEWAY, &PULL_RESP),
        Ok(Downlink::Deliver {
            frame: PULL_RESP.to_vec()
        })
    );
    assert_eq!(forwarder.servers[0].sessions[&KEY].pull_resp_token, None);
    assert_eq!(
        forwarder.servers[1].sessions[&KEY].pull_resp_token,
        Some(0xaabb)
    );
    assert_eq!(forwarder.servers[2].sessions[&KEY].pull_resp_token, None);
    assert_eq!(
        metrics.server_udp_received_count("a:1700", PacketType::PullResp),
        2
    );

    // The TX_ACK goes to the server of the PULL_RESP and to no other.
    let plan = forwarder.handle_uplink_packet(GATEWAY, &TX_ACK, 2).unwrap();
    assert_eq!(
        plan.dispatches,
        vec![
            Dispatch::Held { opened: false },
            Dispatch::Forwarded { opened: false },
            Dispatch::Held { opened: false },
        ]
    );
}

#[test]
fn pull_resp_for_a_gateway_without_session_is_delivered_and_changes_no_session() {
    let mut forwarder = one_server(false);
    let mut metrics = Metrics::new();
    forwarder
        .handle_uplink_packet(GATEWAY, &PULL_DATA, 1)
        .unwrap();
    assert_eq!(
        forwarder.handle_downlink_packet(&mut metrics, 0, OTHER_GATEWAY, &PULL_RESP),
        Ok(Downlink::Deliver {
            frame: PULL_RESP.to_vec()
        })
    );
    assert_eq!(forwarder.servers[0].sessions.len(), 1);
    assert_eq!(forwarder.servers[0].sessions[&KEY].pull_resp_token, None);
}
