use chirpstack_packet_multiplexer::clock::IDLE_TIMEOUT;
use chirpstack_packet_multiplexer::error::Error;
use chirpstack_packet_multiplexer::forwarder::Forwarder;
use chirpstack_packet_multiplexer::listener::handle_pull_data;
use chirpstack_packet_multiplexer::listener::handle_push_data;
use chirpstack_packet_multiplexer::listener::handle_tx_ack;
use chirpstack_packet_multiplexer::listener::GatewayEntry;
use chirpstack_packet_multiplexer::listener::Listener;
use chirpstack_packet_multiplexer::listener::SocketAddress;
use chirpstack_packet_multiplexer::listener::UplinkAction;
use chirpstack_packet_multiplexer::monitoring::Metrics;
use chirpstack_packet_multiplexer::packets::GatewayId;
use chirpstack_packet_multiplexer::packets::PacketType;

const GATEWAY: GatewayId = GatewayId([1, 2, 3, 4, 5, 6, 7, 8]);
const KEY: u64 = 0x0102030405060708;
const ADDR: SocketAddress = SocketAddress::V4 {
    ip: [127, 0, 0, 1],
    port: 40000,
};
const OTHER_ADDR: SocketAddress = SocketAddress::V6 {
    ip: [0, 0, 0, 0, 0, 0, 0, 0, 0, 0, 0, 0, 0, 0, 0, 1],
    port: 40001,
    flowinfo: 0,
    scope_id: 0,
};

const PUSH_DATA: [u8; 14] = [
    0x02, 0x01, 0x02, 0x00, 0x01, 0x02, 0x03, 0x04, 0x05, 0x06, 0x07, 0x08, 0x7b, 0x7d,
];
const PULL_DATA: [u8; 12] = [
    0x02, 0x01, 0x02, 0x02, 0x01, 0x02, 0x03, 0x04, 0x05, 0x06, 0x07, 0x08,
];

fn ack_of(actions: &[UplinkAction]) -> [u8; 4] {
    match &actions[0] {
        UplinkAction::Ack { frame, .. } => *frame,
        other => panic!("the first action is {:?}", other),
    }
}

#[test]
fn test_no_servers_test() {
    let mut listener = Listener::new();
    let mut forwarder = Forwarder::new();
    let mut metrics = Metrics::new();

    // Send PUSH_DATA, expect PUSH_ACK.
    let actions = listener
        .handle_uplink_packet(
            &mut metrics,
            ADDR,
            &[
                0x02, 0x01, 0x02, 0x00, 0x01, 0x02, 0x03, 0x04, 0x05, 0x06, 0x07, 0x08, 0x7b,
                0x7d,
            ],
            1,
        )
        .unwrap();
    assert_eq!(&[0x02, 0x01, 0x02, 0x01], &ack_of(&actions)[..]);
    let plan = forwarder
        .handle_uplink_packet(GATEWAY, &PUSH_DATA, 1)
        .unwrap();
    assert!(plan.dispatches.is_empty());

    // Send PULL_DATA, expect PULL_ACK.
    let actions = listener
        .handle_uplink_packet(
            &mut metrics,
            ADDR,
            &[
                0x02, 0x01, 0x02, 0x02, 0x01, 0x02, 0x03, 0x04, 0x05, 0x06, 0x07, 0x08,
            ],
            2,
        )
        .unwrap();
    assert_eq!(&[0x02, 0x01, 0x02, 0x04], &ack_of(&actions)[..]);
}

#[test]
fn push_data_is_acknowledged_then_forwarded() {
    let mut listener = Listener::new();
    let mut metrics = Metrics::new();
    let actions = listener
        .handle_uplink_packet(&mut metrics, ADDR, &PUSH_DATA, 1)
        .unwrap();
    assert_eq!(
        actions,
        vec![
            UplinkAction::Ack {
                addr: ADDR,
                gateway_id: GATEWAY,
                packet_type: PacketType::PushAck,
                frame: [0x02, 0x01, 0x02, 0x01],
            },
            UplinkAction::Forward {
                gateway_id: GATEWAY,
                frame: PUSH_DATA.to_vec(),
            },
        ]
    );
    // A PUSH_DATA does not tell where downlinks go.
    assert!(listener.gateways.is_empty());
    assert_eq!(
        metrics.gateway_udp_received_count(GATEWAY, PacketType::PushData),
        1
    );
}

#[test]
fn pull_data_is_acknowledged_and_sets_the_return_address() {
    let mut listener = Listener::new();
    let mut metrics = Metrics::new();
    let actions = listener
        .handle_uplink_packet(&mut metrics, ADDR, &PULL_DATA, 7)
        .unwrap();
    assert_eq!(
        actions,
        vec![
            UplinkAction::Ack {
                addr: ADDR,
                gateway_id: GATEWAY,
                packet_type: PacketType::PullAck,
                frame: [0x02, 0x01, 0x02, 0x04],
            },
            UplinkAction::Forward {
                gateway_id: GATEWAY,
                frame: PULL_DATA.to_vec(),
            },
        ]
    );
    assert_eq!(
        listener.gateways[&KEY],
        GatewayEntry {
            addr: ADDR,
            last_seen: 7
        }
    );
    assert_eq!(listener.get_gateway(GATEWAY), Ok(ADDR));

    // The next PULL_DATA, from another address, replaces the entry.
    listener
        .handle_uplink_packet(&mut metrics, OTHER_ADDR, &PULL_DATA, 9)
        .unwrap();
    assert_eq!(listener.gateways.len(), 1);
    assert_eq!(
        listener.gateways[&KEY],
        GatewayEntry {
            addr: OTHER_ADDR,
            last_seen: 9
        }
    );
    assert_eq!(
        metrics.gateway_udp_received_count(GATEWAY, PacketType::PullData),
        2
    );
}

#[test]
fn tx_ack_is_forwarded_without_acknowledgement() {
    let mut listener = Listener::new();
    let mut metrics = Metrics::new();
    let mut frame = PUSH_DATA;
    frame[3] = 0x05;
    let actions = listener
        .handle_uplink_packet(&mut metrics, ADDR, &frame, 1)
        .unwrap();
    assert_eq!(
        actions,
        vec![UplinkAction::Forward {
            gateway_id: GATEWAY,
            frame: frame.to_vec(),
        }]
    );
    assert!(listener.gateways.is_empty());
    assert_eq!(
        metrics.gateway_udp_received_count(GATEWAY, PacketType::TxAck),
        1
    );
}

#[test]
fn unexpected_packet_types_are_counted_and_dropped() {
    let mut listener = Listener::new();
    let mut metrics = Metrics::new();
    for (code, packet_type) in [
        (0x01, PacketType::PushAck),
        (0x03, PacketType::PullResp),
        (0x04, PacketType::PullAck),
    ] {
        let mut frame = PUSH_DATA;
        frame[3] = code;
        let actions = listener
            .handle_uplink_packet(&mut metrics, ADDR, &frame, 1)
            .unwrap();
        assert!(actions.is_empty());
        assert_eq!(metrics.gateway_udp_received_count(GATEWAY, packet_type), 1);
    }
    assert!(listener.gateways.is_empty());
}

#[test]
fn frames_that_cannot_be_decoded_are_refused_and_not_counted() {
    let mut listener = Listener::new();
    let mut metrics = Metrics::new();
    assert_eq!(
        listener.handle_uplink_packet(&mut metrics, ADDR, &PUSH_DATA[..3], 1),
        Err(Error::TooShort { expected: 4 })
    );
    assert_eq!(
        listener.handle_uplink_packet(&mut metrics, ADDR, &[], 1),
        Err(Error::TooShort { expected: 4 })
    );
    assert_eq!(
        listener.handle_uplink_packet(&mut metrics, ADDR, &PULL_DATA[..11], 1),
        Err(Error::TooShort { expected: 12 })
    );
    let mut frame = PUSH_DATA;
    frame[3] = 0x06;
    assert_eq!(
        listener.handle_uplink_packet(&mut metrics, ADDR, &frame, 1),
        Err(Error::UnknownType { value: 6 })
    );
    assert!(listener.gateways.is_empty());
    assert_eq!(
        metrics.gateway_udp_received_count(GATEWAY, PacketType::PushData),
        0
    );
    assert_eq!(
        metrics.gateway_udp_received_count(GATEWAY, PacketType::PullData),
        0
    );
}

#[test]
fn acknowledgements_need_twelve_bytes() {
    assert_eq!(
        handle_push_data(ADDR, GATEWAY, &PUSH_DATA[..11]),
        Err(Error::TooShort { expected: 12 })
    );
    assert_eq!(
        handle_pull_data(ADDR, GATEWAY, &PULL_DATA[..4]),
        Err(Error::TooShort { expected: 12 })
    );
    assert_eq!(
        ack_of(&handle_push_data(ADDR, GATEWAY, &PUSH_DATA[..12]).unwrap()),
        [0x02, 0x01, 0x02, 0x01]
    );
    assert_eq!(
        ack_of(&handle_pull_data(ADDR, GATEWAY, &PULL_DATA).unwrap()),
        [0x02, 0x01, 0x02, 0x04]
    );
    assert_eq!(
        handle_tx_ack(GATEWAY, &[1, 2, 3]),
        vec![UplinkAction::Forward {
            gateway_id: GATEWAY,
            frame: vec![1, 2, 3],
        }]
    );
}

#[test]
fn downlink_goes_to_the_return_address() {
    let mut listener = Listener::new();
    let frame = [0x02, 0xaa, 0xbb, 0x03, 0x7b, 0x7d];
    assert_eq!(
        listener.handle_downlink_packet(GATEWAY, &frame),
        Err(Error::UnknownGateway {
            gateway_id: GATEWAY
        })
    );
    assert_eq!(
        listener.get_gateway(GATEWAY),
        Err(Error::UnknownGateway {
            gateway_id: GATEWAY
        })
    );
    listener.set_gateway(GATEWAY, ADDR, 1);
    assert_eq!(
        listener.handle_downlink_packet(GATEWAY, &frame),
        Ok((ADDR, PacketType::PullResp))
    );
    // The packet type is decoded before the gateway is looked up.
    assert_eq!(
        listener.handle_downlink_packet(GatewayId([9; 8]), &[0x02, 0xaa, 0xbb]),
        Err(Error::TooShort { expected: 4 })
    );
    assert_eq!(
        listener.handle_downlink_packet(GATEWAY, &[0x02, 0xaa, 0xbb, 0x07]),
        Err(Error::UnknownType { value: 7 })
    );
}

#[test]
fn idle_gateways_are_evicted() {
    let mut listener = Listener::new();
    listener.set_gateway(GATEWAY, ADDR, 100);
    listener.set_gateway(GatewayId([2; 8]), OTHER_ADDR, 200);

    assert!(listener.cleanup_gateways(100 + IDLE_TIMEOUT - 1).is_empty());
    assert_eq!(listener.gateways.len(), 2);

    assert_eq!(
        listener.cleanup_gateways(100 + IDLE_TIMEOUT),
        vec![GATEWAY]
    );
    assert_eq!(listener.gateways.len(), 1);
    assert_eq!(listener.get_gateway(GatewayId([2; 8])), Ok(OTHER_ADDR));

    // An entry that was seen in the future of the clock goes as well.
    assert_eq!(listener.cleanup_gateways(199), vec![GatewayId([2; 8])]);
    assert!(listener.gateways.is_empty());
}
