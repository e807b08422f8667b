//! The side of the gateways: what is done with a datagram of a gateway, and
//! where the frames for a gateway are sent.

use std::collections::HashMap;
use vstd::prelude::*;

use crate::clock::evict_idle;
use crate::clock::gateway_keys;
use crate::clock::idle_keys;
use crate::clock::Stamped;
use crate::clock::Timestamp;
use crate::clock::IDLE_TIMEOUT;
use crate::error::Error;
use crate::monitoring::bump;
use crate::monitoring::gateway_labels;
use crate::monitoring::inc_gateway_udp_received_count;
use crate::monitoring::Metrics;
use crate::monitoring::MetricsView;
use crate::packets::ack_frame;
use crate::packets::build_ack;
use crate::packets::get_random_token;
use crate::packets::GatewayId;
use crate::packets::PacketType;
use crate::packets::GATEWAY_ID_END;

verus! {

/// The address of a socket, as plain values: an IP address, a port and, for
/// version 6, flow information and scope.
#[derive(Clone, Copy, Debug, PartialEq, Eq)]
#[allow(inconsistent_fields)]
pub enum SocketAddress {
    V4 { ip: [u8; 4], port: u16 },
    V6 { ip: [u8; 16], port: u16, flowinfo: u32, scope_id: u32 },
}

/// What the listener knows of a gateway: where it was last heard from, and
/// when.
#[derive(Clone, Copy, Debug, PartialEq, Eq)]
pub struct GatewayEntry {
    pub addr: SocketAddress,
    pub last_seen: Timestamp,
}

impl Stamped for GatewayEntry {
    open spec fn stamp(&self) -> Timestamp {
        self.last_seen
    }

    fn last_refresh(&self) -> (last: Timestamp) {
        self.last_seen
    }
}

/// One thing that is to be done with a frame that came from a gateway.
#[derive(Debug, PartialEq, Eq)]
#[allow(inconsistent_fields)]
pub enum UplinkAction {
    /// Send the acknowledgement `frame`, of type `packet_type`, to `addr`,
    /// and count it as sent to the gateway.
    Ack { addr: SocketAddress, gateway_id: GatewayId, packet_type: PacketType, frame: [u8; 4] },
    /// Hand the frame, as it was received, to the forwarder.
    Forward { gateway_id: GatewayId, frame: Vec<u8> },
}

/// What an `UplinkAction` stands for.
pub enum UplinkActionView {
    Ack { addr: SocketAddress, gateway_id: GatewayId, packet_type: PacketType, frame: Seq<u8> },
    Forward { gateway_id: GatewayId, frame: Seq<u8> },
}

impl View for UplinkAction {
    type V = UplinkActionView;

    open spec fn view(&self) -> UplinkActionView {
        match *self {
            UplinkAction::Ack { addr, gateway_id, packet_type, frame } => UplinkActionView::Ack {
                addr,
                gateway_id,
                packet_type,
                frame: frame@,
            },
            UplinkAction::Forward { gateway_id, frame } => UplinkActionView::Forward {
                gateway_id,
                frame: frame@,
            },
        }
    }
}

/// What a sequence of actions stands for.
pub open spec fn actions_view(actions: Seq<UplinkAction>) -> Seq<UplinkActionView> {
    actions.map_values(|action: UplinkAction| action@)
}

/// The actions for a frame that is acknowledged and then forwarded.
pub open spec fn ack_then_forward(
    addr: SocketAddress,
    gateway_id: GatewayId,
    frame: Seq<u8>,
    ack_type: PacketType,
) -> Seq<UplinkActionView> {
    seq![
        UplinkActionView::Ack {
            addr,
            gateway_id,
            packet_type: ack_type,
            frame: ack_frame(frame, ack_type),
        },
        UplinkActionView::Forward { gateway_id, frame },
    ]
}

/// Acknowledges a frame with the given type and forwards it, unless it is
/// shorter than a header with a gateway identifier.
fn acknowledge(addr: SocketAddress, gateway_id: GatewayId, data: &[u8], ack_type: PacketType) -> (actions:
    Result<Vec<UplinkAction>, Error>)
    ensures
        data@.len() < GATEWAY_ID_END ==> actions == Err::<Vec<UplinkAction>, Error>(
            Error::TooShort { expected: GATEWAY_ID_END },
        ),
        data@.len() >= GATEWAY_ID_END ==> (actions matches Ok(list) && actions_view(list@)
            == ack_then_forward(addr, gateway_id, data@, ack_type)),
{
    if data.len() < GATEWAY_ID_END {
        return Err(Error::TooShort { expected: GATEWAY_ID_END });
    }
    let frame = build_ack(data, ack_type);
    let mut actions: Vec<UplinkAction> = Vec::new();
    actions.push(UplinkAction::Ack { addr, gateway_id, packet_type: ack_type, frame });
    actions.push(UplinkAction::Forward { gateway_id, frame: vstd::slice::slice_to_vec(data) });
    Ok(actions)
}

/// Decides what is done with a `PUSH_DATA` frame: it is acknowledged to its
/// sender with a `PUSH_ACK`, then forwarded.
pub fn handle_push_data(addr: SocketAddress, gateway_id: GatewayId, data: &[u8]) -> (actions:
    Result<Vec<UplinkAction>, Error>)
    ensures
        data@.len() < GATEWAY_ID_END ==> actions == Err::<Vec<UplinkAction>, Error>(
            Error::TooShort { expected: GATEWAY_ID_END },
        ),
        data@.len() >= GATEWAY_ID_END ==> (actions matches Ok(list) && actions_view(list@)
            == ack_then_forward(addr, gateway_id, data@, PacketType::PushAck)),
{
    acknowledge(addr, gateway_id, data, PacketType::PushAck)
}

/// Decides what is done with a `PULL_DATA` frame: it is acknowledged to its
/// sender with a `PULL_ACK`, then forwarded.
pub fn handle_pull_data(addr: SocketAddress, gateway_id: GatewayId, data: &[u8]) -> (actions:
    Result<Vec<UplinkAction>, Error>)
    ensures
        data@.len() < GATEWAY_ID_END ==> actions == Err::<Vec<UplinkAction>, Error>(
            Error::TooShort { expected: GATEWAY_ID_END },
        ),
        data@.len() >= GATEWAY_ID_END ==> (actions matches Ok(list) && actions_view(list@)
            == ack_then_forward(addr, gateway_id, data@, PacketType::PullAck)),
{
    acknowledge(addr, gateway_id, data, PacketType::PullAck)
}

/// Decides what is done with a `TX_ACK` frame: it is forwarded, and not
/// acknowledged.
pub fn handle_tx_ack(gateway_id: GatewayId, data: &[u8]) -> (actions: Vec<UplinkAction>)
    ensures
        actions_view(actions@) == seq![UplinkActionView::Forward { gateway_id, frame: data@ }],
{
    let mut actions: Vec<UplinkAction> = Vec::new();
    actions.push(UplinkAction::Forward { gateway_id, frame: vstd::slice::slice_to_vec(data) });
    actions
}

/// The actions for a frame of the given type from a gateway at `addr`.
pub open spec fn uplink_actions(
    packet_type: PacketType,
    addr: SocketAddress,
    gateway_id: GatewayId,
    frame: Seq<u8>,
) -> Seq<UplinkActionView> {
    match packet_type {
        PacketType::PushData => ack_then_forward(addr, gateway_id, frame, PacketType::PushAck),
        PacketType::PullData => ack_then_forward(addr, gateway_id, frame, PacketType::PullAck),
        PacketType::TxAck => seq![UplinkActionView::Forward { gateway_id, frame }],
        _ => Seq::empty(),
    }
}

/// What decoding the header of a frame from a gateway gives: its packet type
/// and the identifier of the gateway, or the first error met.
pub open spec fn uplink_header(frame: Seq<u8>) -> Result<(PacketType, GatewayId), Error> {
    match PacketType::decode(frame) {
        Err(e) => Err(e),
        Ok(packet_type) => match GatewayId::decode(frame) {
            Err(e) => Err(e),
            Ok(gateway_id) => Ok((packet_type, gateway_id)),
        },
    }
}

/// The table of gateways after a frame of the given type has come from a
/// gateway at `addr` at `now`: a `PULL_DATA` makes `addr` the return address
/// of the gateway, any other frame leaves the table as it is.
pub open spec fn gateways_after_uplink(
    gateways: Map<u64, GatewayEntry>,
    packet_type: PacketType,
    gateway_id: GatewayId,
    addr: SocketAddress,
    now: Timestamp,
) -> Map<u64, GatewayEntry> {
    if packet_type == PacketType::PullData {
        gateways.insert(gateway_id.key(), GatewayEntry { addr, last_seen: now })
    } else {
        gateways
    }
}

/// A `PUSH_DATA` of twelve bytes or more is decoded, and the first thing
/// done with it is to send its version and token, followed by the byte 1,
/// back to where it came from; the frame is forwarded after that.
pub proof fn lemma_push_data_is_acknowledged_first(frame: Seq<u8>, addr: SocketAddress)
    requires
        frame.len() >= 12,
        frame[3] == 0x00,
    ensures
        uplink_header(frame) matches Ok((packet_type, gateway_id)) && {
            let actions = uplink_actions(packet_type, addr, gateway_id, frame);
            &&& packet_type == PacketType::PushData
            &&& actions.len() == 2
            &&& actions[0] == (UplinkActionView::Ack {
                addr,
                gateway_id,
                packet_type: PacketType::PushAck,
                frame: seq![frame[0], frame[1], frame[2], 0x01u8],
            })
            &&& actions[1] == (UplinkActionView::Forward { gateway_id, frame })
        },
{
}

/// A `PULL_DATA` of twelve bytes or more is decoded, the first thing done
/// with it is to send its version and token, followed by the byte 4, back to
/// where it came from, and the table then holds that address for the
/// gateway.
pub proof fn lemma_pull_data_is_acknowledged_and_recorded(
    gateways: Map<u64, GatewayEntry>,
    frame: Seq<u8>,
    addr: SocketAddress,
    now: Timestamp,
)
    requires
        frame.len() >= 12,
        frame[3] == 0x02,
    ensures
        uplink_header(frame) matches Ok((packet_type, gateway_id)) && {
            let actions = uplink_actions(packet_type, addr, gateway_id, frame);
            let after = gateways_after_uplink(gateways, packet_type, gateway_id, addr, now);
            &&& packet_type == PacketType::PullData
            &&& actions.len() == 2
            &&& actions[0] == (UplinkActionView::Ack {
                addr,
                gateway_id,
                packet_type: PacketType::PullAck,
                frame: seq![frame[0], frame[1], frame[2], 0x04u8],
            })
            &&& actions[1] == (UplinkActionView::Forward { gateway_id, frame })
            &&& after.contains_key(gateway_id.key())
            &&& after[gateway_id.key()] == (GatewayEntry { addr, last_seen: now })
        },
{
}

/// A gateway that sent its last `PULL_DATA` sixty seconds or more before
/// `now` is not in the table after a sweep at `now`; one that sent it less
/// than sixty seconds before is, with its entry as it was.
pub proof fn lemma_idle_gateway_is_evicted(
    gateways: Map<u64, GatewayEntry>,
    gateway_id: GatewayId,
    now: Timestamp,
)
    requires
        gateways.contains_key(gateway_id.key()),
        gateways[gateway_id.key()].last_seen <= now,
    ensures
        ({
            let after = gateways.remove_keys(idle_keys(gateways, now));
            let silent = now - gateways[gateway_id.key()].last_seen;
            &&& silent >= IDLE_TIMEOUT ==> !after.contains_key(gateway_id.key())
            &&& silent < IDLE_TIMEOUT ==> after.contains_key(gateway_id.key())
                && after[gateway_id.key()] == gateways[gateway_id.key()]
        }),
{
}

/// The table of the gateways that the listener has heard from, by the key of
/// the gateway.
pub struct Listener {
    pub gateways: HashMap<u64, GatewayEntry>,
}

impl View for Listener {
    type V = Map<u64, GatewayEntry>;

    open spec fn view(&self) -> Map<u64, GatewayEntry> {
        self.gateways@
    }
}

impl Listener {
    /// A listener that has heard from no gateway.
    pub fn new() -> (listener: Listener)
        ensures
            listener@ == Map::<u64, GatewayEntry>::empty(),
    {
        Listener { gateways: HashMap::new() }
    }

    /// Records that the gateway was heard from `addr` at `now`.
    pub fn set_gateway(&mut self, gateway_id: GatewayId, addr: SocketAddress, now: Timestamp)
        ensures
            final(self)@ == old(self)@.insert(
                gateway_id.key(),
                GatewayEntry { addr, last_seen: now },
            ),
    {
        broadcast use vstd::std_specs::hash::group_hash_axioms;

        let key: u64 = gateway_id.to_key();
        self.gateways.insert(key, GatewayEntry { addr, last_seen: now });
    }

    /// The address that the gateway was last heard from.
    pub fn get_gateway(&self, gateway_id: GatewayId) -> (addr: Result<SocketAddress, Error>)
        ensures
            self@.contains_key(gateway_id.key()) ==> addr == Ok::<SocketAddress, Error>(
                self@[gateway_id.key()].addr,
            ),
            !self@.contains_key(gateway_id.key()) ==> addr == Err::<SocketAddress, Error>(
                Error::UnknownGateway { gateway_id },
            ),
    {
        broadcast use vstd::std_specs::hash::group_hash_axioms;

        let key: u64 = gateway_id.to_key();
        match self.gateways.get(&key) {
            Some(entry) => Ok(entry.addr),
            None => Err(Error::UnknownGateway { gateway_id }),
        }
    }

    /// Drops the gateways that are idle at `now` and names them, each once,
    /// in no particular order.
    pub fn cleanup_gateways(&mut self, now: Timestamp) -> (evicted: Vec<GatewayId>)
        ensures
            final(self)@ == old(self)@.remove_keys(idle_keys(old(self)@, now)),
            gateway_keys(evicted@).no_duplicates(),
            gateway_keys(evicted@).to_set() == idle_keys(old(self)@, now),
    {
        evict_idle(&mut self.gateways, now)
    }

    /// Handles a datagram that came from `addr` at `now`.
    ///
    /// A frame whose header cannot be decoded changes nothing. Every other
    /// frame is counted as received from its gateway. A `PUSH_DATA` is
    /// acknowledged, then forwarded. A `PULL_DATA` makes `addr` the return
    /// address of its gateway and is acknowledged, then forwarded. A `TX_ACK`
    /// is forwarded. For a frame of another type nothing is done.
    pub fn handle_uplink_packet(
        &mut self,
        metrics: &mut Metrics,
        addr: SocketAddress,
        data: &[u8],
        now: Timestamp,
    ) -> (actions: Result<Vec<UplinkAction>, Error>)
        ensures
            uplink_header(data@) matches Err(e) ==> actions matches Err(err) && err == e
                && final(self)@ == old(self)@ && final(metrics)@ == old(metrics)@,
            uplink_header(data@) matches Ok((packet_type, gateway_id)) ==> {
                &&& actions matches Ok(list)
                &&& actions_view(list@) == uplink_actions(packet_type, addr, gateway_id, data@)
                &&& final(metrics)@ == (MetricsView {
                    gateway_udp_received_count: bump(
                        old(metrics)@.gateway_udp_received_count,
                        gateway_labels(gateway_id, packet_type),
                    ),
                    ..old(metrics)@
                })
                &&& final(self)@ == gateways_after_uplink(
                    old(self)@,
                    packet_type,
                    gateway_id,
                    addr,
                    now,
                )
            },
    {
        let packet_type = match PacketType::try_from(data) {
            Ok(packet_type) => packet_type,
            Err(e) => {
                return Err(e);
            },
        };
        let gateway_id = match GatewayId::try_from(data) {
            Ok(gateway_id) => gateway_id,
            Err(e) => {
                return Err(e);
            },
        };
        match get_random_token(data) {
            Ok(_) => {},
            Err(e) => {
                return Err(e);
            },
        }
        inc_gateway_udp_received_count(metrics, gateway_id, packet_type);
        match packet_type {
            PacketType::PushData => handle_push_data(addr, gateway_id, data),
            PacketType::PullData => {
                self.set_gateway(gateway_id, addr, now);
                handle_pull_data(addr, gateway_id, data)
            },
            PacketType::TxAck => Ok(handle_tx_ack(gateway_id, data)),
            _ => Ok(Vec::new()),
        }
    }

    /// Decides where a frame for a gateway is sent: to the address that the
    /// gateway was last heard from. Returns that address and the packet type
    /// of the frame, under which the datagram is counted once it is sent.
    pub fn handle_downlink_packet(&self, gateway_id: GatewayId, data: &[u8]) -> (target: Result<
        (SocketAddress, PacketType),
        Error,
    >)
        ensures
            PacketType::decode(data@) matches Err(e) ==> target == Err::<
                (SocketAddress, PacketType),
                Error,
            >(e),
            PacketType::decode(data@) matches Ok(packet_type) ==> target == (if self@.contains_key(
                gateway_id.key(),
            ) {
                Ok::<(SocketAddress, PacketType), Error>(
                    (self@[gateway_id.key()].addr, packet_type),
                )
            } else {
                Err::<(SocketAddress, PacketType), Error>(Error::UnknownGateway { gateway_id })
            }),
    {
        let packet_type = match PacketType::try_from(data) {
            Ok(packet_type) => packet_type,
            Err(e) => {
                return Err(e);
            },
        };
        match self.get_gateway(gateway_id) {
            Ok(addr) => Ok((addr, packet_type)),
            Err(e) => Err(e),
        }
    }
}

} // verus!
