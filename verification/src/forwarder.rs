//! The registry of upstream servers: which server gets which frame, and what
//! each session remembers.

use std::collections::HashMap;
use vstd::prelude::*;

use crate::clock::evict_idle;
use crate::clock::gateway_keys;
use crate::clock::idle_keys;
use crate::clock::Stamped;
use crate::clock::Timestamp;
use crate::clock::IDLE_TIMEOUT;
use crate::config;
use crate::error::Error;
use crate::filters::prefix_matches;
use crate::filters::EuiPrefix;
use crate::filters::EuiPrefixView;
use crate::monitoring::bump;
use crate::monitoring::inc_server_udp_received_count;
use crate::monitoring::server_labels;
use crate::monitoring::Metrics;
use crate::monitoring::MetricsView;
use crate::packets::get_random_token;
use crate::packets::random_token;
use crate::packets::GatewayId;
use crate::packets::PacketType;

verus! {

/// What the forwarder remembers of one gateway at one upstream server.
#[derive(Clone, Copy, Debug, PartialEq, Eq, Structural)]
pub struct ServerSession {
    /// When the gateway last sent an uplink that reached this server's filter.
    pub last_uplink: Timestamp,
    /// The token of the last `PUSH_DATA` forwarded.
    pub push_data_token: Option<u16>,
    /// The token of the last `PULL_DATA` forwarded.
    pub pull_data_token: Option<u16>,
    /// The token of the last `PULL_RESP` received and not yet acknowledged.
    pub pull_resp_token: Option<u16>,
}

impl ServerSession {
    /// The session of a gateway that is heard of for the first time.
    pub open spec fn fresh(now: Timestamp) -> ServerSession {
        ServerSession {
            last_uplink: now,
            push_data_token: None,
            pull_data_token: None,
            pull_resp_token: None,
        }
    }

    /// Whether an uplink frame of the given type and token is forwarded on
    /// this session: `PUSH_DATA` and `PULL_DATA` always, `TX_ACK` only when
    /// its token is the one of the pending `PULL_RESP`, nothing else.
    pub open spec fn forwards(self, packet_type: PacketType, token: u16) -> bool {
        match packet_type {
            PacketType::PushData => true,
            PacketType::PullData => true,
            PacketType::TxAck => self.pull_resp_token == Some(token),
            _ => false,
        }
    }

    /// The session after an uplink frame of the given type and token has
    /// been handled at `now`.
    pub open spec fn after_uplink(
        self,
        packet_type: PacketType,
        token: u16,
        now: Timestamp,
    ) -> ServerSession {
        ServerSession {
            last_uplink: now,
            push_data_token: if packet_type == PacketType::PushData {
                Some(token)
            } else {
                self.push_data_token
            },
            pull_data_token: if packet_type == PacketType::PullData {
                Some(token)
            } else {
                self.pull_data_token
            },
            pull_resp_token: if packet_type == PacketType::TxAck && self.pull_resp_token == Some(
                token,
            ) {
                None
            } else {
                self.pull_resp_token
            },
        }
    }

    /// Handles an uplink frame on this session and tells whether the frame
    /// is to be forwarded.
    pub fn handle_uplink(&mut self, packet_type: PacketType, token: u16, now: Timestamp) -> (forward:
        bool)
        ensures
            forward == old(self).forwards(packet_type, token),
            *final(self) == old(self).after_uplink(packet_type, token, now),
    {
        self.last_uplink = now;
        match packet_type {
            PacketType::PushData => {
                self.push_data_token = Some(token);
                true
            },
            PacketType::PullData => {
                self.pull_data_token = Some(token);
                true
            },
            PacketType::TxAck => {
                match self.pull_resp_token {
                    Some(pending) => {
                        if pending == token {
                            self.pull_resp_token = None;
                            true
                        } else {
                            false
                        }
                    },
                    None => false,
                }
            },
            _ => false,
        }
    }
}

impl Stamped for ServerSession {
    open spec fn stamp(&self) -> Timestamp {
        self.last_uplink
    }

    fn last_refresh(&self) -> (last: Timestamp) {
        self.last_uplink
    }
}

/// What the forwarder does with one uplink frame at one upstream server.
#[derive(Clone, Copy, Debug, PartialEq, Eq, Structural)]
pub enum Dispatch {
    /// The server's filter does not let the gateway through: its sessions
    /// stay as they are.
    Skipped,
    /// The gateway has a session at the server, which was opened for this
    /// frame if `opened`, and the frame is not forwarded on it.
    Held { opened: bool },
    /// The gateway has a session at the server, which was opened for this
    /// frame if `opened`, and the frame is forwarded on it as it is.
    Forwarded { opened: bool },
}

/// Whether a prefix lets a gateway through.
pub open spec fn prefix_admits(prefix: EuiPrefixView, gateway_id: GatewayId) -> bool {
    prefix_matches(prefix.prefix, prefix.size, gateway_id@.reverse())
}

/// What a `Server` stands for.
pub struct ServerView {
    pub host: Seq<char>,
    pub uplink_only: bool,
    pub prefixes: Seq<EuiPrefixView>,
    pub sessions: Map<u64, ServerSession>,
}

impl ServerView {
    /// Whether the server takes the frames of a gateway: it has no prefix at
    /// all, or one of its prefixes lets the gateway through.
    pub open spec fn matches(self, gateway_id: GatewayId) -> bool {
        self.prefixes.len() == 0 || exists|i: int|
            0 <= i < self.prefixes.len() && prefix_admits(#[trigger] self.prefixes[i], gateway_id)
    }

    /// The session on which an uplink of the gateway is handled at `now`:
    /// the one it has, or a fresh one.
    pub open spec fn session_for(self, gateway_id: GatewayId, now: Timestamp) -> ServerSession {
        if self.sessions.contains_key(gateway_id.key()) {
            self.sessions[gateway_id.key()]
        } else {
            ServerSession::fresh(now)
        }
    }

    /// What is done with an uplink frame of the gateway at this server.
    pub open spec fn dispatch(
        self,
        gateway_id: GatewayId,
        packet_type: PacketType,
        token: u16,
        now: Timestamp,
    ) -> Dispatch {
        let opened = !self.sessions.contains_key(gateway_id.key());
        if !self.matches(gateway_id) {
            Dispatch::Skipped
        } else if self.session_for(gateway_id, now).forwards(packet_type, token) {
            Dispatch::Forwarded { opened }
        } else {
            Dispatch::Held { opened }
        }
    }

    /// The server after an uplink frame of the gateway has been handled.
    pub open spec fn after_uplink(
        self,
        gateway_id: GatewayId,
        packet_type: PacketType,
        token: u16,
        now: Timestamp,
    ) -> ServerView {
        if self.matches(gateway_id) {
            ServerView {
                sessions: self.sessions.insert(
                    gateway_id.key(),
                    self.session_for(gateway_id, now).after_uplink(packet_type, token, now),
                ),
                ..self
            }
        } else {
            self
        }
    }

    /// The server after a `PULL_RESP` with the given token has come on its
    /// session of the gateway: the session holds the token. Without such a
    /// session the server stays as it is.
    pub open spec fn with_pull_resp_token(self, gateway_id: GatewayId, token: u16) -> ServerView {
        if self.sessions.contains_key(gateway_id.key()) {
            ServerView {
                sessions: self.sessions.insert(
                    gateway_id.key(),
                    ServerSession {
                        pull_resp_token: Some(token),
                        ..self.sessions[gateway_id.key()]
                    },
                ),
                ..self
            }
        } else {
            self
        }
    }

    /// The server without the sessions that are idle at `now`.
    pub open spec fn without_idle(self, now: Timestamp) -> ServerView {
        ServerView { sessions: self.sessions.remove_keys(idle_keys(self.sessions, now)), ..self }
    }

    /// The server without the session of a gateway.
    pub open spec fn without_session(self, gateway_id: GatewayId) -> ServerView {
        ServerView { sessions: self.sessions.remove(gateway_id.key()), ..self }
    }
}

/// An upstream server: where it is, what it may receive, and the sessions of
/// the gateways that it hears.
pub struct Server {
    /// Host name and port of the server.
    pub host: String,
    /// Whether downlinks of this server are dropped.
    pub uplink_only: bool,
    /// The prefixes of the gateways whose frames the server takes; with none,
    /// it takes the frames of every gateway.
    pub gateway_id_prefixes: Vec<EuiPrefix>,
    /// The sessions of the server, by the key of the gateway.
    pub sessions: HashMap<u64, ServerSession>,
}

impl View for Server {
    type V = ServerView;

    open spec fn view(&self) -> ServerView {
        ServerView {
            host: self.host@,
            uplink_only: self.uplink_only,
            prefixes: self.gateway_id_prefixes@.map_values(|p: EuiPrefix| p@),
            sessions: self.sessions@,
        }
    }
}

impl Server {
    /// A server without sessions.
    pub fn new(host: String, uplink_only: bool, gateway_id_prefixes: Vec<EuiPrefix>) -> (server:
        Server)
        ensures
            server@ == (ServerView {
                host: host@,
                uplink_only,
                prefixes: gateway_id_prefixes@.map_values(|p: EuiPrefix| p@),
                sessions: Map::empty(),
            }),
    {
        Server { host, uplink_only, gateway_id_prefixes, sessions: HashMap::new() }
    }

    /// Tells whether the server takes the frames of a gateway.
    pub fn match_prefixes(&self, gateway_id: GatewayId) -> (matched: bool)
        ensures
            matched == self@.matches(gateway_id),
    {
        let gw_id_le = gateway_id.as_bytes_le();
        if self.gateway_id_prefixes.len() == 0 {
            return true;
        }
        let mut i: usize = 0;
        while i < self.gateway_id_prefixes.len()
            invariant
                i <= self.gateway_id_prefixes.len(),
                gw_id_le@ == gateway_id@.reverse(),
                forall|j: int| 0 <= j < i ==> !prefix_admits(#[trigger] self@.prefixes[j], gateway_id),
            decreases self.gateway_id_prefixes.len() - i,
        {
            if self.gateway_id_prefixes[i].is_match(gw_id_le) {
                assert(prefix_admits(self@.prefixes[i as int], gateway_id));
                return true;
            }
            i = i + 1;
        }
        false
    }

    /// Handles an uplink frame of a gateway: where the filter lets the gateway
    /// through, its session is opened if it has none, the time of its last
    /// uplink is set, and the forwarding policy is applied.
    pub fn handle_uplink(
        &mut self,
        gateway_id: GatewayId,
        packet_type: PacketType,
        token: u16,
        now: Timestamp,
    ) -> (dispatch: Dispatch)
        ensures
            dispatch == old(self)@.dispatch(gateway_id, packet_type, token, now),
            final(self)@ == old(self)@.after_uplink(gateway_id, packet_type, token, now),
    {
        broadcast use vstd::std_specs::hash::group_hash_axioms;

        if !self.match_prefixes(gateway_id) {
            return Dispatch::Skipped;
        }
        let key: u64 = gateway_id.to_key();
        let found = self.sessions.get(&key);
        let opened = found.is_none();
        let mut session = match found {
            Some(session) => *session,
            None => ServerSession {
                last_uplink: now,
                push_data_token: None,
                pull_data_token: None,
                pull_resp_token: None,
            },
        };
        let forward = session.handle_uplink(packet_type, token, now);
        self.sessions.insert(key, session);
        if forward {
            Dispatch::Forwarded { opened }
        } else {
            Dispatch::Held { opened }
        }
    }

    /// Records the token of a `PULL_RESP` that came on the session of the
    /// gateway, if the gateway has a session.
    pub fn set_pull_resp_token(&mut self, gateway_id: GatewayId, token: u16)
        ensures
            final(self)@ == old(self)@.with_pull_resp_token(gateway_id, token),
    {
        broadcast use vstd::std_specs::hash::group_hash_axioms;

        let key: u64 = gateway_id.to_key();
        let found = self.sessions.get(&key);
        match found {
            Some(session) => {
                let mut session = *session;
                session.pull_resp_token = Some(token);
                self.sessions.insert(key, session);
            },
            None => {},
        }
    }

    /// Drops the sessions that are idle at `now` and names their gateways,
    /// each once, in no particular order.
    pub fn cleanup(&mut self, now: Timestamp) -> (evicted: Vec<GatewayId>)
        ensures
            final(self)@ == old(self)@.without_idle(now),
            gateway_keys(evicted@).no_duplicates(),
            gateway_keys(evicted@).to_set() == idle_keys(old(self)@.sessions, now),
    {
        evict_idle(&mut self.sessions, now)
    }

    /// Drops the session of a gateway, if it has one.
    pub fn remove_session(&mut self, gateway_id: GatewayId)
        ensures
            final(self)@ == old(self)@.without_session(gateway_id),
    {
        broadcast use vstd::std_specs::hash::group_hash_axioms;

        let key: u64 = gateway_id.to_key();
        self.sessions.remove(&key);
    }
}

/// What is done with an uplink frame at each server of a registry, in the
/// order of the servers.
pub open spec fn uplink_dispatches(
    servers: Seq<ServerView>,
    gateway_id: GatewayId,
    packet_type: PacketType,
    token: u16,
    now: Timestamp,
) -> Seq<Dispatch> {
    Seq::new(servers.len(), |i: int| servers[i].dispatch(gateway_id, packet_type, token, now))
}

/// The servers of a registry after an uplink frame has been handled.
pub open spec fn servers_after_uplink(
    servers: Seq<ServerView>,
    gateway_id: GatewayId,
    packet_type: PacketType,
    token: u16,
    now: Timestamp,
) -> Seq<ServerView> {
    Seq::new(servers.len(), |i: int| servers[i].after_uplink(gateway_id, packet_type, token, now))
}

/// The servers of a registry after a `PULL_RESP` with the given token has
/// come from the server of the given index on its session of the gateway:
/// that session holds the token, and every other session of every server
/// stays as it is. Without a server of that index nothing changes.
pub open spec fn servers_with_pull_resp_token(
    servers: Seq<ServerView>,
    server: usize,
    gateway_id: GatewayId,
    token: u16,
) -> Seq<ServerView> {
    if server < servers.len() {
        servers.update(
            server as int,
            servers[server as int].with_pull_resp_token(gateway_id, token),
        )
    } else {
        servers
    }
}

/// The servers of a registry without the sessions that are idle at `now`.
pub open spec fn servers_without_idle(servers: Seq<ServerView>, now: Timestamp) -> Seq<
    ServerView,
> {
    Seq::new(servers.len(), |i: int| servers[i].without_idle(now))
}

/// What reading the header of a frame from the upstream server of the given
/// index gives: the packet type of the frame, or the first error met.
pub open spec fn downlink_header(servers: Seq<ServerView>, server: usize, frame: Seq<u8>) -> Result<
    PacketType,
    Error,
> {
    if server >= servers.len() {
        Err(Error::UnknownServer { server })
    } else {
        PacketType::decode(frame)
    }
}

/// What the forwarder does with one frame that an upstream server has sent
/// on the session of a gateway.
#[derive(Debug, PartialEq, Eq)]
pub enum Downlink {
    /// A `PULL_RESP` that is handed to the listener, for the gateway, as it
    /// was received.
    Deliver { frame: Vec<u8> },
    /// A `PULL_RESP` that is dropped, because the server is uplink-only.
    Dropped,
    /// The server has acknowledged a `PULL_DATA` with this token.
    PullAcked { token: u16 },
    /// The server has acknowledged a `PUSH_DATA` with this token.
    PushAcked { token: u16 },
    /// A frame of another type, which is ignored.
    Ignored,
}

/// What the forwarder decided for one uplink frame.
#[derive(Debug, PartialEq, Eq)]
pub struct UplinkPlan {
    /// The packet type of the frame.
    pub packet_type: PacketType,
    /// The frame, as it was received.
    pub frame: Vec<u8>,
    /// What is done at each server, in the order of the servers.
    pub dispatches: Vec<Dispatch>,
}

/// The registry of upstream servers, in the order of the configuration.
pub struct Forwarder {
    pub servers: Vec<Server>,
}

impl View for Forwarder {
    type V = Seq<ServerView>;

    open spec fn view(&self) -> Seq<ServerView> {
        self.servers@.map_values(|s: Server| s@)
    }
}

impl Forwarder {
    /// A registry without servers.
    pub fn new() -> (forwarder: Forwarder)
        ensures
            forwarder@ == Seq::<ServerView>::empty(),
    {
        let forwarder = Forwarder { servers: Vec::new() };
        forwarder
    }

    /// Adds a server, without sessions, behind the servers that are there.
    pub fn add_server(
        &mut self,
        host: String,
        uplink_only: bool,
        gateway_id_prefixes: Vec<EuiPrefix>,
    )
        ensures
            final(self)@ == old(self)@.push(
                ServerView {
                    host: host@,
                    uplink_only,
                    prefixes: gateway_id_prefixes@.map_values(|p: EuiPrefix| p@),
                    sessions: Map::empty(),
                },
            ),
    {
        let server = Server::new(host, uplink_only, gateway_id_prefixes);
        self.servers.push(server);
    }

    /// Handles an uplink frame that the listener has taken from a gateway.
    ///
    /// The frame is decoded; a frame that cannot be decoded changes nothing.
    /// Otherwise every server is taken in turn, as `Server::handle_uplink`
    /// says, and the plan tells for each server what was decided.
    pub fn handle_uplink_packet(&mut self, gateway_id: GatewayId, data: &[u8], now: Timestamp) -> (plan:
        Result<UplinkPlan, Error>)
        ensures
            PacketType::decode(data@) matches Err(e) ==> plan == Err::<UplinkPlan, Error>(e)
                && final(self)@ == old(self)@,
            PacketType::decode(data@) matches Ok(packet_type) ==> {
                let token = random_token(data@)->Ok_0;
                &&& plan matches Ok(plan)
                &&& plan.packet_type == packet_type
                &&& plan.frame@ == data@
                &&& plan.dispatches@ == uplink_dispatches(
                    old(self)@,
                    gateway_id,
                    packet_type,
                    token,
                    now,
                )
                &&& final(self)@ == servers_after_uplink(
                    old(self)@,
                    gateway_id,
                    packet_type,
                    token,
                    now,
                )
            },
    {
        let packet_type = match PacketType::try_from(data) {
            Ok(packet_type) => packet_type,
            Err(e) => {
                return Err(e);
            },
        };
        let token: u16 = match get_random_token(data) {
            Ok(token) => token,
            Err(e) => {
                return Err(e);
            },
        };
        let mut dispatches: Vec<Dispatch> = Vec::new();
        let mut i: usize = 0;
        while i < self.servers.len()
            invariant
                i <= self.servers.len(),
                self.servers.len() == old(self).servers.len(),
                dispatches@.len() == i,
                forall|j: int|
                    0 <= j < i ==> dispatches@[j] == (#[trigger] old(self)@[j]).dispatch(
                        gateway_id,
                        packet_type,
                        token,
                        now,
                    ),
                forall|j: int|
                    0 <= j < i ==> self@[j] == (#[trigger] old(self)@[j]).after_uplink(
                        gateway_id,
                        packet_type,
                        token,
                        now,
                    ),
                forall|j: int| i <= j < self.servers.len() ==> self@[j] == #[trigger] old(self)@[j],
            decreases self.servers.len() - i,
        {
            let dispatch = self.servers[i].handle_uplink(gateway_id, packet_type, token, now);
            dispatches.push(dispatch);
            i = i + 1;
        }
        let frame = vstd::slice::slice_to_vec(data);
        Ok(UplinkPlan { packet_type, frame, dispatches })
    }

    /// Records the token of a `PULL_RESP` that came from the server of the
    /// given index on its session of the gateway. Only that session changes;
    /// without such a server or such a session nothing does.
    pub fn set_pull_resp_token(&mut self, server: usize, gateway_id: GatewayId, token: u16)
        ensures
            final(self)@ == servers_with_pull_resp_token(old(self)@, server, gateway_id, token),
    {
        if server < self.servers.len() {
            self.servers[server].set_pull_resp_token(gateway_id, token);
            assert(self@ =~= old(self)@.update(
                server as int,
                old(self)@[server as int].with_pull_resp_token(gateway_id, token),
            ));
        }
    }

    /// Handles a frame that the upstream server of the given index has sent
    /// on the session of a gateway.
    ///
    /// Without a server of that index, or with a frame that cannot be
    /// decoded, nothing changes. Every other frame is counted as received
    /// from the server. A `PULL_RESP` is dropped where the server is
    /// uplink-only; otherwise its token is recorded and the frame is to be
    /// delivered to the gateway.
    pub fn handle_downlink_packet(
        &mut self,
        metrics: &mut Metrics,
        server: usize,
        gateway_id: GatewayId,
        data: &[u8],
    ) -> (downlink: Result<Downlink, Error>)
        ensures
            downlink_header(old(self)@, server, data@) matches Err(e) ==> downlink matches Err(err)
                && err == e && final(self)@ == old(self)@ && final(metrics)@ == old(metrics)@,
            downlink_header(old(self)@, server, data@) matches Ok(packet_type) ==> {
                let token = random_token(data@)->Ok_0;
                let host = old(self)@[server as int].host;
                &&& downlink matches Ok(decided)
                &&& final(metrics)@ == (MetricsView {
                    server_udp_received_count: bump(
                        old(metrics)@.server_udp_received_count,
                        server_labels(host, packet_type),
                    ),
                    ..old(metrics)@
                })
                &&& match packet_type {
                    PacketType::PullResp => if old(self)@[server as int].uplink_only {
                        decided is Dropped && final(self)@ == old(self)@
                    } else {
                        &&& decided matches Downlink::Deliver { frame }
                        &&& frame@ == data@
                        &&& final(self)@ == old(self)@.update(
                            server as int,
                            old(self)@[server as int].with_pull_resp_token(gateway_id, token),
                        )
                    },
                    PacketType::PullAck => decided matches Downlink::PullAcked { token: acked }
                        && acked == token && final(self)@ == old(self)@,
                    PacketType::PushAck => decided matches Downlink::PushAcked { token: acked }
                        && acked == token && final(self)@ == old(self)@,
                    _ => decided is Ignored && final(self)@ == old(self)@,
                }
            },
            server < old(self)@.len() && old(self)@[server as int].uplink_only ==> !(
            downlink matches Ok(Downlink::Deliver { .. })),
    {
        if server >= self.servers.len() {
            return Err(Error::UnknownServer { server });
        }
        let packet_type = match PacketType::try_from(data) {
            Ok(packet_type) => packet_type,
            Err(e) => {
                return Err(e);
            },
        };
        let token: u16 = match get_random_token(data) {
            Ok(token) => token,
            Err(e) => {
                return Err(e);
            },
        };
        let host = self.servers[server].host.clone();
        let uplink_only = self.servers[server].uplink_only;
        inc_server_udp_received_count(metrics, host.as_str(), packet_type);
        match packet_type {
            PacketType::PullResp => {
                if uplink_only {
                    Ok(Downlink::Dropped)
                } else {
                    self.set_pull_resp_token(server, gateway_id, token);
                    Ok(Downlink::Deliver { frame: vstd::slice::slice_to_vec(data) })
                }
            },
            PacketType::PullAck => Ok(Downlink::PullAcked { token }),
            PacketType::PushAck => Ok(Downlink::PushAcked { token }),
            _ => Ok(Downlink::Ignored),
        }
    }

    /// Drops, at every server, the sessions that are idle at `now`, and
    /// names for each server the gateways whose sessions were dropped, each
    /// once, in no particular order.
    pub fn cleanup_sockets(&mut self, now: Timestamp) -> (evicted: Vec<Vec<GatewayId>>)
        ensures
            final(self)@ == servers_without_idle(old(self)@, now),
            evicted@.len() == old(self)@.len(),
            forall|i: int|
                0 <= i < evicted@.len() ==> gateway_keys((#[trigger] evicted@[i])@).no_duplicates(),
            forall|i: int|
                0 <= i < evicted@.len() ==> gateway_keys((#[trigger] evicted@[i])@).to_set()
                    == idle_keys(old(self)@[i].sessions, now),
    {
        let mut evicted: Vec<Vec<GatewayId>> = Vec::new();
        let mut i: usize = 0;
        while i < self.servers.len()
            invariant
                i <= self.servers.len(),
                self.servers.len() == old(self).servers.len(),
                evicted@.len() == i,
                forall|j: int|
                    0 <= j < i ==> self@[j] == (#[trigger] old(self)@[j]).without_idle(now),
                forall|j: int| i <= j < self.servers.len() ==> self@[j] == #[trigger] old(self)@[j],
                forall|j: int|
                    0 <= j < i ==> gateway_keys((#[trigger] evicted@[j])@).no_duplicates(),
                forall|j: int|
                    0 <= j < i ==> gateway_keys((#[trigger] evicted@[j])@).to_set() == idle_keys(
                        old(self)@[j].sessions,
                        now,
                    ),
            decreases self.servers.len() - i,
        {
            let dropped = self.servers[i].cleanup(now);
            evicted.push(dropped);
            i = i + 1;
        }
        evicted
    }

    /// Drops the session of a gateway at the server of the given index, if
    /// there is such a server and it has such a session.
    pub fn remove_session(&mut self, server: usize, gateway_id: GatewayId)
        ensures
            final(self)@ == (if server < old(self)@.len() {
                old(self)@.update(server as int, old(self)@[server as int].without_session(gateway_id))
            } else {
                old(self)@
            }),
    {
        if server < self.servers.len() {
            self.servers[server].remove_session(gateway_id);
        }
    }
}

/// The server that an entry of the configuration asks for, without sessions.
pub open spec fn configured(server: config::Server) -> ServerView {
    ServerView {
        host: server.server@,
        uplink_only: server.uplink_only,
        prefixes: server.gateway_id_prefixes@.map_values(|p: EuiPrefix| p@),
        sessions: Map::empty(),
    }
}

/// Copies a list of prefixes.
fn copy_prefixes(prefixes: &Vec<EuiPrefix>) -> (copy: Vec<EuiPrefix>)
    ensures
        copy@ == prefixes@,
{
    let mut copy: Vec<EuiPrefix> = Vec::new();
    let mut i: usize = 0;
    while i < prefixes.len()
        invariant
            i <= prefixes.len(),
            copy@ == prefixes@.take(i as int),
        decreases prefixes.len() - i,
    {
        copy.push(prefixes[i]);
        i = i + 1;
    }
    copy
}

/// Makes the registry that the configuration asks for: its servers, in
/// their order, without sessions.
pub fn setup(servers: Vec<config::Server>) -> (forwarder: Forwarder)
    ensures
        forwarder@ == servers@.map_values(|server: config::Server| configured(server)),
{
    let mut forwarder = Forwarder::new();
    let mut i: usize = 0;
    while i < servers.len()
        invariant
            i <= servers.len(),
            forwarder@ == servers@.take(i as int).map_values(
                |server: config::Server| configured(server),
            ),
        decreases servers.len() - i,
    {
        forwarder.add_server(
            servers[i].server.clone(),
            servers[i].uplink_only,
            copy_prefixes(&servers[i].gateway_id_prefixes),
        );
        i = i + 1;
    }
    forwarder
}

/// A `PUSH_DATA` or a `PULL_DATA` is forwarded to every server that has no
/// prefix or a prefix that lets the gateway through, and to no other server,
/// whatever the sessions hold.
pub proof fn lemma_uplink_reaches_matching_servers(
    servers: Seq<ServerView>,
    gateway_id: GatewayId,
    packet_type: PacketType,
    token: u16,
    now: Timestamp,
    i: int,
)
    requires
        packet_type == PacketType::PushData || packet_type == PacketType::PullData,
        0 <= i < servers.len(),
    ensures
        uplink_dispatches(servers, gateway_id, packet_type, token, now).len() == servers.len(),
        uplink_dispatches(servers, gateway_id, packet_type, token, now)[i] is Forwarded
            <==> servers[i].matches(gateway_id),
        uplink_dispatches(servers, gateway_id, packet_type, token, now)[i] is Skipped
            <==> !servers[i].matches(gateway_id),
{
}

/// A `TX_ACK` is forwarded to a server only if its filter lets the gateway
/// through and the session of the gateway holds the token of the `TX_ACK` as
/// the token of its pending `PULL_RESP`. Where it is forwarded, the session
/// holds no such token afterwards, and the same `TX_ACK` is not forwarded a
/// second time.
pub proof fn lemma_tx_ack_follows_pull_resp(
    server: ServerView,
    gateway_id: GatewayId,
    token: u16,
    now: Timestamp,
    later: Timestamp,
)
    ensures
        ({
            let key = gateway_id.key();
            let after = server.after_uplink(gateway_id, PacketType::TxAck, token, now);
            &&& server.dispatch(gateway_id, PacketType::TxAck, token, now) is Forwarded <==> (
            server.matches(gateway_id) && server.sessions.contains_key(key)
                && server.sessions[key].pull_resp_token == Some(token))
            &&& server.dispatch(gateway_id, PacketType::TxAck, token, now) is Forwarded ==> {
                &&& after.sessions.contains_key(key)
                &&& after.sessions[key].pull_resp_token is None
                &&& !(after.dispatch(gateway_id, PacketType::TxAck, token, later) is Forwarded)
            }
        }),
{
}

/// A `PULL_RESP` that is recorded at a server makes the next `TX_ACK` with
/// its token, from the gateway of the session, one that is forwarded to that
/// server, if the filter of the server lets the gateway through.
pub proof fn lemma_pull_resp_opens_tx_ack(
    server: ServerView,
    gateway_id: GatewayId,
    token: u16,
    now: Timestamp,
)
    requires
        server.matches(gateway_id),
        server.sessions.contains_key(gateway_id.key()),
    ensures
        server.with_pull_resp_token(gateway_id, token).dispatch(
            gateway_id,
            PacketType::TxAck,
            token,
            now,
        ) == (Dispatch::Forwarded { opened: false }),
{
}

/// A `PULL_RESP` that comes from one server changes the session of its
/// gateway at that server and nothing else: every other server, whatever its
/// host, and every session of another gateway stay as they were.
pub proof fn lemma_pull_resp_touches_one_session(
    servers: Seq<ServerView>,
    server: usize,
    gateway_id: GatewayId,
    token: u16,
    other: int,
    other_gateway: GatewayId,
)
    requires
        0 <= other < servers.len(),
    ensures
        ({
            let after = servers_with_pull_resp_token(servers, server, gateway_id, token);
            &&& after.len() == servers.len()
            &&& other != server ==> after[other] == servers[other]
            &&& after[other].host == servers[other].host
            &&& after[other].uplink_only == servers[other].uplink_only
            &&& after[other].prefixes == servers[other].prefixes
            &&& after[other].sessions.dom() == servers[other].sessions.dom()
            &&& other_gateway.key() != gateway_id.key() && servers[other].sessions.contains_key(
                other_gateway.key(),
            ) ==> after[other].sessions[other_gateway.key()]
                == servers[other].sessions[other_gateway.key()]
            &&& other == server && servers[other].sessions.contains_key(gateway_id.key())
                ==> after[other].sessions[gateway_id.key()] == (ServerSession {
                pull_resp_token: Some(token),
                ..servers[other].sessions[gateway_id.key()]
            })
        }),
{
    let after = servers_with_pull_resp_token(servers, server, gateway_id, token);
    assert(after[other].sessions.dom() =~= servers[other].sessions.dom());
}

/// A session whose last uplink came sixty seconds or more before `now` is
/// gone after a sweep at `now`; one whose last uplink came less than sixty
/// seconds before stays as it was.
pub proof fn lemma_idle_session_is_evicted(
    server: ServerView,
    gateway_id: GatewayId,
    now: Timestamp,
)
    requires
        server.sessions.contains_key(gateway_id.key()),
        server.sessions[gateway_id.key()].last_uplink <= now,
    ensures
        ({
            let key = gateway_id.key();
            let after = server.without_idle(now).sessions;
            let silent = now - server.sessions[key].last_uplink;
            &&& silent >= IDLE_TIMEOUT ==> !after.contains_key(key)
            &&& silent < IDLE_TIMEOUT ==> after.contains_key(key) && after[key]
                == server.sessions[key]
        }),
{
}

/// A gateway that is heard again after its session was swept away gets a
/// fresh session, which holds no token but the one of the frame that opened
/// it.
pub proof fn lemma_session_is_opened_anew(
    server: ServerView,
    gateway_id: GatewayId,
    packet_type: PacketType,
    token: u16,
    now: Timestamp,
)
    requires
        server.matches(gateway_id),
        !server.sessions.contains_key(gateway_id.key()),
    ensures
        ({
            let key = gateway_id.key();
            let after = server.after_uplink(gateway_id, packet_type, token, now);
            &&& server.dispatch(gateway_id, packet_type, token, now) == (if packet_type
                == PacketType::PushData || packet_type == PacketType::PullData {
                Dispatch::Forwarded { opened: true }
            } else {
                Dispatch::Held { opened: true }
            })
            &&& after.sessions.contains_key(key)
            &&& after.sessions[key] == ServerSession::fresh(now).after_uplink(
                packet_type,
                token,
                now,
            )
            &&& after.sessions[key].pull_resp_token is None
        }),
{
}

} // verus!
