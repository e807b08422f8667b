//! The counters of datagrams sent and received.

use prometheus_client::metrics::counter::Counter;
use prometheus_client::metrics::family::Family;
use prometheus_client::registry::Registry;
use vstd::prelude::*;

use crate::packets::hex_lower;
use crate::packets::GatewayId;
use crate::packets::PacketType;

verus! {

/// A set of labels: pairs of a name and a value, in order.
pub type Labels = Seq<(Seq<char>, Seq<char>)>;

/// What the counters of one family have counted, by their labels.
pub type Counts = Map<Labels, u64>;

/// The registry of `prometheus_client`, in which the counters are registered
/// for exposition.
#[verifier::external_type_specification]
#[verifier::external_body]
pub struct ExRegistry(Registry);

/// The metrics that were registered with a registry itself, in the order in
/// which they were registered: for each its name and the text that explains
/// it.
pub uninterp spec fn registered(registry: Registry) -> Seq<(Seq<char>, Seq<char>)>;

/// A family of counters of `prometheus_client`, one counter for each set of
/// labels, each label a pair of strings.
#[verifier::external_body]
pub struct CounterFamily {
    family: Family<Vec<(String, String)>, Counter>,
}

/// The counters that a family holds: what each set of labels has counted.
pub uninterp spec fn family_counts(family: CounterFamily) -> Counts;

/// The labels that a vector of pairs of strings stands for.
pub open spec fn labels_view(labels: Seq<(String, String)>) -> Labels {
    labels.map_values(|label: (String, String)| (label.0@, label.1@))
}

/// What a set of labels has counted: nothing, where it has no counter yet.
pub open spec fn count_of(counts: Counts, labels: Labels) -> u64 {
    if counts.contains_key(labels) {
        counts[labels]
    } else {
        0
    }
}

/// The count that follows a count: one more, and 0 after the largest.
pub open spec fn next_count(count: u64) -> u64 {
    if count == u64::MAX {
        0
    } else {
        (count + 1) as u64
    }
}

/// The counters after the one of `labels` has counted one event.
pub open spec fn bump(counts: Counts, labels: Labels) -> Counts {
    counts.insert(labels, next_count(count_of(counts, labels)))
}

/// `Family::default`: a family without counters.
#[verifier::external_body]
fn family_new() -> (family: CounterFamily)
    ensures
        family_counts(family) == Counts::empty(),
{
    CounterFamily { family: Family::default() }
}

/// `Family::get_or_create` followed by `Counter::inc` on what it hands out.
/// The contract claims what the two sources show: the counter of the labels
/// is made at zero where the family has none, it is then increased by one
/// with an atomic addition that wraps, and no other counter changes.
#[verifier::external_body]
fn family_inc(family: &mut CounterFamily, labels: &Vec<(String, String)>)
    ensures
        family_counts(*final(family)) == bump(family_counts(*old(family)), labels_view(labels@)),
{
    family.family.get_or_create(labels).inc();
}

/// `Family::get` followed by `Counter::get` on what it hands out. The
/// contract claims that the count of the labels is returned where the family
/// has a counter for them, and nothing otherwise.
#[verifier::external_body]
fn family_get(family: &CounterFamily, labels: &Vec<(String, String)>) -> (count: Option<u64>)
    ensures
        count == (if family_counts(*family).contains_key(labels_view(labels@)) {
            Some(family_counts(*family)[labels_view(labels@)])
        } else {
            None
        }),
{
    family.family.get(labels).map(|counter| counter.get())
}

/// Registers a family of counters with a registry, under a name and with a
/// text that explains it.
///
/// This is `Registry::register` with a clone of the family, which shares its
/// counters. Nothing of it is proved: the contract claims that the registry
/// holds one more metric, behind those it had, under the given name and with
/// the given text, to which the registry adds a full stop.
#[verifier::external_body]
pub fn register(registry: &mut Registry, name: &str, help: &str, family: &CounterFamily)
    ensures
        registered(*final(registry)) == registered(*old(registry)).push((name@, help@.push('.'))),
{
    registry.register(name, help, family.family.clone());
}

/// The labels of a counter of datagrams exchanged with a gateway.
pub open spec fn gateway_labels(gateway_id: GatewayId, packet_type: PacketType) -> Labels {
    seq![("gateway_id"@, hex_lower(gateway_id@)), ("type"@, packet_type.name())]
}

/// The labels of a counter of datagrams exchanged with an upstream server.
pub open spec fn server_labels(server: Seq<char>, packet_type: PacketType) -> Labels {
    seq![("server"@, server), ("type"@, packet_type.name())]
}

/// What the four families of counters have counted.
pub struct MetricsView {
    pub gateway_udp_sent_count: Counts,
    pub gateway_udp_received_count: Counts,
    pub server_udp_sent_count: Counts,
    pub server_udp_received_count: Counts,
}

/// The counters of the multiplexer.
pub struct Metrics {
    pub gateway_udp_sent_count: CounterFamily,
    pub gateway_udp_received_count: CounterFamily,
    pub server_udp_sent_count: CounterFamily,
    pub server_udp_received_count: CounterFamily,
}

impl View for Metrics {
    type V = MetricsView;

    open spec fn view(&self) -> MetricsView {
        MetricsView {
            gateway_udp_sent_count: family_counts(self.gateway_udp_sent_count),
            gateway_udp_received_count: family_counts(self.gateway_udp_received_count),
            server_udp_sent_count: family_counts(self.server_udp_sent_count),
            server_udp_received_count: family_counts(self.server_udp_received_count),
        }
    }
}

/// Makes the labels of a counter of datagrams exchanged with a gateway.
fn make_gateway_labels(gateway_id: GatewayId, packet_type: PacketType) -> (labels: Vec<
    (String, String),
>)
    ensures
        labels_view(labels@) == gateway_labels(gateway_id, packet_type),
{
    let mut labels: Vec<(String, String)> = Vec::new();
    labels.push((String::from_str("gateway_id"), gateway_id.to_string()));
    labels.push((String::from_str("type"), packet_type.to_string()));
    labels
}

/// Makes the labels of a counter of datagrams exchanged with a server.
fn make_server_labels(server: &str, packet_type: PacketType) -> (labels: Vec<(String, String)>)
    ensures
        labels_view(labels@) == server_labels(server@, packet_type),
{
    let mut labels: Vec<(String, String)> = Vec::new();
    labels.push((String::from_str("server"), String::from_str(server)));
    labels.push((String::from_str("type"), packet_type.to_string()));
    labels
}

impl Metrics {
    /// Four families that have counted nothing.
    pub fn new() -> (metrics: Metrics)
        ensures
            metrics@ == (MetricsView {
                gateway_udp_sent_count: Map::empty(),
                gateway_udp_received_count: Map::empty(),
                server_udp_sent_count: Map::empty(),
                server_udp_received_count: Map::empty(),
            }),
    {
        Metrics {
            gateway_udp_sent_count: family_new(),
            gateway_udp_received_count: family_new(),
            server_udp_sent_count: family_new(),
            server_udp_received_count: family_new(),
        }
    }

    /// The number of datagrams counted as sent to a gateway.
    pub fn gateway_udp_sent_count(&self, gateway_id: GatewayId, packet_type: PacketType) -> (count:
        u64)
        ensures
            count == count_of(self@.gateway_udp_sent_count, gateway_labels(gateway_id, packet_type)),
    {
        let labels = make_gateway_labels(gateway_id, packet_type);
        match family_get(&self.gateway_udp_sent_count, &labels) {
            Some(count) => count,
            None => 0,
        }
    }

    /// The number of datagrams counted as received from a gateway.
    pub fn gateway_udp_received_count(
        &self,
        gateway_id: GatewayId,
        packet_type: PacketType,
    ) -> (count: u64)
        ensures
            count == count_of(
                self@.gateway_udp_received_count,
                gateway_labels(gateway_id, packet_type),
            ),
    {
        let labels = make_gateway_labels(gateway_id, packet_type);
        match family_get(&self.gateway_udp_received_count, &labels) {
            Some(count) => count,
            None => 0,
        }
    }

    /// The number of datagrams counted as sent to an upstream server.
    pub fn server_udp_sent_count(&self, server: &str, packet_type: PacketType) -> (count: u64)
        ensures
            count == count_of(self@.server_udp_sent_count, server_labels(server@, packet_type)),
    {
        let labels = make_server_labels(server, packet_type);
        match family_get(&self.server_udp_sent_count, &labels) {
            Some(count) => count,
            None => 0,
        }
    }

    /// The number of datagrams counted as received from an upstream server.
    pub fn server_udp_received_count(&self, server: &str, packet_type: PacketType) -> (count: u64)
        ensures
            count == count_of(self@.server_udp_received_count, server_labels(server@, packet_type)),
    {
        let labels = make_server_labels(server, packet_type);
        match family_get(&self.server_udp_received_count, &labels) {
            Some(count) => count,
            None => 0,
        }
    }
}

/// The names of the four families of counters and the texts that explain
/// them, as a registry holds them.
pub open spec fn family_descriptions() -> Seq<(Seq<char>, Seq<char>)> {
    seq![
        (
            "gateway_udp_sent_count"@,
            "Number of UDP datagrams sent to the gateway"@.push('.'),
        ),
        (
            "gateway_udp_received_count"@,
            "Number of UDP datagrams received from the gateway"@.push('.'),
        ),
        ("server_udp_sent_count"@, "Number of UDP datagrams sent to the server"@.push('.')),
        (
            "server_udp_received_count"@,
            "Number of UDP datagrams received from the server"@.push('.'),
        ),
    ]
}

/// Makes the four families of counters and registers them with a registry,
/// under their names.
pub fn setup(registry: &mut Registry) -> (metrics: Metrics)
    ensures
        metrics@ == (MetricsView {
            gateway_udp_sent_count: Map::empty(),
            gateway_udp_received_count: Map::empty(),
            server_udp_sent_count: Map::empty(),
            server_udp_received_count: Map::empty(),
        }),
        registered(*final(registry)) == registered(*old(registry)) + family_descriptions(),
{
    let metrics = Metrics::new();
    register(
        registry,
        "gateway_udp_sent_count",
        "Number of UDP datagrams sent to the gateway",
        &metrics.gateway_udp_sent_count,
    );
    register(
        registry,
        "gateway_udp_received_count",
        "Number of UDP datagrams received from the gateway",
        &metrics.gateway_udp_received_count,
    );
    register(
        registry,
        "server_udp_sent_count",
        "Number of UDP datagrams sent to the server",
        &metrics.server_udp_sent_count,
    );
    register(
        registry,
        "server_udp_received_count",
        "Number of UDP datagrams received from the server",
        &metrics.server_udp_received_count,
    );
    metrics
}

/// Counts one datagram sent to a gateway.
pub fn inc_gateway_udp_sent_count(metrics: &mut Metrics, gateway_id: GatewayId, packet_type: PacketType)
    ensures
        final(metrics)@ == (MetricsView {
            gateway_udp_sent_count: bump(
                old(metrics)@.gateway_udp_sent_count,
                gateway_labels(gateway_id, packet_type),
            ),
            ..old(metrics)@
        }),
{
    let labels = make_gateway_labels(gateway_id, packet_type);
    family_inc(&mut metrics.gateway_udp_sent_count, &labels);
}

/// Counts one datagram received from a gateway.
pub fn inc_gateway_udp_received_count(
    metrics: &mut Metrics,
    gateway_id: GatewayId,
    packet_type: PacketType,
)
    ensures
        final(metrics)@ == (MetricsView {
            gateway_udp_received_count: bump(
                old(metrics)@.gateway_udp_received_count,
                gateway_labels(gateway_id, packet_type),
            ),
            ..old(metrics)@
        }),
{
    let labels = make_gateway_labels(gateway_id, packet_type);
    family_inc(&mut metrics.gateway_udp_received_count, &labels);
}

/// Counts one datagram sent to an upstream server.
pub fn inc_server_udp_sent_count(metrics: &mut Metrics, server: &str, packet_type: PacketType)
    ensures
        final(metrics)@ == (MetricsView {
            server_udp_sent_count: bump(
                old(metrics)@.server_udp_sent_count,
                server_labels(server@, packet_type),
            ),
            ..old(metrics)@
        }),
{
    let labels = make_server_labels(server, packet_type);
    family_inc(&mut metrics.server_udp_sent_count, &labels);
}

/// Counts one datagram received from an upstream server.
pub fn inc_server_udp_received_count(metrics: &mut Metrics, server: &str, packet_type: PacketType)
    ensures
        final(metrics)@ == (MetricsView {
            server_udp_received_count: bump(
                old(metrics)@.server_udp_received_count,
                server_labels(server@, packet_type),
            ),
            ..old(metrics)@
        }),
{
    let labels = make_server_labels(server, packet_type);
    family_inc(&mut metrics.server_udp_received_count, &labels);
}

/// A counter below its largest value counts exactly one more after an event
/// of its labels, every other counter of the family stays as it is, and so
/// no counter decreases.
pub proof fn lemma_counter_counts_once(counts: Counts, labels: Labels, other: Labels)
    requires
        count_of(counts, labels) < u64::MAX,
    ensures
        count_of(bump(counts, labels), labels) == count_of(counts, labels) + 1,
        other != labels ==> count_of(bump(counts, labels), other) == count_of(counts, other),
        count_of(bump(counts, labels), other) >= count_of(counts, other),
{
}

} // verus!
