//! Time as the multiplexer sees it, and the eviction of what has been idle
//! for too long.

use std::collections::HashMap;
use vstd::prelude::*;
use vstd::std_specs::iter::IteratorSpec;

use crate::packets::GatewayId;

verus! {

/// A reading of a monotonic clock, in nanoseconds.
pub type Timestamp = u64;

/// How long a gateway or a session may stay silent before it is dropped:
/// sixty seconds, in nanoseconds.
pub const IDLE_TIMEOUT: u64 = 60_000_000_000;

/// Whether something last seen at `last` counts as idle at `now`: sixty
/// seconds or more have passed, or `last` lies in the future of `now`.
pub open spec fn is_idle(last: Timestamp, now: Timestamp) -> bool {
    last > now || now - last >= IDLE_TIMEOUT
}

/// Tells whether something last seen at `last` is idle at `now`.
pub fn idle(last: Timestamp, now: Timestamp) -> (idle: bool)
    ensures
        idle == is_idle(last, now),
{
    last > now || now - last >= IDLE_TIMEOUT
}

/// A record that knows when it was last refreshed.
pub trait Stamped {
    /// When the record was last refreshed.
    spec fn stamp(&self) -> Timestamp;

    /// Reads when the record was last refreshed.
    fn last_refresh(&self) -> (last: Timestamp)
        ensures
            last == self.stamp(),
    ;
}

/// The keys of the records of a table that are idle at `now`.
pub open spec fn idle_keys<V: Stamped>(table: Map<u64, V>, now: Timestamp) -> Set<u64> {
    Set::new(|key: u64| table.contains_key(key) && is_idle(table[key].stamp(), now))
}

/// The keys of a sequence of gateway identifiers.
pub open spec fn gateway_keys(gateways: Seq<GatewayId>) -> Seq<u64> {
    gateways.map_values(|gateway_id: GatewayId| gateway_id.key())
}

/// Removes from a table, keyed by gateway, every record that is idle at
/// `now`, and names the gateways whose records were removed, each once, in
/// no particular order.
pub fn evict_idle<V: Stamped>(table: &mut HashMap<u64, V>, now: Timestamp) -> (evicted: Vec<
    GatewayId,
>)
    ensures
        final(table)@ == old(table)@.remove_keys(idle_keys(old(table)@, now)),
        gateway_keys(evicted@).no_duplicates(),
        gateway_keys(evicted@).to_set() == idle_keys(old(table)@, now),
{
    broadcast use vstd::std_specs::hash::group_hash_axioms;

    let mut found: Vec<u64> = Vec::new();
    let ghost entries = vstd::std_specs::hash::spec_hash_map_iter(table).remaining();
    for entry in it: table.iter()
        invariant
            it.seq() == entries,
            forall|j: int|
                0 <= j < found@.len() ==> idle_keys(table@, now).contains(#[trigger] found@[j]),
            forall|j: int|
                0 <= j < it.index() && is_idle((*entries[j].1).stamp(), now) ==> found@.contains(
                    *(#[trigger] entries[j]).0,
                ),
    {
        let (key, record) = entry;
        let ghost before = found@;
        if idle(record.last_refresh(), now) {
            found.push(*key);
        }
        proof {
            assert forall|j: int|
                0 <= j < it.index() + 1 && is_idle(
                    (*entries[j].1).stamp(),
                    now,
                ) implies found@.contains(*(#[trigger] entries[j]).0) by {
                if j < it.index() {
                    let at = choose|at: int| 0 <= at < before.len() && before[at] == *entries[j].0;
                    assert(found@[at] == *entries[j].0);
                } else {
                    assert(found@[found@.len() - 1] == *key);
                }
            }
        }
    }
    proof {
        assert forall|key: u64| idle_keys(table@, now).contains(key) implies found@.contains(
            key,
        ) by {
            let record = table@[key];
            assert(entries.contains((&key, &record)));
            let at = choose|at: int| 0 <= at < entries.len() && entries[at] == (&key, &record);
            assert(found@.contains(*entries[at].0));
        }
    }
    let ghost start = table@;
    let ghost doomed = idle_keys(start, now);
    let mut evicted: Vec<GatewayId> = Vec::new();
    let mut i: usize = 0;
    while i < found.len()
        invariant
            i <= found@.len(),
            doomed == idle_keys(start, now),
            forall|j: int| 0 <= j < found@.len() ==> doomed.contains(#[trigger] found@[j]),
            forall|key: u64| doomed.contains(key) ==> found@.contains(key),
            table@ == start.remove_keys(found@.take(i as int).to_set()),
            gateway_keys(evicted@).no_duplicates(),
            gateway_keys(evicted@).to_set() == found@.take(i as int).to_set(),
        decreases found@.len() - i,
    {
        let key: u64 = found[i];
        let ghost seen = found@.take(i as int);
        let ghost names = gateway_keys(evicted@);
        let removed = table.remove(&key);
        proof {
            assert(found@.take(i + 1) =~= seen.push(key));
            seen.lemma_push_to_set_commute(key);
            assert(table@ =~= start.remove_keys(seen.to_set().insert(key)));
        }
        if removed.is_some() {
            let gateway_id = GatewayId::from_key(key);
            evicted.push(gateway_id);
            proof {
                assert(!seen.to_set().contains(key));
                assert(gateway_keys(evicted@) =~= names.push(key));
                names.lemma_push_to_set_commute(key);
                assert(!names.contains(key));
            }
        } else {
            proof {
                assert(seen.to_set().contains(key));
                assert(seen.to_set().insert(key) =~= seen.to_set());
            }
        }
        i = i + 1;
    }
    proof {
        assert(found@.take(found@.len() as int) =~= found@);
        assert(found@.to_set() =~= doomed);
    }
    evicted
}

} // verus!
