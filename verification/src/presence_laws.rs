//! Who is present on the mesh, as beacons, heartbeats and the passing of time tell it. Each law speaks
//! of what a function was given, what it returned and what it changed.
use crate::node::{DispatchAction, GlycoComplex, NodeState};
use crate::outside::json_text;
use crate::presence::{announce_alike, PresenterEvent};
use crate::protocol::{Beacon, Field, Glycosyl, Heartbeat};
use crate::text::text_less;
use crate::wire::optional_value_text;
use serde_json::Value;
use vstd::prelude::*;
use vstd::string::*;

verus! {

/// The first beacon of a node that is not present is told as its discovery, with all that it
/// announces, whoever else is hidden: only the node's own first beacon is not told, and only while the
/// node is not to tell of itself.
pub proof fn law_first_beacon_discovers(
    node: &mut GlycoComplex,
    beacon: Beacon,
    now: u128,
    action: DispatchAction,
)
    requires
        old(node).wf(),
        call_ensures(
            GlycoComplex::dispatch_message,
            (node, Glycosyl::Beacon(beacon), now),
            action,
        ),
        !old(node)@.presenters.contains_key(beacon.id@),
    ensures
        action is Nothing <==> beacon.id@ == old(node)@.id && !old(node)@.loopback_presenter,
        action !is Nothing ==> (action matches DispatchAction::Tell(
            PresenterEvent::Discovered(found),
        ) && {
            &&& found.id@ == beacon.id@
            &&& found.vendor == beacon.vendor
            &&& found.protocol_version == beacon.protocol_version
            &&& found.fields@ == beacon.fields@
            &&& found.timestamp == beacon.timestamp
        }),
{
}

/// A further beacon of a present node is told exactly if it announces something else than the one
/// before: another vendor or version, another number of fields, or a field of another kind, id, name,
/// description or schema at some place. It is then told as a change, with the beacon before and the
/// beacon now. When it was sent does not count.
pub proof fn law_further_beacon_tells_changes(
    node: &mut GlycoComplex,
    beacon: Beacon,
    now: u128,
    action: DispatchAction,
)
    requires
        old(node).wf(),
        call_ensures(
            GlycoComplex::dispatch_message,
            (node, Glycosyl::Beacon(beacon), now),
            action,
        ),
        old(node)@.presenters.contains_key(beacon.id@),
    ensures
        ({
            let known = old(node)@.presenters[beacon.id@].beacon;
            &&& action is Nothing <==> {
                &&& known.vendor.deep_view() == beacon.vendor.deep_view()
                &&& known.protocol_version == beacon.protocol_version
                &&& known.fields@.len() == beacon.fields@.len()
                &&& forall|i: int|
                    0 <= i < known.fields@.len() ==> match (
                        #[trigger] known.fields@[i],
                        beacon.fields@[i],
                    ) {
                        (Field::Method(a), Field::Method(b)) => {
                            &&& a.id@ == b.id@
                            &&& a.friendly_name.deep_view() == b.friendly_name.deep_view()
                            &&& a.description.deep_view() == b.description.deep_view()
                            &&& optional_value_text(a.query_schema) == optional_value_text(
                                b.query_schema,
                            )
                            &&& optional_value_text(a.receipt_schema) == optional_value_text(
                                b.receipt_schema,
                            )
                        },
                        (Field::Event(a), Field::Event(b)) => {
                            &&& a.id@ == b.id@
                            &&& a.friendly_name.deep_view() == b.friendly_name.deep_view()
                            &&& a.description.deep_view() == b.description.deep_view()
                            &&& optional_value_text(a.call_arg_schema) == optional_value_text(
                                b.call_arg_schema,
                            )
                        },
                        _ => false,
                    }
            }
            &&& action !is Nothing ==> (action matches DispatchAction::Tell(
                PresenterEvent::Changed { previous, current },
            ) && {
                &&& previous == known
                &&& current.id@ == beacon.id@
                &&& current.vendor == beacon.vendor
                &&& current.protocol_version == beacon.protocol_version
                &&& current.fields@ == beacon.fields@
                &&& current.timestamp == beacon.timestamp
            })
        }),
{
    lemma_present_under_own_id(*old(node), now);
}

/// What holds of every node, by name.
proof fn lemma_present_under_own_id(node: GlycoComplex, now: u128)
    requires
        node.wf(),
    ensures
        forall|id: Seq<char>| #[trigger]
            node@.presenters.contains_key(id) ==> node@.presenters[id].beacon.id@ == id,
{
    node.law_invariant(now);
}

/// A beacon that is the same as the one before is not told, and a beacon of any node with another
/// vendor is.
pub proof fn law_same_beacon_silent(
    node: &mut GlycoComplex,
    beacon: Beacon,
    now: u128,
    action: DispatchAction,
)
    requires
        old(node).wf(),
        call_ensures(
            GlycoComplex::dispatch_message,
            (node, Glycosyl::Beacon(beacon), now),
            action,
        ),
        old(node)@.presenters.contains_key(beacon.id@),
    ensures
        old(node)@.presenters[beacon.id@].beacon == beacon ==> action is Nothing,
        old(node)@.presenters[beacon.id@].beacon.vendor.deep_view() != beacon.vendor.deep_view()
            ==> action is Tell,
{
    lemma_present_under_own_id(*old(node), now);
}

/// Whether two beacons announce the same is decided by what they announce: never by the time, and by
/// everything else.
pub proof fn law_alike(left: &Beacon, right: &Beacon, alike: bool)
    requires
        call_ensures(announce_alike, (left, right), alike),
    ensures
        left.id@ == right.id@ && left.vendor == right.vendor && left.protocol_version
            == right.protocol_version && left.fields@ == right.fields@ ==> alike,
        alike ==> left.id@ == right.id@,
        alike ==> left.vendor.deep_view() == right.vendor.deep_view(),
        alike ==> left.protocol_version == right.protocol_version,
        alike ==> left.fields@.len() == right.fields@.len(),
        alike ==> forall|i: int|
            0 <= i < left.fields@.len() ==> (#[trigger] left.fields@[i]).spec_id()
                == right.fields@[i].spec_id(),
{
}

/// A document that is absent is announced like `null`, and a document by its own text.
pub proof fn law_document_text(value: Value)
    ensures
        optional_value_text(Some(value)) == json_text(value),
        optional_value_text(None) == "null"@,
{
}

/// After a beacon its node is present, with that beacon and as heard of at that time, and nobody else
/// comes or goes; nothing else changes, whoever the node is.
pub proof fn law_beacon_makes_present(
    node: &mut GlycoComplex,
    beacon: Beacon,
    now: u128,
    action: DispatchAction,
    other: Seq<char>,
)
    requires
        old(node).wf(),
        call_ensures(
            GlycoComplex::dispatch_message,
            (node, Glycosyl::Beacon(beacon), now),
            action,
        ),
        other != beacon.id@,
    ensures
        final(node)@.presenters.contains_key(beacon.id@),
        final(node)@.presenters[beacon.id@].beacon == beacon,
        final(node)@.presenters[beacon.id@].last_seen == now,
        final(node)@.presenters.contains_key(other) <==> old(node)@.presenters.contains_key(other),
        old(node)@.presenters.contains_key(other) ==> final(node)@.presenters[other] == old(
            node,
        )@.presenters[other],
        final(node)@ == (NodeState { presenters: final(node)@.presenters, ..old(node)@ }),
{
}

/// A heartbeat of a present node is taken as heard at that time and changes nothing of what it
/// announces; that of another node has no effect. Nothing is told of either.
pub proof fn law_heartbeat_keeps_present(
    node: &mut GlycoComplex,
    heartbeat: Heartbeat,
    now: u128,
    action: DispatchAction,
    other: Seq<char>,
)
    requires
        old(node).wf(),
        call_ensures(
            GlycoComplex::dispatch_message,
            (node, Glycosyl::Heartbeat(heartbeat), now),
            action,
        ),
        other != heartbeat.id@,
    ensures
        action is Nothing,
        final(node)@.presenters.contains_key(heartbeat.id@) <==> old(node)@.presenters.contains_key(
            heartbeat.id@,
        ),
        old(node)@.presenters.contains_key(heartbeat.id@) ==> {
            &&& final(node)@.presenters[heartbeat.id@].last_seen == now
            &&& final(node)@.presenters[heartbeat.id@].beacon == old(
                node,
            )@.presenters[heartbeat.id@].beacon
        },
        final(node)@.presenters.contains_key(other) <==> old(node)@.presenters.contains_key(other),
        old(node)@.presenters.contains_key(other) ==> final(node)@.presenters[other] == old(
            node,
        )@.presenters[other],
        final(node)@ == (NodeState { presenters: final(node)@.presenters, ..old(node)@ }),
{
}

/// A node leaves exactly if it was not heard of for three seconds; the others stay as they were, and
/// nothing else changes.
pub proof fn law_expiry_removes_the_silent(
    node: &mut GlycoComplex,
    now: u128,
    events: Vec<PresenterEvent>,
    id: Seq<char>,
)
    requires
        old(node).wf(),
        call_ensures(GlycoComplex::expire_presenters, (node, now), events),
    ensures
        final(node)@.presenters.contains_key(id) <==> old(node)@.presenters.contains_key(id) && now
            - old(node)@.presenters[id].last_seen < 3_000_000_000,
        final(node)@.presenters.contains_key(id) ==> final(node)@.presenters[id] == old(
            node,
        )@.presenters[id],
        final(node)@ == (NodeState { presenters: final(node)@.presenters, ..old(node)@ }),
{
}

/// Every node that leaves is told once, with its last beacon, and nobody else is; those who leave at
/// once are told in ascending order of their ids.
pub proof fn law_expiry_tells_each_once(
    node: &mut GlycoComplex,
    now: u128,
    events: Vec<PresenterEvent>,
)
    requires
        old(node).wf(),
        call_ensures(GlycoComplex::expire_presenters, (node, now), events),
    ensures
        forall|k: int|
            0 <= k < events@.len() ==> (#[trigger] events@[k] matches PresenterEvent::Expired(
                beacon,
            ) && {
                &&& old(node)@.presenters.contains_key(beacon.id@)
                &&& old(node)@.presenters[beacon.id@].beacon == beacon
                &&& now - old(node)@.presenters[beacon.id@].last_seen >= 3_000_000_000
            }),
        forall|id: Seq<char>| #[trigger]
            old(node)@.presenters.contains_key(id) && now - old(node)@.presenters[id].last_seen
                >= 3_000_000_000 ==> events@.contains(
                PresenterEvent::Expired(old(node)@.presenters[id].beacon),
            ),
        forall|j: int, k: int|
            0 <= j < k < events@.len() ==> match (#[trigger] events@[j], #[trigger] events@[k]) {
                (PresenterEvent::Expired(a), PresenterEvent::Expired(b)) => text_less(a.id@, b.id@),
                _ => false,
            },
{
    let before = *old(node);
    before.law_invariant(now);
    let ids = before.expired_ids(now);
    assert forall|k: int| 0 <= k < events@.len() implies (
    #[trigger] events@[k] matches PresenterEvent::Expired(beacon) && {
        &&& before@.presenters.contains_key(beacon.id@)
        &&& before@.presenters[beacon.id@].beacon == beacon
        &&& now - before@.presenters[beacon.id@].last_seen >= 3_000_000_000
    }) by {
        assert(ids.contains(ids[k]));
    }
    assert forall|id: Seq<char>| #[trigger]
        before@.presenters.contains_key(id) && now - before@.presenters[id].last_seen
            >= 3_000_000_000 implies events@.contains(
        PresenterEvent::Expired(before@.presenters[id].beacon),
    ) by {
        assert(ids.contains(id));
        let k = choose|k: int| 0 <= k < ids.len() && ids[k] == id;
        assert(events@[k] == PresenterEvent::Expired(before@.presenters[id].beacon));
    }
    assert forall|j: int, k: int| 0 <= j < k < events@.len() implies match (
        #[trigger] events@[j],
        #[trigger] events@[k],
    ) {
        (PresenterEvent::Expired(a), PresenterEvent::Expired(b)) => text_less(a.id@, b.id@),
        _ => false,
    } by {
        assert(ids.contains(ids[j]) && ids.contains(ids[k]));
        assert(text_less(ids[j], ids[k]));
    }
}

/// The list of present nodes holds the latest beacon of each of them once, and of nobody else, in
/// ascending order of their ids.
pub proof fn law_presenters_listed(node: &GlycoComplex, beacons: Vec<Beacon>, now: u128)
    requires
        node.wf(),
        call_ensures(GlycoComplex::presenters, (node,), beacons),
    ensures
        forall|k: int|
            0 <= k < beacons@.len() ==> {
                let id = (#[trigger] beacons@[k]).id@;
                &&& node@.presenters.contains_key(id)
                &&& beacons@[k].vendor == node@.presenters[id].beacon.vendor
                &&& beacons@[k].fields@ == node@.presenters[id].beacon.fields@
                &&& beacons@[k].protocol_version == node@.presenters[id].beacon.protocol_version
                &&& beacons@[k].timestamp == node@.presenters[id].beacon.timestamp
            },
        forall|id: Seq<char>| #[trigger]
            node@.presenters.contains_key(id) ==> exists|k: int|
                0 <= k < beacons@.len() && (#[trigger] beacons@[k]).id@ == id,
        forall|j: int, k: int|
            0 <= j < k < beacons@.len() ==> text_less(
                (#[trigger] beacons@[j]).id@,
                (#[trigger] beacons@[k]).id@,
            ),
{
    node.law_invariant(now);
    let order = node.presenter_order();
    assert forall|k: int| 0 <= k < beacons@.len() implies (#[trigger] beacons@[k]).id@ == order[k]
        && node@.presenters.contains_key(order[k]) by {
        assert(order.to_set().contains(order[k]));
    }
    assert forall|id: Seq<char>| #[trigger] node@.presenters.contains_key(id) implies exists|k: int|
        0 <= k < beacons@.len() && (#[trigger] beacons@[k]).id@ == id by {
        assert(order.to_set().contains(id));
        let k = choose|k: int| 0 <= k < order.len() && order[k] == id;
        assert(beacons@[k].id@ == id);
    }
    assert forall|j: int, k: int| 0 <= j < k < beacons@.len() implies text_less(
        (#[trigger] beacons@[j]).id@,
        (#[trigger] beacons@[k]).id@,
    ) by {
        assert(text_less(order[j], order[k]));
    }
}

} // verus!
