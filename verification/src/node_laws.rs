//! What holds of nodes and of the calls, events and announcements between them.
use crate::calls::PendingCall;
use crate::error::{GlycoError, HandlerError, RemoteError};
use crate::fields::{field_ids, law_listing_unique};
use crate::node::{
    after_message, is_call, is_dispatched, is_emitted, is_handler_reply, is_query_step,
    DispatchAction, NodeState, QueryStep,
};
use crate::presence::{
    after_beacon, after_expiry, after_heartbeat, beacon_told, field_with_id, looked_up,
    same_announcement, same_field, PresenterEvent, PresenterRecord, PRESENTER_EXPIRY_NANOS,
};
use crate::protocol::{Beacon, Event, Field, Glycosyl, Query, Reply};
use crate::registry::lemma_ascending_distinct;
use serde_json::Value;
use vstd::prelude::*;
use vstd::string::*;

verus! {

/// A call comes back to its caller: the query goes to the node that is called and is answered
/// there, the reply goes to the node that called, and what that node delivers to the waiting caller
/// is what the handler returned.
pub proof fn law_call_answered(
    caller: NodeState,
    callee: NodeState,
    call: PendingCall,
    fid: Seq<char>,
    payload: Option<Value>,
    result: Result<Option<Value>, HandlerError>,
    reply: Reply,
    action: DispatchAction,
)
    requires
        is_call(call, caller.id, callee.id, fid, payload),
        caller.pending.contains(call.query.qid),
        is_handler_reply(call.query, result, reply),
        is_dispatched(caller, Glycosyl::Reply(reply), action),
    ensures
        Glycosyl::Query(call.query).spec_receiver() == Some(callee.id),
        is_dispatched(callee, Glycosyl::Query(call.query), DispatchAction::Answer(call.query)),
        Glycosyl::Reply(reply).spec_receiver() == Some(caller.id),
        action matches DispatchAction::Deliver { qid, result: delivered } && qid == call.query.qid
            && match result {
            Ok(returned) => delivered == Ok::<Option<Value>, RemoteError>(returned),
            Err(failure) => delivered matches Err(error) && error.message@ == failure.message@,
        },
{
}

/// Every query to a node is answered by one reply, under the id of the query and to the node that
/// sent it, whether it is refused or handled.
pub proof fn law_reply_matches_query(
    node: NodeState,
    query: Query,
    step: QueryStep,
    result: Result<Option<Value>, HandlerError>,
    reply: Reply,
)
    requires
        is_query_step(node, query, step),
        match step {
            QueryStep::Refuse(refusal) => reply == refusal,
            QueryStep::Run { handler, context } => is_handler_reply(query, result, reply),
        },
    ensures
        reply.qid == query.qid,
        Glycosyl::Reply(reply).spec_receiver() == query.source_gid.deep_view(),
{
}

/// A query is refused exactly while as many handlers run as may, or for a field that is no method
/// of the node.
pub proof fn law_refused_exactly_when_busy_or_unknown(
    node: NodeState,
    query: Query,
    step: QueryStep,
)
    requires
        is_query_step(node, query, step),
    ensures
        step is Refuse <==> node.running >= node.max_running || !node.fields.methods.contains_key(
            query.fid@,
        ),
{
}

/// A reply is delivered at most once: a second one under the same query id is ignored.
pub proof fn law_reply_delivered_once(
    node: NodeState,
    first: Reply,
    second: Reply,
    now: u128,
    action: DispatchAction,
)
    requires
        first.qid == second.qid,
        is_dispatched(
            after_message(node, Glycosyl::Reply(first), now),
            Glycosyl::Reply(second),
            action,
        ),
    ensures
        action is Nothing,
{
}

/// A reply completes the call that waits under its query id, and that call alone: with the error, if
/// it has one, whatever its payload, and with the payload otherwise; every other awaited reply is
/// still awaited, and nothing else changes. Where no call waits under its id, it has no effect.
pub proof fn law_reply_completes_its_call_alone(
    node: NodeState,
    reply: Reply,
    now: u128,
    action: DispatchAction,
)
    requires
        is_dispatched(node, Glycosyl::Reply(reply), action),
    ensures
        ({
            let after = after_message(node, Glycosyl::Reply(reply), now);
            if node.pending.contains(reply.qid) {
                &&& action matches DispatchAction::Deliver { qid, result } && qid == reply.qid
                    && match reply.error {
                    Some(text) => result matches Err(error) && error.message == text,
                    None => result == Ok::<Option<Value>, RemoteError>(reply.payload),
                }
                &&& !after.pending.contains(reply.qid)
                &&& forall|qid: u128|
                    qid != reply.qid ==> after.pending.contains(qid) == node.pending.contains(qid)
                &&& after == (NodeState { pending: after.pending, ..node })
            } else {
                action is Nothing && after == node
            }
        }),
{
    if !node.pending.contains(reply.qid) {
        assert(after_message(node, Glycosyl::Reply(reply), now).pending =~= node.pending);
    }
}

/// The state after messages were dispatched one after the other, each at its time.
pub open spec fn after_messages(node: NodeState, messages: Seq<(Glycosyl, u128)>) -> NodeState
    decreases messages.len(),
{
    if messages.len() == 0 {
        node
    } else {
        after_message(
            after_messages(node, messages.drop_last()),
            messages.last().0,
            messages.last().1,
        )
    }
}

/// No message makes a node await a reply that it did not.
proof fn lemma_messages_await_nothing_new(
    node: NodeState,
    messages: Seq<(Glycosyl, u128)>,
    n: int,
)
    requires
        0 <= n <= messages.len(),
    ensures
        after_messages(node, messages).pending.subset_of(
            after_messages(node, messages.take(n)).pending,
        ),
    decreases messages.len(),
{
    if n < messages.len() {
        assert(messages.drop_last().take(n) =~= messages.take(n));
        lemma_messages_await_nothing_new(node, messages.drop_last(), n);
    } else {
        assert(messages.take(n) =~= messages);
    }
}

/// Of several replies with one query id only the first counts: whatever messages were dispatched,
/// once one of them was a reply with that id, a further one is ignored.
pub proof fn law_only_first_reply_counts(
    node: NodeState,
    messages: Seq<(Glycosyl, u128)>,
    first: int,
    reply: Reply,
    now: u128,
    action: DispatchAction,
)
    requires
        0 <= first < messages.len(),
        messages[first].0 matches Glycosyl::Reply(earlier) && earlier.qid == reply.qid,
        is_dispatched(after_messages(node, messages), Glycosyl::Reply(reply), action),
    ensures
        action is Nothing,
        after_message(after_messages(node, messages), Glycosyl::Reply(reply), now)
            == after_messages(node, messages),
{
    let begun = messages.take(first + 1);
    assert(begun.drop_last() =~= messages.take(first));
    assert(begun.last() == messages[first]);
    assert(!after_messages(node, begun).pending.contains(reply.qid));
    lemma_messages_await_nothing_new(node, messages, first + 1);
    let state = after_messages(node, messages);
    assert(!state.pending.contains(reply.qid));
    assert(state.not_awaiting(reply.qid).pending =~= state.pending);
}

/// A reply to a call that is over, by a timeout, a cancellation or otherwise, is ignored.
pub proof fn law_late_reply_ignored(node: NodeState, reply: Reply, action: DispatchAction)
    requires
        is_dispatched(node.not_awaiting(reply.qid), Glycosyl::Reply(reply), action),
    ensures
        action is Nothing,
{
}

/// A call that is over leaves no trace: the node awaits what it awaited before.
pub proof fn law_finished_call_leaves_no_trace(node: NodeState, qid: u128)
    requires
        !node.pending.contains(qid),
    ensures
        node.awaiting(qid).pending.contains(qid),
        node.awaiting(qid).not_awaiting(qid) == node,
{
    assert(node.awaiting(qid).not_awaiting(qid).pending =~= node.pending);
}

/// A handler gives its place back: when it is done, as many handlers run as before.
pub proof fn law_handler_gives_place_back(node: NodeState)
    ensures
        node.handler_begun().handler_done() == node,
{
}

/// A start whose first beacon cannot be sent leaves no trace, and a stop undoes a start but for what
/// the node learned and forgets again.
pub proof fn law_start_undone(node: NodeState)
    requires
        !node.started,
    ensures
        node.running_as(true).running_as(false) == node,
        node.running_as(true).running_as(false).forgetful() == node.forgetful(),
        node.forgetful().presenters == Map::<Seq<char>, PresenterRecord>::empty(),
        node.forgetful().pending == Set::<u128>::empty(),
        node.forgetful().fields == node.fields,
        node.forgetful().handlers == node.handlers,
{
}

/// An event that a node emits reaches, on every node that gets it, the handler that listens to that
/// field of that node, with the argument that it was emitted with, and no other handler.
pub proof fn law_event_reaches_listener(
    emitter: NodeState,
    listener: NodeState,
    fid: Seq<char>,
    argument: Option<Value>,
    event: Event,
    action: DispatchAction,
)
    requires
        is_emitted(emitter, fid, argument, Ok::<Glycosyl, GlycoError>(Glycosyl::Event(event))),
        is_dispatched(listener, Glycosyl::Event(event), action),
    ensures
        Glycosyl::Event(event).spec_receiver() is None,
        event.arg == argument,
        if listener.handlers.contains_key((emitter.id, fid)) {
            action == (DispatchAction::Notify {
                handler: listener.handlers[(emitter.id, fid)],
                event,
            })
        } else {
            action is Nothing
        },
{
}

/// What a node announces is what can be called on it: to everyone who took note of its beacon, a
/// field id stands for the method or the event that the node has under it, and for nothing where it
/// has none.
pub proof fn law_announced_fields_found(
    node: NodeState,
    beacon: Beacon,
    presenters: Map<Seq<char>, PresenterRecord>,
    now: u128,
    fid: Seq<char>,
)
    requires
        node.announced_by(beacon),
        node.fields.ids_unique(),
    ensures
        looked_up(after_beacon(presenters, beacon, now), node.id, fid) == (
        if node.fields.methods.contains_key(fid) {
            Some(Field::Method(node.fields.methods[fid].field))
        } else if node.fields.events.contains_key(fid) {
            Some(Field::Event(node.fields.events[fid].field))
        } else {
            None
        }),
{
    let fields = beacon.fields@;
    lemma_ascending_distinct(field_ids(fields));
    if node.fields.methods.contains_key(fid) {
        let field = Field::Method(node.fields.methods[fid].field);
        assert(node.fields.offers(field));
        assert(fields.contains(field));
        let i = choose|i: int| 0 <= i < fields.len() && fields[i] == field;
        lemma_field_found(fields, i);
    } else if node.fields.events.contains_key(fid) {
        let field = Field::Event(node.fields.events[fid].field);
        assert(node.fields.offers(field));
        assert(fields.contains(field));
        let i = choose|i: int| 0 <= i < fields.len() && fields[i] == field;
        lemma_field_found(fields, i);
    } else {
        assert forall|i: int| 0 <= i < fields.len() implies (#[trigger] fields[i]).spec_id()
            != fid by {
            assert(fields.contains(fields[i]));
            assert(node.fields.offers(fields[i]));
        }
        lemma_field_missing(fields, fid);
    }
}

/// Among fields with different ids, each is found by its id.
proof fn lemma_field_found(fields: Seq<Field>, i: int)
    requires
        field_ids(fields).no_duplicates(),
        0 <= i < fields.len(),
    ensures
        field_with_id(fields, fields[i].spec_id()) == Some(fields[i]),
    decreases fields.len(),
{
    let shorter = fields.drop_last();
    let id = fields[i].spec_id();
    assert(field_ids(shorter) =~= field_ids(fields).drop_last());
    if i < shorter.len() {
        lemma_field_found(shorter, i);
    } else {
        assert forall|j: int| 0 <= j < shorter.len() implies (#[trigger] shorter[j]).spec_id()
            != id by {
            assert(field_ids(fields)[j] != field_ids(fields)[i]);
        }
        lemma_field_missing(shorter, id);
    }
}

/// An id that no field has is not found.
proof fn lemma_field_missing(fields: Seq<Field>, id: Seq<char>)
    requires
        forall|i: int| 0 <= i < fields.len() ==> (#[trigger] fields[i]).spec_id() != id,
    ensures
        field_with_id(fields, id) is None,
    decreases fields.len(),
{
    if fields.len() > 0 {
        lemma_field_missing(fields.drop_last(), id);
    }
}

/// A node that announces itself again without a change is not told of: two beacons of one state
/// differ at most in their time.
pub proof fn law_repeated_beacon_silent(
    node: NodeState,
    first: Beacon,
    second: Beacon,
    presenters: Map<Seq<char>, PresenterRecord>,
    now: u128,
    hidden: bool,
    event: Option<PresenterEvent>,
)
    requires
        node.announced_by(first),
        node.announced_by(second),
        beacon_told(after_beacon(presenters, first, now), second, hidden, event),
    ensures
        event is None,
{
    law_listing_unique(node.fields, first.fields@, second.fields@);
    assert(same_announcement(first, second));
}

/// A node that announces itself with a field more or a field less, or under another vendor, is told
/// of as changed, with the beacons before and after.
pub proof fn law_changed_beacon_told(
    before: NodeState,
    after: NodeState,
    first: Beacon,
    second: Beacon,
    presenters: Map<Seq<char>, PresenterRecord>,
    now: u128,
    hidden: bool,
    event: Option<PresenterEvent>,
    fid: Seq<char>,
)
    requires
        before.id == after.id,
        before.announced_by(first),
        after.announced_by(second),
        before.fields.ids_unique(),
        after.fields.ids_unique(),
        before.fields.taken(fid) != after.fields.taken(fid) || before.vendor != after.vendor,
        beacon_told(after_beacon(presenters, first, now), second, hidden, event),
    ensures
        event matches Some(PresenterEvent::Changed { previous, current }) && previous == first
            && current.same_as(second),
{
    if same_announcement(first, second) {
        lemma_taken_announced(before, first, fid);
        lemma_taken_announced(after, second, fid);
        assert forall|i: int| 0 <= i < first.fields@.len() implies (
            #[trigger] first.fields@[i]).spec_id() == second.fields@[i].spec_id() by {
            assert(same_field(first.fields@[i], second.fields@[i]));
        }
        assert(field_ids(first.fields@) =~= field_ids(second.fields@));
        assert(false);
    }
}

/// An id is taken on a node exactly if it is among those that its beacon announces.
proof fn lemma_taken_announced(node: NodeState, beacon: Beacon, fid: Seq<char>)
    requires
        node.announced_by(beacon),
        node.fields.ids_unique(),
    ensures
        node.fields.taken(fid) <==> field_ids(beacon.fields@).contains(fid),
{
    let fields = beacon.fields@;
    if node.fields.taken(fid) {
        let field = if node.fields.methods.contains_key(fid) {
            Field::Method(node.fields.methods[fid].field)
        } else {
            Field::Event(node.fields.events[fid].field)
        };
        assert(node.fields.offers(field));
        assert(fields.contains(field));
        let i = choose|i: int| 0 <= i < fields.len() && fields[i] == field;
        assert(field_ids(fields)[i] == fid);
    }
    if field_ids(fields).contains(fid) {
        let i = choose|i: int| 0 <= i < field_ids(fields).len() && field_ids(fields)[i] == fid;
        assert(fields.contains(fields[i]));
        assert(node.fields.offers(fields[i]));
    }
}

/// A node that was heard of, by a beacon or a heartbeat, less than the expiry time ago stays
/// present.
pub proof fn law_sign_of_life_keeps_present(
    presenters: Map<Seq<char>, PresenterRecord>,
    beacon: Beacon,
    id: Seq<char>,
    heard: u128,
    now: u128,
)
    requires
        now - heard < PRESENTER_EXPIRY_NANOS,
    ensures
        after_expiry(after_beacon(presenters, beacon, heard), now).contains_key(beacon.id@),
        presenters.contains_key(id) ==> after_expiry(
            after_heartbeat(presenters, id, heard),
            now,
        ).contains_key(id),
{
}

/// A node that was not heard of for the expiry time is no longer present, and its next beacon is
/// told as a discovery again.
pub proof fn law_silent_node_forgotten(
    presenters: Map<Seq<char>, PresenterRecord>,
    beacon: Beacon,
    now: u128,
    event: Option<PresenterEvent>,
)
    requires
        presenters.contains_key(beacon.id@),
        now - presenters[beacon.id@].last_seen >= PRESENTER_EXPIRY_NANOS,
        beacon_told(after_expiry(presenters, now), beacon, false, event),
    ensures
        !after_expiry(presenters, now).contains_key(beacon.id@),
        event matches Some(PresenterEvent::Discovered(found)) && found.same_as(beacon),
{
}

/// A heartbeat of a node that is not present does not make it present.
pub proof fn law_heartbeat_discovers_nobody(
    presenters: Map<Seq<char>, PresenterRecord>,
    id: Seq<char>,
    now: u128,
)
    ensures
        after_heartbeat(presenters, id, now).dom() == presenters.dom(),
{
    assert(after_heartbeat(presenters, id, now).dom() =~= presenters.dom());
}

/// A message changes nothing but who is present and which replies are awaited.
pub proof fn law_message_touches_only_presence_and_replies(
    node: NodeState,
    message: Glycosyl,
    now: u128,
)
    ensures
        after_message(node, message, now) == (NodeState {
            presenters: after_message(node, message, now).presenters,
            pending: after_message(node, message, now).pending,
            ..node
        }),
        after_message(node, message, now).pending.subset_of(node.pending),
{
}

} // verus!
