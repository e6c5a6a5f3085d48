//! What passes between nodes: queries and their replies, events and their listeners. Each law speaks of
//! what functions were given, what they returned and what they changed, on one node or on two.
use crate::call_laws::law_call_raw_with_options_begins;
use crate::calls::{CallOptions, CallOutcome, PendingCall};
use crate::error::{GlycoError, HandlerError, RemoteError};
use crate::node::{DispatchAction, DispatchInput, GlycoComplex, NodeState, QueryStep};
use crate::outside::schema_verdict;
use crate::presence::PresenterEvent;
use crate::protocol::{Beacon, Event, Field, Glycosyl, MethodField, Query, Reply};
use crate::registration_laws::law_beacon_announces_all_fields;
use crate::text::lemma_text_order;
use crate::transport::ConnexonEvent;
use serde_json::Value;
use std::any::TypeId;
use tokio_util::sync::CancellationToken;
use vstd::prelude::*;
use vstd::string::*;

verus! {

/// A query is answered by the node that it names and by no other, and taking note of it changes
/// nothing.
pub proof fn law_query_answered_where_it_belongs(
    node: &mut GlycoComplex,
    query: Query,
    now: u128,
    action: DispatchAction,
)
    requires
        old(node).wf(),
        call_ensures(GlycoComplex::dispatch_message, (node, Glycosyl::Query(query), now), action),
    ensures
        query.gid@ == old(node)@.id ==> action == DispatchAction::Answer(query),
        query.gid@ != old(node)@.id ==> action is Nothing,
        final(node)@ == old(node)@,
{
}

/// An event is handed, as it is, to the handler that listens to that field of that node, and to none
/// where nobody does; taking note of it changes nothing.
pub proof fn law_event_handed_to_its_listener(
    node: &mut GlycoComplex,
    event: Event,
    now: u128,
    action: DispatchAction,
)
    requires
        old(node).wf(),
        call_ensures(GlycoComplex::dispatch_message, (node, Glycosyl::Event(event), now), action),
    ensures
        old(node)@.handlers.contains_key((event.gid@, event.fid@)) ==> (
        action matches DispatchAction::Notify { handler, event: handed } && handler == old(
            node,
        )@.handlers[(event.gid@, event.fid@)] && handed == event),
        !old(node)@.handlers.contains_key((event.gid@, event.fid@)) ==> action is Nothing,
        final(node)@ == old(node)@,
{
}

/// A reply goes to the call that waits under its query id, and to no other: the error if it has one,
/// whatever payload stands beside it, and otherwise the payload. It is then awaited no longer, every
/// other reply still is, and nothing else changes. One that nobody awaits has no effect.
pub proof fn law_reply_handed_to_its_call(
    node: &mut GlycoComplex,
    reply: Reply,
    now: u128,
    action: DispatchAction,
    other: u128,
)
    requires
        old(node).wf(),
        call_ensures(GlycoComplex::dispatch_message, (node, Glycosyl::Reply(reply), now), action),
        other != reply.qid,
    ensures
        !final(node)@.pending.contains(reply.qid),
        final(node)@.pending.contains(other) <==> old(node)@.pending.contains(other),
        final(node)@ == (NodeState { pending: final(node)@.pending, ..old(node)@ }),
        !old(node)@.pending.contains(reply.qid) ==> action is Nothing && final(node)@ == old(node)@,
        old(node)@.pending.contains(reply.qid) ==> (action matches DispatchAction::Deliver {
            qid,
            result,
        } && {
            &&& qid == reply.qid
            &&& result is Ok <==> reply.error is None
            &&& result matches Ok(payload) ==> payload == reply.payload
            &&& result matches Err(error) ==> reply.error == Some(error.message)
        }),
{
    if !old(node)@.pending.contains(reply.qid) {
        assert(old(node)@.pending.remove(reply.qid) =~= old(node)@.pending);
    }
}

/// The same of a reply that is taken note of by itself.
pub proof fn law_process_reply(node: &mut GlycoComplex, reply: Reply, action: DispatchAction)
    requires
        old(node).wf(),
        call_ensures(GlycoComplex::process_reply, (node, reply), action),
    ensures
        !final(node)@.pending.contains(reply.qid),
        final(node)@ == (NodeState {
            pending: old(node)@.pending.remove(reply.qid),
            ..old(node)@
        }),
        !old(node)@.pending.contains(reply.qid) ==> action is Nothing,
        old(node)@.pending.contains(reply.qid) ==> (action matches DispatchAction::Deliver {
            qid,
            result,
        } && {
            &&& qid == reply.qid
            &&& result is Ok <==> reply.error is None
            &&& result matches Ok(payload) ==> payload == reply.payload
            &&& result matches Err(error) ==> reply.error == Some(error.message)
        }),
{
}

/// Only the first of two replies under one query id is delivered.
pub proof fn law_second_reply_ignored(
    node: &mut GlycoComplex,
    again: &mut GlycoComplex,
    first: Reply,
    second: Reply,
    now: u128,
    later: u128,
    action: DispatchAction,
    repeated: DispatchAction,
)
    requires
        old(node).wf(),
        old(again).wf(),
        first.qid == second.qid,
        call_ensures(GlycoComplex::dispatch_message, (node, Glycosyl::Reply(first), now), action),
        old(again)@ == final(node)@,
        call_ensures(
            GlycoComplex::dispatch_message,
            (again, Glycosyl::Reply(second), later),
            repeated,
        ),
    ensures
        repeated is Nothing,
        final(again)@ == final(node)@,
{
    assert(final(again)@.pending =~= final(node)@.pending);
}

/// What the dispatching task waited for goes on exactly while it is not cancelled and events can still
/// come; of what is no message it takes no note, and a message it takes note of like every other.
pub proof fn law_dispatching_goes_on(
    node: &mut GlycoComplex,
    input: DispatchInput,
    now: u128,
    action: Option<DispatchAction>,
)
    requires
        old(node).wf(),
        call_ensures(GlycoComplex::dispatch_step, (node, input, now), action),
    ensures
        action is None <==> input is Cancelled || input is Closed,
        !(input matches DispatchInput::Event(ConnexonEvent::Message(_))) ==> final(node)@ == old(
            node,
        )@ && (action matches Some(asked) ==> asked is Nothing),
        input matches DispatchInput::Event(ConnexonEvent::Message(Glycosyl::Query(query))) ==> (
        query.gid@ == old(node)@.id ==> action == Some(DispatchAction::Answer(query))),
        input matches DispatchInput::Event(ConnexonEvent::Message(Glycosyl::Beacon(beacon)))
            ==> final(node)@.presenters.contains_key(beacon.id@)
            && final(node)@.presenters[beacon.id@].beacon == beacon,
        input matches DispatchInput::Event(ConnexonEvent::Message(Glycosyl::Beacon(beacon))) ==> (
        !old(node)@.presenters.contains_key(beacon.id@) && beacon.id@ != old(node)@.id ==> (
        action matches Some(DispatchAction::Tell(PresenterEvent::Discovered(found))) && found.id@
            == beacon.id@ && found.fields@ == beacon.fields@)),
        input matches DispatchInput::Event(ConnexonEvent::Message(Glycosyl::Heartbeat(sign))) ==> (
        old(node)@.presenters.contains_key(sign.id@) ==> final(node)@.presenters[sign.id@].last_seen
            == now),
        input matches DispatchInput::Event(ConnexonEvent::Message(Glycosyl::Reply(reply)))
            ==> !final(node)@.pending.contains(reply.qid),
        input matches DispatchInput::Event(ConnexonEvent::Message(Glycosyl::Reply(reply))) ==> (
        old(node)@.pending.contains(reply.qid) ==> (action matches Some(
            DispatchAction::Deliver { qid, result },
        ) && qid == reply.qid && (result is Ok <==> reply.error is None))),
        input matches DispatchInput::Event(ConnexonEvent::Message(Glycosyl::Event(event))) ==> (
        old(node)@.handlers.contains_key((event.gid@, event.fid@)) ==> (action matches Some(
            DispatchAction::Notify { handler, event: handed },
        ) && handler == old(node)@.handlers[(event.gid@, event.fid@)] && handed == event)),
{
}

/// A message that the dispatching task waited for is taken note of as it is by itself: it changes the
/// same and asks for the same.
pub proof fn law_dispatched_message_by_message(
    node: &mut GlycoComplex,
    alike: &mut GlycoComplex,
    message: Glycosyl,
    now: u128,
    action: Option<DispatchAction>,
    alone: DispatchAction,
)
    requires
        old(node).wf(),
        old(alike).wf(),
        old(alike)@ == old(node)@,
        call_ensures(
            GlycoComplex::dispatch_step,
            (node, DispatchInput::Event(ConnexonEvent::Message(message)), now),
            action,
        ),
        call_ensures(GlycoComplex::dispatch_message, (alike, message, now), alone),
    ensures
        final(node)@ == final(alike)@,
        action is Some,
        match (action->Some_0, alone) {
            (DispatchAction::Nothing, DispatchAction::Nothing) => true,
            (
                DispatchAction::Tell(PresenterEvent::Discovered(a)),
                DispatchAction::Tell(PresenterEvent::Discovered(b)),
            ) => a.id@ == b.id@ && a.fields@ == b.fields@ && a.vendor == b.vendor,
            (
                DispatchAction::Tell(PresenterEvent::Changed { previous: a, current: c }),
                DispatchAction::Tell(PresenterEvent::Changed { previous: b, current: d }),
            ) => a == b && c.id@ == d.id@ && c.fields@ == d.fields@ && c.vendor == d.vendor,
            (
                DispatchAction::Deliver { qid: p, result: a },
                DispatchAction::Deliver { qid: q, result: b },
            ) => p == q && (match (a, b) {
                (Ok(x), Ok(y)) => x == y,
                (Err(x), Err(y)) => x.message@ == y.message@,
                _ => false,
            }),
            (DispatchAction::Answer(a), DispatchAction::Answer(b)) => a == b,
            (
                DispatchAction::Notify { handler: h, event: a },
                DispatchAction::Notify { handler: k, event: b },
            ) => h == k && a == b,
            _ => false,
        },
{
}

/// A query for a method of the node runs the handler that was registered with the method, unless as
/// many handlers run as may; the handler learns the id of the query, who sent it and how it is
/// cancelled, and counts as running. Otherwise the query is refused with an error to its sender, and
/// nothing changes.
pub proof fn law_query_run_or_refused(
    node: &mut GlycoComplex,
    query: &Query,
    cancellation: CancellationToken,
    step: QueryStep,
)
    requires
        old(node).wf(),
        call_ensures(GlycoComplex::handle_query, (node, query, cancellation), step),
    ensures
        step is Run <==> old(node)@.running < old(node)@.max_running && old(
            node,
        )@.fields.methods.contains_key(query.fid@),
        step matches QueryStep::Run { handler, context } ==> {
            &&& handler == old(node)@.fields.methods[query.fid@].handler
            &&& context.qid == query.qid
            &&& context.source_gid == query.source_gid
            &&& context.cancellation == cancellation
            &&& final(node)@ == (NodeState { running: old(node)@.running + 1, ..old(node)@ })
        },
        step matches QueryStep::Refuse(reply) ==> {
            &&& final(node)@ == old(node)@
            &&& reply.qid == query.qid
            &&& reply.target_gid == query.source_gid
            &&& reply.payload is None
            &&& reply.error matches Some(text) && text@ == (if old(node)@.running >= old(
                node,
            )@.max_running {
                "server is busy"@
            } else {
                "field '"@ + query.fid@ + "' is not registered"@
            })
        },
{
}

/// The reply to a query goes back to its sender under the id of the query, with the payload that the
/// handler returned or with the text of its failure, never with both; the handler no longer counts as
/// running.
pub proof fn law_reply_tells_the_result(
    node: &mut GlycoComplex,
    query: &Query,
    result: Result<Option<Value>, HandlerError>,
    reply: Reply,
)
    requires
        old(node).wf(),
        call_ensures(GlycoComplex::finish_query, (node, query, result), reply),
    ensures
        reply.qid == query.qid,
        reply.target_gid == query.source_gid,
        result matches Ok(payload) ==> reply.payload == payload && reply.error is None,
        result matches Err(failure) ==> reply.payload is None && (reply.error matches Some(text)
            && text@ == failure.message@),
        old(node)@.running > 0 ==> final(node)@.running == old(node)@.running - 1,
        old(node)@.running == 0 ==> final(node)@.running == 0,
        final(node)@ == (NodeState { running: final(node)@.running, ..old(node)@ }),
{
}

/// A handler that ends without a result no longer counts as running, and nothing else changes.
pub proof fn law_abandoned_handler_counts_no_longer(node: &mut GlycoComplex)
    requires
        old(node).wf(),
        call_ensures(GlycoComplex::abandon_query, (node,), ()),
    ensures
        old(node)@.running > 0 ==> final(node)@.running == old(node)@.running - 1,
        old(node)@.running == 0 ==> final(node)@.running == 0,
        final(node)@ == (NodeState { running: final(node)@.running, ..old(node)@ }),
{
}

/// A call returns what the handler on the other node returned: its reply is delivered to the caller
/// that waits, and that caller returns the very payload, or the failure in the words of the handler.
pub proof fn law_call_returns_what_the_handler_returned(
    callee: &mut GlycoComplex,
    caller: &mut GlycoComplex,
    ending: &mut GlycoComplex,
    call: &PendingCall,
    handled: Result<Option<Value>, HandlerError>,
    reply: Reply,
    now: u128,
    action: DispatchAction,
    delivered: Result<Option<Value>, RemoteError>,
    result: Result<Option<Value>, GlycoError>,
)
    requires
        old(callee).wf(),
        old(caller).wf(),
        old(ending).wf(),
        call_ensures(GlycoComplex::finish_query, (callee, &call.query, handled), reply),
        old(caller)@.pending.contains(call.query.qid),
        call_ensures(GlycoComplex::dispatch_message, (caller, Glycosyl::Reply(reply), now), action),
        action matches DispatchAction::Deliver { result: told, .. } ==> told == delivered,
        call_ensures(
            GlycoComplex::finish_call,
            (ending, call, CallOutcome::Replied(delivered)),
            result,
        ),
    ensures
        action matches DispatchAction::Deliver { qid, .. } && qid == call.query.qid,
        handled matches Ok(payload) ==> result == Ok::<Option<Value>, GlycoError>(payload),
        handled matches Err(failure) ==> (result matches Err(GlycoError::Remote(error))
            && error.message@ == failure.message@),
{
}

/// What a node registers can be called by every node that got its beacon: a method that was registered
/// with an argument and a result begins to be called exactly if the argument passes the schema that
/// the method had of itself, or else the one that was generated for the argument; and the query that
/// begins runs, on the registering node, the handler that was registered, while it is not too busy.
pub proof fn law_registered_method_is_called(
    server: &mut GlycoComplex,
    announcing: &GlycoComplex,
    client: &mut GlycoComplex,
    calling: &mut GlycoComplex,
    answering: &mut GlycoComplex,
    field: MethodField,
    query_schema: Result<Value, GlycoError>,
    receipt_schema: Result<Value, GlycoError>,
    handler: u64,
    beacon: Beacon,
    now: u128,
    action: DispatchAction,
    gid: &str,
    fid: &str,
    argument: Value,
    options: CallOptions,
    call: Result<PendingCall, GlycoError>,
    cancellation: CancellationToken,
    begun: PendingCall,
    step: QueryStep,
)
    requires
        old(server).wf(),
        announcing.wf(),
        old(client).wf(),
        old(calling).wf(),
        old(answering).wf(),
        call_ensures(
            GlycoComplex::register_function,
            (server, field, query_schema, receipt_schema, handler),
            Ok::<(), GlycoError>(()),
        ),
        announcing@ == final(server)@,
        call_ensures(GlycoComplex::build_beacon, (announcing,), beacon),
        call_ensures(
            GlycoComplex::dispatch_message,
            (client, Glycosyl::Beacon(beacon), now),
            action,
        ),
        old(calling)@.presenters == final(client)@.presenters,
        old(calling)@.started,
        gid@ == announcing@.id,
        fid@ == field.id@,
        call_ensures(
            GlycoComplex::call_raw_with_options,
            (calling, gid, fid, Some(argument), options),
            call,
        ),
        call matches Ok(pending) ==> pending == begun,
        old(answering)@.fields == final(server)@.fields,
        old(answering)@.running < old(answering)@.max_running,
        call_ensures(GlycoComplex::handle_query, (answering, &begun.query, cancellation), step),
    ensures
        field.query_schema matches Some(own) ==> (call is Ok <==> schema_verdict(own, argument)
            == Some(Seq::<Seq<char>>::empty())),
        field.query_schema is None ==> (query_schema matches Ok(generated) && (call is Ok
            <==> schema_verdict(generated, argument) == Some(Seq::<Seq<char>>::empty()))),
        call is Ok ==> (step matches QueryStep::Run { handler: run, .. } && run == handler),
{
    law_beacon_announces_all_fields(announcing, beacon, 0);
    let method = announcing@.fields.methods[field.id@].field;
    assert(announcing@.fields.methods.contains_key(field.id@));
    assert(beacon.fields@.contains(Field::Method(method)));
    let i = choose|i: int| 0 <= i < beacon.fields@.len() && beacon.fields@[i] == Field::Method(method);
    assert forall|j: int| 0 <= j < i implies (#[trigger] beacon.fields@[j]).spec_id() != fid@ by {
        lemma_text_order(beacon.fields@[j].spec_id(), beacon.fields@[i].spec_id());
    }
    law_call_raw_with_options_begins(
        calling,
        gid,
        fid,
        Some(argument),
        options,
        call,
        method,
        i,
    );
}

/// An event is emitted under the id of the node and of the field, with the argument as it is, exactly
/// once the node is started.
pub proof fn law_emit_raw(
    node: &GlycoComplex,
    fid: &str,
    argument: Option<Value>,
    message: Result<Glycosyl, GlycoError>,
)
    requires
        call_ensures(GlycoComplex::emit_raw, (node, fid, argument), message),
    ensures
        message is Ok <==> node@.started,
        message matches Ok(sent) ==> (sent matches Glycosyl::Event(event) && event.gid@ == node@.id
            && event.fid@ == fid@ && event.arg == argument),
        message matches Err(error) ==> error is NotStarted,
{
}

/// A signal is emitted, without an argument, exactly if it was registered as one and the node is
/// started; an unknown field, and then an event that wants an argument, are refused before that.
pub proof fn law_emit_signal(
    node: &GlycoComplex,
    fid: &str,
    message: Result<Glycosyl, GlycoError>,
)
    requires
        node.wf(),
        call_ensures(GlycoComplex::emit_signal, (node, fid), message),
    ensures
        message is Ok <==> node@.started && node@.fields.events.contains_key(fid@)
            && node@.fields.events[fid@].argument_type is None,
        message matches Ok(sent) ==> (sent matches Glycosyl::Event(event) && event.gid@ == node@.id
            && event.fid@ == fid@ && event.arg is None),
        !node@.fields.events.contains_key(fid@) ==> (message matches Err(
            GlycoError::FieldNotFound { node: n, field },
        ) && n@ == node@.id && field@ == fid@),
        node@.fields.events.contains_key(fid@) && node@.fields.events[fid@].argument_type is Some
            ==> (message matches Err(GlycoError::Protocol(text)) && text@ == "event '"@ + fid@
            + "' expects an argument"@),
        node@.fields.events.contains_key(fid@) && node@.fields.events[fid@].argument_type is None
            && !node@.started ==> (message matches Err(error) && error is NotStarted),
{
}

/// An event with a typed argument is emitted exactly if it was registered with that type, the argument
/// could be made a document and the node is started, and then with that document.
pub proof fn law_emit(
    node: &GlycoComplex,
    fid: &str,
    argument_type: &TypeId,
    argument: Result<Value, String>,
    message: Result<Glycosyl, GlycoError>,
)
    requires
        node.wf(),
        call_ensures(GlycoComplex::emit, (node, fid, argument_type, argument), message),
    ensures
        message is Ok <==> node@.started && node@.fields.events.contains_key(fid@)
            && node@.fields.events[fid@].argument_type == Some(*argument_type) && argument is Ok,
        message matches Ok(sent) ==> (sent matches Glycosyl::Event(event) && event.gid@ == node@.id
            && event.fid@ == fid@ && Ok::<Option<Value>, String>(event.arg) == Ok::<
            Option<Value>,
            String,
        >(Some(argument->Ok_0))),
        !node@.fields.events.contains_key(fid@) ==> (message matches Err(
            GlycoError::FieldNotFound { node: n, field },
        ) && n@ == node@.id && field@ == fid@),
        node@.fields.events.contains_key(fid@) && node@.fields.events[fid@].argument_type != Some(
            *argument_type,
        ) ==> (message matches Err(GlycoError::Protocol(text)) && text@ == "event '"@ + fid@
            + "' argument type does not match its registration"@),
        node@.fields.events.contains_key(fid@) && node@.fields.events[fid@].argument_type == Some(
            *argument_type,
        ) && argument is Err ==> (message matches Err(GlycoError::TypedJson { context, source })
            && context@ == "event argument"@ && source@ == argument->Err_0@),
        node@.fields.events.contains_key(fid@) && node@.fields.events[fid@].argument_type == Some(
            *argument_type,
        ) && argument is Ok && !node@.started ==> (message matches Err(error)
            && error is NotStarted),
{
}

/// A handler that is set for a field of a node listens to that field of that node alone, in place of
/// the one that did before; the others listen on, and nothing else changes.
pub proof fn law_listening(
    node: &mut GlycoComplex,
    gid: &str,
    fid: &str,
    handler: u64,
    replaced: Option<u64>,
    other: (Seq<char>, Seq<char>),
)
    requires
        old(node).wf(),
        call_ensures(GlycoComplex::on_event_raw, (node, gid, fid, handler), replaced),
        other != (gid@, fid@),
    ensures
        final(node)@.handlers.contains_key((gid@, fid@)),
        final(node)@.handlers[(gid@, fid@)] == handler,
        replaced is Some <==> old(node)@.handlers.contains_key((gid@, fid@)),
        replaced matches Some(before) ==> before == old(node)@.handlers[(gid@, fid@)],
        final(node)@.handlers.contains_key(other) <==> old(node)@.handlers.contains_key(other),
        old(node)@.handlers.contains_key(other) ==> final(node)@.handlers[other] == old(
            node,
        )@.handlers[other],
        final(node)@ == (NodeState { handlers: final(node)@.handlers, ..old(node)@ }),
{
}

/// A handler that is removed listens no longer, the others listen on, and nothing else changes.
pub proof fn law_listening_ends(
    node: &mut GlycoComplex,
    gid: &str,
    fid: &str,
    removed: Option<u64>,
    other: (Seq<char>, Seq<char>),
)
    requires
        old(node).wf(),
        call_ensures(GlycoComplex::remove_event_handler, (node, gid, fid), removed),
        other != (gid@, fid@),
    ensures
        !final(node)@.handlers.contains_key((gid@, fid@)),
        removed is Some <==> old(node)@.handlers.contains_key((gid@, fid@)),
        removed matches Some(before) ==> before == old(node)@.handlers[(gid@, fid@)],
        final(node)@.handlers.contains_key(other) <==> old(node)@.handlers.contains_key(other),
        old(node)@.handlers.contains_key(other) ==> final(node)@.handlers[other] == old(
            node,
        )@.handlers[other],
        final(node)@ == (NodeState { handlers: final(node)@.handlers, ..old(node)@ }),
{
}

/// What a node emits reaches the handler that another node set for that field of that node, with the
/// argument that it was emitted with; a handler that was set for another field, or for a field of
/// another node, does not get it in its place.
pub proof fn law_emitted_event_reaches_handler(
    emitter: &GlycoComplex,
    listener: &mut GlycoComplex,
    dispatching: &mut GlycoComplex,
    gid: &str,
    fid: &str,
    emitted: &str,
    handler: u64,
    replaced: Option<u64>,
    argument: Option<Value>,
    message: Glycosyl,
    now: u128,
    action: DispatchAction,
)
    requires
        old(listener).wf(),
        old(dispatching).wf(),
        call_ensures(
            GlycoComplex::emit_raw,
            (emitter, emitted, argument),
            Ok::<Glycosyl, GlycoError>(message),
        ),
        call_ensures(GlycoComplex::on_event_raw, (listener, gid, fid, handler), replaced),
        old(dispatching)@.handlers == final(listener)@.handlers,
        call_ensures(GlycoComplex::dispatch_message, (dispatching, message, now), action),
    ensures
        gid@ == emitter@.id && fid@ == emitted@ ==> (action matches DispatchAction::Notify {
            handler: run,
            event,
        } && run == handler && event.arg == argument),
        (gid@ != emitter@.id || fid@ != emitted@) && !old(listener)@.handlers.contains_key(
            (emitter@.id, emitted@),
        ) ==> action is Nothing,
{
}

/// The handler of a method is the one that was registered with it.
pub proof fn law_method_handler(node: &GlycoComplex, fid: &str, handler: Option<u64>)
    requires
        node.wf(),
        call_ensures(GlycoComplex::method_handler, (node, fid), handler),
    ensures
        handler is Some <==> node@.fields.methods.contains_key(fid@),
        handler matches Some(known) ==> known == node@.fields.methods[fid@].handler,
{
}

} // verus!
