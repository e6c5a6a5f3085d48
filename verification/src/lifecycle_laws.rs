//! How nodes are made, started and stopped, how long calls wait, and when a node announces itself. Each
//! law speaks of what functions were given, what they returned and what they changed.
use crate::calls::CallOptions;
use crate::error::{GlycoError, IoErrorKind};
use crate::fields::{RegisteredEvent, RegisteredMethod};
use crate::identity::validate_node_id;
use crate::mesh::{UnixDomainMeshConnexon, DISCOVERY_INTERVAL_MILLIS};
use crate::node::{
    GlycoComplex, GlycoComplexBuilder, NodeState, StartAction, StartEvent, StopAction, StopEvent,
};
use crate::outside::{duration_nanos, path_joined};
use crate::presence::{PresenterRecord, PRESENTER_EXPIRY_NANOS};
use crate::protocol::{Beacon, EventField, Field, Glycosyl, MethodField, Query};
use crate::schedule::{
    BeaconDue, BeaconSchedule, BeaconTrigger, CLEANUP_INTERVAL_MILLIS, HEARTBEAT_INTERVAL_MILLIS,
};
use crate::workers::{
    ACCEPT_POLL_MILLIS, HANDSHAKE_TIMEOUT_MILLIS, INTERRUPT_POLL_MILLIS, WRITE_TIMEOUT_MILLIS,
};
use chrono::NaiveDateTime;
use serde_json::Value;
use std::path::PathBuf;
use std::time::Duration;
use tokio_util::sync::CancellationToken;
use vstd::prelude::*;
use vstd::string::*;

verus! {

/// The start of a node, from the request to the first beacon: a node that is not started has its
/// transport started first, counts as started once that is done, and announces itself with all that it
/// offers at once; a transport that does not start leaves it stopped with that error, and a first
/// beacon that cannot be sent stops it again, with everything as before.
pub proof fn law_start(
    asked: &mut GlycoComplex,
    ready: &mut GlycoComplex,
    announced: &mut GlycoComplex,
    first: StartAction,
    transport: Result<(), GlycoError>,
    second: StartAction,
    sent: Result<(), GlycoError>,
    third: StartAction,
    id: Seq<char>,
)
    requires
        old(asked).wf(),
        old(ready).wf(),
        old(announced).wf(),
        call_ensures(GlycoComplex::start, (asked, StartEvent::Requested), first),
        old(ready)@ == final(asked)@,
        call_ensures(
            GlycoComplex::start,
            (ready, StartEvent::TransportStarted(transport)),
            second,
        ),
        old(announced)@ == final(ready)@,
        call_ensures(GlycoComplex::start, (announced, StartEvent::BeaconSent(sent)), third),
    ensures
        final(asked)@ == old(asked)@,
        old(asked)@.started ==> (first matches StartAction::Done(outcome) && outcome is Ok),
        !old(asked)@.started ==> first is StartTransport,
        transport matches Err(error) ==> second == StartAction::Done(Err(error)) && final(ready)@
            == old(asked)@,
        transport is Ok ==> {
            &&& final(ready)@ == (NodeState { started: true, ..old(asked)@ })
            &&& second matches StartAction::SendBeacon(Glycosyl::Beacon(beacon)) && {
                &&& beacon.id@ == old(asked)@.id
                &&& beacon.vendor.deep_view() == old(asked)@.vendor
                &&& old(asked)@.fields.methods.contains_key(id) ==> beacon.fields@.contains(
                    Field::Method(old(asked)@.fields.methods[id].field),
                )
                &&& old(asked)@.fields.events.contains_key(id) ==> beacon.fields@.contains(
                    Field::Event(old(asked)@.fields.events[id].field),
                )
            }
        },
        transport is Ok && sent is Ok ==> (third matches StartAction::Done(outcome)
            && outcome is Ok && final(announced)@.started),
        sent is Ok ==> final(announced)@ == final(ready)@,
        sent matches Err(error) ==> third == StartAction::RollBack(error) && final(announced)@ == (
        NodeState { started: false, ..final(ready)@ }),
        transport is Ok && !old(asked)@.started ==> (sent matches Err(error) ==> third
            == StartAction::RollBack(error) && final(announced)@ == old(asked)@),
{
    old(asked).law_invariant(0);
    if old(asked)@.fields.methods.contains_key(id) {
        assert(old(asked)@.fields.offers(
            Field::Method(old(asked)@.fields.methods[id].field),
        ));
    }
    if old(asked)@.fields.events.contains_key(id) {
        assert(old(asked)@.fields.offers(Field::Event(old(asked)@.fields.events[id].field)));
    }
}

/// The stop of a node, from the request to the end: it counts as stopped at once, the transport is
/// stopped in any case, and the outcome of that is what is returned; a node that was started then
/// knows nobody and awaits nothing, and keeps what it offers and listens to. One that was not started
/// changes nothing.
pub proof fn law_stop(
    asked: &mut GlycoComplex,
    ended: &mut GlycoComplex,
    first: StopAction,
    was_started: bool,
    outcome: Result<(), GlycoError>,
    second: StopAction,
)
    requires
        old(asked).wf(),
        old(ended).wf(),
        call_ensures(GlycoComplex::stop, (asked, StopEvent::Requested), first),
        first == (StopAction::StopTransport { was_started }),
        old(ended)@ == final(asked)@,
        call_ensures(
            GlycoComplex::stop,
            (ended, StopEvent::TransportStopped { was_started, outcome }),
            second,
        ),
    ensures
        was_started == old(asked)@.started,
        final(asked)@ == (NodeState { started: false, ..old(asked)@ }),
        second == StopAction::Done(outcome),
        !final(ended)@.started,
        old(asked)@.started ==> {
            &&& final(ended)@.presenters.dom() == Set::<Seq<char>>::empty()
            &&& final(ended)@.pending == Set::<u128>::empty()
            &&& final(ended)@ == (NodeState {
                started: false,
                presenters: final(ended)@.presenters,
                pending: final(ended)@.pending,
                ..old(asked)@
            })
        },
        !old(asked)@.started ==> final(ended)@ == old(asked)@,
{
    assert(Map::<Seq<char>, PresenterRecord>::empty().dom() =~= Set::<Seq<char>>::empty());
}

/// A request to stop always asks for the transport to be stopped.
pub proof fn law_stop_asks_for_the_transport(node: &mut GlycoComplex, action: StopAction)
    requires
        old(node).wf(),
        call_ensures(GlycoComplex::stop, (node, StopEvent::Requested), action),
    ensures
        action == (StopAction::StopTransport { was_started: old(node)@.started }),
{
}

/// A builder makes a node as it was told, and otherwise as usual: it waits thirty seconds for
/// replies, tells of its own discovery, lets sixty-four handlers run at once and makes its own
/// transport.
pub proof fn law_builder_begins(id: &str, builder: GlycoComplexBuilder)
    requires
        call_ensures(GlycoComplex::builder, (id,), builder),
    ensures
        builder@.id == id@,
        builder@.vendor is None,
        builder@.connexon is None,
        builder@.query_timeout matches Some(timeout) && duration_nanos(timeout) == 30_000_000_000,
        builder@.loopback_presenter,
        builder@.max_running == 64,
{
}

/// The same of a builder that is made by its own name.
pub proof fn law_builder_new(id: &str, builder: GlycoComplexBuilder)
    requires
        call_ensures(GlycoComplexBuilder::new, (id,), builder),
    ensures
        builder@.id == id@,
        builder@.vendor is None,
        builder@.connexon is None,
        builder@.query_timeout matches Some(timeout) && duration_nanos(timeout) == 30_000_000_000,
        builder@.loopback_presenter,
        builder@.max_running == 64,
{
}

/// What is told to a builder, and only that, is kept: the last word on each setting stands, whatever
/// else is set after it. At least one handler may run.
pub proof fn law_builder_keeps_settings(
    begun: GlycoComplexBuilder,
    vendor: &str,
    with_vendor: GlycoComplexBuilder,
    timeout: Option<Duration>,
    with_timeout: GlycoComplexBuilder,
    enabled: bool,
    with_loopback: GlycoComplexBuilder,
    maximum: usize,
    with_maximum: GlycoComplexBuilder,
    connexon: &str,
    with_connexon: GlycoComplexBuilder,
)
    requires
        begun.wf(),
        call_ensures(GlycoComplexBuilder::vendor, (begun, vendor), with_vendor),
        call_ensures(GlycoComplexBuilder::query_timeout, (with_vendor, timeout), with_timeout),
        call_ensures(
            GlycoComplexBuilder::loopback_presenter,
            (with_timeout, enabled),
            with_loopback,
        ),
        call_ensures(
            GlycoComplexBuilder::max_concurrent_handlers,
            (with_loopback, maximum),
            with_maximum,
        ),
        call_ensures(GlycoComplexBuilder::connexon, (with_maximum, connexon), with_connexon),
    ensures
        with_connexon@.id == begun@.id,
        with_connexon@.vendor == Some(vendor@),
        with_connexon@.query_timeout == timeout,
        with_connexon@.loopback_presenter == enabled,
        with_connexon@.max_running >= 1,
        maximum >= 1 ==> with_connexon@.max_running == maximum,
        maximum == 0 ==> with_connexon@.max_running == 1,
        with_connexon@.connexon == Some(connexon@),
        with_vendor@.loopback_presenter == begun@.loopback_presenter,
        with_vendor@.query_timeout == begun@.query_timeout,
        with_vendor@.max_running == begun@.max_running,
        with_vendor@.connexon == begun@.connexon,
        with_maximum@.connexon == begun@.connexon,
{
}

/// A node is made with what the builder was told: not started, without fields, listeners, present
/// nodes and awaited replies. Over a given transport it is made exactly if the transport has the id of
/// the node; without one it brings its own, for its id and in the common directory.
pub proof fn law_build(
    builder: GlycoComplexBuilder,
    temporary: &PathBuf,
    built: Result<(GlycoComplex, Option<UnixDomainMeshConnexon>), GlycoError>,
    id: &str,
    allowed: Result<(), GlycoError>,
)
    requires
        builder.wf(),
        call_ensures(GlycoComplexBuilder::build, (builder, temporary), built),
        id@ == builder@.id,
        call_ensures(validate_node_id, (id,), allowed),
    ensures
        built matches Ok((node, own)) ==> {
            &&& node@.id == builder@.id
            &&& node@.vendor == builder@.vendor
            &&& node@.query_timeout == builder@.query_timeout
            &&& node@.loopback_presenter == builder@.loopback_presenter
            &&& node@.max_running == builder@.max_running
            &&& node@.running == 0
            &&& !node@.started
            &&& node@.fields.methods == Map::<Seq<char>, RegisteredMethod>::empty()
            &&& node@.fields.events == Map::<Seq<char>, RegisteredEvent>::empty()
            &&& node@.handlers == Map::<(Seq<char>, Seq<char>), u64>::empty()
            &&& node@.presenters == Map::<Seq<char>, PresenterRecord>::empty()
            &&& node@.pending == Set::<u128>::empty()
            &&& own is None <==> builder@.connexon is Some
            &&& own matches Some(connexon) ==> {
                &&& connexon@.node_id == builder@.id
                &&& connexon@.socket_dir == path_joined(*temporary, "glycoprotein"@)
                &&& !connexon@.started
                &&& connexon@.peers == Map::<Seq<char>, u64>::empty()
            }
        },
        builder@.connexon matches Some(id) ==> (built is Ok <==> id == builder@.id),
        builder@.connexon is Some ==> (built matches Err(error) ==> (
        error matches GlycoError::InvalidNodeId(text) && text@ == "builder id '"@ + builder@.id
            + "' does not match connexon id '"@ + builder@.connexon->Some_0 + "'"@)),
        builder@.connexon is None && allowed is Err ==> (built matches Err(
            GlycoError::InvalidNodeId(id),
        ) && id@ == builder@.id),
        builder@.connexon is None && allowed is Ok ==> (built matches Err(error) ==> (
        error matches GlycoError::Io(failure) && failure.kind == IoErrorKind::InvalidInput)),
{
}

/// A node that is made by its id alone is made as a builder makes it that was told nothing more: if
/// its id is allowed and its socket path can be an address, with its own transport.
pub proof fn law_new_node(
    id: &str,
    temporary: &PathBuf,
    made: Result<(GlycoComplex, Option<UnixDomainMeshConnexon>), GlycoError>,
    allowed: Result<(), GlycoError>,
)
    requires
        call_ensures(GlycoComplex::new, (id, temporary), made),
        call_ensures(validate_node_id, (id,), allowed),
    ensures
        made matches Ok((node, own)) ==> {
            &&& allowed is Ok
            &&& node.wf()
            &&& node@.id == id@
            &&& node@.vendor is None
            &&& node@.query_timeout matches Some(wait) && duration_nanos(wait) == 30_000_000_000
            &&& node@.loopback_presenter
            &&& node@.max_running == 64
            &&& node@.running == 0
            &&& !node@.started
            &&& own matches Some(connexon) && connexon@.node_id == id@ && connexon@.socket_dir
                == path_joined(*temporary, "glycoprotein"@)
        },
        allowed is Err ==> (made matches Err(GlycoError::InvalidNodeId(text)) && text@ == id@),
        allowed is Ok ==> (made matches Err(error) ==> (error matches GlycoError::Io(failure)
            && failure.kind == IoErrorKind::InvalidInput)),
{
}

/// A transport that is made by its id alone has its socket in the common directory inside the
/// directory for temporary files, and one that is given a directory has it there.
pub proof fn law_new_transport(
    id: &str,
    temporary: &PathBuf,
    common: PathBuf,
    made: Result<UnixDomainMeshConnexon, GlycoError>,
    directory: PathBuf,
    placed: Result<UnixDomainMeshConnexon, GlycoError>,
    allowed: Result<(), GlycoError>,
)
    requires
        call_ensures(UnixDomainMeshConnexon::default_socket_directory, (temporary,), common),
        call_ensures(UnixDomainMeshConnexon::new, (id, temporary), made),
        call_ensures(UnixDomainMeshConnexon::with_socket_directory, (id, directory), placed),
        call_ensures(validate_node_id, (id,), allowed),
    ensures
        common == path_joined(*temporary, "glycoprotein"@),
        made matches Ok(mesh) ==> mesh.wf() && mesh@.node_id == id@ && mesh@.socket_dir == common
            && !mesh@.started && mesh@.peers == Map::<Seq<char>, u64>::empty(),
        placed matches Ok(mesh) ==> mesh.wf() && mesh@.node_id == id@ && mesh@.socket_dir
            == directory && !mesh@.started && mesh@.peers == Map::<Seq<char>, u64>::empty(),
        allowed is Err ==> (made matches Err(GlycoError::InvalidNodeId(text)) && text@ == id@) && (
        placed matches Err(GlycoError::InvalidNodeId(told)) && told@ == id@),
        allowed is Ok ==> (placed matches Err(error) ==> (error matches GlycoError::Io(failure)
            && failure.kind == IoErrorKind::InvalidInput)),
{
}

/// What is read of a node and of its transport is what they hold.
pub proof fn law_read_as_held(
    node: &GlycoComplex,
    id: &str,
    started: bool,
    revision: u64,
    mesh: &UnixDomainMeshConnexon,
    mesh_id: &str,
    directory: &PathBuf,
    longest: usize,
)
    requires
        call_ensures(GlycoComplex::id, (node,), id),
        call_ensures(GlycoComplex::is_started, (node,), started),
        call_ensures(GlycoComplex::beacon_revision, (node,), revision),
        mesh.wf(),
        call_ensures(UnixDomainMeshConnexon::node_id, (mesh,), mesh_id),
        call_ensures(UnixDomainMeshConnexon::socket_directory, (mesh,), directory),
        call_ensures(UnixDomainMeshConnexon::max_frame_length, (mesh,), longest),
    ensures
        id@ == node@.id,
        started == node@.started,
        revision == node@.revision,
        mesh_id@ == mesh@.node_id,
        *directory == mesh@.socket_dir,
        longest == 100_000_000,
{
}

/// A node that gives a sign of life every second stays present, for it may be silent for three; every
/// second it is looked for nodes that were silent too long, and every two for new socket files.
pub proof fn law_intervals()
    ensures
        HEARTBEAT_INTERVAL_MILLIS == 1_000,
        CLEANUP_INTERVAL_MILLIS == 1_000,
        DISCOVERY_INTERVAL_MILLIS == 2_000,
        PRESENTER_EXPIRY_NANOS == 3 * HEARTBEAT_INTERVAL_MILLIS * 1_000_000,
        ACCEPT_POLL_MILLIS == 20,
        INTERRUPT_POLL_MILLIS == 25,
        HANDSHAKE_TIMEOUT_MILLIS == 5_000,
        WRITE_TIMEOUT_MILLIS == 5_000,
{
}

/// A setting that is changed on a node is read back from it, and nothing else changes.
pub proof fn law_settings_read_back(
    node: &mut GlycoComplex,
    timeout: Option<Duration>,
    changed: &GlycoComplex,
    read: Option<Duration>,
)
    requires
        old(node).wf(),
        call_ensures(GlycoComplex::set_query_timeout, (node, timeout), ()),
        changed@ == final(node)@,
        call_ensures(GlycoComplex::query_timeout, (changed,), read),
    ensures
        read == timeout,
        final(node)@ == (NodeState { query_timeout: timeout, ..old(node)@ }),
{
}

/// Whether a node is to tell of its own discovery is read back as it was set, and nothing else
/// changes.
pub proof fn law_loopback_read_back(
    node: &mut GlycoComplex,
    enabled: bool,
    changed: &GlycoComplex,
    read: bool,
)
    requires
        old(node).wf(),
        call_ensures(GlycoComplex::set_loopback_presenter, (node, enabled), ()),
        changed@ == final(node)@,
        call_ensures(GlycoComplex::loopback_presenter, (changed,), read),
    ensures
        read == enabled,
        final(node)@ == (NodeState { loopback_presenter: enabled, ..old(node)@ }),
{
}

/// A vendor is read back as it was set.
pub proof fn law_vendor_read_back(
    node: &mut GlycoComplex,
    vendor: Option<String>,
    changed: &GlycoComplex,
    read: Option<String>,
)
    requires
        old(node).wf(),
        call_ensures(GlycoComplex::set_vendor, (node, vendor), ()),
        changed@ == final(node)@,
        call_ensures(GlycoComplex::vendor, (changed,), read),
    ensures
        read.deep_view() == vendor.deep_view(),
{
}

/// Calls wait thirty seconds unless told otherwise; what they are told about waiting and about giving
/// up is kept, each whatever is said of the other.
pub proof fn law_call_options(
    usual: CallOptions,
    timeout: Option<Duration>,
    timed: CallOptions,
    cancellation: CancellationToken,
    cancelled: CallOptions,
)
    requires
        call_ensures(<CallOptions as Default>::default, (), usual),
        call_ensures(CallOptions::with_timeout, (usual, timeout), timed),
        call_ensures(CallOptions::with_cancellation, (timed, cancellation), cancelled),
    ensures
        usual.timeout matches Some(wait) && duration_nanos(wait) == 30_000_000_000,
        timed.cancellation == usual.cancellation,
        cancelled.timeout == timeout,
        cancelled.cancellation == cancellation,
{
}

/// The announcing task counts ticks: with the fifth tick after a full beacon a full beacon is due
/// again, before that heartbeats; a change brings a full beacon at once and starts the count anew.
/// The count is never five, so a full beacon is never overdue.
pub proof fn law_schedule(
    schedule: &mut BeaconSchedule,
    trigger: BeaconTrigger,
    due: BeaconDue,
)
    requires
        old(schedule).wf(),
        call_ensures(BeaconSchedule::step, (schedule, trigger), due),
    ensures
        due == BeaconDue::Stop <==> trigger == BeaconTrigger::Cancelled || trigger
            == BeaconTrigger::ChangesClosed,
        due == BeaconDue::Heartbeat <==> trigger == BeaconTrigger::Tick && old(schedule)@ + 1 < 5,
        due == BeaconDue::FullBeacon ==> final(schedule)@ == 0,
        due == BeaconDue::Heartbeat ==> final(schedule)@ == old(schedule)@ + 1,
        due == BeaconDue::Stop ==> final(schedule)@ == old(schedule)@,
{
}

/// A task that has just begun has five ticks before it: its first four bring heartbeats and its fifth a
/// full beacon.
pub proof fn law_first_five_ticks(
    begun: BeaconSchedule,
    one: &mut BeaconSchedule,
    two: &mut BeaconSchedule,
    three: &mut BeaconSchedule,
    four: &mut BeaconSchedule,
    five: &mut BeaconSchedule,
    due: Seq<BeaconDue>,
)
    requires
        call_ensures(BeaconSchedule::new, (), begun),
        due.len() == 5,
        old(one).wf() && old(two).wf() && old(three).wf() && old(four).wf() && old(five).wf(),
        old(one)@ == begun@,
        call_ensures(BeaconSchedule::step, (one, BeaconTrigger::Tick), due[0]),
        old(two)@ == final(one)@,
        call_ensures(BeaconSchedule::step, (two, BeaconTrigger::Tick), due[1]),
        old(three)@ == final(two)@,
        call_ensures(BeaconSchedule::step, (three, BeaconTrigger::Tick), due[2]),
        old(four)@ == final(three)@,
        call_ensures(BeaconSchedule::step, (four, BeaconTrigger::Tick), due[3]),
        old(five)@ == final(four)@,
        call_ensures(BeaconSchedule::step, (five, BeaconTrigger::Tick), due[4]),
    ensures
        due[0] == BeaconDue::Heartbeat,
        due[1] == BeaconDue::Heartbeat,
        due[2] == BeaconDue::Heartbeat,
        due[3] == BeaconDue::Heartbeat,
        due[4] == BeaconDue::FullBeacon,
        final(five)@ == begun@,
{
}

/// A method that is put together piece by piece has each piece as it was given, whatever is said
/// after it.
pub proof fn law_method_field_put_together(
    id: &str,
    begun: MethodField,
    name: &str,
    named: MethodField,
    description: &str,
    described: MethodField,
    query: Value,
    asking: MethodField,
    receipt: Value,
    whole: MethodField,
)
    requires
        call_ensures(MethodField::new, (id,), begun),
        call_ensures(MethodField::friendly_name, (begun, name), named),
        call_ensures(MethodField::description, (named, description), described),
        call_ensures(MethodField::query_schema, (described, query), asking),
        call_ensures(MethodField::receipt_schema, (asking, receipt), whole),
    ensures
        begun.friendly_name is None && begun.description is None && begun.query_schema is None
            && begun.receipt_schema is None,
        named.description is None && named.query_schema is None,
        described.query_schema is None && described.receipt_schema is None,
        asking.receipt_schema is None,
        whole.id@ == id@,
        whole.friendly_name matches Some(text) && text@ == name@,
        whole.description matches Some(text) && text@ == description@,
        whole.query_schema == Some(query),
        whole.receipt_schema == Some(receipt),
{
}

/// An event that is put together piece by piece has each piece as it was given.
pub proof fn law_event_field_put_together(
    id: &str,
    begun: EventField,
    name: &str,
    named: EventField,
    description: &str,
    described: EventField,
    schema: Value,
    whole: EventField,
)
    requires
        call_ensures(EventField::new, (id,), begun),
        call_ensures(EventField::friendly_name, (begun, name), named),
        call_ensures(EventField::description, (named, description), described),
        call_ensures(EventField::call_arg_schema, (described, schema), whole),
    ensures
        begun.friendly_name is None && begun.description is None && begun.call_arg_schema is None,
        named.description is None && described.call_arg_schema is None,
        whole.id@ == id@,
        whole.friendly_name matches Some(text) && text@ == name@,
        whole.description matches Some(text) && text@ == description@,
        whole.call_arg_schema == Some(schema),
{
}

/// A method is an action if it takes no argument and gives no result, and can be called without an
/// argument if it takes none.
pub proof fn law_actions(field: &MethodField, action: bool, actable: bool)
    requires
        call_ensures(MethodField::is_action, (field,), action),
        call_ensures(MethodField::is_actable, (field,), actable),
    ensures
        action <==> actable && field.receipt_schema is None,
        actable <==> field.query_schema is None,
{
}

/// A query carries who calls, whom, what, and with which argument, under the id that it was given.
pub proof fn law_query_made(
    gid: &str,
    source: &str,
    fid: &str,
    payload: Option<Value>,
    qid: u128,
    query: Query,
    fresh: Query,
)
    requires
        call_ensures(Query::with_qid, (gid, source, fid, payload, qid), query),
        call_ensures(Query::new, (gid, source, fid, payload), fresh),
    ensures
        query.qid == qid,
        query.gid@ == gid@ && fresh.gid@ == gid@,
        query.source_gid.deep_view() == Some(source@),
        fresh.source_gid.deep_view() == Some(source@),
        query.fid@ == fid@ && fresh.fid@ == fid@,
        query.payload == payload && fresh.payload == payload,
{
}

/// A beacon carries the id and the fields that it was given, in version 1 of the protocol.
pub proof fn law_beacon_made(id: &str, fields: Vec<Field>, beacon: Beacon)
    requires
        call_ensures(Beacon::new, (id, fields), beacon),
    ensures
        beacon.id@ == id@,
        beacon.fields == fields,
        beacon.vendor is None,
        beacon.protocol_version == Some(1i32),
{
}

/// A beacon at a given time carries that time, and otherwise what every beacon carries.
pub proof fn law_beacon_at(id: &str, fields: Vec<Field>, time: NaiveDateTime, beacon: Beacon)
    requires
        call_ensures(Beacon::at, (id, fields, time), beacon),
    ensures
        beacon.id@ == id@,
        beacon.fields == fields,
        beacon.timestamp == time,
        beacon.vendor is None,
        beacon.protocol_version == Some(1i32),
{
}

/// A query is for the node that it calls, a reply for the node that called, if it names one, and every
/// other message for all.
pub proof fn law_receiver(message: &Glycosyl, receiver: Option<&str>)
    requires
        call_ensures(Glycosyl::receiver, (message,), receiver),
    ensures
        *message matches Glycosyl::Query(query) ==> (receiver matches Some(gid) && gid@
            == query.gid@),
        *message matches Glycosyl::Reply(reply) ==> (match reply.target_gid {
            Some(target) => receiver matches Some(gid) && gid@ == target@,
            None => receiver is None,
        }),
        *message is Beacon || *message is Event || *message is Heartbeat ==> receiver is None,
{
}

} // verus!
