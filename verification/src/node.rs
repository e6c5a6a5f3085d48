//! A node of the mesh: what it offers, what it listens to, who it knows, and the calls that it
//! makes and answers.
//!
//! Tasks, channels and clocks belong to the program around the library. It reports what happened,
//! and the functions here say what follows.
use crate::calls::{
    call_result, default_timeout, is_call_result, is_default_timeout, CallOptions, CallOutcome,
    PendingCall, RequestContext,
};
use crate::error::{wrapped, GlycoError, HandlerError, IoErrorKind, RemoteError};
use crate::fields::{Fields, FieldsState};
use crate::handlers::{handler_for, EventHandlers};
use crate::identity::valid_node_id;
use crate::mesh::{MeshState, UnixDomainMeshConnexon};
use crate::outside::{
    is_random_uuid, path_joined, random_uuid, same_type, schema_errors, schema_verdict,
};
use crate::presence::{
    after_beacon, after_expiry, after_heartbeat, beacon_told, looked_up, method_found,
    PresenterEvent, PresenterRecord, Presenters,
};
use crate::protocol::{
    Beacon, Event, EventField, Field, Glycosyl, Heartbeat, MethodField, Query, Reply,
    PROTOCOL_VERSION,
};
use crate::registry::ascending;
use crate::schedule::BeaconDue;
use crate::schema::{is_validation_outcome, validation_outcome, verdict_view};
use crate::text::same_text;
use crate::transport::ConnexonEvent;
use crate::typed::typed_json;
use serde_json::Value;
use std::any::TypeId;
use std::collections::HashSet;
use std::path::PathBuf;
use std::time::Duration;
use tokio_util::sync::CancellationToken;
use vstd::prelude::*;
use vstd::string::*;

verus! {

broadcast use vstd::std_specs::hash::group_hash_axioms;

/// How many handlers run at once unless told otherwise.
pub const DEFAULT_MAX_CONCURRENT_HANDLERS: usize = 64;

/// The state of a node.
#[verifier::ext_equal]
pub struct NodeState {
    pub id: Seq<char>,
    pub vendor: Option<Seq<char>>,
    pub fields: FieldsState,
    /// The handlers for the events of other nodes, by node and field.
    pub handlers: Map<(Seq<char>, Seq<char>), u64>,
    pub presenters: Map<Seq<char>, PresenterRecord>,
    /// The ids of the queries whose replies are awaited.
    pub pending: Set<u128>,
    pub started: bool,
    pub query_timeout: Option<Duration>,
    pub loopback_presenter: bool,
    /// How many handlers run, and how many may.
    pub running: nat,
    pub max_running: nat,
    /// How often what the node announces has changed.
    pub revision: u64,
}

impl NodeState {
    /// The node with another number of changes to what it announces.
    pub open spec fn changed(self) -> NodeState {
        NodeState { revision: self.revision.wrapping_add(1), ..self }
    }

    /// The node with other fields to announce.
    pub open spec fn announcing(self, fields: FieldsState) -> NodeState {
        NodeState { fields, ..self.changed() }
    }

    /// The node with other present nodes.
    pub open spec fn knowing(self, presenters: Map<Seq<char>, PresenterRecord>) -> NodeState {
        NodeState { presenters, ..self }
    }

    /// The node waiting for one more reply.
    pub open spec fn awaiting(self, qid: u128) -> NodeState {
        NodeState { pending: self.pending.insert(qid), ..self }
    }

    /// The node no longer waiting for a reply.
    pub open spec fn not_awaiting(self, qid: u128) -> NodeState {
        NodeState { pending: self.pending.remove(qid), ..self }
    }

    /// The node started, or not.
    pub open spec fn running_as(self, started: bool) -> NodeState {
        NodeState { started, ..self }
    }

    /// The node after a stop: nobody is present and no reply is awaited.
    pub open spec fn forgetful(self) -> NodeState {
        NodeState { presenters: Map::empty(), pending: Set::empty(), ..self }
    }

    /// The node with one more handler running.
    pub open spec fn handler_begun(self) -> NodeState {
        NodeState { running: self.running + 1, ..self }
    }

    /// The node with one handler less running.
    pub open spec fn handler_done(self) -> NodeState {
        NodeState {
            running: if self.running > 0 {
                (self.running - 1) as nat
            } else {
                0
            },
            ..self
        }
    }

    /// A beacon that announces the node.
    pub open spec fn announced_by(self, beacon: Beacon) -> bool {
        &&& beacon.id@ == self.id
        &&& beacon.vendor.deep_view() == self.vendor
        &&& beacon.protocol_version == Some(PROTOCOL_VERSION)
        &&& self.fields.listed(beacon.fields@)
    }
}

/// How a node is to be made.
#[verifier::ext_equal]
pub struct BuilderState {
    pub id: Seq<char>,
    pub vendor: Option<Seq<char>>,
    /// The id of the transport that the node is given, if it is given one.
    pub connexon: Option<Seq<char>>,
    pub query_timeout: Option<Duration>,
    pub loopback_presenter: bool,
    pub max_running: nat,
}

impl BuilderState {
    /// Whether the ids let a node be made: that of a given transport is the node's own, and without
    /// one the node's id is valid.
    pub open spec fn reaches_node(self) -> bool {
        match self.connexon {
            Some(id) => id == self.id,
            None => valid_node_id(self.id),
        }
    }

    /// The node that is made.
    pub open spec fn node(self) -> NodeState {
        NodeState {
            id: self.id,
            vendor: self.vendor,
            fields: FieldsState::empty(),
            handlers: Map::empty(),
            presenters: Map::empty(),
            pending: Set::empty(),
            started: false,
            query_timeout: self.query_timeout,
            loopback_presenter: self.loopback_presenter,
            running: 0,
            max_running: self.max_running,
            revision: 0,
        }
    }
}

/// How a node is to be made.
#[derive(Debug)]
pub struct GlycoComplexBuilder {
    id: String,
    vendor: Option<String>,
    connexon: Option<String>,
    query_timeout: Option<Duration>,
    loopback_presenter: bool,
    max_concurrent_handlers: usize,
}

impl View for GlycoComplexBuilder {
    type V = BuilderState;

    closed spec fn view(&self) -> BuilderState {
        BuilderState {
            id: self.id@,
            vendor: self.vendor.deep_view(),
            connexon: self.connexon.deep_view(),
            query_timeout: self.query_timeout,
            loopback_presenter: self.loopback_presenter,
            max_running: self.max_concurrent_handlers as nat,
        }
    }
}

impl GlycoComplexBuilder {
    /// What every builder keeps: at least one handler may run.
    pub closed spec fn wf(self) -> bool {
        self.max_concurrent_handlers >= 1
    }

    /// A node with an id, and everything else as usual.
    pub fn new(id: &str) -> (builder: Self)
        ensures
            builder.wf(),
            is_default_timeout(builder@.query_timeout),
            builder@ == (BuilderState {
                id: id@,
                vendor: None,
                connexon: None,
                query_timeout: builder@.query_timeout,
                loopback_presenter: true,
                max_running: DEFAULT_MAX_CONCURRENT_HANDLERS as nat,
            }),
    {
        GlycoComplexBuilder {
            id: id.to_owned(),
            vendor: None,
            connexon: None,
            query_timeout: default_timeout(),
            loopback_presenter: true,
            max_concurrent_handlers: DEFAULT_MAX_CONCURRENT_HANDLERS,
        }
    }

    /// The node with a vendor.
    pub fn vendor(self, vendor: &str) -> (builder: Self)
        requires
            self.wf(),
        ensures
            builder.wf(),
            builder@ == (BuilderState { vendor: Some(vendor@), ..self@ }),
    {
        GlycoComplexBuilder { vendor: Some(vendor.to_owned()), ..self }
    }

    /// The node over a transport of its own, by the id of that transport.
    pub fn connexon(self, node_id: &str) -> (builder: Self)
        requires
            self.wf(),
        ensures
            builder.wf(),
            builder@ == (BuilderState { connexon: Some(node_id@), ..self@ }),
    {
        GlycoComplexBuilder { connexon: Some(node_id.to_owned()), ..self }
    }

    /// The node with another time to wait for replies.
    pub fn query_timeout(self, timeout: Option<Duration>) -> (builder: Self)
        requires
            self.wf(),
        ensures
            builder.wf(),
            builder@ == (BuilderState { query_timeout: timeout, ..self@ }),
    {
        GlycoComplexBuilder { query_timeout: timeout, ..self }
    }

    /// The node that tells of its own discovery, or does not.
    pub fn loopback_presenter(self, enabled: bool) -> (builder: Self)
        requires
            self.wf(),
        ensures
            builder.wf(),
            builder@ == (BuilderState { loopback_presenter: enabled, ..self@ }),
    {
        GlycoComplexBuilder { loopback_presenter: enabled, ..self }
    }

    /// The node with another number of handlers that may run at once; at least one may.
    pub fn max_concurrent_handlers(self, maximum: usize) -> (builder: Self)
        requires
            self.wf(),
        ensures
            builder.wf(),
            builder@ == (BuilderState {
                max_running: if maximum >= 1 {
                    maximum as nat
                } else {
                    1
                },
                ..self@
            }),
    {
        let max_concurrent_handlers: usize = if maximum >= 1 {
            maximum
        } else {
            1
        };
        GlycoComplexBuilder { max_concurrent_handlers, ..self }
    }

    /// The node, and a transport for it where it was given none. A transport with another id than
    /// the node's is refused.
    pub fn build(self, temporary: &PathBuf) -> (built: Result<
        (GlycoComplex, Option<UnixDomainMeshConnexon>),
        GlycoError,
    >)
        requires
            self.wf(),
            self@.reaches_node() ==> self@.max_running <= usize::MAX as nat / 8,
        ensures
            match (self@.connexon, built) {
                (Some(id), Ok((node, own))) => {
                    &&& id == self@.id
                    &&& own is None
                    &&& node.wf()
                    &&& node@ == self@.node()
                },
                (Some(id), Err(error)) => {
                    &&& id != self@.id
                    &&& error matches GlycoError::InvalidNodeId(text) && text@ == "builder id '"@
                        + self@.id + "' does not match connexon id '"@ + id + "'"@
                },
                (None, Ok((node, own))) => {
                    &&& valid_node_id(self@.id)
                    &&& own matches Some(connexon) && connexon.wf() && connexon@
                        == MeshState::initial(
                        self@.id,
                        path_joined(*temporary, "glycoprotein"@),
                    )
                    &&& node.wf()
                    &&& node@ == self@.node()
                },
                (None, Err(error)) => if !valid_node_id(self@.id) {
                    error matches GlycoError::InvalidNodeId(id) && id@ == self@.id
                } else {
                    error matches GlycoError::Io(failure) && failure.kind
                        == IoErrorKind::InvalidInput && failure.os_code is None
                },
            },
    {
        let own = match &self.connexon {
            Some(connexon_id) => {
                if !same_text(connexon_id.as_str(), self.id.as_str()) {
                    let mut text = wrapped(
                        "builder id '",
                        self.id.as_str(),
                        "' does not match connexon id '",
                    );
                    text.append(connexon_id.as_str());
                    text.append("'");
                    return Err(GlycoError::InvalidNodeId(text));
                }
                None
            },
            None => match UnixDomainMeshConnexon::new(self.id.as_str(), temporary) {
                Ok(connexon) => Some(connexon),
                Err(error) => return Err(error),
            },
        };
        let node = GlycoComplex {
            id: self.id,
            vendor: self.vendor,
            fields: Fields::new(),
            handlers: EventHandlers::new(),
            presenters: Presenters::new(),
            pending: HashSet::new(),
            started: false,
            query_timeout: self.query_timeout,
            loopback_presenter: self.loopback_presenter,
            running_handlers: 0,
            max_concurrent_handlers: self.max_concurrent_handlers,
            beacon_revision: 0,
        };
        assert(node@ =~= self@.node());
        Ok((node, own))
    }
}

/// A node of the mesh.
#[derive(Debug)]
pub struct GlycoComplex {
    id: String,
    vendor: Option<String>,
    fields: Fields,
    handlers: EventHandlers,
    presenters: Presenters,
    pending: HashSet<u128>,
    started: bool,
    query_timeout: Option<Duration>,
    loopback_presenter: bool,
    running_handlers: usize,
    max_concurrent_handlers: usize,
    beacon_revision: u64,
}

impl View for GlycoComplex {
    type V = NodeState;

    closed spec fn view(&self) -> NodeState {
        NodeState {
            id: self.id@,
            vendor: self.vendor.deep_view(),
            fields: self.fields@,
            handlers: self.handlers@,
            presenters: self.presenters@,
            pending: self.pending@,
            started: self.started,
            query_timeout: self.query_timeout,
            loopback_presenter: self.loopback_presenter,
            running: self.running_handlers as nat,
            max_running: self.max_concurrent_handlers as nat,
            revision: self.beacon_revision,
        }
    }
}

impl GlycoComplex {
    /// What every node keeps: its parts are well formed, each field id is taken once, every present
    /// node stands under its own id, and no more handlers run than may.
    pub closed spec fn wf(self) -> bool {
        &&& self.fields.wf()
        &&& self.handlers.wf()
        &&& self.presenters.wf()
        &&& self.running_handlers <= self.max_concurrent_handlers
        &&& self.max_concurrent_handlers >= 1
    }

    /// The ids of the present nodes in ascending order.
    pub closed spec fn presenter_order(self) -> Seq<Seq<char>> {
        self.presenters.order()
    }

    /// The ids of the nodes that were not heard of for too long, in ascending order.
    pub closed spec fn expired_ids(self, now: u128) -> Seq<Seq<char>> {
        self.presenters.expired_ids(now)
    }

    /// What holds of every node, whatever was done with it.
    pub proof fn law_invariant(self, now: u128)
        requires
            self.wf(),
        ensures
            self@.fields.ids_unique(),
            self@.running <= self@.max_running,
            self@.max_running >= 1,
            forall|id: Seq<char>| #[trigger]
                self@.presenters.contains_key(id) ==> self@.presenters[id].beacon.id@ == id,
            ascending(self.presenter_order()),
            self.presenter_order().to_set() == self@.presenters.dom(),
            ascending(self.expired_ids(now)),
            forall|id: Seq<char>| #[trigger]
                self.expired_ids(now).contains(id) <==> self@.presenters.contains_key(id)
                    && self@.presenters[id].is_expired(now),
    {
        self.fields.lemma_unique();
        self.presenters.lemma_order();
        self.presenters.lemma_expired_ids(now);
    }

    /// A builder for a node with an id.
    pub fn builder(id: &str) -> (builder: GlycoComplexBuilder)
        ensures
            builder.wf(),
            is_default_timeout(builder@.query_timeout),
            builder@ == (BuilderState {
                id: id@,
                vendor: None,
                connexon: None,
                query_timeout: builder@.query_timeout,
                loopback_presenter: true,
                max_running: DEFAULT_MAX_CONCURRENT_HANDLERS as nat,
            }),
    {
        GlycoComplexBuilder::new(id)
    }

    /// A node with an id, and everything else as usual.
    pub fn new(id: &str, temporary: &PathBuf) -> (built: Result<
        (GlycoComplex, Option<UnixDomainMeshConnexon>),
        GlycoError,
    >)
        ensures
            match built {
                Ok((node, own)) => {
                    &&& valid_node_id(id@)
                    &&& own matches Some(connexon) && connexon.wf() && connexon@
                        == MeshState::initial(id@, path_joined(*temporary, "glycoprotein"@))
                    &&& node.wf()
                    &&& is_default_timeout(node@.query_timeout)
                    &&& node@ == (BuilderState {
                        id: id@,
                        vendor: None,
                        connexon: None,
                        query_timeout: node@.query_timeout,
                        loopback_presenter: true,
                        max_running: DEFAULT_MAX_CONCURRENT_HANDLERS as nat,
                    }).node()
                },
                Err(error) => if !valid_node_id(id@) {
                    error matches GlycoError::InvalidNodeId(text) && text@ == id@
                } else {
                    error matches GlycoError::Io(failure) && failure.kind
                        == IoErrorKind::InvalidInput && failure.os_code is None
                },
            },
    {
        GlycoComplex::builder(id).build(temporary)
    }

    /// The id of the node.
    pub fn id(&self) -> (id: &str)
        ensures
            id@ == self@.id,
    {
        self.id.as_str()
    }

    /// Whether the node is started.
    pub fn is_started(&self) -> (started: bool)
        ensures
            started == self@.started,
    {
        self.started
    }

    /// The vendor of the node.
    pub fn vendor(&self) -> (vendor: Option<String>)
        ensures
            vendor.deep_view() == self@.vendor,
    {
        self.vendor.clone()
    }

    /// Sets the vendor of the node.
    pub fn set_vendor(&mut self, vendor: Option<String>)
        requires
            old(self).wf(),
        ensures
            final(self).wf(),
            final(self)@ == (NodeState { vendor: vendor.deep_view(), ..old(self)@.changed() }),
    {
        self.vendor = vendor;
        self.mark_beacon_changed();
    }

    /// How long calls wait for their replies.
    pub fn query_timeout(&self) -> (timeout: Option<Duration>)
        ensures
            timeout == self@.query_timeout,
    {
        self.query_timeout
    }

    /// Sets how long calls wait for their replies.
    pub fn set_query_timeout(&mut self, timeout: Option<Duration>)
        requires
            old(self).wf(),
        ensures
            final(self).wf(),
            final(self)@ == (NodeState { query_timeout: timeout, ..old(self)@ }),
    {
        self.query_timeout = timeout;
    }

    /// Whether the node tells of its own discovery.
    pub fn loopback_presenter(&self) -> (enabled: bool)
        ensures
            enabled == self@.loopback_presenter,
    {
        self.loopback_presenter
    }

    /// Sets whether the node tells of its own discovery.
    pub fn set_loopback_presenter(&mut self, enabled: bool)
        requires
            old(self).wf(),
        ensures
            final(self).wf(),
            final(self)@ == (NodeState { loopback_presenter: enabled, ..old(self)@ }),
    {
        self.loopback_presenter = enabled;
    }

    /// The beacons of the present nodes in ascending order of their ids.
    pub fn presenters(&self) -> (beacons: Vec<Beacon>)
        requires
            self.wf(),
        ensures
            beacons@.len() == self.presenter_order().len(),
            forall|i: int|
                0 <= i < beacons@.len() ==> (#[trigger] beacons@[i]).same_as(
                    self@.presenters[self.presenter_order()[i]].beacon,
                ),
    {
        self.presenters.beacons()
    }

    /// Counts a change to what the node announces.
    fn mark_beacon_changed(&mut self)
        requires
            old(self).wf(),
        ensures
            final(self).wf(),
            final(self)@ == old(self)@.changed(),
    {
        self.beacon_revision = self.beacon_revision.wrapping_add(1);
    }

    /// How often what the node announces has changed.
    pub fn beacon_revision(&self) -> (revision: u64)
        ensures
            revision == self@.revision,
    {
        self.beacon_revision
    }

    /// Has the node announced anew.
    pub fn refresh_beacon(&mut self)
        requires
            old(self).wf(),
        ensures
            final(self).wf(),
            final(self)@ == old(self)@.changed(),
    {
        self.mark_beacon_changed();
    }
}

/// The outcome of the registration of a method: it is announced from now on, unless its id is taken.
pub open spec fn method_registered(
    before: NodeState,
    after: NodeState,
    field: MethodField,
    handler: u64,
    outcome: Result<(), GlycoError>,
) -> bool {
    if before.fields.taken(field.id@) {
        after == before && (outcome matches Err(GlycoError::DuplicateField(id)) && id == field.id)
    } else {
        after == before.announcing(before.fields.with_method(field, handler)) && outcome is Ok
    }
}

/// The outcome of the registration of an event: it is announced from now on, unless its id is taken.
pub open spec fn event_registered(
    before: NodeState,
    after: NodeState,
    field: EventField,
    argument_type: Option<TypeId>,
    outcome: Result<(), GlycoError>,
) -> bool {
    if before.fields.taken(field.id@) {
        after == before && (outcome matches Err(GlycoError::DuplicateField(id)) && id == field.id)
    } else {
        after == before.announcing(before.fields.with_event(field, argument_type)) && outcome is Ok
    }
}

/// The schema of a field: the one that it has, or else the generated one.
pub open spec fn chosen_schema(
    own: Option<Value>,
    generated: Result<Value, GlycoError>,
) -> Result<Value, GlycoError> {
    match own {
        Some(schema) => Ok(schema),
        None => generated,
    }
}

fn choose_schema(own: Option<Value>, generated: Result<Value, GlycoError>) -> (schema: Result<
    Value,
    GlycoError,
>)
    ensures
        schema == chosen_schema(own, generated),
{
    match own {
        Some(schema) => Ok(schema),
        None => generated,
    }
}

impl GlycoComplex {
    /// Registers a method as it is.
    pub fn register_raw_function(&mut self, field: MethodField, handler: u64) -> (outcome: Result<
        (),
        GlycoError,
    >)
        requires
            old(self).wf(),
        ensures
            final(self).wf(),
            method_registered(old(self)@, final(self)@, field, handler, outcome),
    {
        match self.fields.insert_method(field, handler) {
            Ok(_) => {
                self.mark_beacon_changed();
                Ok(())
            },
            Err(error) => Err(error),
        }
    }

    /// Registers a method with an argument and a result. A schema that it lacks is taken from the
    /// generated ones; where that failed, nothing is registered.
    pub fn register_function(
        &mut self,
        field: MethodField,
        query_schema: Result<Value, GlycoError>,
        receipt_schema: Result<Value, GlycoError>,
        handler: u64,
    ) -> (outcome: Result<(), GlycoError>)
        requires
            old(self).wf(),
        ensures
            final(self).wf(),
            match (
                chosen_schema(field.query_schema, query_schema),
                chosen_schema(field.receipt_schema, receipt_schema),
            ) {
                (Err(error), _) => final(self)@ == old(self)@ && outcome == Err::<(), GlycoError>(
                    error,
                ),
                (_, Err(error)) => final(self)@ == old(self)@ && outcome == Err::<(), GlycoError>(
                    error,
                ),
                (Ok(query), Ok(receipt)) => method_registered(
                    old(self)@,
                    final(self)@,
                    MethodField {
                        query_schema: Some(query),
                        receipt_schema: Some(receipt),
                        ..field
                    },
                    handler,
                    outcome,
                ),
            },
    {
        let MethodField {
            id,
            friendly_name,
            description,
            query_schema: own_query,
            receipt_schema: own_receipt,
        } = field;
        let query = match choose_schema(own_query, query_schema) {
            Ok(schema) => schema,
            Err(error) => return Err(error),
        };
        let receipt = match choose_schema(own_receipt, receipt_schema) {
            Ok(schema) => schema,
            Err(error) => return Err(error),
        };
        self.register_raw_function(
            MethodField {
                id,
                friendly_name,
                description,
                query_schema: Some(query),
                receipt_schema: Some(receipt),
            },
            handler,
        )
    }

    /// Registers a method with a result and without an argument.
    pub fn register_query(
        &mut self,
        field: MethodField,
        receipt_schema: Result<Value, GlycoError>,
        handler: u64,
    ) -> (outcome: Result<(), GlycoError>)
        requires
            old(self).wf(),
        ensures
            final(self).wf(),
            match chosen_schema(field.receipt_schema, receipt_schema) {
                Err(error) => final(self)@ == old(self)@ && outcome == Err::<(), GlycoError>(error),
                Ok(receipt) => method_registered(
                    old(self)@,
                    final(self)@,
                    MethodField { query_schema: None, receipt_schema: Some(receipt), ..field },
                    handler,
                    outcome,
                ),
            },
    {
        let MethodField {
            id,
            friendly_name,
            description,
            query_schema: _,
            receipt_schema: own_receipt,
        } = field;
        match choose_schema(own_receipt, receipt_schema) {
            Ok(receipt) => self.register_raw_function(
                MethodField {
                    id,
                    friendly_name,
                    description,
                    query_schema: None,
                    receipt_schema: Some(receipt),
                },
                handler,
            ),
            Err(error) => Err(error),
        }
    }

    /// Registers a method without an argument and without a result.
    pub fn register_action(&mut self, field: MethodField, handler: u64) -> (outcome: Result<
        (),
        GlycoError,
    >)
        requires
            old(self).wf(),
        ensures
            final(self).wf(),
            method_registered(
                old(self)@,
                final(self)@,
                MethodField { query_schema: None, receipt_schema: None, ..field },
                handler,
                outcome,
            ),
    {
        self.register_raw_function(
            MethodField { query_schema: None, receipt_schema: None, ..field },
            handler,
        )
    }

    /// Registers a method with an argument and without a result.
    pub fn register_action_with(
        &mut self,
        field: MethodField,
        query_schema: Result<Value, GlycoError>,
        handler: u64,
    ) -> (outcome: Result<(), GlycoError>)
        requires
            old(self).wf(),
        ensures
            final(self).wf(),
            match chosen_schema(field.query_schema, query_schema) {
                Err(error) => final(self)@ == old(self)@ && outcome == Err::<(), GlycoError>(error),
                Ok(query) => method_registered(
                    old(self)@,
                    final(self)@,
                    MethodField { query_schema: Some(query), receipt_schema: None, ..field },
                    handler,
                    outcome,
                ),
            },
    {
        let MethodField {
            id,
            friendly_name,
            description,
            query_schema: own_query,
            receipt_schema: _,
        } = field;
        match choose_schema(own_query, query_schema) {
            Ok(query) => self.register_raw_function(
                MethodField {
                    id,
                    friendly_name,
                    description,
                    query_schema: Some(query),
                    receipt_schema: None,
                },
                handler,
            ),
            Err(error) => Err(error),
        }
    }

    /// Registers an event with an argument of a given type.
    pub fn register_event(
        &mut self,
        field: EventField,
        call_arg_schema: Result<Value, GlycoError>,
        argument_type: TypeId,
    ) -> (outcome: Result<(), GlycoError>)
        requires
            old(self).wf(),
        ensures
            final(self).wf(),
            match chosen_schema(field.call_arg_schema, call_arg_schema) {
                Err(error) => final(self)@ == old(self)@ && outcome == Err::<(), GlycoError>(error),
                Ok(schema) => event_registered(
                    old(self)@,
                    final(self)@,
                    EventField { call_arg_schema: Some(schema), ..field },
                    Some(argument_type),
                    outcome,
                ),
            },
    {
        let EventField { id, friendly_name, description, call_arg_schema: own_schema } = field;
        match choose_schema(own_schema, call_arg_schema) {
            Ok(schema) => self.insert_event(
                EventField { id, friendly_name, description, call_arg_schema: Some(schema) },
                Some(argument_type),
            ),
            Err(error) => Err(error),
        }
    }

    /// Registers an event without an argument.
    pub fn register_signal(&mut self, field: EventField) -> (outcome: Result<(), GlycoError>)
        requires
            old(self).wf(),
        ensures
            final(self).wf(),
            event_registered(
                old(self)@,
                final(self)@,
                EventField { call_arg_schema: None, ..field },
                None,
                outcome,
            ),
    {
        self.insert_event(EventField { call_arg_schema: None, ..field }, None)
    }

    fn insert_event(&mut self, field: EventField, argument_type: Option<TypeId>) -> (outcome:
        Result<(), GlycoError>)
        requires
            old(self).wf(),
        ensures
            final(self).wf(),
            event_registered(old(self)@, final(self)@, field, argument_type, outcome),
    {
        match self.fields.insert_event(field, argument_type) {
            Ok(_) => {
                self.mark_beacon_changed();
                Ok(())
            },
            Err(error) => Err(error),
        }
    }

    /// The handler of the method under an id.
    pub fn method_handler(&self, fid: &str) -> (handler: Option<u64>)
        requires
            self.wf(),
        ensures
            handler == (if self@.fields.methods.contains_key(fid@) {
                Some(self@.fields.methods[fid@].handler)
            } else {
                None
            }),
    {
        match self.fields.method(fid) {
            Some(method) => Some(method.handler),
            None => None,
        }
    }

    /// Removes a field, and says whether there was one.
    pub fn remove_field(&mut self, fid: &str) -> (removed: bool)
        requires
            old(self).wf(),
        ensures
            final(self).wf(),
            removed == old(self)@.fields.taken(fid@),
            final(self)@ == (if removed {
                old(self)@.announcing(old(self)@.fields.without(fid@))
            } else {
                old(self)@
            }),
    {
        let ghost before = self@;
        if self.fields.remove(fid) {
            self.mark_beacon_changed();
            true
        } else {
            assert(before.fields.without(fid@) =~= before.fields) by {
                assert(before.fields.methods.remove(fid@) =~= before.fields.methods);
                assert(before.fields.events.remove(fid@) =~= before.fields.events);
            }
            false
        }
    }

    /// Listens to a field of a node, and says in place of which handler.
    pub fn on_event_raw(&mut self, gid: &str, fid: &str, handler: u64) -> (replaced: Option<u64>)
        requires
            old(self).wf(),
        ensures
            final(self).wf(),
            final(self)@ == (NodeState {
                handlers: old(self)@.handlers.insert((gid@, fid@), handler),
                ..old(self)@
            }),
            replaced == handler_for(old(self)@.handlers, gid@, fid@),
    {
        self.handlers.insert(gid, fid, handler)
    }

    /// Stops listening to a field of a node, and says which handler did.
    pub fn remove_event_handler(&mut self, gid: &str, fid: &str) -> (removed: Option<u64>)
        requires
            old(self).wf(),
        ensures
            final(self).wf(),
            removed == handler_for(old(self)@.handlers, gid@, fid@),
            final(self)@ == (NodeState {
                handlers: old(self)@.handlers.remove((gid@, fid@)),
                ..old(self)@
            }),
    {
        self.handlers.remove(gid, fid)
    }

    /// A beacon that announces the node, stamped with the current time.
    pub fn build_beacon(&self) -> (beacon: Beacon)
        requires
            self.wf(),
        ensures
            self@.announced_by(beacon),
    {
        let mut beacon = Beacon::new(self.id.as_str(), self.fields.list());
        beacon.vendor = self.vendor.clone();
        beacon
    }

    /// The message that is due; none when the announcing task ends.
    pub fn due_message(&self, due: BeaconDue) -> (message: Option<Glycosyl>)
        requires
            self.wf(),
        ensures
            match due {
                BeaconDue::Stop => message is None,
                BeaconDue::FullBeacon => message matches Some(Glycosyl::Beacon(beacon))
                    && self@.announced_by(beacon),
                BeaconDue::Heartbeat => message matches Some(Glycosyl::Heartbeat(heartbeat))
                    && heartbeat.id@ == self@.id,
            },
    {
        match due {
            BeaconDue::Stop => None,
            BeaconDue::FullBeacon => Some(Glycosyl::Beacon(self.build_beacon())),
            BeaconDue::Heartbeat => Some(Glycosyl::Heartbeat(Heartbeat { id: self.id.clone() })),
        }
    }
}

/// How far the start of a node has come.
#[derive(Debug)]
pub enum StartEvent {
    Requested,
    TransportStarted(Result<(), GlycoError>),
    BeaconSent(Result<(), GlycoError>),
}

/// What the start of a node needs next.
#[derive(Debug)]
pub enum StartAction {
    StartTransport,
    SendBeacon(Glycosyl),
    /// Stop the transport and the tasks again, and return the error.
    RollBack(GlycoError),
    Done(Result<(), GlycoError>),
}

/// How far the stop of a node has come.
#[derive(Debug)]
pub enum StopEvent {
    Requested,
    TransportStopped { was_started: bool, outcome: Result<(), GlycoError> },
}

/// What the stop of a node needs next.
#[derive(Debug)]
pub enum StopAction {
    /// Stop the transport, and the tasks of the node if it was started.
    StopTransport { was_started: bool },
    Done(Result<(), GlycoError>),
}

impl GlycoComplex {
    /// What the start of the node needs next. A node that is started has nothing to do; one whose
    /// transport does not start stays stopped; one whose first beacon cannot be sent is stopped
    /// again.
    pub fn start(&mut self, event: StartEvent) -> (action: StartAction)
        requires
            old(self).wf(),
        ensures
            final(self).wf(),
            match event {
                StartEvent::Requested => {
                    &&& final(self)@ == old(self)@
                    &&& if old(self)@.started {
                        action matches StartAction::Done(outcome) && outcome is Ok
                    } else {
                        action is StartTransport
                    }
                },
                StartEvent::TransportStarted(Err(error)) => {
                    &&& final(self)@ == old(self)@
                    &&& action == StartAction::Done(Err(error))
                },
                StartEvent::TransportStarted(Ok(_)) => {
                    &&& final(self)@ == old(self)@.running_as(true)
                    &&& action matches StartAction::SendBeacon(Glycosyl::Beacon(beacon)) && old(
                        self,
                    )@.announced_by(beacon)
                },
                StartEvent::BeaconSent(Err(error)) => {
                    &&& final(self)@ == old(self)@.running_as(false)
                    &&& action == StartAction::RollBack(error)
                },
                StartEvent::BeaconSent(Ok(_)) => {
                    &&& final(self)@ == old(self)@
                    &&& action matches StartAction::Done(outcome) && outcome is Ok
                },
            },
    {
        match event {
            StartEvent::Requested => if self.started {
                StartAction::Done(Ok(()))
            } else {
                StartAction::StartTransport
            },
            StartEvent::TransportStarted(Err(error)) => StartAction::Done(Err(error)),
            StartEvent::TransportStarted(Ok(_)) => {
                self.started = true;
                StartAction::SendBeacon(Glycosyl::Beacon(self.build_beacon()))
            },
            StartEvent::BeaconSent(Err(error)) => {
                self.started = false;
                StartAction::RollBack(error)
            },
            StartEvent::BeaconSent(Ok(_)) => StartAction::Done(Ok(())),
        }
    }

    /// What the stop of the node needs next. The transport is stopped in any case; a node that was
    /// started then forgets who is present and which replies it awaits.
    pub fn stop(&mut self, event: StopEvent) -> (action: StopAction)
        requires
            old(self).wf(),
        ensures
            final(self).wf(),
            match event {
                StopEvent::Requested => {
                    &&& final(self)@ == old(self)@.running_as(false)
                    &&& action == (StopAction::StopTransport { was_started: old(self)@.started })
                },
                StopEvent::TransportStopped { was_started, outcome } => {
                    &&& action == StopAction::Done(outcome)
                    &&& final(self)@ == (if was_started {
                        old(self)@.forgetful()
                    } else {
                        old(self)@
                    })
                },
            },
    {
        match event {
            StopEvent::Requested => {
                let was_started = self.started;
                self.started = false;
                StopAction::StopTransport { was_started }
            },
            StopEvent::TransportStopped { was_started, outcome } => {
                if was_started {
                    self.presenters = Presenters::new();
                    self.pending = HashSet::new();
                }
                StopAction::Done(outcome)
            },
        }
    }
}

/// A call that waits for its reply, as it was made.
pub open spec fn is_call(
    call: PendingCall,
    caller: Seq<char>,
    gid: Seq<char>,
    fid: Seq<char>,
    payload: Option<Value>,
) -> bool {
    &&& call.query.gid@ == gid
    &&& call.query.source_gid.deep_view() == Some(caller)
    &&& call.query.fid@ == fid
    &&& call.query.payload == payload
}

/// What `jsonschema` finds wrong with the payload of a call under the schema of its method; nothing
/// where one of the two is missing, and `None` where the schema cannot be used.
pub open spec fn payload_verdict(method: MethodField, payload: Option<Value>) -> Option<
    Seq<Seq<char>>,
> {
    match (method.query_schema, payload) {
        (Some(schema), Some(instance)) => schema_verdict(schema, instance),
        _ => Some(Seq::empty()),
    }
}

/// Whether a verdict finds nothing wrong.
pub open spec fn passes(verdict: Option<Seq<Seq<char>>>) -> bool {
    verdict matches Some(errors) && errors.len() == 0
}

/// The outcome of a call up to its query: refused before the start, on an unknown node or field, on
/// a field that is no method, and with a payload on which the verdict is bad; otherwise the reply to
/// its query is awaited.
pub open spec fn call_begun(
    before: NodeState,
    after: NodeState,
    gid: Seq<char>,
    fid: Seq<char>,
    payload: Option<Value>,
    verdict: Option<Seq<Seq<char>>>,
    call: Result<PendingCall, GlycoError>,
) -> bool {
    if !before.started {
        after == before && (call matches Err(error) && error is NotStarted)
    } else {
        match looked_up(before.presenters, gid, fid) {
            None => after == before && (call matches Err(
                GlycoError::FieldNotFound { node, field },
            ) && node@ == gid && field@ == fid),
            Some(Field::Event(_)) => after == before && (call matches Err(
                GlycoError::NotAMethod { node, field },
            ) && node@ == gid && field@ == fid),
            Some(Field::Method(_)) => if passes(verdict) {
                call matches Ok(call) && is_call(call, before.id, gid, fid, payload) && after
                    == before.awaiting(call.query.qid)
            } else {
                after == before && (call matches Err(error) && is_validation_outcome(
                    verdict,
                    Err(error),
                ))
            },
        }
    }
}

impl GlycoComplex {
    /// Looks for a method on a node, once this node is started.
    fn find_method(&self, gid: &str, fid: &str) -> (found: Result<MethodField, GlycoError>)
        requires
            self.wf(),
        ensures
            if self@.started {
                method_found(self@.presenters, gid@, fid@, found)
            } else {
                found matches Err(error) && error is NotStarted
            },
    {
        if !self.started {
            return Err(GlycoError::NotStarted);
        }
        self.presenters.find_remote_method(gid, fid)
    }

    /// Begins a call under a given query id, with a given verdict on its payload.
    pub fn begin_call(
        &mut self,
        gid: &str,
        fid: &str,
        payload: Option<Value>,
        options: CallOptions,
        verdict: Result<Vec<String>, String>,
        qid: u128,
    ) -> (call: Result<PendingCall, GlycoError>)
        requires
            old(self).wf(),
        ensures
            final(self).wf(),
            call_begun(
                old(self)@,
                final(self)@,
                gid@,
                fid@,
                payload,
                verdict_view(verdict),
                call,
            ),
            call matches Ok(call) ==> call.query.qid == qid && call.options == options,
            match (looked_up(old(self)@.presenters, gid@, fid@), verdict) {
                (Some(Field::Method(_)), Err(error)) => old(self)@.started ==> (
                call matches Err(GlycoError::Validation(text)) && text@ == error@),
                _ => true,
            },
    {
        match self.find_method(gid, fid) {
            Ok(_) => {},
            Err(error) => return Err(error),
        }
        match validation_outcome(verdict) {
            Ok(_) => {},
            Err(error) => return Err(error),
        }
        let query = Query::with_qid(gid, self.id.as_str(), fid, payload, qid);
        let _ = self.pending.insert(qid);
        Ok(PendingCall { query, options })
    }

    /// Begins a call. The query is to be sent, and its reply awaited as the options say; a payload
    /// is validated against the schema of the method, where it has one.
    pub fn call_raw_with_options(
        &mut self,
        gid: &str,
        fid: &str,
        payload: Option<Value>,
        options: CallOptions,
    ) -> (call: Result<PendingCall, GlycoError>)
        requires
            old(self).wf(),
        ensures
            final(self).wf(),
            call_begun(
                old(self)@,
                final(self)@,
                gid@,
                fid@,
                payload,
                match looked_up(old(self)@.presenters, gid@, fid@) {
                    Some(Field::Method(method)) => payload_verdict(method, payload),
                    _ => Some(Seq::empty()),
                },
                call,
            ),
            call matches Ok(call) ==> is_random_uuid(call.query.qid) && call.options == options,
    {
        let method = match self.find_method(gid, fid) {
            Ok(method) => method,
            Err(error) => return Err(error),
        };
        let verdict: Result<Vec<String>, String> = match (&payload, &method.query_schema) {
            (Some(instance), Some(schema)) => schema_errors(schema, instance),
            _ => Ok(Vec::new()),
        };
        assert(verdict_view(verdict) == payload_verdict(method, payload)) by {
            if payload is None || method.query_schema is None {
                assert(verdict->Ok_0.deep_view() =~= Seq::<Seq<char>>::empty());
            }
        }
        let qid: u128 = random_uuid();
        self.begin_call(gid, fid, payload, options, verdict, qid)
    }

    /// Begins a call that waits for its reply as long as the node says.
    pub fn call_raw(&mut self, gid: &str, fid: &str, payload: Option<Value>) -> (call: Result<
        PendingCall,
        GlycoError,
    >)
        requires
            old(self).wf(),
        ensures
            final(self).wf(),
            call_begun(
                old(self)@,
                final(self)@,
                gid@,
                fid@,
                payload,
                match looked_up(old(self)@.presenters, gid@, fid@) {
                    Some(Field::Method(method)) => payload_verdict(method, payload),
                    _ => Some(Seq::empty()),
                },
                call,
            ),
            call matches Ok(call) ==> is_random_uuid(call.query.qid) && call.options.timeout == old(
                self,
            )@.query_timeout,
    {
        let options = CallOptions::default().with_timeout(self.query_timeout);
        self.call_raw_with_options(gid, fid, payload, options)
    }

    /// Begins a call with a typed request, from the outcome of its conversion to JSON.
    pub fn call(&mut self, gid: &str, fid: &str, request: Result<Value, String>) -> (call: Result<
        PendingCall,
        GlycoError,
    >)
        requires
            old(self).wf(),
        ensures
            final(self).wf(),
            match request {
                Err(error) => {
                    &&& final(self)@ == old(self)@
                    &&& call matches Err(GlycoError::TypedJson { context, source }) && context@
                        == "request"@ && source == error
                },
                Ok(payload) => {
                    &&& call_begun(
                        old(self)@,
                        final(self)@,
                        gid@,
                        fid@,
                        Some(payload),
                        match looked_up(old(self)@.presenters, gid@, fid@) {
                            Some(Field::Method(method)) => payload_verdict(method, Some(payload)),
                            _ => Some(Seq::empty()),
                        },
                        call,
                    )
                    &&& call matches Ok(call) ==> is_random_uuid(call.query.qid)
                        && call.options.timeout == old(self)@.query_timeout
                },
            },
    {
        match typed_json("request", request) {
            Ok(payload) => self.call_raw(gid, fid, Some(payload)),
            Err(error) => Err(error),
        }
    }

    /// Begins a call without an argument.
    pub fn call_query(&mut self, gid: &str, fid: &str) -> (call: Result<PendingCall, GlycoError>)
        requires
            old(self).wf(),
        ensures
            final(self).wf(),
            call_begun(old(self)@, final(self)@, gid@, fid@, None, Some(Seq::empty()), call),
            call matches Ok(call) ==> is_random_uuid(call.query.qid) && call.options.timeout == old(
                self,
            )@.query_timeout,
    {
        self.call_raw(gid, fid, None)
    }

    /// Begins the call of an action without an argument.
    pub fn do_action(&mut self, gid: &str, fid: &str) -> (call: Result<PendingCall, GlycoError>)
        requires
            old(self).wf(),
        ensures
            final(self).wf(),
            call_begun(old(self)@, final(self)@, gid@, fid@, None, Some(Seq::empty()), call),
            call matches Ok(call) ==> is_random_uuid(call.query.qid) && call.options.timeout == old(
                self,
            )@.query_timeout,
    {
        self.call_raw(gid, fid, None)
    }

    /// Begins the call of an action with a typed argument, from the outcome of its conversion to
    /// JSON.
    pub fn do_action_with(&mut self, gid: &str, fid: &str, argument: Result<Value, String>) -> (call:
        Result<PendingCall, GlycoError>)
        requires
            old(self).wf(),
        ensures
            final(self).wf(),
            match argument {
                Err(error) => {
                    &&& final(self)@ == old(self)@
                    &&& call matches Err(GlycoError::TypedJson { context, source }) && context@
                        == "action argument"@ && source == error
                },
                Ok(payload) => {
                    &&& call_begun(
                        old(self)@,
                        final(self)@,
                        gid@,
                        fid@,
                        Some(payload),
                        match looked_up(old(self)@.presenters, gid@, fid@) {
                            Some(Field::Method(method)) => payload_verdict(method, Some(payload)),
                            _ => Some(Seq::empty()),
                        },
                        call,
                    )
                    &&& call matches Ok(call) ==> is_random_uuid(call.query.qid)
                        && call.options.timeout == old(self)@.query_timeout
                },
            },
    {
        match typed_json("action argument", argument) {
            Ok(payload) => self.call_raw(gid, fid, Some(payload)),
            Err(error) => Err(error),
        }
    }

    /// Ends a call: its reply is no longer awaited, however the wait ended.
    pub fn finish_call(&mut self, call: &PendingCall, outcome: CallOutcome) -> (result: Result<
        Option<Value>,
        GlycoError,
    >)
        requires
            old(self).wf(),
        ensures
            final(self).wf(),
            final(self)@ == old(self)@.not_awaiting(call.query.qid),
            is_call_result(*call, outcome, result),
    {
        let _ = self.pending.remove(&call.query.qid);
        call_result(call, outcome)
    }

    /// The message for an event of this node, once the node is started.
    pub fn emit_raw(&self, fid: &str, argument: Option<Value>) -> (message: Result<
        Glycosyl,
        GlycoError,
    >)
        ensures
            is_emitted(self@, fid@, argument, message),
    {
        if !self.started {
            return Err(GlycoError::NotStarted);
        }
        Ok(
            Glycosyl::Event(
                Event { gid: self.id.clone(), fid: fid.to_owned(), arg: argument },
            ),
        )
    }

    /// The message for an event without an argument. Only an event that was registered without one
    /// is emitted so.
    pub fn emit_signal(&self, fid: &str) -> (message: Result<Glycosyl, GlycoError>)
        requires
            self.wf(),
        ensures
            if !self@.fields.events.contains_key(fid@) {
                message matches Err(GlycoError::FieldNotFound { node, field }) && node@ == self@.id
                    && field@ == fid@
            } else if self@.fields.events[fid@].argument_type is Some {
                message matches Err(GlycoError::Protocol(text)) && text@ == "event '"@ + fid@
                    + "' expects an argument"@
            } else {
                is_emitted(self@, fid@, None, message)
            },
    {
        match self.fields.event(fid) {
            Some(event) => {
                if event.argument_type.is_some() {
                    return Err(
                        GlycoError::Protocol(wrapped("event '", fid, "' expects an argument")),
                    );
                }
            },
            None => return Err(
                GlycoError::FieldNotFound { node: self.id.clone(), field: fid.to_owned() },
            ),
        }
        self.emit_raw(fid, None)
    }

    /// The message for an event with a typed argument, from the outcome of its conversion to JSON.
    /// Only an event that was registered with an argument of that type is emitted so.
    pub fn emit(&self, fid: &str, argument_type: &TypeId, argument: Result<Value, String>) -> (message:
        Result<Glycosyl, GlycoError>)
        requires
            self.wf(),
        ensures
            if !self@.fields.events.contains_key(fid@) {
                message matches Err(GlycoError::FieldNotFound { node, field }) && node@ == self@.id
                    && field@ == fid@
            } else if self@.fields.events[fid@].argument_type != Some(*argument_type) {
                message matches Err(GlycoError::Protocol(text)) && text@ == "event '"@ + fid@
                    + "' argument type does not match its registration"@
            } else {
                match argument {
                    Err(error) => message matches Err(GlycoError::TypedJson { context, source })
                        && context@ == "event argument"@ && source == error,
                    Ok(value) => is_emitted(self@, fid@, Some(value), message),
                }
            },
    {
        match self.fields.event(fid) {
            Some(event) => {
                let matching = match &event.argument_type {
                    Some(registered) => same_type(registered, argument_type),
                    None => false,
                };
                if !matching {
                    return Err(
                        GlycoError::Protocol(
                            wrapped(
                                "event '",
                                fid,
                                "' argument type does not match its registration",
                            ),
                        ),
                    );
                }
            },
            None => return Err(
                GlycoError::FieldNotFound { node: self.id.clone(), field: fid.to_owned() },
            ),
        }
        match typed_json("event argument", argument) {
            Ok(value) => self.emit_raw(fid, Some(value)),
            Err(error) => Err(error),
        }
    }
}

/// The message for an event of a node; none before the node is started.
pub open spec fn is_emitted(
    state: NodeState,
    fid: Seq<char>,
    argument: Option<Value>,
    message: Result<Glycosyl, GlycoError>,
) -> bool {
    if state.started {
        message matches Ok(Glycosyl::Event(event)) && event.gid@ == state.id && event.fid@ == fid
            && event.arg == argument
    } else {
        message matches Err(error) && error is NotStarted
    }
}

/// What a message asks of the program around the node.
#[derive(Debug)]
pub enum DispatchAction {
    Nothing,
    /// Tell those who watch the present nodes.
    Tell(PresenterEvent),
    /// Hand the result to the caller that awaits it.
    Deliver { qid: u128, result: Result<Option<Value>, RemoteError> },
    /// Answer a query to this node.
    Answer(Query),
    /// Run the handler that listens to an event.
    Notify { handler: u64, event: Event },
}

/// What the dispatching task waited for.
#[derive(Debug)]
pub enum DispatchInput {
    Cancelled,
    Event(ConnexonEvent),
    /// Events were lost.
    Lagged,
    /// There will be no more events.
    Closed,
}

/// How a query is to be answered.
#[derive(Debug)]
pub enum QueryStep {
    /// At once.
    Refuse(Reply),
    /// By the result of a handler.
    Run { handler: u64, context: RequestContext },
}

/// What a caller is told by a reply.
pub open spec fn is_reply_result(reply: Reply, result: Result<Option<Value>, RemoteError>) -> bool {
    match reply.error {
        Some(text) => result matches Err(error) && error.message == text,
        None => result == Ok::<Option<Value>, RemoteError>(reply.payload),
    }
}

/// The state after a message was dispatched.
pub open spec fn after_message(before: NodeState, message: Glycosyl, now: u128) -> NodeState {
    match message {
        Glycosyl::Beacon(beacon) => before.knowing(after_beacon(before.presenters, beacon, now)),
        Glycosyl::Heartbeat(heartbeat) => before.knowing(
            after_heartbeat(before.presenters, heartbeat.id@, now),
        ),
        Glycosyl::Reply(reply) => before.not_awaiting(reply.qid),
        _ => before,
    }
}

/// What a message asks of the program around the node. The discovery of the node itself is told
/// only if it is to be; a reply is delivered if it is awaited; a query is answered if it is for this
/// node; an event is handled if somebody listens to it.
pub open spec fn is_dispatched(
    before: NodeState,
    message: Glycosyl,
    action: DispatchAction,
) -> bool {
    match message {
        Glycosyl::Beacon(beacon) => {
            let hidden = beacon.id@ == before.id && !before.loopback_presenter;
            match action {
                DispatchAction::Tell(event) => beacon_told(
                    before.presenters,
                    beacon,
                    hidden,
                    Some(event),
                ),
                DispatchAction::Nothing => beacon_told(before.presenters, beacon, hidden, None),
                _ => false,
            }
        },
        Glycosyl::Heartbeat(_) => action is Nothing,
        Glycosyl::Reply(reply) => if before.pending.contains(reply.qid) {
            action matches DispatchAction::Deliver { qid, result } && qid == reply.qid
                && is_reply_result(reply, result)
        } else {
            action is Nothing
        },
        Glycosyl::Query(query) => if query.gid@ == before.id {
            action == DispatchAction::Answer(query)
        } else {
            action is Nothing
        },
        Glycosyl::Event(event) => if before.handlers.contains_key((event.gid@, event.fid@)) {
            action == (DispatchAction::Notify {
                handler: before.handlers[(event.gid@, event.fid@)],
                event,
            })
        } else {
            action is Nothing
        },
    }
}

/// A reply to a query with a given error.
pub open spec fn is_error_reply(query: Query, text: Seq<char>, reply: Reply) -> bool {
    &&& reply.payload is None
    &&& reply.qid == query.qid
    &&& reply.target_gid == query.source_gid
    &&& reply.error.deep_view() == Some(text)
}

/// The reply to a query with the result of its handler.
pub open spec fn is_handler_reply(
    query: Query,
    result: Result<Option<Value>, HandlerError>,
    reply: Reply,
) -> bool {
    match result {
        Ok(payload) => reply == (Reply {
            payload,
            qid: query.qid,
            target_gid: query.source_gid,
            error: None,
        }),
        Err(error) => is_error_reply(query, error.message@, reply),
    }
}

/// How a query is to be answered: refused while as many handlers run as may, refused for a field
/// that is no method of this node, and otherwise by the handler of the method.
pub open spec fn is_query_step(before: NodeState, query: Query, step: QueryStep) -> bool {
    if before.running >= before.max_running {
        step matches QueryStep::Refuse(reply) && is_error_reply(query, "server is busy"@, reply)
    } else if !before.fields.methods.contains_key(query.fid@) {
        step matches QueryStep::Refuse(reply) && is_error_reply(
            query,
            "field '"@ + query.fid@ + "' is not registered"@,
            reply,
        )
    } else {
        step matches QueryStep::Run { handler, context } && handler
            == before.fields.methods[query.fid@].handler && context.qid == query.qid
            && context.source_gid == query.source_gid
    }
}

fn error_reply(query: &Query, message: String) -> (reply: Reply)
    ensures
        is_error_reply(*query, message@, reply),
{
    Reply {
        payload: None,
        qid: query.qid,
        target_gid: query.source_gid.clone(),
        error: Some(message),
    }
}

impl GlycoComplex {
    /// Takes note of a message, and says what it asks of the program around the node.
    pub fn dispatch_message(&mut self, message: Glycosyl, now: u128) -> (action: DispatchAction)
        requires
            old(self).wf(),
        ensures
            final(self).wf(),
            final(self)@ == after_message(old(self)@, message, now),
            is_dispatched(old(self)@, message, action),
    {
        match message {
            Glycosyl::Beacon(beacon) => {
                let hidden = same_text(beacon.id.as_str(), self.id.as_str())
                    && !self.loopback_presenter;
                match self.presenters.process_beacon(beacon, hidden, now) {
                    Some(event) => DispatchAction::Tell(event),
                    None => DispatchAction::Nothing,
                }
            },
            Glycosyl::Heartbeat(heartbeat) => {
                self.presenters.process_heartbeat(heartbeat.id.as_str(), now);
                DispatchAction::Nothing
            },
            Glycosyl::Reply(reply) => self.process_reply(reply),
            Glycosyl::Query(query) => if same_text(query.gid.as_str(), self.id.as_str()) {
                DispatchAction::Answer(query)
            } else {
                DispatchAction::Nothing
            },
            Glycosyl::Event(event) => match self.handlers.get(
                event.gid.as_str(),
                event.fid.as_str(),
            ) {
                Some(handler) => DispatchAction::Notify { handler, event },
                None => DispatchAction::Nothing,
            },
        }
    }

    /// Takes note of a reply. One that is awaited completes the call that awaits it: with the error,
    /// if it has one, whatever its payload, and with the payload otherwise; it is awaited no longer.
    /// One that is not awaited has no effect.
    pub fn process_reply(&mut self, reply: Reply) -> (action: DispatchAction)
        requires
            old(self).wf(),
        ensures
            final(self).wf(),
            is_dispatched(old(self)@, Glycosyl::Reply(reply), action),
            final(self)@ == old(self)@.not_awaiting(reply.qid),
            if old(self)@.pending.contains(reply.qid) {
                action matches DispatchAction::Deliver { qid, result } && qid == reply.qid
                    && is_reply_result(reply, result)
            } else {
                action is Nothing && final(self)@ == old(self)@
            },
    {
        if !self.pending.remove(&reply.qid) {
            assert(self@.pending =~= old(self)@.pending);
            return DispatchAction::Nothing;
        }
        let result = match reply.error {
            Some(message) => Err(RemoteError { message }),
            None => Ok(reply.payload),
        };
        DispatchAction::Deliver { qid: reply.qid, result }
    }

    /// Takes note of what the dispatching task waited for; `None` when the task ends.
    pub fn dispatch_step(&mut self, input: DispatchInput, now: u128) -> (action: Option<
        DispatchAction,
    >)
        requires
            old(self).wf(),
        ensures
            final(self).wf(),
            match input {
                DispatchInput::Cancelled => final(self)@ == old(self)@ && action is None,
                DispatchInput::Closed => final(self)@ == old(self)@ && action is None,
                DispatchInput::Event(ConnexonEvent::Message(message)) => {
                    &&& final(self)@ == after_message(old(self)@, message, now)
                    &&& action matches Some(action) && is_dispatched(old(self)@, message, action)
                },
                _ => final(self)@ == old(self)@ && (action matches Some(action) && action is Nothing),
            },
    {
        match input {
            DispatchInput::Cancelled => None,
            DispatchInput::Closed => None,
            DispatchInput::Event(ConnexonEvent::Message(message)) => Some(
                self.dispatch_message(message, now),
            ),
            _ => Some(DispatchAction::Nothing),
        }
    }

    /// Decides how a query is to be answered. A handler that is to run counts as running from here.
    pub fn handle_query(&mut self, query: &Query, cancellation: CancellationToken) -> (step:
        QueryStep)
        requires
            old(self).wf(),
        ensures
            final(self).wf(),
            is_query_step(old(self)@, *query, step),
            match step {
                QueryStep::Refuse(_) => final(self)@ == old(self)@,
                QueryStep::Run { handler, context } => {
                    &&& context.cancellation == cancellation
                    &&& final(self)@ == old(self)@.handler_begun()
                },
            },
    {
        if self.running_handlers >= self.max_concurrent_handlers {
            return QueryStep::Refuse(error_reply(query, "server is busy".to_owned()));
        }
        let handler: u64 = match self.method_handler(query.fid.as_str()) {
            Some(handler) => handler,
            None => {
                let text = wrapped("field '", query.fid.as_str(), "' is not registered");
                return QueryStep::Refuse(error_reply(query, text));
            },
        };
        self.running_handlers = self.running_handlers + 1;
        QueryStep::Run {
            handler,
            context: RequestContext {
                qid: query.qid,
                source_gid: query.source_gid.clone(),
                cancellation,
            },
        }
    }

    /// The reply to a query whose handler is done; the handler no longer counts as running.
    pub fn finish_query(&mut self, query: &Query, result: Result<Option<Value>, HandlerError>) -> (reply:
        Reply)
        requires
            old(self).wf(),
        ensures
            final(self).wf(),
            final(self)@ == old(self)@.handler_done(),
            is_handler_reply(*query, result, reply),
    {
        self.abandon_query();
        match result {
            Ok(payload) => Reply {
                payload,
                qid: query.qid,
                target_gid: query.source_gid.clone(),
                error: None,
            },
            Err(error) => error_reply(query, error.message),
        }
    }

    /// Takes note that a handler ended without a result; it no longer counts as running.
    pub fn abandon_query(&mut self)
        requires
            old(self).wf(),
        ensures
            final(self).wf(),
            final(self)@ == old(self)@.handler_done(),
    {
        if self.running_handlers > 0 {
            self.running_handlers = self.running_handlers - 1;
        }
    }

    /// Removes the nodes that were not heard of for too long, and tells of each, in ascending order
    /// of their ids.
    pub fn expire_presenters(&mut self, now: u128) -> (events: Vec<PresenterEvent>)
        requires
            old(self).wf(),
        ensures
            final(self).wf(),
            final(self)@ == old(self)@.knowing(after_expiry(old(self)@.presenters, now)),
            events@ == old(self).expired_ids(now).map_values(
                |id: Seq<char>| PresenterEvent::Expired(old(self)@.presenters[id].beacon),
            ),
    {
        self.presenters.expire(now)
    }
}

} // verus!
