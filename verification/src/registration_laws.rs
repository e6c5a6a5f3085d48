//! What a node offers: which fields are registered, with which schemas, and what is announced of them.
//! Each law speaks of what a function was given, what it returned and what it changed.
use crate::error::GlycoError;
use crate::fields::field_ids;
use crate::node::{GlycoComplex, NodeState};
use crate::protocol::{Beacon, EventField, Field, Glycosyl, MethodField};
use crate::schedule::BeaconDue;
use crate::text::text_less;
use serde_json::Value;
use std::any::TypeId;
use vstd::prelude::*;
use vstd::string::*;

verus! {

/// A method is registered as it is given, unless its id is taken by a method or an event.
pub proof fn law_register_raw_function(
    node: &mut GlycoComplex,
    field: MethodField,
    handler: u64,
    outcome: Result<(), GlycoError>,
)
    requires
        old(node).wf(),
        call_ensures(GlycoComplex::register_raw_function, (node, field, handler), outcome),
    ensures
        outcome is Ok <==> !old(node)@.fields.methods.contains_key(field.id@) && !old(
            node,
        )@.fields.events.contains_key(field.id@),
        outcome is Ok ==> {
            let new = final(node)@.fields.methods[field.id@].field;
            &&& final(node)@.fields.methods.contains_key(field.id@)
            &&& final(node)@.fields.methods[field.id@].handler == handler
            &&& new.id == field.id
            &&& new.friendly_name == field.friendly_name
            &&& new.description == field.description
            &&& new.query_schema == field.query_schema
            &&& new.receipt_schema == field.receipt_schema
            &&& forall|other: Seq<char>|
                other != field.id@ ==> (#[trigger] final(node)@.fields.methods.contains_key(other)
                    <==> old(node)@.fields.methods.contains_key(other)) && (old(
                    node,
                )@.fields.methods.contains_key(other) ==> final(node)@.fields.methods[other] == old(
                    node,
                )@.fields.methods[other])
            &&& final(node)@.fields.events == old(node)@.fields.events
            &&& final(node)@.revision == old(node)@.revision.wrapping_add(1)
            &&& final(node)@ == (NodeState {
                fields: final(node)@.fields,
                revision: final(node)@.revision,
                ..old(node)@
            })
        },
        outcome is Err ==> final(node)@ == old(node)@,
        (old(node)@.fields.methods.contains_key(field.id@) || old(
            node,
        )@.fields.events.contains_key(field.id@)) ==> (outcome matches Err(GlycoError::DuplicateField(id)) && id@ == field.id@),
{
}

/// A schema that a method already has is registered unchanged, whatever was generated; a generated one
/// stands only where the method has none, and its failure counts only there. Nothing else of the method
/// and no other field changes, and a method that is not registered changes nothing.
pub proof fn law_register_function(
    node: &mut GlycoComplex,
    field: MethodField,
    query_schema: Result<Value, GlycoError>,
    receipt_schema: Result<Value, GlycoError>,
    handler: u64,
    outcome: Result<(), GlycoError>,
)
    requires
        old(node).wf(),
        call_ensures(GlycoComplex::register_function, (node, field, query_schema, receipt_schema, handler), outcome),
    ensures
        outcome is Ok <==> !old(node)@.fields.methods.contains_key(field.id@) && !old(
            node,
        )@.fields.events.contains_key(field.id@) && (field.query_schema is Some || query_schema is Ok) && (field.receipt_schema is Some || receipt_schema is Ok),
        outcome is Ok ==> {
            let new = final(node)@.fields.methods[field.id@].field;
            &&& final(node)@.fields.methods.contains_key(field.id@)
            &&& final(node)@.fields.methods[field.id@].handler == handler
            &&& new.id == field.id
            &&& new.friendly_name == field.friendly_name
            &&& new.description == field.description
            &&& field.query_schema matches Some(own) ==> new.query_schema == Some(own)
            &&& field.query_schema is None ==> (query_schema matches Ok(generated) && new.query_schema == Some(
                generated,
            ))
            &&& field.receipt_schema matches Some(own) ==> new.receipt_schema == Some(own)
            &&& field.receipt_schema is None ==> (receipt_schema matches Ok(generated) && new.receipt_schema == Some(
                generated,
            ))
            &&& forall|other: Seq<char>|
                other != field.id@ ==> (#[trigger] final(node)@.fields.methods.contains_key(other)
                    <==> old(node)@.fields.methods.contains_key(other)) && (old(
                    node,
                )@.fields.methods.contains_key(other) ==> final(node)@.fields.methods[other] == old(
                    node,
                )@.fields.methods[other])
            &&& final(node)@.fields.events == old(node)@.fields.events
            &&& final(node)@.revision == old(node)@.revision.wrapping_add(1)
            &&& final(node)@ == (NodeState {
                fields: final(node)@.fields,
                revision: final(node)@.revision,
                ..old(node)@
            })
        },
        outcome is Err ==> final(node)@ == old(node)@,
        field.query_schema is None && query_schema is Err ==> outcome == Err::<(), GlycoError>(
            query_schema->Err_0,
        ),
        (field.query_schema is Some || query_schema is Ok) && field.receipt_schema is None && receipt_schema is Err ==> outcome == Err::<(), GlycoError>(
            receipt_schema->Err_0,
        ),
        (field.query_schema is Some || query_schema is Ok) && (field.receipt_schema is Some || receipt_schema is Ok) && (old(node)@.fields.methods.contains_key(field.id@) || old(
            node,
        )@.fields.events.contains_key(field.id@)) ==> (outcome matches Err(GlycoError::DuplicateField(id)) && id@ == field.id@),
{
}

/// A method without an argument is registered without a schema for arguments; its own schema for the
/// result stands, whatever was generated.
pub proof fn law_register_query(
    node: &mut GlycoComplex,
    field: MethodField,
    receipt_schema: Result<Value, GlycoError>,
    handler: u64,
    outcome: Result<(), GlycoError>,
)
    requires
        old(node).wf(),
        call_ensures(GlycoComplex::register_query, (node, field, receipt_schema, handler), outcome),
    ensures
        outcome is Ok <==> !old(node)@.fields.methods.contains_key(field.id@) && !old(
            node,
        )@.fields.events.contains_key(field.id@) && (field.receipt_schema is Some || receipt_schema is Ok),
        outcome is Ok ==> {
            let new = final(node)@.fields.methods[field.id@].field;
            &&& final(node)@.fields.methods.contains_key(field.id@)
            &&& final(node)@.fields.methods[field.id@].handler == handler
            &&& new.id == field.id
            &&& new.friendly_name == field.friendly_name
            &&& new.description == field.description
            &&& new.query_schema is None
            &&& field.receipt_schema matches Some(own) ==> new.receipt_schema == Some(own)
            &&& field.receipt_schema is None ==> (receipt_schema matches Ok(generated) && new.receipt_schema == Some(
                generated,
            ))
            &&& forall|other: Seq<char>|
                other != field.id@ ==> (#[trigger] final(node)@.fields.methods.contains_key(other)
                    <==> old(node)@.fields.methods.contains_key(other)) && (old(
                    node,
                )@.fields.methods.contains_key(other) ==> final(node)@.fields.methods[other] == old(
                    node,
                )@.fields.methods[other])
            &&& final(node)@.fields.events == old(node)@.fields.events
            &&& final(node)@.revision == old(node)@.revision.wrapping_add(1)
            &&& final(node)@ == (NodeState {
                fields: final(node)@.fields,
                revision: final(node)@.revision,
                ..old(node)@
            })
        },
        outcome is Err ==> final(node)@ == old(node)@,
        field.receipt_schema is None && receipt_schema is Err ==> outcome == Err::<(), GlycoError>(
            receipt_schema->Err_0,
        ),
        (field.receipt_schema is Some || receipt_schema is Ok) && (old(node)@.fields.methods.contains_key(field.id@) || old(
            node,
        )@.fields.events.contains_key(field.id@)) ==> (outcome matches Err(GlycoError::DuplicateField(id)) && id@ == field.id@),
{
}

/// A method without an argument and a result is registered without schemas.
pub proof fn law_register_action(
    node: &mut GlycoComplex,
    field: MethodField,
    handler: u64,
    outcome: Result<(), GlycoError>,
)
    requires
        old(node).wf(),
        call_ensures(GlycoComplex::register_action, (node, field, handler), outcome),
    ensures
        outcome is Ok <==> !old(node)@.fields.methods.contains_key(field.id@) && !old(
            node,
        )@.fields.events.contains_key(field.id@),
        outcome is Ok ==> {
            let new = final(node)@.fields.methods[field.id@].field;
            &&& final(node)@.fields.methods.contains_key(field.id@)
            &&& final(node)@.fields.methods[field.id@].handler == handler
            &&& new.id == field.id
            &&& new.friendly_name == field.friendly_name
            &&& new.description == field.description
            &&& new.query_schema is None
            &&& new.receipt_schema is None
            &&& forall|other: Seq<char>|
                other != field.id@ ==> (#[trigger] final(node)@.fields.methods.contains_key(other)
                    <==> old(node)@.fields.methods.contains_key(other)) && (old(
                    node,
                )@.fields.methods.contains_key(other) ==> final(node)@.fields.methods[other] == old(
                    node,
                )@.fields.methods[other])
            &&& final(node)@.fields.events == old(node)@.fields.events
            &&& final(node)@.revision == old(node)@.revision.wrapping_add(1)
            &&& final(node)@ == (NodeState {
                fields: final(node)@.fields,
                revision: final(node)@.revision,
                ..old(node)@
            })
        },
        outcome is Err ==> final(node)@ == old(node)@,
        (old(node)@.fields.methods.contains_key(field.id@) || old(
            node,
        )@.fields.events.contains_key(field.id@)) ==> (outcome matches Err(GlycoError::DuplicateField(id)) && id@ == field.id@),
{
}

/// A method without a result is registered without a schema for the result; its own schema for the
/// argument stands, whatever was generated.
pub proof fn law_register_action_with(
    node: &mut GlycoComplex,
    field: MethodField,
    query_schema: Result<Value, GlycoError>,
    handler: u64,
    outcome: Result<(), GlycoError>,
)
    requires
        old(node).wf(),
        call_ensures(GlycoComplex::register_action_with, (node, field, query_schema, handler), outcome),
    ensures
        outcome is Ok <==> !old(node)@.fields.methods.contains_key(field.id@) && !old(
            node,
        )@.fields.events.contains_key(field.id@) && (field.query_schema is Some || query_schema is Ok),
        outcome is Ok ==> {
            let new = final(node)@.fields.methods[field.id@].field;
            &&& final(node)@.fields.methods.contains_key(field.id@)
            &&& final(node)@.fields.methods[field.id@].handler == handler
            &&& new.id == field.id
            &&& new.friendly_name == field.friendly_name
            &&& new.description == field.description
            &&& field.query_schema matches Some(own) ==> new.query_schema == Some(own)
            &&& field.query_schema is None ==> (query_schema matches Ok(generated) && new.query_schema == Some(
                generated,
            ))
            &&& new.receipt_schema is None
            &&& forall|other: Seq<char>|
                other != field.id@ ==> (#[trigger] final(node)@.fields.methods.contains_key(other)
                    <==> old(node)@.fields.methods.contains_key(other)) && (old(
                    node,
                )@.fields.methods.contains_key(other) ==> final(node)@.fields.methods[other] == old(
                    node,
                )@.fields.methods[other])
            &&& final(node)@.fields.events == old(node)@.fields.events
            &&& final(node)@.revision == old(node)@.revision.wrapping_add(1)
            &&& final(node)@ == (NodeState {
                fields: final(node)@.fields,
                revision: final(node)@.revision,
                ..old(node)@
            })
        },
        outcome is Err ==> final(node)@ == old(node)@,
        field.query_schema is None && query_schema is Err ==> outcome == Err::<(), GlycoError>(
            query_schema->Err_0,
        ),
        (field.query_schema is Some || query_schema is Ok) && (old(node)@.fields.methods.contains_key(field.id@) || old(
            node,
        )@.fields.events.contains_key(field.id@)) ==> (outcome matches Err(GlycoError::DuplicateField(id)) && id@ == field.id@),
{
}

/// An event is registered with the type of its argument; its own schema stands, whatever was generated,
/// and a generated one only where it has none.
pub proof fn law_register_event(
    node: &mut GlycoComplex,
    field: EventField,
    call_arg_schema: Result<Value, GlycoError>,
    argument_type: TypeId,
    outcome: Result<(), GlycoError>,
)
    requires
        old(node).wf(),
        call_ensures(GlycoComplex::register_event, (node, field, call_arg_schema, argument_type), outcome),
    ensures
        outcome is Ok <==> !old(node)@.fields.methods.contains_key(field.id@) && !old(
            node,
        )@.fields.events.contains_key(field.id@) && (field.call_arg_schema is Some || call_arg_schema is Ok),
        outcome is Ok ==> {
            let new = final(node)@.fields.events[field.id@].field;
            &&& final(node)@.fields.events.contains_key(field.id@)
            &&& final(node)@.fields.events[field.id@].argument_type == Some(argument_type)
            &&& new.id == field.id
            &&& new.friendly_name == field.friendly_name
            &&& new.description == field.description
            &&& field.call_arg_schema matches Some(own) ==> new.call_arg_schema == Some(own)
            &&& field.call_arg_schema is None ==> (call_arg_schema matches Ok(generated) && new.call_arg_schema == Some(
                generated,
            ))
            &&& forall|other: Seq<char>|
                other != field.id@ ==> (#[trigger] final(node)@.fields.events.contains_key(other)
                    <==> old(node)@.fields.events.contains_key(other)) && (old(
                    node,
                )@.fields.events.contains_key(other) ==> final(node)@.fields.events[other] == old(
                    node,
                )@.fields.events[other])
            &&& final(node)@.fields.methods == old(node)@.fields.methods
            &&& final(node)@.revision == old(node)@.revision.wrapping_add(1)
            &&& final(node)@ == (NodeState {
                fields: final(node)@.fields,
                revision: final(node)@.revision,
                ..old(node)@
            })
        },
        outcome is Err ==> final(node)@ == old(node)@,
        field.call_arg_schema is None && call_arg_schema is Err ==> outcome == Err::<(), GlycoError>(
            call_arg_schema->Err_0,
        ),
        (field.call_arg_schema is Some || call_arg_schema is Ok) && (old(node)@.fields.methods.contains_key(field.id@) || old(
            node,
        )@.fields.events.contains_key(field.id@)) ==> (outcome matches Err(GlycoError::DuplicateField(id)) && id@ == field.id@),
{
}

/// A signal is an event without an argument: it is registered without a schema and without a type.
pub proof fn law_register_signal(
    node: &mut GlycoComplex,
    field: EventField,
    outcome: Result<(), GlycoError>,
)
    requires
        old(node).wf(),
        call_ensures(GlycoComplex::register_signal, (node, field), outcome),
    ensures
        outcome is Ok <==> !old(node)@.fields.methods.contains_key(field.id@) && !old(
            node,
        )@.fields.events.contains_key(field.id@),
        outcome is Ok ==> {
            let new = final(node)@.fields.events[field.id@].field;
            &&& final(node)@.fields.events.contains_key(field.id@)
            &&& final(node)@.fields.events[field.id@].argument_type == None::<TypeId>
            &&& new.id == field.id
            &&& new.friendly_name == field.friendly_name
            &&& new.description == field.description
            &&& new.call_arg_schema is None
            &&& forall|other: Seq<char>|
                other != field.id@ ==> (#[trigger] final(node)@.fields.events.contains_key(other)
                    <==> old(node)@.fields.events.contains_key(other)) && (old(
                    node,
                )@.fields.events.contains_key(other) ==> final(node)@.fields.events[other] == old(
                    node,
                )@.fields.events[other])
            &&& final(node)@.fields.methods == old(node)@.fields.methods
            &&& final(node)@.revision == old(node)@.revision.wrapping_add(1)
            &&& final(node)@ == (NodeState {
                fields: final(node)@.fields,
                revision: final(node)@.revision,
                ..old(node)@
            })
        },
        outcome is Err ==> final(node)@ == old(node)@,
        (old(node)@.fields.methods.contains_key(field.id@) || old(
            node,
        )@.fields.events.contains_key(field.id@)) ==> (outcome matches Err(GlycoError::DuplicateField(id)) && id@ == field.id@),
{
}

/// A field that is removed is gone, be it a method or an event, and every other field stays; where
/// there is none, nothing changes.
pub proof fn law_remove_field(node: &mut GlycoComplex, fid: &str, removed: bool, other: Seq<char>)
    requires
        old(node).wf(),
        call_ensures(GlycoComplex::remove_field, (node, fid), removed),
        other != fid@,
    ensures
        removed <==> old(node)@.fields.methods.contains_key(fid@) || old(
            node,
        )@.fields.events.contains_key(fid@),
        !final(node)@.fields.methods.contains_key(fid@),
        !final(node)@.fields.events.contains_key(fid@),
        final(node)@.fields.methods.contains_key(other) <==> old(
            node,
        )@.fields.methods.contains_key(other),
        final(node)@.fields.events.contains_key(other) <==> old(node)@.fields.events.contains_key(
            other,
        ),
        old(node)@.fields.methods.contains_key(other) ==> final(node)@.fields.methods[other] == old(
            node,
        )@.fields.methods[other],
        old(node)@.fields.events.contains_key(other) ==> final(node)@.fields.events[other] == old(
            node,
        )@.fields.events[other],
        final(node)@.revision == (if removed {
            old(node)@.revision.wrapping_add(1)
        } else {
            old(node)@.revision
        }),
        final(node)@ == (NodeState {
            fields: final(node)@.fields,
            revision: final(node)@.revision,
            ..old(node)@
        }),
{
}

/// A beacon announces the node under its id and vendor in version 1 of the protocol, with every method
/// and every event that it has, each as it was registered and each once, nothing else, and in
/// ascending order of their ids.
pub proof fn law_beacon_announces_all_fields(node: &GlycoComplex, beacon: Beacon, now: u128)
    requires
        node.wf(),
        call_ensures(GlycoComplex::build_beacon, (node,), beacon),
    ensures
        beacon.id@ == node@.id,
        beacon.vendor.deep_view() == node@.vendor,
        beacon.protocol_version == Some(1i32),
        forall|id: Seq<char>| #[trigger]
            node@.fields.methods.contains_key(id) ==> beacon.fields@.contains(
                Field::Method(node@.fields.methods[id].field),
            ),
        forall|id: Seq<char>| #[trigger]
            node@.fields.events.contains_key(id) ==> beacon.fields@.contains(
                Field::Event(node@.fields.events[id].field),
            ),
        forall|i: int|
            0 <= i < beacon.fields@.len() ==> match #[trigger] beacon.fields@[i] {
                Field::Method(method) => node@.fields.methods.contains_key(method.id@)
                    && node@.fields.methods[method.id@].field == method,
                Field::Event(event) => node@.fields.events.contains_key(event.id@)
                    && node@.fields.events[event.id@].field == event,
            },
        forall|i: int, j: int|
            0 <= i < j < beacon.fields@.len() ==> text_less(
                (#[trigger] beacon.fields@[i]).spec_id(),
                (#[trigger] beacon.fields@[j]).spec_id(),
            ),
{
    node.law_invariant(now);
    assert forall|id: Seq<char>| #[trigger]
        node@.fields.methods.contains_key(id) implies beacon.fields@.contains(
        Field::Method(node@.fields.methods[id].field),
    ) by {
        assert(node@.fields.offers(Field::Method(node@.fields.methods[id].field)));
    }
    assert forall|id: Seq<char>| #[trigger]
        node@.fields.events.contains_key(id) implies beacon.fields@.contains(
        Field::Event(node@.fields.events[id].field),
    ) by {
        assert(node@.fields.offers(Field::Event(node@.fields.events[id].field)));
    }
    assert forall|i: int| 0 <= i < beacon.fields@.len() implies node@.fields.offers(
        #[trigger] beacon.fields@[i],
    ) by {
        assert(beacon.fields@.contains(beacon.fields@[i]));
    }
    assert forall|i: int, j: int| 0 <= i < j < beacon.fields@.len() implies text_less(
        (#[trigger] beacon.fields@[i]).spec_id(),
        (#[trigger] beacon.fields@[j]).spec_id(),
    ) by {
        let ids = field_ids(beacon.fields@);
        assert(text_less(ids[i], ids[j]));
    }
}

/// Of a node that announces itself, what is due is sent under its id: a full beacon with its fields
/// and its vendor, or a heartbeat, and nothing once it stops.
pub proof fn law_due_message(
    node: &GlycoComplex,
    due: BeaconDue,
    message: Option<Glycosyl>,
    id: Seq<char>,
    now: u128,
)
    requires
        node.wf(),
        call_ensures(GlycoComplex::due_message, (node, due), message),
    ensures
        message is None <==> due == BeaconDue::Stop,
        due == BeaconDue::Heartbeat ==> (message matches Some(Glycosyl::Heartbeat(heartbeat))
            && heartbeat.id@ == node@.id),
        due == BeaconDue::FullBeacon ==> (message matches Some(Glycosyl::Beacon(beacon)) && {
            &&& beacon.id@ == node@.id
            &&& beacon.vendor.deep_view() == node@.vendor
            &&& node@.fields.methods.contains_key(id) ==> beacon.fields@.contains(
                Field::Method(node@.fields.methods[id].field),
            )
            &&& node@.fields.events.contains_key(id) ==> beacon.fields@.contains(
                Field::Event(node@.fields.events[id].field),
            )
        }),
{
    node.law_invariant(now);
    if node@.fields.methods.contains_key(id) {
        assert(node@.fields.offers(Field::Method(node@.fields.methods[id].field)));
    }
    if node@.fields.events.contains_key(id) {
        assert(node@.fields.offers(Field::Event(node@.fields.events[id].field)));
    }
}

/// A change of the vendor is counted as a change of what the node announces, and changes nothing else;
/// so is a wish to be announced anew.
pub proof fn law_vendor_changes(node: &mut GlycoComplex, vendor: Option<String>)
    requires
        old(node).wf(),
        call_ensures(GlycoComplex::set_vendor, (node, vendor), ()),
    ensures
        final(node)@.vendor == vendor.deep_view(),
        final(node)@.revision == old(node)@.revision.wrapping_add(1),
        final(node)@ == (NodeState {
            vendor: final(node)@.vendor,
            revision: final(node)@.revision,
            ..old(node)@
        }),
{
}

/// A wish to be announced anew is counted as a change, and changes nothing else.
pub proof fn law_refresh(node: &mut GlycoComplex)
    requires
        old(node).wf(),
        call_ensures(GlycoComplex::refresh_beacon, (node,), ()),
    ensures
        final(node)@.revision == old(node)@.revision.wrapping_add(1),
        final(node)@ == (NodeState { revision: final(node)@.revision, ..old(node)@ }),
{
}

} // verus!
