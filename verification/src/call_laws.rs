//! What a call of a method of another node comes to: when it begins, when it is refused, and what it
//! returns. Each law speaks of what a function was given, what it returned and what it changed.
use crate::calls::{call_result, CallOptions, CallOutcome, PendingCall};
use crate::error::{GlycoError, RemoteError};
use crate::node::{GlycoComplex, NodeState};
use crate::outside::{is_random_uuid, schema_verdict};
use crate::presence::field_with_id;
use crate::protocol::{Field, MethodField};
use crate::schema::{validate_json, validation_outcome};
use serde_json::Value;
use vstd::prelude::*;
use vstd::string::*;

verus! {

/// The first field with an id is the one that is found.
proof fn lemma_first_found(fields: Seq<Field>, fid: Seq<char>, i: int)
    requires
        0 <= i < fields.len(),
        fields[i].spec_id() == fid,
        forall|j: int| 0 <= j < i ==> (#[trigger] fields[j]).spec_id() != fid,
    ensures
        field_with_id(fields, fid) == Some(fields[i]),
    decreases fields.len(),
{
    let shorter = fields.drop_last();
    if i < shorter.len() {
        lemma_first_found(shorter, fid, i);
    } else {
        lemma_none_found(shorter, fid);
    }
}

/// An id that no field has is not found.
proof fn lemma_none_found(fields: Seq<Field>, fid: Seq<char>)
    requires
        forall|j: int| 0 <= j < fields.len() ==> (#[trigger] fields[j]).spec_id() != fid,
    ensures
        field_with_id(fields, fid) is None,
    decreases fields.len(),
{
    if fields.len() > 0 {
        lemma_none_found(fields.drop_last(), fid);
    }
}

/// The id of a field is that of the method or of the event that it is.
pub proof fn law_field_id(field: &Field, id: &str)
    requires
        call_ensures(Field::id, (field,), id),
    ensures
        *field matches Field::Method(method) ==> id@ == method.id@,
        *field matches Field::Event(event) ==> id@ == event.id@,
        id@ == field.spec_id(),
{
}

/// A call begins exactly if its argument passes the schema that the method announces for arguments:
/// without an argument or without such a schema it always begins, and the schema of the result has
/// no say. What begins is a query of this node to that method with that argument, and the reply to it
/// is awaited; nothing else changes. A call that does not begin changes nothing.
pub proof fn law_call_raw_with_options_begins(
    node: &mut GlycoComplex,
    gid: &str,
    fid: &str,
    payload: Option<Value>,
    options: CallOptions,
    call: Result<PendingCall, GlycoError>,
    method: MethodField,
    i: int,
)
    requires
        old(node).wf(),
        call_ensures(GlycoComplex::call_raw_with_options, (node, gid, fid, payload, options), call),
        old(node)@.started,
        old(node)@.presenters.contains_key(gid@),
        ({
            let fields = old(node)@.presenters[gid@].beacon.fields@;
            &&& 0 <= i < fields.len()
            &&& fields[i] == Field::Method(method)
            &&& method.id@ == fid@
            &&& forall|j: int| 0 <= j < i ==> (#[trigger] fields[j]).spec_id() != fid@
        }),
    ensures
        call is Ok <==> match (method.query_schema, payload) {
            (Some(schema), Some(instance)) => schema_verdict(schema, instance) == Some(
                Seq::<Seq<char>>::empty(),
            ),
            _ => true,
        },
        call matches Ok(begun) ==> {
            &&& begun.query.gid@ == gid@
            &&& begun.query.fid@ == fid@
            &&& begun.query.payload == payload
            &&& begun.query.source_gid matches Some(source) && source@ == old(node)@.id
            &&& begun.options == options
            &&& is_random_uuid(begun.query.qid)
            &&& final(node)@.pending == old(node)@.pending.insert(begun.query.qid)
            &&& final(node)@ == (NodeState { pending: final(node)@.pending, ..old(node)@ })
        },
        call matches Err(error) ==> error is Validation && final(node)@ == old(node)@,
{
    lemma_first_found(old(node)@.presenters[gid@].beacon.fields@, fid@, i);
    match (method.query_schema, payload) {
        (Some(schema), Some(instance)) => {
            if schema_verdict(schema, instance) is Some {
                let errors = schema_verdict(schema, instance)->Some_0;
                assert(errors.len() == 0 ==> errors =~= Seq::<Seq<char>>::empty());
            }
        },
        _ => {},
    }
}

/// Such a call is refused, and changes nothing, before the node is started, where the called node is
/// not present or announces no field with the id, and where the first field with the id is no method;
/// each with an error that says which node and which field.
pub proof fn law_call_raw_with_options_refused(
    node: &mut GlycoComplex,
    gid: &str,
    fid: &str,
    payload: Option<Value>,
    options: CallOptions,
    call: Result<PendingCall, GlycoError>,
    i: int,
)
    requires
        old(node).wf(),
        call_ensures(GlycoComplex::call_raw_with_options, (node, gid, fid, payload, options), call),
    ensures
        !old(node)@.started ==> (call matches Err(error) && error is NotStarted && final(node)@
            == old(node)@),
        old(node)@.started && !old(node)@.presenters.contains_key(gid@) ==> (call matches Err(
            GlycoError::FieldNotFound { node: n, field },
        ) && n@ == gid@ && field@ == fid@ && final(node)@ == old(node)@),
        old(node)@.started && old(node)@.presenters.contains_key(gid@) ==> ({
            let fields = old(node)@.presenters[gid@].beacon.fields@;
            &&& (forall|j: int| 0 <= j < fields.len() ==> (#[trigger] fields[j]).spec_id() != fid@)
                ==> (call matches Err(GlycoError::FieldNotFound { node: n, field }) && n@ == gid@
                && field@ == fid@ && final(node)@ == old(node)@)
            &&& 0 <= i < fields.len() && fields[i] is Event && fields[i].spec_id() == fid@ && (
            forall|j: int| 0 <= j < i ==> (#[trigger] fields[j]).spec_id() != fid@) ==> (
            call matches Err(GlycoError::NotAMethod { node: n, field }) && n@ == gid@ && field@
                == fid@ && final(node)@ == old(node)@)
        }),
{
    if old(node)@.presenters.contains_key(gid@) {
        let fields = old(node)@.presenters[gid@].beacon.fields@;
        if forall|j: int| 0 <= j < fields.len() ==> (#[trigger] fields[j]).spec_id() != fid@ {
            lemma_none_found(fields, fid@);
        }
        if 0 <= i < fields.len() && fields[i].spec_id() == fid@ && (forall|j: int|
            0 <= j < i ==> (#[trigger] fields[j]).spec_id() != fid@) {
            lemma_first_found(fields, fid@, i);
        }
    }
}

/// A call without options begins exactly as one with options does, and waits as long as the node says.
pub proof fn law_call_raw_begins(
    node: &mut GlycoComplex,
    gid: &str,
    fid: &str,
    payload: Option<Value>,
    call: Result<PendingCall, GlycoError>,
    method: MethodField,
    i: int,
)
    requires
        old(node).wf(),
        call_ensures(GlycoComplex::call_raw, (node, gid, fid, payload), call),
        old(node)@.started,
        old(node)@.presenters.contains_key(gid@),
        ({
            let fields = old(node)@.presenters[gid@].beacon.fields@;
            &&& 0 <= i < fields.len()
            &&& fields[i] == Field::Method(method)
            &&& method.id@ == fid@
            &&& forall|j: int| 0 <= j < i ==> (#[trigger] fields[j]).spec_id() != fid@
        }),
    ensures
        call is Ok <==> match (method.query_schema, payload) {
            (Some(schema), Some(instance)) => schema_verdict(schema, instance) == Some(
                Seq::<Seq<char>>::empty(),
            ),
            _ => true,
        },
        call matches Ok(begun) ==> {
            &&& begun.query.gid@ == gid@
            &&& begun.query.fid@ == fid@
            &&& begun.query.payload == payload
            &&& begun.query.source_gid matches Some(source) && source@ == old(node)@.id
            &&& begun.options.timeout == old(node)@.query_timeout
            &&& is_random_uuid(begun.query.qid)
            &&& final(node)@.pending == old(node)@.pending.insert(begun.query.qid)
            &&& final(node)@ == (NodeState { pending: final(node)@.pending, ..old(node)@ })
        },
        call matches Err(error) ==> error is Validation && final(node)@ == old(node)@,
{
    lemma_first_found(old(node)@.presenters[gid@].beacon.fields@, fid@, i);
    match (method.query_schema, payload) {
        (Some(schema), Some(instance)) => {
            if schema_verdict(schema, instance) is Some {
                let errors = schema_verdict(schema, instance)->Some_0;
                assert(errors.len() == 0 ==> errors =~= Seq::<Seq<char>>::empty());
            }
        },
        _ => {},
    }
}

/// Such a call is refused, and changes nothing, before the node is started, where the called node is
/// not present or announces no field with the id, and where the first field with the id is no method;
/// each with an error that says which node and which field.
pub proof fn law_call_raw_refused(
    node: &mut GlycoComplex,
    gid: &str,
    fid: &str,
    payload: Option<Value>,
    call: Result<PendingCall, GlycoError>,
    i: int,
)
    requires
        old(node).wf(),
        call_ensures(GlycoComplex::call_raw, (node, gid, fid, payload), call),
    ensures
        !old(node)@.started ==> (call matches Err(error) && error is NotStarted && final(node)@
            == old(node)@),
        old(node)@.started && !old(node)@.presenters.contains_key(gid@) ==> (call matches Err(
            GlycoError::FieldNotFound { node: n, field },
        ) && n@ == gid@ && field@ == fid@ && final(node)@ == old(node)@),
        old(node)@.started && old(node)@.presenters.contains_key(gid@) ==> ({
            let fields = old(node)@.presenters[gid@].beacon.fields@;
            &&& (forall|j: int| 0 <= j < fields.len() ==> (#[trigger] fields[j]).spec_id() != fid@)
                ==> (call matches Err(GlycoError::FieldNotFound { node: n, field }) && n@ == gid@
                && field@ == fid@ && final(node)@ == old(node)@)
            &&& 0 <= i < fields.len() && fields[i] is Event && fields[i].spec_id() == fid@ && (
            forall|j: int| 0 <= j < i ==> (#[trigger] fields[j]).spec_id() != fid@) ==> (
            call matches Err(GlycoError::NotAMethod { node: n, field }) && n@ == gid@ && field@
                == fid@ && final(node)@ == old(node)@)
        }),
{
    if old(node)@.presenters.contains_key(gid@) {
        let fields = old(node)@.presenters[gid@].beacon.fields@;
        if forall|j: int| 0 <= j < fields.len() ==> (#[trigger] fields[j]).spec_id() != fid@ {
            lemma_none_found(fields, fid@);
        }
        if 0 <= i < fields.len() && fields[i].spec_id() == fid@ && (forall|j: int|
            0 <= j < i ==> (#[trigger] fields[j]).spec_id() != fid@) {
            lemma_first_found(fields, fid@, i);
        }
    }
}

/// A typed call begins exactly if its argument passes the schema of the method for arguments, and
/// waits as long as the node says.
pub proof fn law_call_begins(
    node: &mut GlycoComplex,
    gid: &str,
    fid: &str,
    value: Value,
    call: Result<PendingCall, GlycoError>,
    method: MethodField,
    i: int,
)
    requires
        old(node).wf(),
        call_ensures(GlycoComplex::call, (node, gid, fid, Ok::<Value, String>(value)), call),
        old(node)@.started,
        old(node)@.presenters.contains_key(gid@),
        ({
            let fields = old(node)@.presenters[gid@].beacon.fields@;
            &&& 0 <= i < fields.len()
            &&& fields[i] == Field::Method(method)
            &&& method.id@ == fid@
            &&& forall|j: int| 0 <= j < i ==> (#[trigger] fields[j]).spec_id() != fid@
        }),
    ensures
        call is Ok <==> match (method.query_schema, Some(value)) {
            (Some(schema), Some(instance)) => schema_verdict(schema, instance) == Some(
                Seq::<Seq<char>>::empty(),
            ),
            _ => true,
        },
        call matches Ok(begun) ==> {
            &&& begun.query.gid@ == gid@
            &&& begun.query.fid@ == fid@
            &&& begun.query.payload == Some(value)
            &&& begun.query.source_gid matches Some(source) && source@ == old(node)@.id
            &&& begun.options.timeout == old(node)@.query_timeout
            &&& is_random_uuid(begun.query.qid)
            &&& final(node)@.pending == old(node)@.pending.insert(begun.query.qid)
            &&& final(node)@ == (NodeState { pending: final(node)@.pending, ..old(node)@ })
        },
        call matches Err(error) ==> error is Validation && final(node)@ == old(node)@,
{
    lemma_first_found(old(node)@.presenters[gid@].beacon.fields@, fid@, i);
    match (method.query_schema, Some(value)) {
        (Some(schema), Some(instance)) => {
            if schema_verdict(schema, instance) is Some {
                let errors = schema_verdict(schema, instance)->Some_0;
                assert(errors.len() == 0 ==> errors =~= Seq::<Seq<char>>::empty());
            }
        },
        _ => {},
    }
}

/// Such a call is refused, and changes nothing, before the node is started, where the called node is
/// not present or announces no field with the id, and where the first field with the id is no method;
/// each with an error that says which node and which field.
pub proof fn law_call_refused(
    node: &mut GlycoComplex,
    gid: &str,
    fid: &str,
    value: Value,
    call: Result<PendingCall, GlycoError>,
    i: int,
)
    requires
        old(node).wf(),
        call_ensures(GlycoComplex::call, (node, gid, fid, Ok::<Value, String>(value)), call),
    ensures
        !old(node)@.started ==> (call matches Err(error) && error is NotStarted && final(node)@
            == old(node)@),
        old(node)@.started && !old(node)@.presenters.contains_key(gid@) ==> (call matches Err(
            GlycoError::FieldNotFound { node: n, field },
        ) && n@ == gid@ && field@ == fid@ && final(node)@ == old(node)@),
        old(node)@.started && old(node)@.presenters.contains_key(gid@) ==> ({
            let fields = old(node)@.presenters[gid@].beacon.fields@;
            &&& (forall|j: int| 0 <= j < fields.len() ==> (#[trigger] fields[j]).spec_id() != fid@)
                ==> (call matches Err(GlycoError::FieldNotFound { node: n, field }) && n@ == gid@
                && field@ == fid@ && final(node)@ == old(node)@)
            &&& 0 <= i < fields.len() && fields[i] is Event && fields[i].spec_id() == fid@ && (
            forall|j: int| 0 <= j < i ==> (#[trigger] fields[j]).spec_id() != fid@) ==> (
            call matches Err(GlycoError::NotAMethod { node: n, field }) && n@ == gid@ && field@
                == fid@ && final(node)@ == old(node)@)
        }),
{
    if old(node)@.presenters.contains_key(gid@) {
        let fields = old(node)@.presenters[gid@].beacon.fields@;
        if forall|j: int| 0 <= j < fields.len() ==> (#[trigger] fields[j]).spec_id() != fid@ {
            lemma_none_found(fields, fid@);
        }
        if 0 <= i < fields.len() && fields[i].spec_id() == fid@ && (forall|j: int|
            0 <= j < i ==> (#[trigger] fields[j]).spec_id() != fid@) {
            lemma_first_found(fields, fid@, i);
        }
    }
}

/// The call of an action with an argument begins exactly if the argument passes the schema of the
/// method for arguments, and waits as long as the node says.
pub proof fn law_do_action_with_begins(
    node: &mut GlycoComplex,
    gid: &str,
    fid: &str,
    value: Value,
    call: Result<PendingCall, GlycoError>,
    method: MethodField,
    i: int,
)
    requires
        old(node).wf(),
        call_ensures(GlycoComplex::do_action_with, (node, gid, fid, Ok::<Value, String>(value)), call),
        old(node)@.started,
        old(node)@.presenters.contains_key(gid@),
        ({
            let fields = old(node)@.presenters[gid@].beacon.fields@;
            &&& 0 <= i < fields.len()
            &&& fields[i] == Field::Method(method)
            &&& method.id@ == fid@
            &&& forall|j: int| 0 <= j < i ==> (#[trigger] fields[j]).spec_id() != fid@
        }),
    ensures
        call is Ok <==> match (method.query_schema, Some(value)) {
            (Some(schema), Some(instance)) => schema_verdict(schema, instance) == Some(
                Seq::<Seq<char>>::empty(),
            ),
            _ => true,
        },
        call matches Ok(begun) ==> {
            &&& begun.query.gid@ == gid@
            &&& begun.query.fid@ == fid@
            &&& begun.query.payload == Some(value)
            &&& begun.query.source_gid matches Some(source) && source@ == old(node)@.id
            &&& begun.options.timeout == old(node)@.query_timeout
            &&& is_random_uuid(begun.query.qid)
            &&& final(node)@.pending == old(node)@.pending.insert(begun.query.qid)
            &&& final(node)@ == (NodeState { pending: final(node)@.pending, ..old(node)@ })
        },
        call matches Err(error) ==> error is Validation && final(node)@ == old(node)@,
{
    lemma_first_found(old(node)@.presenters[gid@].beacon.fields@, fid@, i);
    match (method.query_schema, Some(value)) {
        (Some(schema), Some(instance)) => {
            if schema_verdict(schema, instance) is Some {
                let errors = schema_verdict(schema, instance)->Some_0;
                assert(errors.len() == 0 ==> errors =~= Seq::<Seq<char>>::empty());
            }
        },
        _ => {},
    }
}

/// Such a call is refused, and changes nothing, before the node is started, where the called node is
/// not present or announces no field with the id, and where the first field with the id is no method;
/// each with an error that says which node and which field.
pub proof fn law_do_action_with_refused(
    node: &mut GlycoComplex,
    gid: &str,
    fid: &str,
    value: Value,
    call: Result<PendingCall, GlycoError>,
    i: int,
)
    requires
        old(node).wf(),
        call_ensures(GlycoComplex::do_action_with, (node, gid, fid, Ok::<Value, String>(value)), call),
    ensures
        !old(node)@.started ==> (call matches Err(error) && error is NotStarted && final(node)@
            == old(node)@),
        old(node)@.started && !old(node)@.presenters.contains_key(gid@) ==> (call matches Err(
            GlycoError::FieldNotFound { node: n, field },
        ) && n@ == gid@ && field@ == fid@ && final(node)@ == old(node)@),
        old(node)@.started && old(node)@.presenters.contains_key(gid@) ==> ({
            let fields = old(node)@.presenters[gid@].beacon.fields@;
            &&& (forall|j: int| 0 <= j < fields.len() ==> (#[trigger] fields[j]).spec_id() != fid@)
                ==> (call matches Err(GlycoError::FieldNotFound { node: n, field }) && n@ == gid@
                && field@ == fid@ && final(node)@ == old(node)@)
            &&& 0 <= i < fields.len() && fields[i] is Event && fields[i].spec_id() == fid@ && (
            forall|j: int| 0 <= j < i ==> (#[trigger] fields[j]).spec_id() != fid@) ==> (
            call matches Err(GlycoError::NotAMethod { node: n, field }) && n@ == gid@ && field@
                == fid@ && final(node)@ == old(node)@)
        }),
{
    if old(node)@.presenters.contains_key(gid@) {
        let fields = old(node)@.presenters[gid@].beacon.fields@;
        if forall|j: int| 0 <= j < fields.len() ==> (#[trigger] fields[j]).spec_id() != fid@ {
            lemma_none_found(fields, fid@);
        }
        if 0 <= i < fields.len() && fields[i].spec_id() == fid@ && (forall|j: int|
            0 <= j < i ==> (#[trigger] fields[j]).spec_id() != fid@) {
            lemma_first_found(fields, fid@, i);
        }
    }
}

/// A call without an argument begins whatever schemas the method has, and waits as long as the node
/// says.
pub proof fn law_call_query_begins(
    node: &mut GlycoComplex,
    gid: &str,
    fid: &str,
    call: Result<PendingCall, GlycoError>,
    method: MethodField,
    i: int,
)
    requires
        old(node).wf(),
        call_ensures(GlycoComplex::call_query, (node, gid, fid), call),
        old(node)@.started,
        old(node)@.presenters.contains_key(gid@),
        ({
            let fields = old(node)@.presenters[gid@].beacon.fields@;
            &&& 0 <= i < fields.len()
            &&& fields[i] == Field::Method(method)
            &&& method.id@ == fid@
            &&& forall|j: int| 0 <= j < i ==> (#[trigger] fields[j]).spec_id() != fid@
        }),
    ensures
        call is Ok <==> match (method.query_schema, None::<Value>) {
            (Some(schema), Some(instance)) => schema_verdict(schema, instance) == Some(
                Seq::<Seq<char>>::empty(),
            ),
            _ => true,
        },
        call matches Ok(begun) ==> {
            &&& begun.query.gid@ == gid@
            &&& begun.query.fid@ == fid@
            &&& begun.query.payload == None::<Value>
            &&& begun.query.source_gid matches Some(source) && source@ == old(node)@.id
            &&& begun.options.timeout == old(node)@.query_timeout
            &&& is_random_uuid(begun.query.qid)
            &&& final(node)@.pending == old(node)@.pending.insert(begun.query.qid)
            &&& final(node)@ == (NodeState { pending: final(node)@.pending, ..old(node)@ })
        },
        call matches Err(error) ==> error is Validation && final(node)@ == old(node)@,
{
    lemma_first_found(old(node)@.presenters[gid@].beacon.fields@, fid@, i);
    match (method.query_schema, None::<Value>) {
        (Some(schema), Some(instance)) => {
            if schema_verdict(schema, instance) is Some {
                let errors = schema_verdict(schema, instance)->Some_0;
                assert(errors.len() == 0 ==> errors =~= Seq::<Seq<char>>::empty());
            }
        },
        _ => {},
    }
}

/// Such a call is refused, and changes nothing, before the node is started, where the called node is
/// not present or announces no field with the id, and where the first field with the id is no method;
/// each with an error that says which node and which field.
pub proof fn law_call_query_refused(
    node: &mut GlycoComplex,
    gid: &str,
    fid: &str,
    call: Result<PendingCall, GlycoError>,
    i: int,
)
    requires
        old(node).wf(),
        call_ensures(GlycoComplex::call_query, (node, gid, fid), call),
    ensures
        !old(node)@.started ==> (call matches Err(error) && error is NotStarted && final(node)@
            == old(node)@),
        old(node)@.started && !old(node)@.presenters.contains_key(gid@) ==> (call matches Err(
            GlycoError::FieldNotFound { node: n, field },
        ) && n@ == gid@ && field@ == fid@ && final(node)@ == old(node)@),
        old(node)@.started && old(node)@.presenters.contains_key(gid@) ==> ({
            let fields = old(node)@.presenters[gid@].beacon.fields@;
            &&& (forall|j: int| 0 <= j < fields.len() ==> (#[trigger] fields[j]).spec_id() != fid@)
                ==> (call matches Err(GlycoError::FieldNotFound { node: n, field }) && n@ == gid@
                && field@ == fid@ && final(node)@ == old(node)@)
            &&& 0 <= i < fields.len() && fields[i] is Event && fields[i].spec_id() == fid@ && (
            forall|j: int| 0 <= j < i ==> (#[trigger] fields[j]).spec_id() != fid@) ==> (
            call matches Err(GlycoError::NotAMethod { node: n, field }) && n@ == gid@ && field@
                == fid@ && final(node)@ == old(node)@)
        }),
{
    if old(node)@.presenters.contains_key(gid@) {
        let fields = old(node)@.presenters[gid@].beacon.fields@;
        if forall|j: int| 0 <= j < fields.len() ==> (#[trigger] fields[j]).spec_id() != fid@ {
            lemma_none_found(fields, fid@);
        }
        if 0 <= i < fields.len() && fields[i].spec_id() == fid@ && (forall|j: int|
            0 <= j < i ==> (#[trigger] fields[j]).spec_id() != fid@) {
            lemma_first_found(fields, fid@, i);
        }
    }
}

/// The call of an action without an argument begins whatever schemas the method has, and waits as long
/// as the node says.
pub proof fn law_do_action_begins(
    node: &mut GlycoComplex,
    gid: &str,
    fid: &str,
    call: Result<PendingCall, GlycoError>,
    method: MethodField,
    i: int,
)
    requires
        old(node).wf(),
        call_ensures(GlycoComplex::do_action, (node, gid, fid), call),
        old(node)@.started,
        old(node)@.presenters.contains_key(gid@),
        ({
            let fields = old(node)@.presenters[gid@].beacon.fields@;
            &&& 0 <= i < fields.len()
            &&& fields[i] == Field::Method(method)
            &&& method.id@ == fid@
            &&& forall|j: int| 0 <= j < i ==> (#[trigger] fields[j]).spec_id() != fid@
        }),
    ensures
        call is Ok <==> match (method.query_schema, None::<Value>) {
            (Some(schema), Some(instance)) => schema_verdict(schema, instance) == Some(
                Seq::<Seq<char>>::empty(),
            ),
            _ => true,
        },
        call matches Ok(begun) ==> {
            &&& begun.query.gid@ == gid@
            &&& begun.query.fid@ == fid@
            &&& begun.query.payload == None::<Value>
            &&& begun.query.source_gid matches Some(source) && source@ == old(node)@.id
            &&& begun.options.timeout == old(node)@.query_timeout
            &&& is_random_uuid(begun.query.qid)
            &&& final(node)@.pending == old(node)@.pending.insert(begun.query.qid)
            &&& final(node)@ == (NodeState { pending: final(node)@.pending, ..old(node)@ })
        },
        call matches Err(error) ==> error is Validation && final(node)@ == old(node)@,
{
    lemma_first_found(old(node)@.presenters[gid@].beacon.fields@, fid@, i);
    match (method.query_schema, None::<Value>) {
        (Some(schema), Some(instance)) => {
            if schema_verdict(schema, instance) is Some {
                let errors = schema_verdict(schema, instance)->Some_0;
                assert(errors.len() == 0 ==> errors =~= Seq::<Seq<char>>::empty());
            }
        },
        _ => {},
    }
}

/// Such a call is refused, and changes nothing, before the node is started, where the called node is
/// not present or announces no field with the id, and where the first field with the id is no method;
/// each with an error that says which node and which field.
pub proof fn law_do_action_refused(
    node: &mut GlycoComplex,
    gid: &str,
    fid: &str,
    call: Result<PendingCall, GlycoError>,
    i: int,
)
    requires
        old(node).wf(),
        call_ensures(GlycoComplex::do_action, (node, gid, fid), call),
    ensures
        !old(node)@.started ==> (call matches Err(error) && error is NotStarted && final(node)@
            == old(node)@),
        old(node)@.started && !old(node)@.presenters.contains_key(gid@) ==> (call matches Err(
            GlycoError::FieldNotFound { node: n, field },
        ) && n@ == gid@ && field@ == fid@ && final(node)@ == old(node)@),
        old(node)@.started && old(node)@.presenters.contains_key(gid@) ==> ({
            let fields = old(node)@.presenters[gid@].beacon.fields@;
            &&& (forall|j: int| 0 <= j < fields.len() ==> (#[trigger] fields[j]).spec_id() != fid@)
                ==> (call matches Err(GlycoError::FieldNotFound { node: n, field }) && n@ == gid@
                && field@ == fid@ && final(node)@ == old(node)@)
            &&& 0 <= i < fields.len() && fields[i] is Event && fields[i].spec_id() == fid@ && (
            forall|j: int| 0 <= j < i ==> (#[trigger] fields[j]).spec_id() != fid@) ==> (
            call matches Err(GlycoError::NotAMethod { node: n, field }) && n@ == gid@ && field@
                == fid@ && final(node)@ == old(node)@)
        }),
{
    if old(node)@.presenters.contains_key(gid@) {
        let fields = old(node)@.presenters[gid@].beacon.fields@;
        if forall|j: int| 0 <= j < fields.len() ==> (#[trigger] fields[j]).spec_id() != fid@ {
            lemma_none_found(fields, fid@);
        }
        if 0 <= i < fields.len() && fields[i].spec_id() == fid@ && (forall|j: int|
            0 <= j < i ==> (#[trigger] fields[j]).spec_id() != fid@) {
            lemma_first_found(fields, fid@, i);
        }
    }
}

/// Where the argument could not be made a document, nothing is called, and the error says so.
pub proof fn law_call_unconverted(
    node: &mut GlycoComplex,
    gid: &str,
    fid: &str,
    reason: String,
    call: Result<PendingCall, GlycoError>,
)
    requires
        old(node).wf(),
        call_ensures(GlycoComplex::call, (node, gid, fid, Err::<Value, String>(reason)), call),
    ensures
        final(node)@ == old(node)@,
        call matches Err(GlycoError::TypedJson { context, source }) && context@ == "request"@
            && source@ == reason@,
{
}

/// Where the argument could not be made a document, nothing is called, and the error says so.
pub proof fn law_do_action_with_unconverted(
    node: &mut GlycoComplex,
    gid: &str,
    fid: &str,
    reason: String,
    call: Result<PendingCall, GlycoError>,
)
    requires
        old(node).wf(),
        call_ensures(GlycoComplex::do_action_with, (node, gid, fid, Err::<Value, String>(reason)), call),
    ensures
        final(node)@ == old(node)@,
        call matches Err(GlycoError::TypedJson { context, source }) && context@ == "action argument"@
            && source@ == reason@,
{
}

/// A call begun under a given id and verdict awaits the reply under that id: it begins exactly if
/// nothing was found wrong.
pub proof fn law_begin_call(
    node: &mut GlycoComplex,
    gid: &str,
    fid: &str,
    payload: Option<Value>,
    options: CallOptions,
    verdict: Result<Vec<String>, String>,
    qid: u128,
    call: Result<PendingCall, GlycoError>,
    method: MethodField,
    i: int,
)
    requires
        old(node).wf(),
        call_ensures(
            GlycoComplex::begin_call,
            (node, gid, fid, payload, options, verdict, qid),
            call,
        ),
        old(node)@.started,
        old(node)@.presenters.contains_key(gid@),
        ({
            let fields = old(node)@.presenters[gid@].beacon.fields@;
            &&& 0 <= i < fields.len()
            &&& fields[i] == Field::Method(method)
            &&& method.id@ == fid@
            &&& forall|j: int| 0 <= j < i ==> (#[trigger] fields[j]).spec_id() != fid@
        }),
    ensures
        call is Ok <==> (verdict matches Ok(errors) && errors@.len() == 0),
        verdict matches Err(reason) ==> (call matches Err(GlycoError::Validation(text)) && text@
            == reason@),
        call matches Ok(begun) ==> {
            &&& begun.query.qid == qid
            &&& begun.query.gid@ == gid@
            &&& begun.query.fid@ == fid@
            &&& begun.query.payload == payload
            &&& begun.query.source_gid matches Some(source) && source@ == old(node)@.id
            &&& begun.options == options
            &&& final(node)@ == (NodeState { pending: old(node)@.pending.insert(qid), ..old(node)@ })
        },
        call matches Err(error) ==> error is Validation && final(node)@ == old(node)@,
{
    lemma_first_found(old(node)@.presenters[gid@].beacon.fields@, fid@, i);
}

/// A document passes a schema exactly if nothing is found wrong with it, and otherwise fails as
/// invalid.
pub proof fn law_validation(schema: &Value, instance: &Value, outcome: Result<(), GlycoError>)
    requires
        call_ensures(validate_json, (schema, instance), outcome),
    ensures
        outcome is Ok <==> schema_verdict(*schema, *instance) == Some(Seq::<Seq<char>>::empty()),
        outcome matches Err(error) ==> error is Validation,
{
    if schema_verdict(*schema, *instance) is Some {
        let errors = schema_verdict(*schema, *instance)->Some_0;
        assert(errors.len() == 0 ==> errors =~= Seq::<Seq<char>>::empty());
    }
}

/// What is found wrong is told line by line: one finding as it is, and with one more finding the text
/// is longer by a line feed and that finding.
pub proof fn law_findings_told_line_by_line(
    errors: Vec<String>,
    more: Vec<String>,
    last: String,
    outcome: Result<(), GlycoError>,
    longer: Result<(), GlycoError>,
)
    requires
        call_ensures(validation_outcome, (Ok::<Vec<String>, String>(errors),), outcome),
        call_ensures(validation_outcome, (Ok::<Vec<String>, String>(more),), longer),
        more@ == errors@.push(last),
    ensures
        outcome is Ok <==> errors@.len() == 0,
        match outcome {
            Ok(_) => longer matches Err(GlycoError::Validation(text)) && text@ == last@,
            Err(error) => error matches GlycoError::Validation(begun) && (longer matches Err(
                GlycoError::Validation(text),
            ) && text@ == begun@ + "\n"@ + last@),
        },
{
    assert(more.deep_view() =~= errors.deep_view().push(last@));
    assert(more.deep_view().drop_last() =~= errors.deep_view());
}

/// A schema that cannot be used fails the validation with the reason why.
pub proof fn law_unusable_schema_told(reason: String, outcome: Result<(), GlycoError>)
    requires
        call_ensures(validation_outcome, (Err::<Vec<String>, String>(reason),), outcome),
    ensures
        outcome matches Err(GlycoError::Validation(text)) && text@ == reason@,
{
}

/// A call that is refused for its argument is refused with the words of the validation of that
/// argument against the schema of the method for arguments.
pub proof fn law_refusal_tells_the_findings(
    node: &mut GlycoComplex,
    gid: &str,
    fid: &str,
    instance: Value,
    options: CallOptions,
    call: Result<PendingCall, GlycoError>,
    method: MethodField,
    i: int,
    schema: Value,
    outcome: Result<(), GlycoError>,
)
    requires
        old(node).wf(),
        call_ensures(
            GlycoComplex::call_raw_with_options,
            (node, gid, fid, Some(instance), options),
            call,
        ),
        old(node)@.started,
        old(node)@.presenters.contains_key(gid@),
        ({
            let fields = old(node)@.presenters[gid@].beacon.fields@;
            &&& 0 <= i < fields.len()
            &&& fields[i] == Field::Method(method)
            &&& method.id@ == fid@
            &&& forall|j: int| 0 <= j < i ==> (#[trigger] fields[j]).spec_id() != fid@
        }),
        method.query_schema == Some(schema),
        schema_verdict(schema, instance) is Some,
        call_ensures(validate_json, (&schema, &instance), outcome),
    ensures
        outcome is Ok <==> call is Ok,
        match (outcome, call) {
            (Err(GlycoError::Validation(told)), Err(GlycoError::Validation(text))) => text@ == told@,
            _ => true,
        },
{
    lemma_first_found(old(node)@.presenters[gid@].beacon.fields@, fid@, i);
}

/// What a call returns is what came of its query: the payload of the reply, the error that the other
/// node reported, the failure to send, the timeout or the cancellation, each with the id of the query
/// and what was called where it says so. However it ended, the reply is awaited no longer, and nothing
/// else changes.
pub proof fn law_call_ends(
    node: &mut GlycoComplex,
    call: &PendingCall,
    outcome: CallOutcome,
    result: Result<Option<Value>, GlycoError>,
)
    requires
        old(node).wf(),
        call_ensures(GlycoComplex::finish_call, (node, call, outcome), result),
    ensures
        !final(node)@.pending.contains(call.query.qid),
        forall|qid: u128|
            qid != call.query.qid ==> (#[trigger] final(node)@.pending.contains(qid) <==> old(
                node,
            )@.pending.contains(qid)),
        final(node)@ == (NodeState { pending: final(node)@.pending, ..old(node)@ }),
        result matches Ok(payload) ==> outcome == CallOutcome::Replied(
            Ok::<Option<Value>, RemoteError>(payload),
        ),
        outcome matches CallOutcome::Replied(Ok(_)) ==> result is Ok,
        outcome matches CallOutcome::Replied(Err(told)) ==> (result matches Err(
            GlycoError::Remote(error),
        ) && error.message@ == told.message@),
        outcome matches CallOutcome::SendFailed(failure) ==> result == Err::<
            Option<Value>,
            GlycoError,
        >(failure),
        outcome is TimedOut ==> (result matches Err(GlycoError::Timeout { qid, node: n, field })
            && qid == call.query.qid && n@ == call.query.gid@ && field@ == call.query.fid@),
        outcome is Cancelled ==> (result matches Err(GlycoError::Cancelled(qid)) && qid
            == call.query.qid),
        outcome is ChannelClosed ==> (result matches Err(GlycoError::Task(text)) && text@
            == "reply channel closed"@),
{
}

/// What a call returns does not depend on the node: ending the call says what its outcome comes to.
pub proof fn law_call_result(
    call: &PendingCall,
    outcome: CallOutcome,
    result: Result<Option<Value>, GlycoError>,
)
    requires
        call_ensures(call_result, (call, outcome), result),
    ensures
        result matches Ok(payload) ==> outcome == CallOutcome::Replied(
            Ok::<Option<Value>, RemoteError>(payload),
        ),
        outcome matches CallOutcome::Replied(Ok(_)) ==> result is Ok,
        outcome matches CallOutcome::Replied(Err(told)) ==> (result matches Err(
            GlycoError::Remote(error),
        ) && error.message@ == told.message@),
        outcome matches CallOutcome::SendFailed(failure) ==> result == Err::<
            Option<Value>,
            GlycoError,
        >(failure),
        outcome is TimedOut ==> (result matches Err(GlycoError::Timeout { qid, node, field })
            && qid == call.query.qid && node@ == call.query.gid@ && field@ == call.query.fid@),
        outcome is Cancelled ==> (result matches Err(GlycoError::Cancelled(qid)) && qid
            == call.query.qid),
        outcome is ChannelClosed ==> (result matches Err(GlycoError::Task(text)) && text@
            == "reply channel closed"@),
{
}

} // verus!
