//! What holds of the small values: errors and their words, copies, and the seams to typed values. Each
//! law speaks of what a function was given and what it returned.
use crate::calls::{CallOptions, RequestContext};
use crate::error::{broken_pipe, GlycoError, HandlerError, IoErrorKind, IoFailure, RemoteError};
use crate::message_laws::{law_number_read_back, number_value};
use crate::outside::{json_text, uuid_text};
use crate::presence::PresenterEvent;
use crate::protocol::{
    Beacon, Event, EventField, Field, Glycosyl, Heartbeat, MethodField, Query, Reply,
};
use crate::text::decimal;
use crate::transport::{local_fault, peer_fault, ConnexonEvent};
use crate::typed::{
    argument_document, typed_event, typed_json, typed_reply, typed_request, typed_response,
};
use serde_json::Value;
use vstd::prelude::*;
use vstd::string::*;

verus! {

/// An error says in words what went wrong, with the names and numbers that it holds, each in its place.
pub proof fn law_error_words(error: &GlycoError, words: String)
    requires
        call_ensures(GlycoError::message, (error,), words),
    ensures
        words@ == error.text(),
        match *error {
            GlycoError::Io(failure) => words@ == "I/O failure: "@ + failure.message@,
            GlycoError::Json(reason) => words@ == "JSON failure: "@ + reason@,
            GlycoError::InvalidNodeId(id) => words@ == "invalid node id '"@ + id@ + "'"@,
            GlycoError::FrameTooLarge { size, limit } => words@ == "message is too large: "@
                + decimal(size as nat) + " bytes (limit: "@ + decimal(limit as nat) + ")"@,
            GlycoError::NotStarted => words@ == "the connexon is not started"@,
            GlycoError::PeerNotConnected(id) => words@ == "peer '"@ + id@ + "' is not connected"@,
            GlycoError::NodeAlreadyRunning(id) => words@ == "node '"@ + id@
                + "' is already running"@,
            GlycoError::FieldNotFound { node, field } => words@ == "field '"@ + field@ + "' on '"@
                + node@ + "' does not exist"@,
            GlycoError::NotAMethod { node, field } => words@ == "field '"@ + field@ + "' on '"@
                + node@ + "' is not a method"@,
            GlycoError::DuplicateField(field) => words@ == "field '"@ + field@
                + "' is already registered"@,
            GlycoError::SchemaGeneration(reason) => words@ == "JSON schema generation failed: "@
                + reason@,
            GlycoError::Validation(findings) => words@ == "JSON schema validation failed: "@
                + findings@,
            GlycoError::Timeout { qid, node, field } => words@ == "query "@ + uuid_text(qid)
                + " to '"@ + node@ + "/"@ + field@ + "' timed out"@,
            GlycoError::Cancelled(qid) => words@ == "query "@ + uuid_text(qid)
                + " was cancelled"@,
            GlycoError::Remote(told) => words@ == "remote handler failed: "@ + told.message@,
            GlycoError::Handler(told) => words@ == "handler failed: "@ + told.message@,
            GlycoError::Task(reason) => words@ == "background task failed: "@ + reason@,
            GlycoError::TypedJson { context, source } => words@
                == "typed JSON conversion failed for "@ + context@ + ": "@ + source@,
            GlycoError::Protocol(reason) => words@ == "invalid protocol payload: "@ + reason@,
            GlycoError::UnexpectedPayload(payload) => words@ == "unexpected reply payload: "@
                + json_text(payload),
        },
{
}

/// The numbers in the words of an error are read back as they were.
pub proof fn law_error_numbers(size: usize)
    ensures
        number_value(decimal(size as nat)) == size,
{
    law_number_read_back(size as int);
}

/// A failure of a handler has the words that it was made with, however it was made.
pub proof fn law_handler_words(
    words: &str,
    text: String,
    made: HandlerError,
    from_text: HandlerError,
    from_words: HandlerError,
    read: &str,
)
    requires
        call_ensures(HandlerError::new, (words,), made),
        call_ensures(<HandlerError as From<String>>::from, (text,), from_text),
        call_ensures(<HandlerError as From<&str>>::from, (words,), from_words),
        call_ensures(HandlerError::message, (&made,), read),
    ensures
        made.message@ == words@,
        from_text.message@ == text@,
        from_words.message@ == words@,
        read@ == words@,
{
}

/// The words of a failure that another node reported are read as they came.
pub proof fn law_remote_words(error: &RemoteError, read: &str)
    requires
        call_ensures(RemoteError::message, (error,), read),
    ensures
        read@ == error.message@,
{
}

/// An input or output failure has the kind and the words that it was made with, and keeps both when it
/// is passed on, but for the code of the operating system.
pub proof fn law_io_failures(
    kind: IoErrorKind,
    words: &str,
    made: IoFailure,
    broken: IoFailure,
    any: &IoFailure,
    retold: IoFailure,
)
    requires
        call_ensures(IoFailure::new, (kind, words), made),
        call_ensures(broken_pipe, (words,), broken),
        call_ensures(IoFailure::retold, (any,), retold),
    ensures
        made.kind == kind && made.message@ == words@ && made.os_code is None,
        broken.kind == IoErrorKind::BrokenPipe && broken.message@ == words@ && broken.os_code is None,
        retold.kind == any.kind && retold.message@ == any.message@ && retold.os_code is None,
{
}

/// A fault is told in the words that it was given, on the peer that it was given, or on none.
pub proof fn law_faults(
    peer: &str,
    words: String,
    on_peer: ConnexonEvent,
    on_none: ConnexonEvent,
)
    requires
        call_ensures(peer_fault, (peer, words), on_peer),
        call_ensures(local_fault, (words,), on_none),
    ensures
        on_peer matches ConnexonEvent::Fault { peer: on, message } && on matches Some(id) && id@
            == peer@ && message@ == words@,
        on_none matches ConnexonEvent::Fault { peer: on, message } && on is None && message@
            == words@,
{
}

/// A typed handler is given what its request was read as, and its caller is told where it could not
/// be; its response is the payload of the reply, and its caller is told where there could be none.
pub proof fn law_typed_handlers<T>(
    read: Result<T, String>,
    request: Result<T, HandlerError>,
    event: Result<T, HandlerError>,
    written: Result<Value, String>,
    response: Result<Option<Value>, HandlerError>,
)
    requires
        call_ensures(typed_request::<T>, (read,), request),
        call_ensures(typed_event::<T>, (read,), event),
        call_ensures(typed_response, (written,), response),
    ensures
        read matches Ok(value) ==> request == Ok::<T, HandlerError>(value) && event == Ok::<
            T,
            HandlerError,
        >(value),
        read matches Err(reason) ==> (request matches Err(failure) && failure.message@
            == "request JSON is invalid: "@ + reason@) && (event matches Err(told) && told.message@
            == "event JSON is invalid: "@ + reason@),
        written matches Ok(value) ==> response == Ok::<Option<Value>, HandlerError>(Some(value)),
        written matches Err(reason) ==> (response matches Err(failure) && failure.message@
            == "response JSON failed: "@ + reason@),
{
}

/// A typed call returns nothing for a reply without a payload, the value that the payload was read as,
/// or the failure to read it; a value that could be converted is never lost, and a failure is told with
/// where it happened and why.
pub proof fn law_typed_calls<T>(
    read: Option<Result<T, String>>,
    reply: Result<Option<T>, GlycoError>,
    place: &str,
    converted: Result<T, String>,
    value: Result<T, GlycoError>,
)
    requires
        call_ensures(typed_reply::<T>, (read,), reply),
        call_ensures(typed_json::<T>, (place, converted), value),
    ensures
        reply is Err <==> (read matches Some(outcome) && outcome is Err),
        reply matches Ok(Some(returned)) ==> read == Some(Ok::<T, String>(returned)),
        reply matches Ok(nothing) ==> (nothing is None <==> read is None),
        reply matches Err(error) ==> (error matches GlycoError::TypedJson { context, source }
            && context@ == "response"@ && source@ == read->Some_0->Err_0@),
        converted matches Ok(result) ==> value == Ok::<T, GlycoError>(result),
        converted matches Err(reason) ==> (value matches Err(
            GlycoError::TypedJson { context, source },
        ) && context@ == place@ && source@ == reason@),
{
}

/// A typed handler without a payload reads `null`, and with one reads that.
pub proof fn law_argument_document(payload: Option<Value>, document: Value)
    requires
        call_ensures(argument_document, (payload,), document),
    ensures
        payload matches Some(value) ==> document == value,
        payload is None ==> json_text(document) == "null"@,
{
}

/// A copy is the same.
pub proof fn law_remote_error_copied(original: &RemoteError, copy: RemoteError)
    requires
        call_ensures(<RemoteError as Clone>::clone, (original,), copy),
    ensures
        copy == *original,
{
}

/// A copy is the same.
pub proof fn law_handler_error_copied(original: &HandlerError, copy: HandlerError)
    requires
        call_ensures(<HandlerError as Clone>::clone, (original,), copy),
    ensures
        copy == *original,
{
}

/// A copy is the same.
pub proof fn law_io_failure_copied(original: &IoFailure, copy: IoFailure)
    requires
        call_ensures(<IoFailure as Clone>::clone, (original,), copy),
    ensures
        copy == *original,
{
}

/// A copy is the same.
pub proof fn law_request_context_copied(original: &RequestContext, copy: RequestContext)
    requires
        call_ensures(<RequestContext as Clone>::clone, (original,), copy),
    ensures
        copy == *original,
{
}

/// A copy is the same.
pub proof fn law_call_options_copied(original: &CallOptions, copy: CallOptions)
    requires
        call_ensures(<CallOptions as Clone>::clone, (original,), copy),
    ensures
        copy == *original,
{
}

/// A copy is the same.
pub proof fn law_field_copied(original: &Field, copy: Field)
    requires
        call_ensures(<Field as Clone>::clone, (original,), copy),
    ensures
        copy == *original,
{
}

/// A copy is the same.
pub proof fn law_method_field_copied(original: &MethodField, copy: MethodField)
    requires
        call_ensures(<MethodField as Clone>::clone, (original,), copy),
    ensures
        copy == *original,
{
}

/// A copy is the same.
pub proof fn law_event_field_copied(original: &EventField, copy: EventField)
    requires
        call_ensures(<EventField as Clone>::clone, (original,), copy),
    ensures
        copy == *original,
{
}

/// A copy is the same.
pub proof fn law_query_copied(original: &Query, copy: Query)
    requires
        call_ensures(<Query as Clone>::clone, (original,), copy),
    ensures
        copy == *original,
{
}

/// A copy is the same.
pub proof fn law_reply_copied(original: &Reply, copy: Reply)
    requires
        call_ensures(<Reply as Clone>::clone, (original,), copy),
    ensures
        copy == *original,
{
}

/// A copy is the same.
pub proof fn law_event_copied(original: &Event, copy: Event)
    requires
        call_ensures(<Event as Clone>::clone, (original,), copy),
    ensures
        copy == *original,
{
}

/// A copy is the same.
pub proof fn law_heartbeat_copied(original: &Heartbeat, copy: Heartbeat)
    requires
        call_ensures(<Heartbeat as Clone>::clone, (original,), copy),
    ensures
        copy == *original,
{
}

/// A copy of a beacon announces the same at the same time.
pub proof fn law_beacon_copied(original: &Beacon, copy: Beacon)
    requires
        call_ensures(<Beacon as Clone>::clone, (original,), copy),
    ensures
        copy.id@ == original.id@,
        copy.vendor == original.vendor,
        copy.protocol_version == original.protocol_version,
        copy.fields@ == original.fields@,
        copy.timestamp == original.timestamp,
{
}

/// A copy of a message is a message of the same kind and content.
pub proof fn law_message_copied(original: &Glycosyl, copy: Glycosyl)
    requires
        call_ensures(<Glycosyl as Clone>::clone, (original,), copy),
    ensures
        match (*original, copy) {
            (Glycosyl::Beacon(a), Glycosyl::Beacon(b)) => a.id@ == b.id@ && a.vendor == b.vendor
                && a.protocol_version == b.protocol_version && a.fields@ == b.fields@ && a.timestamp
                == b.timestamp,
            (a, b) => a == b,
        },
{
}

/// A copy of what a transport told tells the same.
pub proof fn law_connexon_event_copied(original: &ConnexonEvent, copy: ConnexonEvent)
    requires
        call_ensures(<ConnexonEvent as Clone>::clone, (original,), copy),
    ensures
        match (*original, copy) {
            (
                ConnexonEvent::Message(Glycosyl::Beacon(a)),
                ConnexonEvent::Message(Glycosyl::Beacon(b)),
            ) => a.id@ == b.id@ && a.vendor == b.vendor && a.protocol_version == b.protocol_version
                && a.fields@ == b.fields@ && a.timestamp == b.timestamp,
            (a, b) => a == b,
        },
{
}

/// A copy of what was told of a present node tells the same.
pub proof fn law_presenter_event_copied(original: &PresenterEvent, copy: PresenterEvent)
    requires
        call_ensures(<PresenterEvent as Clone>::clone, (original,), copy),
    ensures
        match (*original, copy) {
            (PresenterEvent::Discovered(a), PresenterEvent::Discovered(b)) => a.id@ == b.id@
                && a.fields@ == b.fields@ && a.vendor == b.vendor,
            (PresenterEvent::Expired(a), PresenterEvent::Expired(b)) => a.id@ == b.id@ && a.fields@
                == b.fields@ && a.vendor == b.vendor,
            (
                PresenterEvent::Changed { previous: a, current: c },
                PresenterEvent::Changed { previous: b, current: d },
            ) => a.id@ == b.id@ && a.fields@ == b.fields@ && a.vendor == b.vendor && c.id@ == d.id@
                && c.fields@ == d.fields@ && c.vendor == d.vendor,
            _ => false,
        },
{
}

} // verus!
