//! The seams between typed values and JSON documents. The conversions themselves belong to the
//! program around the library; what follows from their outcomes is decided here.
use crate::error::{wrapped, GlycoError, HandlerError};
use crate::outside::{json_null, json_text};
use serde_json::Value;
use vstd::prelude::*;
use vstd::string::*;

verus! {

/// The document from which a typed argument is read: the payload, or `null` without one.
pub fn argument_document(payload: Option<Value>) -> (document: Value)
    ensures
        match payload {
            Some(payload) => document == payload,
            None => json_text(document) == "null"@,
        },
{
    match payload {
        Some(payload) => payload,
        None => json_null(),
    }
}

/// The request of a typed handler, or the failure that its caller is told.
pub fn typed_request<T>(parsed: Result<T, String>) -> (request: Result<T, HandlerError>)
    ensures
        match parsed {
            Ok(value) => request == Ok::<T, HandlerError>(value),
            Err(error) => request matches Err(failure) && failure.message@
                == "request JSON is invalid: "@ + error@,
        },
{
    match parsed {
        Ok(value) => Ok(value),
        Err(error) => Err(
            HandlerError { message: wrapped("request JSON is invalid: ", error.as_str(), "") },
        ),
    }
}

/// The payload of a typed handler's reply, or the failure that its caller is told.
pub fn typed_response(encoded: Result<Value, String>) -> (payload: Result<
    Option<Value>,
    HandlerError,
>)
    ensures
        match encoded {
            Ok(value) => payload == Ok::<Option<Value>, HandlerError>(Some(value)),
            Err(error) => payload matches Err(failure) && failure.message@
                == "response JSON failed: "@ + error@,
        },
{
    match encoded {
        Ok(value) => Ok(Some(value)),
        Err(error) => Err(
            HandlerError { message: wrapped("response JSON failed: ", error.as_str(), "") },
        ),
    }
}

/// The argument of a typed event handler, or its failure.
pub fn typed_event<T>(parsed: Result<T, String>) -> (argument: Result<T, HandlerError>)
    ensures
        match parsed {
            Ok(value) => argument == Ok::<T, HandlerError>(value),
            Err(error) => argument matches Err(failure) && failure.message@
                == "event JSON is invalid: "@ + error@,
        },
{
    match parsed {
        Ok(value) => Ok(value),
        Err(error) => Err(
            HandlerError { message: wrapped("event JSON is invalid: ", error.as_str(), "") },
        ),
    }
}

/// A typed value of a caller, or the failure of its conversion from or to JSON.
pub fn typed_json<T>(context: &str, converted: Result<T, String>) -> (value: Result<T, GlycoError>)
    ensures
        match converted {
            Ok(value_) => value == Ok::<T, GlycoError>(value_),
            Err(error) => value matches Err(GlycoError::TypedJson { context: where_, source })
                && where_@ == context@ && source == error,
        },
{
    match converted {
        Ok(value) => Ok(value),
        Err(source) => Err(GlycoError::TypedJson { context: context.to_owned(), source }),
    }
}

/// What a typed call returns, from its payload read as a value: nothing without a payload, the value,
/// or the failure to read it.
pub fn typed_reply<T>(parsed: Option<Result<T, String>>) -> (reply: Result<Option<T>, GlycoError>)
    ensures
        match parsed {
            None => reply == Ok::<Option<T>, GlycoError>(None),
            Some(Ok(value)) => reply == Ok::<Option<T>, GlycoError>(Some(value)),
            Some(Err(error)) => reply matches Err(GlycoError::TypedJson { context, source })
                && context@ == "response"@ && source == error,
        },
{
    match parsed {
        None => Ok(None),
        Some(parsed) => match typed_json("response", parsed) {
            Ok(value) => Ok(Some(value)),
            Err(error) => Err(error),
        },
    }
}

} // verus!
