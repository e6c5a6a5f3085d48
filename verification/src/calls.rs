//! Calls of the methods of other nodes, and what is known to a handler of the call that it answers.
use crate::error::{GlycoError, RemoteError};
use crate::outside::duration_nanos;
use crate::protocol::Query;
use serde_json::Value;
use std::time::Duration;
use tokio_util::sync::CancellationToken;
use vstd::prelude::*;
use vstd::string::*;

verus! {

/// How long a call waits for its reply unless told otherwise.
pub const DEFAULT_QUERY_TIMEOUT_SECS: u64 = 30;

/// The time that a call waits unless told otherwise.
pub open spec fn is_default_timeout(timeout: Option<Duration>) -> bool {
    timeout matches Some(duration) && duration_nanos(duration) == DEFAULT_QUERY_TIMEOUT_SECS
        * 1_000_000_000
}

/// The time that a call waits unless told otherwise.
pub fn default_timeout() -> (timeout: Option<Duration>)
    ensures
        is_default_timeout(timeout),
{
    Some(Duration::from_secs(DEFAULT_QUERY_TIMEOUT_SECS))
}

/// What a handler knows of the call that it answers.
#[derive(Debug)]
pub struct RequestContext {
    pub qid: u128,
    pub source_gid: Option<String>,
    pub cancellation: CancellationToken,
}

impl Clone for RequestContext {
    fn clone(&self) -> (copy: Self)
        ensures
            copy == *self,
    {
        RequestContext {
            qid: self.qid,
            source_gid: self.source_gid.clone(),
            cancellation: self.cancellation.clone(),
        }
    }
}

/// How to wait for the reply to a call: for how long, for ever without a timeout, and until when at
/// most.
#[derive(Debug)]
pub struct CallOptions {
    pub timeout: Option<Duration>,
    pub cancellation: CancellationToken,
}

impl Clone for CallOptions {
    fn clone(&self) -> (copy: Self)
        ensures
            copy == *self,
    {
        CallOptions { timeout: self.timeout, cancellation: self.cancellation.clone() }
    }
}

impl Default for CallOptions {
    fn default() -> (options: Self)
        ensures
            is_default_timeout(options.timeout),
    {
        CallOptions { timeout: default_timeout(), cancellation: CancellationToken::new() }
    }
}

impl CallOptions {
    /// The options with another timeout.
    pub fn with_timeout(self, timeout: Option<Duration>) -> (options: Self)
        ensures
            options == (CallOptions { timeout, ..self }),
    {
        CallOptions { timeout, ..self }
    }

    /// The options with another way to give up.
    pub fn with_cancellation(self, cancellation: CancellationToken) -> (options: Self)
        ensures
            options == (CallOptions { cancellation, ..self }),
    {
        CallOptions { cancellation, ..self }
    }
}

/// A call that waits for its reply.
#[derive(Debug)]
pub struct PendingCall {
    pub query: Query,
    pub options: CallOptions,
}

/// How the wait for a reply ended.
#[derive(Debug)]
pub enum CallOutcome {
    /// The query could not be sent.
    SendFailed(GlycoError),
    Replied(Result<Option<Value>, RemoteError>),
    /// There is nobody left who could deliver a reply.
    ChannelClosed,
    TimedOut,
    Cancelled,
}

/// What a call returns when the wait for its reply ended.
pub open spec fn is_call_result(
    call: PendingCall,
    outcome: CallOutcome,
    result: Result<Option<Value>, GlycoError>,
) -> bool {
    match outcome {
        CallOutcome::SendFailed(error) => result == Err::<Option<Value>, GlycoError>(error),
        CallOutcome::Replied(Ok(payload)) => result == Ok::<Option<Value>, GlycoError>(payload),
        CallOutcome::Replied(Err(error)) => result == Err::<Option<Value>, GlycoError>(
            GlycoError::Remote(error),
        ),
        CallOutcome::ChannelClosed => result matches Err(GlycoError::Task(text)) && text@
            == "reply channel closed"@,
        CallOutcome::TimedOut => result matches Err(GlycoError::Timeout { qid, node, field })
            && qid == call.query.qid && node@ == call.query.gid@ && field@ == call.query.fid@,
        CallOutcome::Cancelled => result == Err::<Option<Value>, GlycoError>(
            GlycoError::Cancelled(call.query.qid),
        ),
    }
}

/// What a call returns when the wait for its reply ended.
pub fn call_result(call: &PendingCall, outcome: CallOutcome) -> (result: Result<
    Option<Value>,
    GlycoError,
>)
    ensures
        is_call_result(*call, outcome, result),
{
    match outcome {
        CallOutcome::SendFailed(error) => Err(error),
        CallOutcome::Replied(Ok(payload)) => Ok(payload),
        CallOutcome::Replied(Err(error)) => Err(GlycoError::Remote(error)),
        CallOutcome::ChannelClosed => Err(GlycoError::Task("reply channel closed".to_owned())),
        CallOutcome::TimedOut => Err(
            GlycoError::Timeout {
                qid: call.query.qid,
                node: call.query.gid.clone(),
                field: call.query.fid.clone(),
            },
        ),
        CallOutcome::Cancelled => Err(GlycoError::Cancelled(call.query.qid)),
    }
}

} // verus!
