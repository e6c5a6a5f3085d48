//! The errors of the library and their texts.
use crate::outside::{json_text, uuid_text, write_json, write_uuid};
use crate::text::{decimal, push_decimal};
use vstd::prelude::*;
use vstd::string::*;

verus! {

/// A failure that a remote handler reported.
#[derive(Debug, PartialEq)]
pub struct RemoteError {
    pub message: String,
}

impl Clone for RemoteError {
    fn clone(&self) -> (copy: Self)
        ensures
            copy == *self,
    {
        RemoteError { message: self.message.clone() }
    }
}

impl RemoteError {
    /// The text of the error.
    pub fn message(&self) -> (text: &str)
        ensures
            text@ == self.message@,
    {
        self.message.as_str()
    }
}

/// A failure of a handler.
#[derive(Debug, PartialEq)]
pub struct HandlerError {
    pub message: String,
}

impl Clone for HandlerError {
    fn clone(&self) -> (copy: Self)
        ensures
            copy == *self,
    {
        HandlerError { message: self.message.clone() }
    }
}

impl HandlerError {
    /// A handler failure with the given text.
    pub fn new(message: &str) -> (error: Self)
        ensures
            error.message@ == message@,
    {
        HandlerError { message: message.to_owned() }
    }

    /// The text of the error.
    pub fn message(&self) -> (text: &str)
        ensures
            text@ == self.message@,
    {
        self.message.as_str()
    }
}

impl From<String> for HandlerError {
    fn from(value: String) -> (error: Self) {
        HandlerError { message: value }
    }
}

impl vstd::std_specs::convert::FromSpecImpl<String> for HandlerError {
    open spec fn obeys_from_spec() -> bool {
        true
    }

    open spec fn from_spec(value: String) -> Self {
        HandlerError { message: value }
    }
}

impl From<&str> for HandlerError {
    fn from(value: &str) -> (error: Self)
        ensures
            error.message@ == value@,
    {
        HandlerError::new(value)
    }
}

impl vstd::std_specs::convert::FromSpecImpl<&str> for HandlerError {
    open spec fn obeys_from_spec() -> bool {
        false
    }

    open spec fn from_spec(value: &str) -> Self {
        arbitrary()
    }
}

/// What kind of input or output failure an [`IoFailure`] is.
#[derive(Debug, Clone, Copy, PartialEq, Eq, Structural)]
pub enum IoErrorKind {
    NotFound,
    PermissionDenied,
    ConnectionRefused,
    ConnectionReset,
    HostUnreachable,
    NetworkUnreachable,
    ConnectionAborted,
    NotConnected,
    AddrInUse,
    AddrNotAvailable,
    NetworkDown,
    BrokenPipe,
    AlreadyExists,
    WouldBlock,
    NotADirectory,
    IsADirectory,
    DirectoryNotEmpty,
    ReadOnlyFilesystem,
    StaleNetworkFileHandle,
    InvalidInput,
    InvalidData,
    TimedOut,
    WriteZero,
    StorageFull,
    NotSeekable,
    QuotaExceeded,
    FileTooLarge,
    ResourceBusy,
    ExecutableFileBusy,
    Deadlock,
    CrossesDevices,
    TooManyLinks,
    InvalidFilename,
    ArgumentListTooLong,
    Interrupted,
    Unsupported,
    UnexpectedEof,
    OutOfMemory,
    Other,
}

/// An input or output failure, with the code that the operating system gave for it, if it did.
#[derive(Debug, PartialEq)]
pub struct IoFailure {
    pub kind: IoErrorKind,
    pub os_code: Option<i32>,
    pub message: String,
}

impl Clone for IoFailure {
    fn clone(&self) -> (copy: Self)
        ensures
            copy == *self,
    {
        IoFailure { kind: self.kind, os_code: self.os_code, message: self.message.clone() }
    }
}

impl IoFailure {
    /// A failure of the given kind with the given text, not from the operating system.
    pub fn new(kind: IoErrorKind, message: &str) -> (failure: Self)
        ensures
            failure.kind == kind,
            failure.os_code is None,
            failure.message@ == message@,
    {
        IoFailure { kind, os_code: None, message: message.to_owned() }
    }

    /// The failure as it is passed on: of the same kind and with the same text, without the code.
    pub fn retold(&self) -> (failure: Self)
        ensures
            failure == (IoFailure { os_code: None, ..*self }),
    {
        IoFailure { kind: self.kind, os_code: None, message: self.message.clone() }
    }
}

/// The failure of a write whose peer is gone.
pub fn broken_pipe(message: &str) -> (failure: IoFailure)
    ensures
        failure.kind == IoErrorKind::BrokenPipe,
        failure.os_code is None,
        failure.message@ == message@,
{
    IoFailure::new(IoErrorKind::BrokenPipe, message)
}

/// Everything that can go wrong in a node or its transport.
#[derive(Debug, PartialEq)]
pub enum GlycoError {
    Io(IoFailure),
    Json(String),
    InvalidNodeId(String),
    FrameTooLarge { size: usize, limit: usize },
    NotStarted,
    PeerNotConnected(String),
    NodeAlreadyRunning(String),
    FieldNotFound { node: String, field: String },
    NotAMethod { node: String, field: String },
    DuplicateField(String),
    SchemaGeneration(String),
    Validation(String),
    Timeout { qid: u128, node: String, field: String },
    Cancelled(u128),
    Remote(RemoteError),
    Handler(HandlerError),
    Task(String),
    TypedJson { context: String, source: String },
    Protocol(String),
    UnexpectedPayload(serde_json::Value),
}

impl GlycoError {
    /// The text of the error.
    pub open spec fn text(self) -> Seq<char> {
        match self {
            GlycoError::Io(failure) => "I/O failure: "@ + failure.message@,
            GlycoError::Json(source) => "JSON failure: "@ + source@,
            GlycoError::InvalidNodeId(id) => "invalid node id '"@ + id@ + "'"@,
            GlycoError::FrameTooLarge { size, limit } => "message is too large: "@ + decimal(
                size as nat,
            ) + " bytes (limit: "@ + decimal(limit as nat) + ")"@,
            GlycoError::NotStarted => "the connexon is not started"@,
            GlycoError::PeerNotConnected(peer) => "peer '"@ + peer@ + "' is not connected"@,
            GlycoError::NodeAlreadyRunning(node) => "node '"@ + node@ + "' is already running"@,
            GlycoError::FieldNotFound { node, field } => "field '"@ + field@ + "' on '"@ + node@
                + "' does not exist"@,
            GlycoError::NotAMethod { node, field } => "field '"@ + field@ + "' on '"@ + node@
                + "' is not a method"@,
            GlycoError::DuplicateField(field) => "field '"@ + field@ + "' is already registered"@,
            GlycoError::SchemaGeneration(source) => "JSON schema generation failed: "@ + source@,
            GlycoError::Validation(errors) => "JSON schema validation failed: "@ + errors@,
            GlycoError::Timeout { qid, node, field } => "query "@ + uuid_text(qid) + " to '"@
                + node@ + "/"@ + field@ + "' timed out"@,
            GlycoError::Cancelled(qid) => "query "@ + uuid_text(qid) + " was cancelled"@,
            GlycoError::Remote(error) => "remote handler failed: "@ + error.message@,
            GlycoError::Handler(error) => "handler failed: "@ + error.message@,
            GlycoError::Task(source) => "background task failed: "@ + source@,
            GlycoError::TypedJson { context, source } => "typed JSON conversion failed for "@
                + context@ + ": "@ + source@,
            GlycoError::Protocol(source) => "invalid protocol payload: "@ + source@,
            GlycoError::UnexpectedPayload(payload) => "unexpected reply payload: "@ + json_text(
                payload,
            ),
        }
    }

    /// The text of the error.
    pub fn message(&self) -> (text: String)
        ensures
            text@ == self.text(),
    {
        match self {
            GlycoError::Io(failure) => wrapped("I/O failure: ", failure.message.as_str(), ""),
            GlycoError::Json(source) => wrapped("JSON failure: ", source.as_str(), ""),
            GlycoError::InvalidNodeId(id) => wrapped("invalid node id '", id.as_str(), "'"),
            GlycoError::FrameTooLarge { size, limit } => {
                let mut text = "message is too large: ".to_owned();
                push_decimal(&mut text, *size as u64);
                text.append(" bytes (limit: ");
                push_decimal(&mut text, *limit as u64);
                text.append(")");
                text
            },
            GlycoError::NotStarted => "the connexon is not started".to_owned(),
            GlycoError::PeerNotConnected(peer) => wrapped(
                "peer '",
                peer.as_str(),
                "' is not connected",
            ),
            GlycoError::NodeAlreadyRunning(node) => wrapped(
                "node '",
                node.as_str(),
                "' is already running",
            ),
            GlycoError::FieldNotFound { node, field } => {
                let mut text = wrapped("field '", field.as_str(), "' on '");
                text.append(node.as_str());
                text.append("' does not exist");
                text
            },
            GlycoError::NotAMethod { node, field } => {
                let mut text = wrapped("field '", field.as_str(), "' on '");
                text.append(node.as_str());
                text.append("' is not a method");
                text
            },
            GlycoError::DuplicateField(field) => wrapped(
                "field '",
                field.as_str(),
                "' is already registered",
            ),
            GlycoError::SchemaGeneration(source) => wrapped(
                "JSON schema generation failed: ",
                source.as_str(),
                "",
            ),
            GlycoError::Validation(errors) => wrapped(
                "JSON schema validation failed: ",
                errors.as_str(),
                "",
            ),
            GlycoError::Timeout { qid, node, field } => {
                let mut text = wrapped("query ", write_uuid(*qid).as_str(), " to '");
                text.append(node.as_str());
                text.append("/");
                text.append(field.as_str());
                text.append("' timed out");
                text
            },
            GlycoError::Cancelled(qid) => wrapped(
                "query ",
                write_uuid(*qid).as_str(),
                " was cancelled",
            ),
            GlycoError::Remote(error) => wrapped(
                "remote handler failed: ",
                error.message.as_str(),
                "",
            ),
            GlycoError::Handler(error) => wrapped("handler failed: ", error.message.as_str(), ""),
            GlycoError::Task(source) => wrapped("background task failed: ", source.as_str(), ""),
            GlycoError::TypedJson { context, source } => {
                let mut text = wrapped(
                    "typed JSON conversion failed for ",
                    context.as_str(),
                    ": ",
                );
                text.append(source.as_str());
                text
            },
            GlycoError::Protocol(source) => wrapped(
                "invalid protocol payload: ",
                source.as_str(),
                "",
            ),
            GlycoError::UnexpectedPayload(payload) => wrapped(
                "unexpected reply payload: ",
                write_json(payload).as_str(),
                "",
            ),
        }
    }
}

/// A text between two others.
pub fn wrapped(before: &str, middle: &str, after: &str) -> (text: String)
    ensures
        text@ == before@ + middle@ + after@,
        after@ == ""@ ==> text@ == before@ + middle@,
{
    let mut text = before.to_owned();
    text.append(middle);
    text.append(after);
    proof {
        reveal_strlit("");
        if after@ == ""@ {
            assert(text@ =~= before@ + middle@);
        }
    }
    text
}

} // verus!
