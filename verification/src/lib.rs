//! Verified core of the Glycoprotein local IPC mesh.
//!
//! Nodes on one machine find each other through the socket files of a directory, announce what
//! they offer, call each other's methods and listen to each other's events. This library holds the
//! decisions of a node and of its transport: what is framed and how it is read back, who dials
//! whom, where a message goes, who is present, how a call begins and ends, and how a query is
//! answered. Sockets, threads, tasks, clocks and the conversion of typed values belong to the
//! program around it, which reports what happened and does what the library says.
//!
//! [`GlycoComplex`] is a node, [`UnixDomainMeshConnexon`] its end of the mesh.
pub mod call_laws;
pub mod calls;
pub mod discovery_laws;
pub mod error;
pub mod exchange_laws;
pub mod fields;
pub mod frame;
pub mod handlers;
pub mod identity;
pub mod lifecycle_laws;
pub mod members;
pub mod mesh;
pub mod mesh_laws;
pub mod message_laws;
pub mod node;
pub mod node_laws;
pub mod order_laws;
pub mod outside;
pub mod presence;
pub mod presence_laws;
pub mod protocol;
pub mod registration_laws;
pub mod registry;
pub mod schedule;
pub mod schema;
pub mod text;
pub mod transport;
pub mod transport_laws;
pub mod typed;
pub mod value_laws;
pub mod wire;
pub mod wire_laws;
pub mod workers;

pub use calls::{CallOptions, CallOutcome, PendingCall, RequestContext};
pub use error::{GlycoError, HandlerError, IoErrorKind, IoFailure, RemoteError};
pub use mesh::UnixDomainMeshConnexon;
pub use node::{GlycoComplex, GlycoComplexBuilder};
pub use presence::PresenterEvent;
pub use protocol::{
    Beacon, Event, EventField, Field, Glycosyl, Heartbeat, MethodField, Query, Reply,
    PROTOCOL_VERSION,
};
pub use schema::validate_json;
pub use transport::ConnexonEvent;
