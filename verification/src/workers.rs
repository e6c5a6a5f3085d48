//! The workers of a transport: accepting connections, the way to a writer, and waiting.
use crate::error::{broken_pipe, wrapped, IoErrorKind, IoFailure};
use crate::outside::duration_nanos;
use crate::transport::{local_fault, ConnexonEvent};
use std::time::Duration;
use vstd::prelude::*;
use vstd::string::*;

verus! {

/// The pause after a listening socket had no connection to give.
pub const ACCEPT_POLL_MILLIS: u64 = 20;

/// The longest time that a waiting thread goes without a look at its cancellation.
pub const INTERRUPT_POLL_MILLIS: u64 = 25;

/// How long a connecting peer may take for its handshake.
pub const HANDSHAKE_TIMEOUT_MILLIS: u64 = 5000;

/// How long a write to a peer may take.
pub const WRITE_TIMEOUT_MILLIS: u64 = 5000;

/// What a listening socket gave.
#[derive(Debug)]
pub enum AcceptOutcome {
    Connection,
    WouldBlock,
    Failed(String),
}

/// What follows what a listening socket gave.
#[derive(Debug)]
pub enum AcceptAction {
    /// Hand the connection to a worker of its own.
    Handle,
    /// Pause.
    Pause,
    /// Tell the fault, then pause.
    Report(ConnexonEvent),
    /// Nothing: the transport is being stopped.
    Nothing,
}

/// What follows what a listening socket gave.
pub fn accept_step(accepted: AcceptOutcome, cancelled: bool) -> (action: AcceptAction)
    ensures
        match accepted {
            AcceptOutcome::Connection => action is Handle,
            AcceptOutcome::WouldBlock => action is Pause,
            AcceptOutcome::Failed(text) => if cancelled {
                action is Nothing
            } else {
                action matches AcceptAction::Report(fault) && fault.is_fault(
                    None,
                    "accept failed: "@ + text@,
                )
            },
        },
{
    match accepted {
        AcceptOutcome::Connection => AcceptAction::Handle,
        AcceptOutcome::WouldBlock => AcceptAction::Pause,
        AcceptOutcome::Failed(text) => if cancelled {
            AcceptAction::Nothing
        } else {
            AcceptAction::Report(local_fault(wrapped("accept failed: ", text.as_str(), "")))
        },
    }
}

/// What is told of a connection for which there was no worker.
pub fn spawn_fault(error: &str) -> (fault: ConnexonEvent)
    ensures
        fault.is_fault(None, "could not spawn handshake worker: "@ + error@),
{
    local_fault(wrapped("could not spawn handshake worker: ", error, ""))
}

/// The failure of a write whose writer ended.
pub open spec fn is_writer_stopped(failure: IoFailure) -> bool {
    &&& failure.kind == IoErrorKind::BrokenPipe
    &&& failure.os_code is None
    &&& failure.message@ == "peer writer stopped"@
}

/// The failure of a write whose writer ended.
pub fn writer_stopped() -> (failure: IoFailure)
    ensures
        is_writer_stopped(failure),
{
    broken_pipe("peer writer stopped")
}

/// The way to the writer of a peer.
#[derive(Debug)]
pub struct PeerLink {
    open: bool,
}

impl PeerLink {
    /// Whether the way is open.
    pub closed spec fn is_open(self) -> bool {
        self.open
    }

    /// An open way.
    pub fn new() -> (link: Self)
        ensures
            link.is_open(),
    {
        PeerLink { open: true }
    }

    /// Refuses a request to the writer on a closed way.
    pub fn ensure_open(&self) -> (verdict: Result<(), IoFailure>)
        ensures
            match verdict {
                Ok(_) => self.is_open(),
                Err(failure) => {
                    &&& !self.is_open()
                    &&& failure.kind == IoErrorKind::BrokenPipe
                    &&& failure.os_code is None
                    &&& failure.message@ == "peer is closed"@
                },
            },
    {
        if self.open {
            Ok(())
        } else {
            Err(broken_pipe("peer is closed"))
        }
    }

    /// The outcome of a request to the writer: refused on a closed way, and lost if the writer did
    /// not take it.
    pub fn enqueue(&self, taken: bool) -> (outcome: Result<(), IoFailure>)
        ensures
            match outcome {
                Ok(_) => self.is_open() && taken,
                Err(failure) => if self.is_open() {
                    !taken && is_writer_stopped(failure)
                } else {
                    &&& failure.kind == IoErrorKind::BrokenPipe
                    &&& failure.os_code is None
                    &&& failure.message@ == "peer is closed"@
                },
            },
    {
        match self.ensure_open() {
            Ok(_) => {},
            Err(failure) => return Err(failure),
        }
        if taken {
            Ok(())
        } else {
            Err(writer_stopped())
        }
    }

    /// Closes the way. The first call says that the socket is to be shut down; later ones have
    /// nothing to do.
    pub fn shutdown(&mut self) -> (first: bool)
        ensures
            !final(self).is_open(),
            first == old(self).is_open(),
    {
        let first = self.open;
        self.open = false;
        first
    }
}

/// How long to sleep before the next look at a cancellation, in nanoseconds: the rest of the time,
/// but no longer than a poll interval; `None` when the time is up.
pub fn sleep_slice(duration: Duration, elapsed: Duration) -> (slice: Option<u64>)
    ensures
        ({
            let rest = duration_nanos(duration) - duration_nanos(elapsed);
            let poll = INTERRUPT_POLL_MILLIS * 1_000_000;
            match slice {
                Some(slice) => rest > 0 && slice == (if rest < poll {
                    rest
                } else {
                    poll
                }),
                None => rest <= 0,
            }
        }),
{
    let whole: u128 = duration.as_nanos();
    let gone: u128 = elapsed.as_nanos();
    if gone >= whole {
        return None;
    }
    let rest: u128 = whole - gone;
    let poll: u64 = INTERRUPT_POLL_MILLIS * 1_000_000;
    if rest < poll as u128 {
        Some(rest as u64)
    } else {
        Some(poll)
    }
}

} // verus!
