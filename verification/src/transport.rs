//! What a transport tells the node above it.
use crate::protocol::Glycosyl;
use vstd::prelude::*;
use vstd::string::*;

verus! {

/// Something that happened on a transport.
#[derive(Debug, PartialEq)]
pub enum ConnexonEvent {
    Message(Glycosyl),
    PeerConnected(String),
    PeerDisconnected(String),
    Fault { peer: Option<String>, message: String },
}

impl Clone for ConnexonEvent {
    fn clone(&self) -> (copy: Self)
        ensures
            copy.same_as(*self),
    {
        match self {
            ConnexonEvent::Message(message) => ConnexonEvent::Message(message.clone()),
            ConnexonEvent::PeerConnected(peer) => ConnexonEvent::PeerConnected(peer.clone()),
            ConnexonEvent::PeerDisconnected(peer) => ConnexonEvent::PeerDisconnected(peer.clone()),
            ConnexonEvent::Fault { peer, message } => ConnexonEvent::Fault {
                peer: peer.clone(),
                message: message.clone(),
            },
        }
    }
}

impl ConnexonEvent {
    /// Two events with the same content.
    pub open spec fn same_as(self, other: ConnexonEvent) -> bool {
        match (self, other) {
            (ConnexonEvent::Message(a), ConnexonEvent::Message(b)) => a.same_as(b),
            _ => self == other,
        }
    }

    /// The arrival of a peer.
    pub open spec fn is_connected(self, id: Seq<char>) -> bool {
        self matches ConnexonEvent::PeerConnected(peer) && peer@ == id
    }

    /// The departure of a peer.
    pub open spec fn is_disconnected(self, id: Seq<char>) -> bool {
        self matches ConnexonEvent::PeerDisconnected(peer) && peer@ == id
    }

    /// A fault with a given text, on a given peer if on one.
    pub open spec fn is_fault(self, id: Option<Seq<char>>, text: Seq<char>) -> bool {
        self matches ConnexonEvent::Fault { peer, message } && peer.deep_view() == id && message@
            == text
    }
}

/// A fault on a peer.
pub fn peer_fault(peer: &str, message: String) -> (fault: ConnexonEvent)
    ensures
        fault.is_fault(Some(peer@), message@),
{
    ConnexonEvent::Fault { peer: Some(peer.to_owned()), message }
}

/// A fault that belongs to no known peer.
pub fn local_fault(message: String) -> (fault: ConnexonEvent)
    ensures
        fault.is_fault(None, message@),
{
    ConnexonEvent::Fault { peer: None, message }
}

} // verus!
