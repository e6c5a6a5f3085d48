//! The mesh of Unix-domain sockets: who is connected, where messages go, and what happens to a
//! peer whose connection opens, fails or ends.
//!
//! Sockets, threads and files belong to the program around the library. It reports what they did,
//! and the functions here say what follows.
use crate::error::{wrapped, GlycoError, IoErrorKind, IoFailure};
use crate::frame::{fits_frame, frame_message, framed, MAX_PREFIX_LENGTH};
use crate::identity::{
    dial_candidates, dialled, socket_file_name, socket_name, valid_node_id, validate_node_id,
};
use crate::outside::{check_socket_address, join_path, path_joined, read_utf8, utf8_error_text};
use crate::protocol::Glycosyl;
use crate::registry::{ascending, OrderedMap};
use crate::text::same_text;
use crate::transport::{local_fault, peer_fault, ConnexonEvent};
use crate::workers::{is_writer_stopped, writer_stopped};
use std::path::PathBuf;
use vstd::prelude::*;
use vstd::string::*;
use vstd::utf8::*;

verus! {

/// How long the transport waits between two looks at the socket directory.
pub const DISCOVERY_INTERVAL_MILLIS: u64 = 2000;

/// The longest message that a transport sends or accepts.
pub const DEFAULT_MAX_FRAME_LENGTH: usize = 100_000_000;

/// The longest handshake that a transport sends or accepts.
pub const MAX_HANDSHAKE_LENGTH: usize = 4096;

/// The state of a transport.
#[verifier::ext_equal]
pub struct MeshState {
    pub node_id: Seq<char>,
    pub socket_dir: PathBuf,
    pub max_frame_length: nat,
    /// The connected peers, each with the generation of its connection.
    pub peers: Map<Seq<char>, u64>,
    pub next_generation: u64,
    pub started: bool,
}

/// A node's end of the mesh.
pub struct UnixDomainMeshConnexon {
    node_id: String,
    socket_dir: PathBuf,
    socket_path: PathBuf,
    max_frame_length: usize,
    peers: OrderedMap<u64>,
    next_generation: u64,
    started: bool,
}

impl View for UnixDomainMeshConnexon {
    type V = MeshState;

    closed spec fn view(&self) -> MeshState {
        MeshState {
            node_id: self.node_id@,
            socket_dir: self.socket_dir,
            max_frame_length: self.max_frame_length as nat,
            peers: self.peers@,
            next_generation: self.next_generation,
            started: self.started,
        }
    }
}

impl MeshState {
    /// The path of the node's own socket.
    pub open spec fn socket_path(self) -> PathBuf {
        path_joined(self.socket_dir, socket_name(self.node_id))
    }

    /// A transport as it is made: not started, without peers.
    pub open spec fn initial(node_id: Seq<char>, socket_dir: PathBuf) -> MeshState {
        MeshState {
            node_id,
            socket_dir,
            max_frame_length: DEFAULT_MAX_FRAME_LENGTH as nat,
            peers: Map::empty(),
            next_generation: 1,
            started: false,
        }
    }

    /// Every connected peer has a valid id other than the node's own.
    pub open spec fn peers_valid(self) -> bool {
        &&& valid_node_id(self.node_id)
        &&& !self.peers.contains_key(self.node_id)
        &&& forall|peer: Seq<char>| #[trigger]
            self.peers.contains_key(peer) ==> valid_node_id(peer)
    }

    /// The state after a connection of a given generation ended: the peer is gone if that
    /// connection is the one by which it is connected.
    pub open spec fn without(self, peer: Seq<char>, generation: u64) -> MeshState {
        if self.is_current(peer, generation) {
            MeshState { peers: self.peers.remove(peer), ..self }
        } else {
            self
        }
    }

    /// The state after a connection to a peer was made ready: the peer is connected by it, unless
    /// it already was by another one. Either way a generation is used up.
    pub open spec fn with_peer(self, peer: Seq<char>) -> MeshState {
        let counted = MeshState { next_generation: self.next_generation.wrapping_add(1), ..self };
        if self.peers.contains_key(peer) {
            counted
        } else {
            MeshState { peers: self.peers.insert(peer, self.next_generation), ..counted }
        }
    }

    /// The transport with its socket listening, or not.
    pub open spec fn listening(self, started: bool) -> MeshState {
        MeshState { started, ..self }
    }

    /// The transport stopped, with every connection shut down.
    pub open spec fn stopped(self) -> MeshState {
        MeshState { started: false, peers: Map::empty(), ..self }
    }

    /// Every connection is older than the next one.
    pub open spec fn generations_fresh(self) -> bool {
        forall|peer: Seq<char>| #[trigger]
            self.peers.contains_key(peer) ==> self.peers[peer] < self.next_generation
    }

    /// Whether a connection of a given generation is the one by which a peer is connected.
    pub open spec fn is_current(self, peer: Seq<char>, generation: u64) -> bool {
        self.peers.contains_key(peer) && self.peers[peer] == generation
    }
}

/// The path of a node's own socket in a directory.
fn own_socket_path(node_id: &str, directory: &PathBuf) -> (path: PathBuf)
    ensures
        path == path_joined(*directory, socket_name(node_id@)),
{
    join_path(directory, socket_file_name(node_id).as_str())
}

impl UnixDomainMeshConnexon {
    /// What every transport keeps.
    pub closed spec fn wf(self) -> bool {
        &&& self.peers.wf()
        &&& self@.peers_valid()
        &&& self.socket_path == self@.socket_path()
        &&& self@.max_frame_length == DEFAULT_MAX_FRAME_LENGTH
    }

    /// The ids of the connected peers in ascending order.
    pub closed spec fn peer_order(self) -> Seq<Seq<char>> {
        self.peers.keys()
    }

    /// What holds of every transport, whatever was done with it: its peers have valid ids other than
    /// its own, their ascending order lists each of them once, and the longest message that it sends
    /// or accepts has the default length.
    pub proof fn law_invariant(self)
        requires
            self.wf(),
        ensures
            self@.peers_valid(),
            ascending(self.peer_order()),
            self.peer_order().no_duplicates(),
            self.peer_order().to_set() == self@.peers.dom(),
            self@.max_frame_length == DEFAULT_MAX_FRAME_LENGTH,
    {
        self.peers.lemma_keys();
    }

    /// The directory of the sockets of all nodes, inside the directory for temporary files.
    pub fn default_socket_directory(temporary: &PathBuf) -> (directory: PathBuf)
        ensures
            directory == path_joined(*temporary, "glycoprotein"@),
    {
        join_path(temporary, "glycoprotein")
    }

    /// A transport whose socket address was checked with the given outcome.
    pub fn with_checked_address(
        node_id: &str,
        socket_directory: PathBuf,
        address: Result<(), String>,
    ) -> (connexon: Result<Self, GlycoError>)
        ensures
            match connexon {
                Ok(connexon) => {
                    &&& valid_node_id(node_id@)
                    &&& address is Ok
                    &&& connexon.wf()
                    &&& connexon@ == MeshState::initial(node_id@, socket_directory)
                },
                Err(error) => if !valid_node_id(node_id@) {
                    error matches GlycoError::InvalidNodeId(id) && id@ == node_id@
                } else {
                    &&& address is Err
                    &&& error == GlycoError::Io(
                        IoFailure {
                            kind: IoErrorKind::InvalidInput,
                            os_code: None,
                            message: address->Err_0,
                        },
                    )
                },
            },
    {
        match validate_node_id(node_id) {
            Ok(_) => {},
            Err(error) => return Err(error),
        }
        match address {
            Ok(_) => {},
            Err(message) => return Err(
                GlycoError::Io(
                    IoFailure { kind: IoErrorKind::InvalidInput, os_code: None, message },
                ),
            ),
        }
        let socket_path = own_socket_path(node_id, &socket_directory);
        let connexon = UnixDomainMeshConnexon {
            node_id: node_id.to_owned(),
            socket_dir: socket_directory,
            socket_path,
            max_frame_length: DEFAULT_MAX_FRAME_LENGTH,
            peers: OrderedMap::new(),
            next_generation: 1,
            started: false,
        };
        assert(connexon@ =~= MeshState::initial(node_id@, socket_directory));
        Ok(connexon)
    }

    /// A transport with its socket in the given directory. An id that is not valid and a path that
    /// cannot be a socket address are refused.
    pub fn with_socket_directory(node_id: &str, socket_directory: PathBuf) -> (connexon: Result<
        Self,
        GlycoError,
    >)
        ensures
            match connexon {
                Ok(connexon) => {
                    &&& valid_node_id(node_id@)
                    &&& connexon.wf()
                    &&& connexon@ == MeshState::initial(node_id@, socket_directory)
                },
                Err(error) => if !valid_node_id(node_id@) {
                    error matches GlycoError::InvalidNodeId(id) && id@ == node_id@
                } else {
                    error matches GlycoError::Io(failure) && failure.kind
                        == IoErrorKind::InvalidInput && failure.os_code is None
                },
            },
    {
        match validate_node_id(node_id) {
            Ok(_) => {},
            Err(error) => return Err(error),
        }
        let address = check_socket_address(&own_socket_path(node_id, &socket_directory));
        Self::with_checked_address(node_id, socket_directory, address)
    }

    /// A transport with its socket in the default directory inside the directory for temporary
    /// files.
    pub fn new(node_id: &str, temporary: &PathBuf) -> (connexon: Result<Self, GlycoError>)
        ensures
            match connexon {
                Ok(connexon) => {
                    &&& valid_node_id(node_id@)
                    &&& connexon.wf()
                    &&& connexon@ == MeshState::initial(
                        node_id@,
                        path_joined(*temporary, "glycoprotein"@),
                    )
                },
                Err(error) => if !valid_node_id(node_id@) {
                    error matches GlycoError::InvalidNodeId(id) && id@ == node_id@
                } else {
                    error matches GlycoError::Io(failure) && failure.kind
                        == IoErrorKind::InvalidInput && failure.os_code is None
                },
            },
    {
        Self::with_socket_directory(node_id, Self::default_socket_directory(temporary))
    }

    /// The id of the node.
    pub fn node_id(&self) -> (id: &str)
        ensures
            id@ == self@.node_id,
    {
        self.node_id.as_str()
    }

    /// The directory of the sockets.
    pub fn socket_directory(&self) -> (directory: &PathBuf)
        ensures
            *directory == self@.socket_dir,
    {
        &self.socket_dir
    }

    /// The path of the node's own socket.
    pub fn socket_path(&self) -> (path: &PathBuf)
        requires
            self.wf(),
        ensures
            *path == self@.socket_path(),
    {
        &self.socket_path
    }

    /// The longest message that the transport sends or accepts.
    pub fn max_frame_length(&self) -> (length: usize)
        ensures
            length == self@.max_frame_length,
            self.wf() ==> length == DEFAULT_MAX_FRAME_LENGTH,
    {
        self.max_frame_length
    }

    /// The ids of the connected peers in ascending order.
    pub fn connected_peers(&self) -> (peers: Vec<String>)
        requires
            self.wf(),
        ensures
            peers.deep_view() == self.peer_order(),
    {
        let mut peers: Vec<String> = Vec::new();
        let mut i: usize = 0;
        while i < self.peers.len()
            invariant
                self.wf(),
                i <= self.peers.keys().len(),
                peers@.len() == i,
                forall|j: int| 0 <= j < i ==> (#[trigger] peers@[j])@ == self.peers.keys()[j],
            decreases self.peers.keys().len() - i,
        {
            peers.push(self.peers.key(i).clone());
            i = i + 1;
        }
        assert(peers.deep_view() =~= self.peer_order());
        peers
    }
}

/// What to do with a message that is to be sent.
#[derive(Debug)]
pub enum SendPlan {
    /// Hand it to this node alone.
    Loopback,
    /// Write the frame to one peer.
    Unicast { peer: String, generation: u64, frame: Vec<u8> },
    /// Hand it to this node and write the frame to every peer of the list.
    Broadcast { frame: Vec<u8>, peers: Vec<(String, u64)> },
}

impl SendPlan {
    /// Whether the message is handed to this node.
    pub fn delivers_locally(&self) -> (local: bool)
        ensures
            local == !(self is Unicast),
    {
        match self {
            SendPlan::Unicast { .. } => false,
            _ => true,
        }
    }
}

/// What became of a write to a peer.
#[derive(Debug)]
pub enum PeerWrite {
    /// The peer took no more writes.
    NotQueued(IoFailure),
    /// The bytes were written.
    Written,
    /// The write failed.
    Failed(IoFailure),
    /// The writer ended without an answer.
    Abandoned,
}

impl UnixDomainMeshConnexon {
    /// Refuses work before the transport is started.
    pub fn ensure_started(&self) -> (verdict: Result<(), GlycoError>)
        ensures
            match verdict {
                Ok(_) => self@.started,
                Err(error) => !self@.started && error is NotStarted,
            },
    {
        if self.started {
            Ok(())
        } else {
            Err(GlycoError::NotStarted)
        }
    }

    /// What sending a payload comes to. Without a receiver the payload goes to everybody, this node
    /// among them; to the node's own id it goes to this node alone; to a connected peer it goes to
    /// that peer. Nothing is sent before the start, above the limit, or to a peer that is not there.
    pub open spec fn routed(
        self,
        payload: Seq<u8>,
        receiver: Option<Seq<char>>,
        plan: Result<SendPlan, GlycoError>,
    ) -> bool {
        if !self@.started {
            plan matches Err(error) && error is NotStarted
        } else if !fits_frame(payload.len(), self@.max_frame_length) {
            plan == Err::<SendPlan, GlycoError>(
                GlycoError::FrameTooLarge {
                    size: payload.len() as usize,
                    limit: if self@.max_frame_length <= MAX_PREFIX_LENGTH {
                        self@.max_frame_length as usize
                    } else {
                        MAX_PREFIX_LENGTH
                    },
                },
            )
        } else {
            match receiver {
                None => plan matches Ok(SendPlan::Broadcast { frame, peers }) && frame@ == framed(
                    payload,
                ) && lists_peers(peers@, self),
                Some(id) => if id == self@.node_id {
                    plan matches Ok(SendPlan::Loopback)
                } else if self@.peers.contains_key(id) {
                    plan matches Ok(SendPlan::Unicast { peer, generation, frame }) && {
                        &&& peer@ == id
                        &&& frame@ == framed(payload)
                        &&& generation == self@.peers[id]
                    }
                } else {
                    plan matches Err(GlycoError::PeerNotConnected(peer)) && peer@ == id
                },
            }
        }
    }

    /// Decides where a payload goes.
    pub fn send_framed(&self, payload: &[u8], receiver: Option<&str>) -> (plan: Result<
        SendPlan,
        GlycoError,
    >)
        requires
            self.wf(),
        ensures
            self.routed(
                payload@,
                match receiver {
                    Some(id) => Some(id@),
                    None => None,
                },
                plan,
            ),
    {
        match self.ensure_started() {
            Ok(_) => {},
            Err(error) => return Err(error),
        }
        let frame = match frame_message(payload, self.max_frame_length) {
            Ok(frame) => frame,
            Err(error) => return Err(error),
        };
        match receiver {
            Some(receiver) => {
                if same_text(receiver, self.node_id.as_str()) {
                    return Ok(SendPlan::Loopback);
                }
                match self.peers.get(receiver) {
                    Some(generation) => Ok(
                        SendPlan::Unicast {
                            peer: receiver.to_owned(),
                            generation: *generation,
                            frame,
                        },
                    ),
                    None => Err(GlycoError::PeerNotConnected(receiver.to_owned())),
                }
            },
            None => {
                let mut peers: Vec<(String, u64)> = Vec::new();
                let mut i: usize = 0;
                while i < self.peers.len()
                    invariant
                        self.wf(),
                        i <= self.peers.keys().len(),
                        peers@.len() == i,
                        forall|j: int|
                            0 <= j < i ==> (#[trigger] peers@[j]).0@ == self.peers.keys()[j]
                                && peers@[j].1 == self.peers@[self.peers.keys()[j]],
                    decreases self.peers.keys().len() - i,
                {
                    peers.push((self.peers.key(i).clone(), *self.peers.value(i)));
                    i = i + 1;
                }
                Ok(SendPlan::Broadcast { frame, peers })
            },
        }
    }

    /// Decides where a message goes: its bytes, to the receiver that it names.
    pub fn send(&self, message: &Glycosyl) -> (plan: Result<SendPlan, GlycoError>)
        requires
            self.wf(),
        ensures
            self.routed(encode_utf8(message.wire_text()), message.spec_receiver(), plan),
    {
        match message.to_bytes() {
            Ok(bytes) => self.send_framed(bytes.as_slice(), message.receiver()),
            Err(error) => Err(error),
        }
    }

    /// Ends a connection. The peer leaves, and its departure is told, if this connection is the one
    /// by which it is connected; the end of an older one changes nothing.
    pub fn disconnect_peer(&mut self, peer_id: &str, generation: u64) -> (event: Option<
        ConnexonEvent,
    >)
        requires
            old(self).wf(),
        ensures
            final(self).wf(),
            final(self)@ == old(self)@.without(peer_id@, generation),
            match event {
                Some(event) => old(self)@.is_current(peer_id@, generation) && event.is_disconnected(
                    peer_id@,
                ),
                None => !old(self)@.is_current(peer_id@, generation),
            },
    {
        let current = match self.peers.get(peer_id) {
            Some(known) => *known == generation,
            None => false,
        };
        if current {
            let _ = self.peers.remove(peer_id);
            Some(ConnexonEvent::PeerDisconnected(peer_id.to_owned()))
        } else {
            None
        }
    }

    /// What follows a write to one peer: the answer to the sender, and the departure of the peer if
    /// the write broke its connection.
    pub fn write_to_peer(&mut self, peer_id: &str, generation: u64, write: PeerWrite) -> (answer: (
        Result<(), GlycoError>,
        Option<ConnexonEvent>,
    ))
        requires
            old(self).wf(),
        ensures
            final(self).wf(),
            final(self)@ == (if write is Failed || write is Abandoned {
                old(self)@.without(peer_id@, generation)
            } else {
                old(self)@
            }),
            match write {
                PeerWrite::Written => answer.0 is Ok,
                PeerWrite::NotQueued(failure) => answer.0 == Err::<(), GlycoError>(
                    GlycoError::Io(failure),
                ),
                PeerWrite::Failed(failure) => answer.0 == Err::<(), GlycoError>(
                    GlycoError::Io(failure),
                ),
                PeerWrite::Abandoned => answer.0 matches Err(GlycoError::Io(failure))
                    && is_writer_stopped(failure),
            },
            match answer.1 {
                Some(event) => (write is Failed || write is Abandoned) && old(self)@.is_current(
                    peer_id@,
                    generation,
                ) && event.is_disconnected(peer_id@),
                None => !((write is Failed || write is Abandoned) && old(self)@.is_current(
                    peer_id@,
                    generation,
                )),
            },
    {
        match write {
            PeerWrite::Written => (Ok(()), None),
            PeerWrite::NotQueued(failure) => (Err(GlycoError::Io(failure)), None),
            PeerWrite::Failed(failure) => {
                let event = self.disconnect_peer(peer_id, generation);
                (Err(GlycoError::Io(failure)), event)
            },
            PeerWrite::Abandoned => {
                let event = self.disconnect_peer(peer_id, generation);
                (Err(GlycoError::Io(writer_stopped())), event)
            },
        }
    }

    /// Tells a fault on a peer and ends the connection on which it occurred.
    fn fail_peer(&mut self, peer_id: &str, generation: u64, message: String) -> (events: Vec<
        ConnexonEvent,
    >)
        requires
            old(self).wf(),
        ensures
            final(self).wf(),
            final(self)@ == old(self)@.without(peer_id@, generation),
            failure_told(events@, old(self)@, peer_id@, generation, message@),
    {
        let mut events: Vec<ConnexonEvent> = Vec::new();
        events.push(peer_fault(peer_id, message));
        match self.disconnect_peer(peer_id, generation) {
            Some(event) => events.push(event),
            None => {},
        }
        events
    }

    /// What follows the write of a broadcast to one of the peers. A failure concerns that peer
    /// alone; only a writer that ended without an answer ends the broadcast.
    pub fn broadcast_to_peer(&mut self, peer_id: &str, generation: u64, write: PeerWrite) -> (answer: (
        Result<(), GlycoError>,
        Vec<ConnexonEvent>,
    ))
        requires
            old(self).wf(),
        ensures
            final(self).wf(),
            match write {
                PeerWrite::Written => {
                    &&& final(self)@ == old(self)@
                    &&& answer.0 is Ok
                    &&& answer.1@.len() == 0
                },
                PeerWrite::NotQueued(failure) => {
                    &&& final(self)@ == old(self)@.without(peer_id@, generation)
                    &&& answer.0 is Ok
                    &&& failure_told(
                        answer.1@,
                        old(self)@,
                        peer_id@,
                        generation,
                        "broadcast write failed: "@ + failure.message@,
                    )
                },
                PeerWrite::Failed(failure) => {
                    &&& final(self)@ == old(self)@.without(peer_id@, generation)
                    &&& answer.0 is Ok
                    &&& failure_told(
                        answer.1@,
                        old(self)@,
                        peer_id@,
                        generation,
                        "broadcast write failed: "@ + failure.message@,
                    )
                },
                PeerWrite::Abandoned => {
                    &&& final(self)@ == old(self)@
                    &&& answer.0 matches Err(GlycoError::Io(failure)) && is_writer_stopped(failure)
                    &&& answer.1@.len() == 0
                },
            },
    {
        match write {
            PeerWrite::Written => (Ok(()), Vec::new()),
            PeerWrite::NotQueued(failure) => {
                let message = wrapped("broadcast write failed: ", failure.message.as_str(), "");
                (Ok(()), self.fail_peer(peer_id, generation, message))
            },
            PeerWrite::Failed(failure) => {
                let message = wrapped("broadcast write failed: ", failure.message.as_str(), "");
                (Ok(()), self.fail_peer(peer_id, generation, message))
            },
            PeerWrite::Abandoned => (Err(GlycoError::Io(writer_stopped())), Vec::new()),
        }
    }
}

/// The events of a failed connection: the fault, and the departure of the peer if this connection
/// was the one by which it was connected.
pub open spec fn failure_told(
    events: Seq<ConnexonEvent>,
    before: MeshState,
    peer: Seq<char>,
    generation: u64,
    text: Seq<char>,
) -> bool {
    if before.is_current(peer, generation) {
        events.len() == 2 && events[0].is_fault(Some(peer), text) && events[1].is_disconnected(peer)
    } else {
        events.len() == 1 && events[0].is_fault(Some(peer), text)
    }
}

/// A connection to a peer that came about.
#[derive(Debug)]
pub struct Connected {
    pub generation: u64,
    pub event: ConnexonEvent,
}

/// How far the dialling of a peer has come.
#[derive(Debug)]
pub enum DialEvent {
    Requested { cancelled: bool },
    /// There was no socket to be had.
    SocketFailed(String),
    /// The path of the peer's socket cannot be an address.
    AddressFailed(String),
    /// Nobody answered.
    Refused,
    /// The peer answered.
    Connected,
    /// The handshake was written, or why it could not be.
    HandshakeWritten(Result<(), String>),
    /// The peer was taken in, or why it could not be.
    TakenIn(Result<(), GlycoError>),
}

/// What the dialling of a peer needs next.
#[derive(Debug)]
pub enum DialAction {
    /// Connect to the socket at a path.
    Connect(PathBuf),
    WriteHandshake(Vec<u8>),
    /// Take the peer in.
    TakeIn,
    /// Tell the fault; there is nothing more to do.
    Report(ConnexonEvent),
    /// There is nothing more to do.
    Done,
}

impl UnixDomainMeshConnexon {
    /// Refuses a peer whose id is not valid or is the node's own.
    pub fn check_peer(&self, peer_id: &str) -> (verdict: Result<(), GlycoError>)
        ensures
            match verdict {
                Ok(_) => valid_node_id(peer_id@) && peer_id@ != self@.node_id,
                Err(error) => if !valid_node_id(peer_id@) {
                    error matches GlycoError::InvalidNodeId(id) && id@ == peer_id@
                } else {
                    &&& peer_id@ == self@.node_id
                    &&& error matches GlycoError::Protocol(text) && text@
                        == "peer claimed the local node id"@
                },
            },
    {
        match validate_node_id(peer_id) {
            Ok(_) => {},
            Err(error) => return Err(error),
        }
        if same_text(peer_id, self.node_id.as_str()) {
            return Err(GlycoError::Protocol("peer claimed the local node id".to_owned()));
        }
        Ok(())
    }

    /// Takes in a peer whose sockets were made ready with the given outcome. A peer that is
    /// already connected keeps the connection that it has, and nothing is told.
    pub fn install_peer(&mut self, peer_id: &str, prepared: Result<(), IoFailure>) -> (outcome:
        Result<Option<Connected>, GlycoError>)
        requires
            old(self).wf(),
        ensures
            final(self).wf(),
            if !valid_node_id(peer_id@) {
                &&& final(self)@ == old(self)@
                &&& outcome matches Err(GlycoError::InvalidNodeId(id)) && id@ == peer_id@
            } else if peer_id@ == old(self)@.node_id {
                &&& final(self)@ == old(self)@
                &&& outcome matches Err(GlycoError::Protocol(text)) && text@
                    == "peer claimed the local node id"@
            } else {
                match prepared {
                    Err(failure) => {
                        &&& final(self)@ == old(self)@
                        &&& outcome == Err::<Option<Connected>, GlycoError>(GlycoError::Io(failure))
                    },
                    Ok(_) => {
                        &&& final(self)@ == old(self)@.with_peer(peer_id@)
                        &&& if old(self)@.peers.contains_key(peer_id@) {
                            outcome matches Ok(None)
                        } else {
                            outcome matches Ok(Some(connected)) && connected.generation == old(
                                self,
                            )@.next_generation && connected.event.is_connected(peer_id@)
                        }
                    },
                }
            },
    {
        match self.check_peer(peer_id) {
            Ok(_) => {},
            Err(error) => return Err(error),
        }
        match prepared {
            Ok(_) => {},
            Err(failure) => return Err(GlycoError::Io(failure)),
        }
        let generation: u64 = self.next_generation;
        self.next_generation = generation.wrapping_add(1);
        if self.peers.contains_key(peer_id) {
            return Ok(None);
        }
        let _ = self.peers.insert(peer_id.to_owned(), generation);
        Ok(
            Some(
                Connected {
                    generation,
                    event: ConnexonEvent::PeerConnected(peer_id.to_owned()),
                },
            ),
        )
    }

    /// The frame by which a node introduces itself to a peer that it dials.
    pub fn handshake(&self) -> (handshake: Result<Vec<u8>, GlycoError>)
        ensures
            is_handshake(self@, handshake),
    {
        frame_message(self.node_id.as_str().as_bytes(), MAX_HANDSHAKE_LENGTH)
    }

    /// What the dialling of a peer needs next. Nobody is dialled after the transport was cancelled,
    /// and nobody who is connected. The node introduces itself before the peer is taken in; a step
    /// that fails is told, but that nobody answered is not worth a word.
    pub fn connect_to_peer(&self, peer_id: &str, event: DialEvent) -> (action: DialAction)
        requires
            self.wf(),
        ensures
            is_dial_action(self@, peer_id@, event, action),
    {
        match event {
            DialEvent::Requested { cancelled } => if cancelled || self.peers.contains_key(peer_id) {
                DialAction::Done
            } else {
                DialAction::Connect(own_socket_path(peer_id, &self.socket_dir))
            },
            DialEvent::SocketFailed(text) => DialAction::Report(peer_fault(peer_id, text)),
            DialEvent::AddressFailed(text) => DialAction::Report(peer_fault(peer_id, text)),
            DialEvent::Refused => DialAction::Done,
            DialEvent::Connected => match self.handshake() {
                Ok(frame) => DialAction::WriteHandshake(frame),
                Err(error) => DialAction::Report(peer_fault(peer_id, error.message())),
            },
            DialEvent::HandshakeWritten(Ok(_)) => DialAction::TakeIn,
            DialEvent::HandshakeWritten(Err(text)) => DialAction::Report(
                peer_fault(peer_id, wrapped("handshake failed: ", text.as_str(), "")),
            ),
            DialEvent::TakenIn(Ok(_)) => DialAction::Done,
            DialEvent::TakenIn(Err(error)) => DialAction::Report(
                Self::install_fault(peer_id, &error),
            ),
        }
    }

    /// What is told of a peer that could not be taken in, whoever dialled.
    pub fn install_fault(peer_id: &str, error: &GlycoError) -> (fault: ConnexonEvent)
        ensures
            fault.is_fault(Some(peer_id@), error.text()),
    {
        peer_fault(peer_id, error.message())
    }

    /// The id by which a dialling peer introduced itself, or the fault to tell instead.
    pub fn handle_incoming(handshake: Result<Vec<u8>, IoFailure>) -> (peer: Result<
        String,
        ConnexonEvent,
    >)
        ensures
            match handshake {
                Err(failure) => peer matches Err(fault) && fault.is_fault(
                    None,
                    "invalid peer handshake: "@ + failure.message@,
                ),
                Ok(bytes) => match peer {
                    Ok(id) => encode_utf8(id@) == bytes@,
                    Err(fault) => !valid_utf8(bytes@) && fault.is_fault(
                        None,
                        "peer id is not UTF-8: "@ + utf8_error_text(bytes@),
                    ),
                },
            },
    {
        match handshake {
            Err(failure) => Err(
                local_fault(wrapped("invalid peer handshake: ", failure.message.as_str(), "")),
            ),
            Ok(bytes) => match read_utf8(bytes) {
                Ok(id) => Ok(id),
                Err(text) => Err(
                    local_fault(wrapped("peer id is not UTF-8: ", text.as_str(), "")),
                ),
            },
        }
    }

    /// The peers to dial among the socket files of a directory, in the order of the listing. A
    /// directory that is not there holds none.
    pub fn scan_and_connect(&self, listing: Result<Vec<String>, IoFailure>) -> (peers: Result<
        Vec<String>,
        ConnexonEvent,
    >)
        ensures
            match listing {
                Ok(names) => peers matches Ok(peers) && peers.deep_view() == dialled(
                    self@.node_id,
                    names.deep_view(),
                ),
                Err(failure) => if failure.kind == IoErrorKind::NotFound {
                    peers matches Ok(peers) && peers@.len() == 0
                } else {
                    peers matches Err(fault) && fault.is_fault(
                        None,
                        "socket discovery failed: "@ + failure.message@,
                    )
                },
            },
    {
        match listing {
            Ok(names) => Ok(dial_candidates(self.node_id.as_str(), &names)),
            Err(failure) => {
                if failure.kind == IoErrorKind::NotFound {
                    Ok(Vec::new())
                } else {
                    Err(
                        local_fault(
                            wrapped("socket discovery failed: ", failure.message.as_str(), ""),
                        ),
                    )
                }
            },
        }
    }
}

/// What the dialling of a peer needs next. It changes nothing on the transport: only taking the peer
/// in does.
pub open spec fn is_dial_action(
    state: MeshState,
    peer: Seq<char>,
    event: DialEvent,
    action: DialAction,
) -> bool {
    match event {
        DialEvent::Requested { cancelled } => if cancelled || state.peers.contains_key(peer) {
            action is Done
        } else {
            action == DialAction::Connect(path_joined(state.socket_dir, socket_name(peer)))
        },
        DialEvent::SocketFailed(text) => action matches DialAction::Report(fault)
            && fault.is_fault(Some(peer), text@),
        DialEvent::AddressFailed(text) => action matches DialAction::Report(fault)
            && fault.is_fault(Some(peer), text@),
        DialEvent::Refused => action is Done,
        DialEvent::Connected => match action {
            DialAction::WriteHandshake(frame) => is_handshake(state, Ok(frame)),
            DialAction::Report(fault) => exists|error: GlycoError|
                is_handshake(state, Err(error)) && fault.is_fault(
                    Some(peer),
                    #[trigger] error.text(),
                ),
            _ => false,
        },
        DialEvent::HandshakeWritten(Ok(_)) => action is TakeIn,
        DialEvent::HandshakeWritten(Err(text)) => action matches DialAction::Report(fault)
            && fault.is_fault(Some(peer), "handshake failed: "@ + text@),
        DialEvent::TakenIn(Ok(_)) => action is Done,
        DialEvent::TakenIn(Err(error)) => action matches DialAction::Report(fault)
            && fault.is_fault(Some(peer), error.text()),
    }
}

/// The frame by which a node introduces itself: its id, unless that is too long.
pub open spec fn is_handshake(state: MeshState, handshake: Result<Vec<u8>, GlycoError>) -> bool {
    let id = encode_utf8(state.node_id);
    match handshake {
        Ok(frame) => id.len() <= MAX_HANDSHAKE_LENGTH && frame@ == framed(id),
        Err(error) => id.len() > MAX_HANDSHAKE_LENGTH && error == (GlycoError::FrameTooLarge {
            size: id.len() as usize,
            limit: MAX_HANDSHAKE_LENGTH,
        }),
    }
}

/// What a reader got from its peer.
#[derive(Debug)]
pub enum ReadOutcome {
    Message(Glycosyl),
    /// Bytes that are no message, and why.
    Malformed(String),
    Failed(IoFailure),
}

/// What the writer of a peer waited for.
#[derive(Debug)]
pub enum WriterInput {
    Cancelled,
    /// No request came within a poll interval.
    Idle,
    /// There is nobody left who could make a request.
    Disconnected,
    /// A requested write was tried.
    Written(Result<(), IoFailure>),
}

impl WriterInput {
    /// Whether a writer goes on: until it is cancelled, nobody is left who could make a request, or
    /// a write failed.
    pub open spec fn spec_goes_on(self) -> bool {
        self is Idle || self matches WriterInput::Written(Ok(_))
    }

    /// Whether a writer goes on.
    pub fn goes_on(&self) -> (go_on: bool)
        ensures
            go_on == self.spec_goes_on(),
    {
        match self {
            WriterInput::Idle => true,
            WriterInput::Written(Ok(_)) => true,
            _ => false,
        }
    }
}

/// What a worker tells, and whether it goes on.
#[derive(Debug)]
pub struct WorkerStep {
    pub events: Vec<ConnexonEvent>,
    pub go_on: bool,
}

/// What was found at the path of a node's own socket before the start.
#[derive(Debug)]
pub enum SocketProbe {
    /// No file.
    Absent,
    /// A file, but no socket to try it with.
    NoSocket(IoFailure),
    /// A file behind which somebody answered.
    Answered,
    /// A file behind which nobody answered.
    Silent,
}

impl UnixDomainMeshConnexon {
    /// What follows what a reader got. Bytes that are no message are told and skipped; a failed
    /// read ends the connection, and is told unless the transport is being stopped.
    pub fn reader_step(
        &mut self,
        peer_id: &str,
        generation: u64,
        read: ReadOutcome,
        cancelled: bool,
    ) -> (step: WorkerStep)
        requires
            old(self).wf(),
        ensures
            final(self).wf(),
            match read {
                ReadOutcome::Message(message) => {
                    &&& final(self)@ == old(self)@
                    &&& step.go_on
                    &&& step.events@ == seq![ConnexonEvent::Message(message)]
                },
                ReadOutcome::Malformed(text) => {
                    &&& final(self)@ == old(self)@
                    &&& step.go_on
                    &&& step.events@.len() == 1
                    &&& step.events@[0].is_fault(
                        Some(peer_id@),
                        "invalid JSON message ignored: "@ + text@,
                    )
                },
                ReadOutcome::Failed(failure) => {
                    &&& final(self)@ == old(self)@.without(peer_id@, generation)
                    &&& !step.go_on
                    &&& if !cancelled {
                        failure_told(
                            step.events@,
                            old(self)@,
                            peer_id@,
                            generation,
                            "read failed: "@ + failure.message@,
                        )
                    } else if old(self)@.is_current(peer_id@, generation) {
                        step.events@.len() == 1 && step.events@[0].is_disconnected(peer_id@)
                    } else {
                        step.events@.len() == 0
                    }
                },
            },
    {
        match read {
            ReadOutcome::Message(message) => {
                let mut events: Vec<ConnexonEvent> = Vec::new();
                events.push(ConnexonEvent::Message(message));
                WorkerStep { events, go_on: true }
            },
            ReadOutcome::Malformed(text) => {
                let mut events: Vec<ConnexonEvent> = Vec::new();
                let message = wrapped("invalid JSON message ignored: ", text.as_str(), "");
                events.push(peer_fault(peer_id, message));
                WorkerStep { events, go_on: true }
            },
            ReadOutcome::Failed(failure) => {
                if cancelled {
                    let mut events: Vec<ConnexonEvent> = Vec::new();
                    match self.disconnect_peer(peer_id, generation) {
                        Some(event) => events.push(event),
                        None => {},
                    }
                    WorkerStep { events, go_on: false }
                } else {
                    let message = wrapped("read failed: ", failure.message.as_str(), "");
                    WorkerStep {
                        events: self.fail_peer(peer_id, generation, message),
                        go_on: false,
                    }
                }
            },
        }
    }

    /// What follows what a writer waited for. A failed write is told and ends the connection.
    pub fn writer_step(&mut self, peer_id: &str, generation: u64, input: &WriterInput) -> (step:
        WorkerStep)
        requires
            old(self).wf(),
        ensures
            final(self).wf(),
            match *input {
                WriterInput::Cancelled => {
                    &&& final(self)@ == old(self)@
                    &&& !step.go_on
                    &&& step.events@.len() == 0
                },
                WriterInput::Disconnected => {
                    &&& final(self)@ == old(self)@
                    &&& !step.go_on
                    &&& step.events@.len() == 0
                },
                WriterInput::Idle => {
                    &&& final(self)@ == old(self)@
                    &&& step.go_on
                    &&& step.events@.len() == 0
                },
                WriterInput::Written(Ok(_)) => {
                    &&& final(self)@ == old(self)@
                    &&& step.go_on
                    &&& step.events@.len() == 0
                },
                WriterInput::Written(Err(failure)) => {
                    &&& final(self)@ == old(self)@.without(peer_id@, generation)
                    &&& !step.go_on
                    &&& failure_told(
                        step.events@,
                        old(self)@,
                        peer_id@,
                        generation,
                        "write failed: "@ + failure.message@,
                    )
                },
            },
    {
        match input {
            WriterInput::Written(Err(failure)) => {
                let message = wrapped("write failed: ", failure.message.as_str(), "");
                WorkerStep { events: self.fail_peer(peer_id, generation, message), go_on: false }
            },
            _ => WorkerStep { events: Vec::new(), go_on: input.goes_on() },
        }
    }

    /// Whether a file at the path of the node's own socket is a leftover to be removed. Where
    /// somebody answers behind it, another node with this id is running.
    pub fn remove_stale_socket(&self, probe: SocketProbe) -> (remove: Result<bool, GlycoError>)
        ensures
            match probe {
                SocketProbe::Absent => remove == Ok::<bool, GlycoError>(false),
                SocketProbe::NoSocket(failure) => remove == Err::<bool, GlycoError>(
                    GlycoError::Io(failure),
                ),
                SocketProbe::Answered => remove matches Err(GlycoError::NodeAlreadyRunning(id))
                    && id@ == self@.node_id,
                SocketProbe::Silent => remove == Ok::<bool, GlycoError>(true),
            },
    {
        match probe {
            SocketProbe::Absent => Ok(false),
            SocketProbe::NoSocket(failure) => Err(GlycoError::Io(failure)),
            SocketProbe::Answered => Err(GlycoError::NodeAlreadyRunning(self.node_id.clone())),
            SocketProbe::Silent => Ok(true),
        }
    }

    /// Starts the transport once its socket listens. One that is already started stays as it is;
    /// one whose socket could not be made ready stays stopped.
    pub fn start_blocking(&mut self, listening: Result<(), GlycoError>) -> (outcome: Result<
        (),
        GlycoError,
    >)
        requires
            old(self).wf(),
        ensures
            final(self).wf(),
            if old(self)@.started {
                outcome is Ok && final(self)@ == old(self)@
            } else {
                &&& outcome == listening
                &&& final(self)@ == old(self)@.listening(listening is Ok)
            },
    {
        if self.started {
            return Ok(());
        }
        self.started = listening.is_ok();
        listening
    }

    /// Takes every peer out, in ascending order.
    fn drain_peers(&mut self) -> (peers: Vec<(String, u64)>)
        requires
            old(self).wf(),
        ensures
            final(self).wf(),
            final(self)@ == (MeshState { peers: Map::empty(), ..old(self)@ }),
            lists_peers(peers@, *old(self)),
    {
        let mut peers: Vec<(String, u64)> = Vec::new();
        let mut i: usize = 0;
        while i < self.peers.len()
            invariant
                self.wf(),
                *self == *old(self),
                i <= self.peers.keys().len(),
                peers@.len() == i,
                forall|j: int|
                    0 <= j < i ==> (#[trigger] peers@[j]).0@ == self.peers.keys()[j] && peers@[j].1
                        == self.peers@[self.peers.keys()[j]],
            decreases self.peers.keys().len() - i,
        {
            peers.push((self.peers.key(i).clone(), *self.peers.value(i)));
            i = i + 1;
        }
        self.peers = OrderedMap::new();
        peers
    }

    /// Stops the transport and hands out the connections to shut down. One that is not started has
    /// nothing to do.
    pub fn stop_blocking(&mut self) -> (peers: Option<Vec<(String, u64)>>)
        requires
            old(self).wf(),
        ensures
            final(self).wf(),
            match peers {
                Some(peers) => {
                    &&& old(self)@.started
                    &&& lists_peers(peers@, *old(self))
                    &&& final(self)@ == old(self)@.stopped()
                },
                None => !old(self)@.started && final(self)@ == old(self)@,
            },
    {
        if !self.started {
            return None;
        }
        self.started = false;
        Some(self.drain_peers())
    }

    /// Stops the transport without a look at whether it was started, and hands out the connections
    /// to shut down.
    pub fn cancel_without_joining(&mut self) -> (peers: Vec<(String, u64)>)
        requires
            old(self).wf(),
        ensures
            final(self).wf(),
            lists_peers(peers@, *old(self)),
            final(self)@ == old(self)@.stopped(),
    {
        self.started = false;
        self.drain_peers()
    }

    /// The outcome of a stop, from that of the removal of the socket file. That the file is gone
    /// already is no failure.
    pub fn stop_outcome(removed: Result<(), IoFailure>) -> (outcome: Result<(), GlycoError>)
        ensures
            match removed {
                Ok(_) => outcome is Ok,
                Err(failure) => if failure.kind == IoErrorKind::NotFound {
                    outcome is Ok
                } else {
                    outcome == Err::<(), GlycoError>(GlycoError::Io(failure))
                },
            },
    {
        match removed {
            Ok(_) => Ok(()),
            Err(failure) => if failure.kind == IoErrorKind::NotFound {
                Ok(())
            } else {
                Err(GlycoError::Io(failure))
            },
        }
    }
}

/// The connections of a transport, in ascending order of their peers.
pub open spec fn lists_peers(peers: Seq<(String, u64)>, connexon: UnixDomainMeshConnexon) -> bool {
    &&& peers.len() == connexon.peer_order().len()
    &&& forall|i: int|
        0 <= i < peers.len() ==> (#[trigger] peers[i]).0@ == connexon.peer_order()[i] && peers[i].1
            == connexon@.peers[connexon.peer_order()[i]]
}

} // verus!
