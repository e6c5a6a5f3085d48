//! What a transport does with frames, messages and connections. Each law speaks of what functions were
//! given, what they returned and what they changed.
use crate::error::{GlycoError, IoErrorKind, IoFailure};
use crate::frame::{
    frame_message, message_length, prefix_number, read_message, read_step, ReadStep,
};
use crate::mesh::{
    Connected, DialAction, DialEvent, MeshState, PeerWrite, ReadOutcome, SendPlan, SocketProbe,
    UnixDomainMeshConnexon, WorkerStep, WriterInput,
};
use crate::identity::validate_node_id;
use crate::message_laws::{law_number_read_back, number_value};
use crate::outside::{duration_nanos, path_joined, utf8_error_text};
use crate::protocol::Glycosyl;
use crate::text::{signed_decimal, text_less};
use crate::transport::ConnexonEvent;
use crate::workers::{
    accept_step, sleep_slice, spawn_fault, writer_stopped, AcceptAction, AcceptOutcome, PeerLink,
};
use std::path::PathBuf;
use std::time::Duration;
use vstd::prelude::*;
use vstd::string::*;
use vstd::utf8::*;

verus! {

/// A frame is the payload behind its length in four bytes, the lowest first. A payload is framed
/// exactly if it is within the limit and its length can be a positive 32-bit number; the refusal says
/// how long it is and what the limit was.
pub proof fn law_frame(payload: &[u8], limit: usize, frame: Result<Vec<u8>, GlycoError>)
    requires
        payload@.len() <= usize::MAX,
        call_ensures(frame_message, (payload, limit), frame),
    ensures
        frame is Ok <==> payload@.len() <= limit && payload@.len() <= 2_147_483_647,
        frame matches Ok(bytes) ==> {
            &&& bytes@.len() == payload@.len() + 4
            &&& bytes@[0] + 256 * bytes@[1] + 65_536 * bytes@[2] + 16_777_216 * bytes@[3]
                == payload@.len()
            &&& bytes@.skip(4) == payload@
        },
        frame matches Err(error) ==> (error matches GlycoError::FrameTooLarge { size, limit: most }
            && size == payload@.len() && most == (if limit <= 2_147_483_647 {
            limit as int
        } else {
            2_147_483_647
        })),
{
    if frame is Ok {
        let bytes = (frame->Ok_0)@;
        let n = payload@.len() as int;
        assert(bytes.skip(4) =~= payload@);
        assert(n == n % 256 + 256 * (n / 256 % 256) + 65_536 * (n / 65_536 % 256) + 16_777_216 * (n
            / 16_777_216 % 256)) by (nonlinear_arith)
            requires
                0 <= n <= 2_147_483_647,
        ;
    }
}

/// The number that four bytes announce is the length of a message exactly if it is not negative, as a
/// 32-bit number with the lowest byte first, and within the limit.
pub proof fn law_announced_length(
    prefix: &[u8],
    limit: usize,
    length: Result<usize, IoFailure>,
)
    requires
        prefix@.len() == 4,
        call_ensures(message_length, (prefix, limit), length),
    ensures
        ({
            let number = prefix@[0] + 256 * prefix@[1] + 65_536 * prefix@[2] + 16_777_216
                * prefix@[3];
            &&& length is Ok <==> number < 2_147_483_648 && number <= limit
            &&& length matches Ok(announced) ==> announced == number
        }),
        length matches Err(failure) ==> failure.kind == IoErrorKind::InvalidData
            && failure.os_code is None,
        length matches Err(failure) ==> failure.message@.len() >= "invalid message length: "@.len()
            && failure.message@.take("invalid message length: "@.len() as int)
            == "invalid message length: "@,
        length matches Err(failure) ==> ({
            let number = prefix@[0] + 256 * prefix@[1] + 65_536 * prefix@[2] + 16_777_216
                * prefix@[3];
            number_value(failure.message@.skip("invalid message length: "@.len() as int)) == (
            if number < 2_147_483_648 {
                number
            } else {
                number - 4_294_967_296
            })
        }),
{
    if length is Err {
        let number = prefix_number(prefix@);
        let words = "invalid message length: "@;
        let message = (length->Err_0).message@;
        assert(message == words + signed_decimal(number));
        assert(message.take(words.len() as int) =~= words);
        assert(message.skip(words.len() as int) =~= signed_decimal(number));
        law_number_read_back(number);
    }
}

/// A message is taken off a stream exactly if the stream holds its four bytes of length, the length is
/// one that can be accepted, and as many bytes follow; it is then those bytes. A stream that is too
/// short ends unexpectedly, and a length that cannot be accepted is invalid.
pub proof fn law_message_taken(
    stream: &[u8],
    limit: usize,
    message: Result<(Vec<u8>, usize), IoFailure>,
)
    requires
        call_ensures(read_message, (stream, limit), message),
    ensures
        stream@.len() < 4 ==> (message matches Err(failure) && failure.kind
            == IoErrorKind::UnexpectedEof),
        message matches Err(failure) ==> (failure.kind == IoErrorKind::UnexpectedEof
            ==> failure.message@ == "failed to fill whole buffer"@),
        stream@.len() >= 4 ==> ({
            let number = stream@[0] + 256 * stream@[1] + 65_536 * stream@[2] + 16_777_216
                * stream@[3];
            if number >= 2_147_483_648 || number > limit {
                message matches Err(failure) && failure.kind == IoErrorKind::InvalidData
            } else if stream@.len() < 4 + number {
                message matches Err(failure) && failure.kind == IoErrorKind::UnexpectedEof
            } else {
                message matches Ok((payload, taken)) && taken == 4 + number && payload@
                    == stream@.subrange(4, 4 + number)
            }
        }),
{
    if stream@.len() >= 4 {
        let prefix = stream@.take(4);
        assert(prefix[0] == stream@[0] && prefix[1] == stream@[1] && prefix[2] == stream@[2]
            && prefix[3] == stream@[3]);
        if message is Ok {
            let (payload, taken) = message->Ok_0;
            let number = stream@[0] + 256 * stream@[1] + 65_536 * stream@[2] + 16_777_216
                * stream@[3];
            assert(payload@ == stream@.skip(4).take(number));
            assert(payload@ =~= stream@.subrange(4, 4 + number));
            assert(stream@.skip(taken as int) == stream@.skip(4).skip(number));
            assert(stream@.skip(taken as int).len() == stream@.len() - taken);
            assert(stream@.skip(4).skip(number).len() == stream@.len() - 4 - number);
        }
    }
}

/// What was framed under a limit is read back under that limit, however many bytes follow.
pub proof fn law_framed_read_back(
    payload: &[u8],
    limit: usize,
    frame: Vec<u8>,
    stream: &[u8],
    message: Result<(Vec<u8>, usize), IoFailure>,
)
    requires
        payload@.len() <= usize::MAX,
        call_ensures(frame_message, (payload, limit), Ok::<Vec<u8>, GlycoError>(frame)),
        frame@.len() <= stream@.len(),
        stream@.take(frame@.len() as int) == frame@,
        call_ensures(read_message, (stream, limit), message),
    ensures
        message matches Ok((read, taken)) && read@ == payload@ && taken == frame@.len(),
{
    law_frame(payload, limit, Ok(frame));
    law_message_taken(stream, limit, message);
    assert forall|i: int| 0 <= i < frame@.len() implies stream@[i] == frame@[i] by {
        assert(stream@.take(frame@.len() as int)[i] == stream@[i]);
    }
    assert(stream@.subrange(4, frame@.len() as int) =~= frame@.skip(4));
}

/// A reader asks for the bytes that are missing to the length, then for those that are missing to the
/// message, and for no more; it then has the message, and a length that cannot be accepted is refused
/// as soon as it is known.
pub proof fn law_reader_asks(received: &[u8], limit: usize, step: ReadStep)
    requires
        call_ensures(read_step, (received, limit), step),
    ensures
        received@.len() < 4 ==> (step matches ReadStep::Need(more) && more == 4 - received@.len()),
        received@.len() >= 4 ==> ({
            let number = received@[0] + 256 * received@[1] + 65_536 * received@[2] + 16_777_216
                * received@[3];
            if number >= 2_147_483_648 || number > limit {
                step matches ReadStep::Failed(failure) && failure.kind == IoErrorKind::InvalidData
            } else if received@.len() < 4 + number {
                step matches ReadStep::Need(more) && more == 4 + number - received@.len()
            } else {
                step matches ReadStep::Message(payload) && payload@ == received@.subrange(
                    4,
                    4 + number,
                )
            }
        }),
{
    if received@.len() >= 4 {
        let prefix = received@.take(4);
        assert(prefix[0] == received@[0] && prefix[1] == received@[1] && prefix[2] == received@[2]
            && prefix[3] == received@[3]);
        let number = received@[0] + 256 * received@[1] + 65_536 * received@[2] + 16_777_216
            * received@[3];
        if number < 2_147_483_648 && number <= limit && received@.len() >= 4 + number {
            assert(received@.skip(4).take(number) =~= received@.subrange(4, 4 + number));
        }
    }
}

/// Nothing is sent before the transport is started, nothing that is longer than a hundred million
/// bytes, and nothing to a node that is not connected; everything else is.
pub proof fn law_send_framed(
    mesh: &UnixDomainMeshConnexon,
    payload: &[u8],
    receiver: Option<&str>,
    plan: Result<SendPlan, GlycoError>,
)
    requires
        mesh.wf(),
        payload@.len() <= usize::MAX,
        call_ensures(UnixDomainMeshConnexon::send_framed, (mesh, payload, receiver), plan),
    ensures
        plan is Ok <==> mesh@.started && payload@.len() <= 100_000_000 && (match receiver {
            None => true,
            Some(id) => id@ == mesh@.node_id || mesh@.peers.contains_key(id@),
        }),
        !mesh@.started ==> (plan matches Err(error) && error is NotStarted),
        mesh@.started && payload@.len() > 100_000_000 ==> (plan matches Err(
            GlycoError::FrameTooLarge { size, limit },
        ) && size == payload@.len() && limit == 100_000_000),
        mesh@.started && payload@.len() <= 100_000_000 ==> (plan matches Err(error) ==> (
        error matches GlycoError::PeerNotConnected(id) && receiver is Some && id@
            == receiver->Some_0@)),
        plan is Ok ==> match receiver {
            None => plan->Ok_0 is Broadcast,
            Some(id) => if id@ == mesh@.node_id {
                plan->Ok_0 is Loopback
            } else {
                plan->Ok_0 matches SendPlan::Unicast { peer, generation, .. } && peer@ == id@
                    && generation == mesh@.peers[id@]
            },
        },
{
    mesh.law_invariant();
}

/// What is sent is the payload behind its length; to everybody it goes to every connected peer, each
/// once, by the connection that it has, and to nobody else, in ascending order of the peers.
pub proof fn law_frame_sent(
    mesh: &UnixDomainMeshConnexon,
    payload: &[u8],
    receiver: Option<&str>,
    plan: SendPlan,
    limit: usize,
    framed: Vec<u8>,
)
    requires
        mesh.wf(),
        call_ensures(
            UnixDomainMeshConnexon::send_framed,
            (mesh, payload, receiver),
            Ok::<SendPlan, GlycoError>(plan),
        ),
        call_ensures(frame_message, (payload, limit), Ok::<Vec<u8>, GlycoError>(framed)),
    ensures
        plan matches SendPlan::Unicast { frame, .. } ==> frame@ == framed@,
        plan matches SendPlan::Broadcast { frame, .. } ==> frame@ == framed@,
        plan matches SendPlan::Broadcast { peers, .. } ==> {
            &&& forall|i: int|
                0 <= i < peers@.len() ==> mesh@.peers.contains_key((#[trigger] peers@[i]).0@)
                    && mesh@.peers[peers@[i].0@] == peers@[i].1
            &&& forall|id: Seq<char>| #[trigger]
                mesh@.peers.contains_key(id) ==> exists|i: int|
                    0 <= i < peers@.len() && (#[trigger] peers@[i]).0@ == id
            &&& forall|i: int, j: int|
                0 <= i < j < peers@.len() ==> text_less(
                    (#[trigger] peers@[i]).0@,
                    (#[trigger] peers@[j]).0@,
                )
        },
{
    mesh.law_invariant();
    match plan {
        SendPlan::Broadcast { frame, peers } => {
            lemma_listed(*mesh, peers@);
        },
        _ => {},
    }
}

/// A list of connections in ascending order holds each of them once.
proof fn lemma_listed(mesh: UnixDomainMeshConnexon, peers: Seq<(String, u64)>)
    requires
        mesh.wf(),
        crate::mesh::lists_peers(peers, mesh),
    ensures
        forall|i: int|
            0 <= i < peers.len() ==> mesh@.peers.contains_key((#[trigger] peers[i]).0@)
                && mesh@.peers[peers[i].0@] == peers[i].1,
        forall|id: Seq<char>| #[trigger]
            mesh@.peers.contains_key(id) ==> exists|i: int|
                0 <= i < peers.len() && (#[trigger] peers[i]).0@ == id,
        forall|i: int, j: int|
            0 <= i < j < peers.len() ==> text_less(
                (#[trigger] peers[i]).0@,
                (#[trigger] peers[j]).0@,
            ),
{
    mesh.law_invariant();
    let order = mesh.peer_order();
    assert forall|i: int| 0 <= i < peers.len() implies mesh@.peers.contains_key(
        (#[trigger] peers[i]).0@,
    ) by {
        assert(order.to_set().contains(order[i]));
    }
    assert forall|id: Seq<char>| #[trigger] mesh@.peers.contains_key(id) implies exists|i: int|
        0 <= i < peers.len() && (#[trigger] peers[i]).0@ == id by {
        assert(order.to_set().contains(id));
        let i = choose|i: int| 0 <= i < order.len() && order[i] == id;
        assert(peers[i].0@ == id);
    }
    assert forall|i: int, j: int| 0 <= i < j < peers.len() implies text_less(
        (#[trigger] peers[i]).0@,
        (#[trigger] peers[j]).0@,
    ) by {
        assert(text_less(order[i], order[j]));
    }
}

/// A message goes where it is addressed: a query to the node that it calls, a reply to the node that it
/// names, everything else, and a reply that names nobody, to all; to its own node it is only handed
/// over.
pub proof fn law_message_sent(
    mesh: &UnixDomainMeshConnexon,
    message: &Glycosyl,
    plan: SendPlan,
    bytes: Vec<u8>,
    payload: &[u8],
    limit: usize,
    framed: Vec<u8>,
)
    requires
        mesh.wf(),
        call_ensures(
            UnixDomainMeshConnexon::send,
            (mesh, message),
            Ok::<SendPlan, GlycoError>(plan),
        ),
        call_ensures(Glycosyl::to_bytes, (message,), Ok::<Vec<u8>, GlycoError>(bytes)),
        payload@ == bytes@,
        call_ensures(frame_message, (payload, limit), Ok::<Vec<u8>, GlycoError>(framed)),
    ensures
        mesh@.started,
        *message matches Glycosyl::Query(query) ==> (if query.gid@ == mesh@.node_id {
            plan is Loopback
        } else {
            plan matches SendPlan::Unicast { peer, .. } && peer@ == query.gid@
        }),
        *message matches Glycosyl::Reply(reply) ==> (match reply.target_gid {
            Some(target) => if target@ == mesh@.node_id {
                plan is Loopback
            } else {
                plan matches SendPlan::Unicast { peer, .. } && peer@ == target@
            },
            None => plan is Broadcast,
        }),
        *message is Beacon || *message is Event || *message is Heartbeat ==> plan is Broadcast,
        plan matches SendPlan::Unicast { peer, generation, frame } ==> mesh@.peers.contains_key(
            peer@,
        ) && mesh@.peers[peer@] == generation && frame@ == framed@,
        plan matches SendPlan::Broadcast { frame, peers } ==> frame@ == framed@ && peers@.len()
            == mesh.peer_order().len(),
{
}

/// Sending a message is sending its bytes to its receiver: it succeeds and fails alike, and goes the
/// same way.
pub proof fn law_message_sent_as_its_bytes(
    mesh: &UnixDomainMeshConnexon,
    message: &Glycosyl,
    plan: Result<SendPlan, GlycoError>,
    bytes: Vec<u8>,
    payload: &[u8],
    receiver: Option<&str>,
    alike: Result<SendPlan, GlycoError>,
)
    requires
        mesh.wf(),
        call_ensures(UnixDomainMeshConnexon::send, (mesh, message), plan),
        call_ensures(Glycosyl::to_bytes, (message,), Ok::<Vec<u8>, GlycoError>(bytes)),
        payload@ == bytes@,
        call_ensures(Glycosyl::receiver, (message,), receiver),
        call_ensures(UnixDomainMeshConnexon::send_framed, (mesh, payload, receiver), alike),
    ensures
        match (plan, alike) {
            (Ok(SendPlan::Loopback), Ok(SendPlan::Loopback)) => true,
            (
                Ok(SendPlan::Unicast { peer: p, generation: g, frame: a }),
                Ok(SendPlan::Unicast { peer: q, generation: h, frame: b }),
            ) => p@ == q@ && g == h && a@ == b@,
            (
                Ok(SendPlan::Broadcast { frame: a, peers: p }),
                Ok(SendPlan::Broadcast { frame: b, peers: q }),
            ) => a@ == b@ && p@.len() == q@.len() && forall|i: int|
                0 <= i < p@.len() ==> (#[trigger] p@[i]).0@ == q@[i].0@ && p@[i].1 == q@[i].1,
            (Err(GlycoError::PeerNotConnected(a)), Err(GlycoError::PeerNotConnected(b))) => a@ == b@,
            (Err(a), Err(b)) => a == b,
            _ => false,
        },
{
}

/// A message that is sent to everybody or to this node is handed to this node too; one to a peer is
/// not.
pub proof fn law_delivered_locally(plan: &SendPlan, local: bool)
    requires
        call_ensures(SendPlan::delivers_locally, (plan,), local),
    ensures
        local <==> *plan is Loopback || *plan is Broadcast,
{
}

/// A peer is taken in exactly if its id is allowed, is not that of the node, its sockets were made
/// ready and it is not connected yet; it is then connected by a generation of its own, and told. One
/// that is connected keeps its connection and is not told again. Whatever came of it, no other peer is
/// affected.
pub proof fn law_peer_taken_in(
    mesh: &mut UnixDomainMeshConnexon,
    peer: &str,
    prepared: Result<(), IoFailure>,
    outcome: Result<Option<Connected>, GlycoError>,
    allowed: Result<(), GlycoError>,
    other: Seq<char>,
)
    requires
        old(mesh).wf(),
        call_ensures(UnixDomainMeshConnexon::install_peer, (mesh, peer, prepared), outcome),
        call_ensures(validate_node_id, (peer,), allowed),
        other != peer@,
    ensures
        outcome is Ok <==> allowed is Ok && peer@ != old(mesh)@.node_id && prepared is Ok,
        allowed is Err ==> (outcome matches Err(GlycoError::InvalidNodeId(id)) && id@ == peer@),
        allowed is Ok && peer@ == old(mesh)@.node_id ==> (outcome matches Err(
            GlycoError::Protocol(text),
        ) && text@ == "peer claimed the local node id"@),
        allowed is Ok && peer@ != old(mesh)@.node_id ==> (prepared matches Err(failure) ==> outcome
            == Err::<Option<Connected>, GlycoError>(GlycoError::Io(failure))),
        outcome matches Ok(connected) ==> (connected is None <==> old(mesh)@.peers.contains_key(
            peer@,
        )),
        outcome matches Ok(Some(connected)) ==> {
            &&& connected.event matches ConnexonEvent::PeerConnected(told) && told@ == peer@
            &&& final(mesh)@.peers.contains_key(peer@)
            &&& final(mesh)@.peers[peer@] == connected.generation
            &&& connected.generation == old(mesh)@.next_generation
        },
        outcome matches Ok(None) ==> final(mesh)@.peers == old(mesh)@.peers,
        outcome is Ok ==> final(mesh)@.next_generation == old(mesh)@.next_generation.wrapping_add(1),
        outcome is Err ==> final(mesh)@ == old(mesh)@,
        final(mesh)@.peers.contains_key(other) <==> old(mesh)@.peers.contains_key(other),
        old(mesh)@.peers.contains_key(other) ==> final(mesh)@.peers[other] == old(
            mesh,
        )@.peers[other],
        final(mesh)@ == (MeshState {
            peers: final(mesh)@.peers,
            next_generation: final(mesh)@.next_generation,
            ..old(mesh)@
        }),
{
}

/// A peer is refused before anything is made ready for it exactly if its id is not allowed or is that
/// of the node.
pub proof fn law_peer_checked(
    mesh: &UnixDomainMeshConnexon,
    peer: &str,
    verdict: Result<(), GlycoError>,
    allowed: Result<(), GlycoError>,
)
    requires
        call_ensures(UnixDomainMeshConnexon::check_peer, (mesh, peer), verdict),
        call_ensures(validate_node_id, (peer,), allowed),
    ensures
        verdict is Ok <==> allowed is Ok && peer@ != mesh@.node_id,
        verdict matches Err(error) ==> (if allowed is Err {
            error matches GlycoError::InvalidNodeId(id) && id@ == peer@
        } else {
            error matches GlycoError::Protocol(text) && text@ == "peer claimed the local node id"@
        }),
{
}

/// The end of the connection that a peer has takes the peer out and is told; the end of any other
/// connection, an older one of that peer or one of a peer that is not there, has no effect.
pub proof fn law_peer_leaves(
    mesh: &mut UnixDomainMeshConnexon,
    peer: &str,
    generation: u64,
    event: Option<ConnexonEvent>,
    other: Seq<char>,
)
    requires
        old(mesh).wf(),
        call_ensures(UnixDomainMeshConnexon::disconnect_peer, (mesh, peer, generation), event),
        other != peer@,
    ensures
        event is Some <==> old(mesh)@.peers.contains_key(peer@) && old(mesh)@.peers[peer@]
            == generation,
        event matches Some(told) ==> (told matches ConnexonEvent::PeerDisconnected(id) && id@
            == peer@) && !final(mesh)@.peers.contains_key(peer@),
        event is None ==> final(mesh)@ == old(mesh)@,
        final(mesh)@.peers.contains_key(other) <==> old(mesh)@.peers.contains_key(other),
        old(mesh)@.peers.contains_key(other) ==> final(mesh)@.peers[other] == old(
            mesh,
        )@.peers[other],
        final(mesh)@ == (MeshState { peers: final(mesh)@.peers, ..old(mesh)@ }),
{
}

/// A peer that was taken in leaves by the end of the very connection that it got, and then the
/// connections are those of before; the end of any other leaves it connected.
pub proof fn law_taken_in_and_gone(
    mesh: &mut UnixDomainMeshConnexon,
    ending: &mut UnixDomainMeshConnexon,
    peer: &str,
    connected: Connected,
    generation: u64,
    event: Option<ConnexonEvent>,
)
    requires
        old(mesh).wf(),
        old(ending).wf(),
        call_ensures(
            UnixDomainMeshConnexon::install_peer,
            (mesh, peer, Ok::<(), IoFailure>(())),
            Ok::<Option<Connected>, GlycoError>(Some(connected)),
        ),
        old(ending)@ == final(mesh)@,
        call_ensures(UnixDomainMeshConnexon::disconnect_peer, (ending, peer, generation), event),
    ensures
        event is Some <==> generation == connected.generation,
        generation == connected.generation ==> final(ending)@.peers == old(mesh)@.peers,
        generation != connected.generation ==> final(ending)@.peers.contains_key(peer@),
{
    if generation == connected.generation {
        assert(final(ending)@.peers =~= old(mesh)@.peers);
    }
}

/// A write to a peer succeeds exactly if the bytes were written, and otherwise fails with the reason. A
/// write that broke the connection, or was never answered, takes the peer out, if it is still
/// connected by it; one that was refused beforehand does not.
pub proof fn law_write_to_peer(
    mesh: &mut UnixDomainMeshConnexon,
    peer: &str,
    generation: u64,
    write: PeerWrite,
    answer: (Result<(), GlycoError>, Option<ConnexonEvent>),
)
    requires
        old(mesh).wf(),
        call_ensures(UnixDomainMeshConnexon::write_to_peer, (mesh, peer, generation, write), answer),
    ensures
        answer.0 is Ok <==> write is Written,
        write matches PeerWrite::NotQueued(failure) ==> answer.0 == Err::<(), GlycoError>(
            GlycoError::Io(failure),
        ),
        write matches PeerWrite::Failed(failure) ==> answer.0 == Err::<(), GlycoError>(
            GlycoError::Io(failure),
        ),
        write is Abandoned ==> (answer.0 matches Err(GlycoError::Io(failure)) && failure.kind
            == IoErrorKind::BrokenPipe && failure.message@ == "peer writer stopped"@),
        answer.1 is Some <==> (write is Failed || write is Abandoned) && old(
            mesh,
        )@.peers.contains_key(peer@) && old(mesh)@.peers[peer@] == generation,
        answer.1 matches Some(told) ==> (told matches ConnexonEvent::PeerDisconnected(id) && id@
            == peer@) && final(mesh)@.peers == old(mesh)@.peers.remove(peer@),
        answer.1 is None ==> final(mesh)@ == old(mesh)@,
        final(mesh)@ == (MeshState { peers: final(mesh)@.peers, ..old(mesh)@ }),
{
}

/// A broadcast to one of the peers fails only where its writer ended without an answer. A peer to
/// which it could not be written is told with the reason and taken out, if it is still connected by
/// that connection, and the broadcast goes on.
pub proof fn law_broadcast_to_peer(
    mesh: &mut UnixDomainMeshConnexon,
    peer: &str,
    generation: u64,
    write: PeerWrite,
    answer: (Result<(), GlycoError>, Vec<ConnexonEvent>),
)
    requires
        old(mesh).wf(),
        call_ensures(
            UnixDomainMeshConnexon::broadcast_to_peer,
            (mesh, peer, generation, write),
            answer,
        ),
    ensures
        answer.0 is Err <==> write is Abandoned,
        answer.0 matches Err(error) ==> (error matches GlycoError::Io(failure) && failure.kind
            == IoErrorKind::BrokenPipe && failure.message@ == "peer writer stopped"@),
        write is Written || write is Abandoned ==> answer.1@.len() == 0 && final(mesh)@ == old(
            mesh,
        )@,
        write is NotQueued || write is Failed ==> {
            let failure = if write is NotQueued {
                write->NotQueued_0
            } else {
                write->Failed_0
            };
            let current = old(mesh)@.peers.contains_key(peer@) && old(mesh)@.peers[peer@]
                == generation;
            &&& answer.1@.len() == (if current {
                2int
            } else {
                1int
            })
            &&& answer.1@[0] matches ConnexonEvent::Fault { peer: on, message } && on.deep_view()
                == Some(peer@) && message@ == "broadcast write failed: "@ + failure.message@
            &&& current ==> (answer.1@[1] matches ConnexonEvent::PeerDisconnected(id) && id@
                == peer@) && final(mesh)@.peers == old(mesh)@.peers.remove(peer@)
            &&& !current ==> final(mesh)@ == old(mesh)@
        },
        final(mesh)@ == (MeshState { peers: final(mesh)@.peers, ..old(mesh)@ }),
{
}

/// A reader hands every message on, tells and skips what is no message, and ends with the first read
/// that fails: the peer is then taken out, if it is still connected by that connection, and the
/// failure is told unless the transport is being stopped.
pub proof fn law_reader_goes_on(
    mesh: &mut UnixDomainMeshConnexon,
    peer: &str,
    generation: u64,
    read: ReadOutcome,
    cancelled: bool,
    step: WorkerStep,
)
    requires
        old(mesh).wf(),
        call_ensures(
            UnixDomainMeshConnexon::reader_step,
            (mesh, peer, generation, read, cancelled),
            step,
        ),
    ensures
        step.go_on <==> !(read is Failed),
        step.go_on ==> final(mesh)@ == old(mesh)@ && step.events@.len() == 1,
        read matches ReadOutcome::Message(message) ==> step.events@[0] == ConnexonEvent::Message(
            message,
        ),
        read matches ReadOutcome::Malformed(text) ==> (step.events@[0] matches ConnexonEvent::Fault {
            peer: on,
            message,
        } && on.deep_view() == Some(peer@) && message@ == "invalid JSON message ignored: "@ + text@),
        read matches ReadOutcome::Failed(failure) ==> {
            let current = old(mesh)@.peers.contains_key(peer@) && old(mesh)@.peers[peer@]
                == generation;
            &&& current ==> final(mesh)@.peers == old(mesh)@.peers.remove(peer@)
            &&& !current ==> final(mesh)@ == old(mesh)@
            &&& step.events@.len() == (if cancelled {
                0int
            } else {
                1int
            }) + (if current {
                1int
            } else {
                0int
            })
            &&& !cancelled ==> (step.events@[0] matches ConnexonEvent::Fault { peer: on, message }
                && on.deep_view() == Some(peer@) && message@ == "read failed: "@ + failure.message@)
            &&& current ==> (step.events@.last() matches ConnexonEvent::PeerDisconnected(id) && id@
                == peer@)
        },
        final(mesh)@ == (MeshState { peers: final(mesh)@.peers, ..old(mesh)@ }),
{
}

/// A writer goes on while it has nothing to do or its writes succeed, and ends, telling nothing, when
/// it is cancelled or nobody is left to ask it; a write that fails is told, takes the peer out, if it
/// is still connected by that connection, and ends the writer.
pub proof fn law_writer_goes_on(
    mesh: &mut UnixDomainMeshConnexon,
    peer: &str,
    generation: u64,
    input: &WriterInput,
    step: WorkerStep,
    goes_on: bool,
)
    requires
        old(mesh).wf(),
        call_ensures(UnixDomainMeshConnexon::writer_step, (mesh, peer, generation, input), step),
        call_ensures(WriterInput::goes_on, (input,), goes_on),
    ensures
        step.go_on == goes_on,
        step.go_on <==> *input is Idle || (*input matches WriterInput::Written(outcome)
            && outcome is Ok),
        !(*input matches WriterInput::Written(Err(_))) ==> step.events@.len() == 0 && final(mesh)@
            == old(mesh)@,
        *input matches WriterInput::Written(Err(failure)) ==> {
            let current = old(mesh)@.peers.contains_key(peer@) && old(mesh)@.peers[peer@]
                == generation;
            &&& step.events@.len() == (if current {
                2int
            } else {
                1int
            })
            &&& step.events@[0] matches ConnexonEvent::Fault { peer: on, message } && on.deep_view()
                == Some(peer@) && message@ == "write failed: "@ + failure.message@
            &&& current ==> (step.events@[1] matches ConnexonEvent::PeerDisconnected(id) && id@
                == peer@) && final(mesh)@.peers == old(mesh)@.peers.remove(peer@)
            &&& !current ==> final(mesh)@ == old(mesh)@
        },
        final(mesh)@ == (MeshState { peers: final(mesh)@.peers, ..old(mesh)@ }),
{
}

/// A node is dialled at the socket file that is named after it in the common directory, unless the
/// dialling was cancelled or it is connected already; it then gets the frame of the id of the node
/// that dials, if that is within four thousand and ninety-six bytes, and is taken in once that is
/// written. That nobody answered is not told; every other failure is, on that peer and in its own
/// words.
pub proof fn law_dialling(
    mesh: &UnixDomainMeshConnexon,
    peer: &str,
    event: DialEvent,
    action: DialAction,
    own: &[u8],
    introduction: Result<Vec<u8>, GlycoError>,
    words: String,
)
    requires
        mesh.wf(),
        own@.len() <= usize::MAX,
        introduction matches Err(error) ==> call_ensures(GlycoError::message, (&error,), words),
        call_ensures(UnixDomainMeshConnexon::connect_to_peer, (mesh, peer, event), action),
        own@ == encode_utf8(mesh@.node_id),
        call_ensures(frame_message, (own, 4096usize), introduction),
    ensures
        event matches DialEvent::Requested { cancelled } ==> (if cancelled
            || mesh@.peers.contains_key(peer@) {
            action is Done
        } else {
            action matches DialAction::Connect(path) && path == path_joined(
                mesh@.socket_dir,
                peer@ + ".sock"@,
            )
        }),
        event is Refused ==> action is Done,
        event is Connected ==> (match introduction {
            Ok(frame) => action matches DialAction::WriteHandshake(written) && written@ == frame@,
            Err(_) => action matches DialAction::Report(ConnexonEvent::Fault { peer: on, message })
                && on.deep_view() == Some(peer@) && message@ == words@,
        }),
        action is TakeIn <==> (event matches DialEvent::HandshakeWritten(outcome)
            && outcome is Ok),
        action is WriteHandshake ==> event is Connected,
        action is Connect ==> event is Requested,
        event matches DialEvent::SocketFailed(text) ==> (action matches DialAction::Report(
            ConnexonEvent::Fault { peer: on, message },
        ) && on.deep_view() == Some(peer@) && message@ == text@),
        event matches DialEvent::AddressFailed(text) ==> (action matches DialAction::Report(
            ConnexonEvent::Fault { peer: on, message },
        ) && on.deep_view() == Some(peer@) && message@ == text@),
        event matches DialEvent::HandshakeWritten(Err(text)) ==> (
        action matches DialAction::Report(ConnexonEvent::Fault { peer: on, message })
            && on.deep_view() == Some(peer@) && message@ == "handshake failed: "@ + text@),
        event matches DialEvent::TakenIn(outcome) ==> (outcome is Ok ==> action is Done),
        event matches DialEvent::TakenIn(Err(error)) ==> (action matches DialAction::Report(
            ConnexonEvent::Fault { peer: on, message },
        ) && on.deep_view() == Some(peer@) && message@ == error.text()),
{
}

/// A peer that could not be taken in is told with the words of the error.
pub proof fn law_install_fault(
    peer: &str,
    error: &GlycoError,
    fault: ConnexonEvent,
    words: String,
)
    requires
        call_ensures(UnixDomainMeshConnexon::install_fault, (peer, error), fault),
        call_ensures(GlycoError::message, (error,), words),
    ensures
        fault matches ConnexonEvent::Fault { peer: on, message } && on.deep_view() == Some(peer@)
            && message@ == words@,
{
}

/// The frame by which a node introduces itself is that of its id, if that is within four thousand and
/// ninety-six bytes.
pub proof fn law_handshake(
    mesh: &UnixDomainMeshConnexon,
    handshake: Result<Vec<u8>, GlycoError>,
    own: &[u8],
    framed: Result<Vec<u8>, GlycoError>,
)
    requires
        call_ensures(UnixDomainMeshConnexon::handshake, (mesh,), handshake),
        own@ == encode_utf8(mesh@.node_id),
        own@.len() <= usize::MAX,
        call_ensures(frame_message, (own, 4096usize), framed),
    ensures
        handshake is Ok <==> encode_utf8(mesh@.node_id).len() <= 4096,
        match (handshake, framed) {
            (Ok(written), Ok(frame)) => written@ == frame@,
            (Err(error), Err(refusal)) => error == refusal,
            _ => false,
        },
{
}

/// A peer that dials is known by the id that its handshake holds in UTF-8: the one that it wrote, and
/// no other. A handshake that could not be read, or is no UTF-8, is told as a fault.
pub proof fn law_dialling_peer_known(
    id: Seq<char>,
    bytes: Vec<u8>,
    known: Result<String, ConnexonEvent>,
    failure: IoFailure,
    unread: Result<String, ConnexonEvent>,
)
    requires
        call_ensures(
            UnixDomainMeshConnexon::handle_incoming,
            (Ok::<Vec<u8>, IoFailure>(bytes),),
            known,
        ),
        call_ensures(
            UnixDomainMeshConnexon::handle_incoming,
            (Err::<Vec<u8>, IoFailure>(failure),),
            unread,
        ),
    ensures
        bytes@ == encode_utf8(id) ==> (known matches Ok(peer) && peer@ == id),
        known is Ok <==> valid_utf8(bytes@),
        known matches Err(told) ==> (told matches ConnexonEvent::Fault { peer, message }
            && peer is None && message@ == "peer id is not UTF-8: "@ + utf8_error_text(bytes@)),
        unread matches Err(ConnexonEvent::Fault { peer, message }) && peer is None && message@
            == "invalid peer handshake: "@ + failure.message@,
{
    if bytes@ == encode_utf8(id) {
        encode_utf8_valid_utf8(id);
    }
    if known is Ok {
        encode_utf8_valid_utf8((known->Ok_0)@);
        if bytes@ == encode_utf8(id) {
            crate::text::lemma_utf8_injective(id, (known->Ok_0)@);
        }
    }
}

/// A transport is made for an allowed id whose socket path can be an address, not started, without
/// peers, and with its socket named after the id in the directory.
pub proof fn law_transport_made(
    id: &str,
    directory: PathBuf,
    address: Result<(), String>,
    made: Result<UnixDomainMeshConnexon, GlycoError>,
    allowed: Result<(), GlycoError>,
)
    requires
        call_ensures(UnixDomainMeshConnexon::with_checked_address, (id, directory, address), made),
        call_ensures(validate_node_id, (id,), allowed),
    ensures
        made is Ok <==> allowed is Ok && address is Ok,
        made matches Ok(mesh) ==> {
            &&& mesh.wf()
            &&& mesh@.node_id == id@
            &&& mesh@.socket_dir == directory
            &&& mesh@.socket_path() == path_joined(directory, id@ + ".sock"@)
            &&& mesh@.max_frame_length == 100_000_000
            &&& mesh@.peers == Map::<Seq<char>, u64>::empty()
            &&& !mesh@.started
        },
        made matches Err(error) ==> (if allowed is Err {
            error matches GlycoError::InvalidNodeId(told) && told@ == id@
        } else {
            error matches GlycoError::Io(failure) && failure.kind == IoErrorKind::InvalidInput
                && failure.message == address->Err_0
        }),
{
}

/// A transport keeps its socket at the path that is named after its id in its directory.
pub proof fn law_socket_path(mesh: &UnixDomainMeshConnexon, path: &PathBuf)
    requires
        mesh.wf(),
        call_ensures(UnixDomainMeshConnexon::socket_path, (mesh,), path),
    ensures
        *path == path_joined(mesh@.socket_dir, mesh@.node_id + ".sock"@),
{
}

/// A file at the path of the node's own socket is removed exactly if nobody answers behind it; where
/// somebody does, the node is already running.
pub proof fn law_stale_socket(
    mesh: &UnixDomainMeshConnexon,
    probe: SocketProbe,
    remove: Result<bool, GlycoError>,
)
    requires
        call_ensures(UnixDomainMeshConnexon::remove_stale_socket, (mesh, probe), remove),
    ensures
        remove == Ok::<bool, GlycoError>(true) <==> probe is Silent,
        probe is Absent ==> remove == Ok::<bool, GlycoError>(false),
        probe is Answered ==> (remove matches Err(GlycoError::NodeAlreadyRunning(id)) && id@
            == mesh@.node_id),
        probe matches SocketProbe::NoSocket(failure) ==> remove == Err::<bool, GlycoError>(
            GlycoError::Io(failure),
        ),
{
}

/// A transport starts exactly if its socket listens, and then changes in nothing else; one that is
/// started stays so.
pub proof fn law_transport_starts(
    mesh: &mut UnixDomainMeshConnexon,
    listening: Result<(), GlycoError>,
    outcome: Result<(), GlycoError>,
)
    requires
        old(mesh).wf(),
        call_ensures(UnixDomainMeshConnexon::start_blocking, (mesh, listening), outcome),
    ensures
        final(mesh)@.started <==> old(mesh)@.started || listening is Ok,
        final(mesh)@ == (MeshState { started: final(mesh)@.started, ..old(mesh)@ }),
        outcome is Ok <==> final(mesh)@.started,
        !old(mesh)@.started ==> outcome == listening,
{
}

/// A transport that stops has no peers any more and hands every connection out once, to be shut down;
/// one that is not started has nothing to do. Its generations go on.
pub proof fn law_transport_stops(
    mesh: &mut UnixDomainMeshConnexon,
    peers: Option<Vec<(String, u64)>>,
)
    requires
        old(mesh).wf(),
        call_ensures(UnixDomainMeshConnexon::stop_blocking, (mesh,), peers),
    ensures
        peers is Some <==> old(mesh)@.started,
        !final(mesh)@.started,
        peers is None ==> final(mesh)@ == old(mesh)@,
        peers matches Some(listed) ==> {
            &&& final(mesh)@.peers == Map::<Seq<char>, u64>::empty()
            &&& final(mesh)@ == (MeshState {
                started: false,
                peers: final(mesh)@.peers,
                ..old(mesh)@
            })
            &&& forall|i: int|
                0 <= i < listed@.len() ==> old(mesh)@.peers.contains_key(
                    (#[trigger] listed@[i]).0@,
                ) && old(mesh)@.peers[listed@[i].0@] == listed@[i].1
            &&& forall|id: Seq<char>| #[trigger]
                old(mesh)@.peers.contains_key(id) ==> exists|i: int|
                    0 <= i < listed@.len() && (#[trigger] listed@[i]).0@ == id
        },
{
    if peers is Some {
        lemma_listed(*old(mesh), (peers->Some_0)@);
    }
}

/// A transport that is cancelled stops like one that is stopped, started or not.
pub proof fn law_transport_cancelled(
    mesh: &mut UnixDomainMeshConnexon,
    listed: Vec<(String, u64)>,
)
    requires
        old(mesh).wf(),
        call_ensures(UnixDomainMeshConnexon::cancel_without_joining, (mesh,), listed),
    ensures
        !final(mesh)@.started,
        final(mesh)@.peers == Map::<Seq<char>, u64>::empty(),
        final(mesh)@ == (MeshState { started: false, peers: final(mesh)@.peers, ..old(mesh)@ }),
        forall|i: int|
            0 <= i < listed@.len() ==> old(mesh)@.peers.contains_key((#[trigger] listed@[i]).0@)
                && old(mesh)@.peers[listed@[i].0@] == listed@[i].1,
        forall|id: Seq<char>| #[trigger]
            old(mesh)@.peers.contains_key(id) ==> exists|i: int|
                0 <= i < listed@.len() && (#[trigger] listed@[i]).0@ == id,
{
    lemma_listed(*old(mesh), listed@);
}

/// A stop fails only where the socket file could not be removed for another reason than that it is
/// gone.
pub proof fn law_stop_outcome(removed: Result<(), IoFailure>, outcome: Result<(), GlycoError>)
    requires
        call_ensures(UnixDomainMeshConnexon::stop_outcome, (removed,), outcome),
    ensures
        outcome is Err <==> (removed matches Err(failure) && failure.kind != IoErrorKind::NotFound),
        outcome matches Err(error) ==> error == GlycoError::Io(removed->Err_0),
{
}

/// Work is refused exactly before the transport is started.
pub proof fn law_started_checked(
    mesh: &UnixDomainMeshConnexon,
    verdict: Result<(), GlycoError>,
)
    requires
        call_ensures(UnixDomainMeshConnexon::ensure_started, (mesh,), verdict),
    ensures
        verdict is Ok <==> mesh@.started,
        verdict matches Err(error) ==> error is NotStarted,
{
}

/// The list of connected peers holds each of them once and nobody else, in ascending order.
pub proof fn law_connected_peers(mesh: &UnixDomainMeshConnexon, peers: Vec<String>)
    requires
        mesh.wf(),
        call_ensures(UnixDomainMeshConnexon::connected_peers, (mesh,), peers),
    ensures
        forall|id: Seq<char>| #[trigger]
            peers.deep_view().contains(id) <==> mesh@.peers.contains_key(id),
        forall|i: int, j: int|
            0 <= i < j < peers@.len() ==> text_less((#[trigger] peers@[i])@, (#[trigger] peers@[j])@),
{
    mesh.law_invariant();
    let order = mesh.peer_order();
    assert forall|id: Seq<char>| #[trigger]
        peers.deep_view().contains(id) <==> mesh@.peers.contains_key(id) by {
        assert(order.to_set().contains(id) <==> order.contains(id));
        assert(mesh@.peers.dom().contains(id) <==> mesh@.peers.contains_key(id));
    }
    assert forall|i: int, j: int| 0 <= i < j < peers@.len() implies text_less(
        (#[trigger] peers@[i])@,
        (#[trigger] peers@[j])@,
    ) by {
        assert(peers.deep_view()[i] == peers@[i]@ && peers.deep_view()[j] == peers@[j]@);
        assert(text_less(order[i], order[j]));
    }
}

/// A listening socket that gives a connection has it handled, one that has none is waited for, and one
/// that fails is told, unless the transport is being stopped.
pub proof fn law_accepting(accepted: AcceptOutcome, cancelled: bool, action: AcceptAction)
    requires
        call_ensures(accept_step, (accepted, cancelled), action),
    ensures
        action is Handle <==> accepted is Connection,
        action is Pause <==> accepted is WouldBlock,
        action is Nothing <==> accepted is Failed && cancelled,
        accepted matches AcceptOutcome::Failed(text) ==> (!cancelled ==> (
        action matches AcceptAction::Report(ConnexonEvent::Fault { peer, message }) && peer is None
            && message@ == "accept failed: "@ + text@)),
{
}

/// The way to a writer takes requests until it is shut down, and is shut down once: only the first
/// time is the socket to be closed, and from then on every request is refused.
pub proof fn law_way_to_writer(
    made: PeerLink,
    link: &mut PeerLink,
    first: bool,
    closed: &PeerLink,
    taken: bool,
    outcome: Result<(), IoFailure>,
    before: &PeerLink,
    asked: Result<(), IoFailure>,
    open: Result<(), IoFailure>,
    shut: Result<(), IoFailure>,
)
    requires
        call_ensures(PeerLink::new, (), made),
        *old(link) == made,
        call_ensures(PeerLink::shutdown, (link,), first),
        *closed == *final(link),
        call_ensures(PeerLink::enqueue, (closed, taken), outcome),
        *before == made,
        call_ensures(PeerLink::enqueue, (before, taken), asked),
        call_ensures(PeerLink::ensure_open, (before,), open),
        call_ensures(PeerLink::ensure_open, (closed,), shut),
    ensures
        first,
        open is Ok,
        shut matches Err(failure) && failure.kind == IoErrorKind::BrokenPipe && failure.message@
            == "peer is closed"@,
        outcome matches Err(failure) && failure.kind == IoErrorKind::BrokenPipe && failure.message@
            == "peer is closed"@,
        asked is Ok <==> taken,
        asked matches Err(failure) ==> failure.kind == IoErrorKind::BrokenPipe && failure.message@
            == "peer writer stopped"@,
{
}

/// A way that was shut down is not shut down again.
pub proof fn law_shut_down_once(link: &mut PeerLink, again: &mut PeerLink, first: bool, second: bool)
    requires
        call_ensures(PeerLink::shutdown, (link,), first),
        *old(again) == *final(link),
        call_ensures(PeerLink::shutdown, (again,), second),
    ensures
        !second,
{
}

/// A wait goes on in slices of at most twenty-five milliseconds, never past its end, and is over
/// exactly when its time is.
pub proof fn law_wait_in_slices(duration: Duration, elapsed: Duration, slice: Option<u64>)
    requires
        call_ensures(sleep_slice, (duration, elapsed), slice),
    ensures
        slice is None <==> duration_nanos(elapsed) >= duration_nanos(duration),
        slice matches Some(nanos) ==> {
            &&& nanos > 0
            &&& nanos <= 25_000_000
            &&& duration_nanos(elapsed) + nanos <= duration_nanos(duration)
            &&& nanos < 25_000_000 ==> duration_nanos(elapsed) + nanos == duration_nanos(duration)
        },
{
}

/// The faults of workers are told in their words and on no peer.
pub proof fn law_worker_faults(error: &str, fault: ConnexonEvent, stopped: IoFailure)
    requires
        call_ensures(spawn_fault, (error,), fault),
        call_ensures(writer_stopped, (), stopped),
    ensures
        fault matches ConnexonEvent::Fault { peer, message } && peer is None && message@
            == "could not spawn handshake worker: "@ + error@,
        stopped.kind == IoErrorKind::BrokenPipe,
        stopped.message@ == "peer writer stopped"@,
{
}

} // verus!
