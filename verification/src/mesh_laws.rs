//! What holds of the mesh as a whole.
use crate::frame::{first_message, framed, law_frame_read_back, ReadFault};
use crate::mesh::{
    is_dial_action, is_handshake, DialAction, DialEvent, MeshState, MAX_HANDSHAKE_LENGTH,
};
use crate::text::lemma_utf8_injective;
use vstd::prelude::*;
use vstd::utf8::*;

verus! {

/// The end of an older connection changes nothing: once a peer is connected anew, no generation
/// that was given out before ends its connection.
pub proof fn law_stale_disconnect_ignored(state: MeshState, peer: Seq<char>, generation: u64)
    requires
        !state.peers.contains_key(peer),
        generation < state.next_generation,
    ensures
        state.with_peer(peer).without(peer, generation) == state.with_peer(peer),
{
}

/// Generations are never given out twice while the counter does not wrap: every connection stays
/// older than the next one, through arrivals and departures.
pub proof fn law_generations_stay_fresh(state: MeshState, peer: Seq<char>, generation: u64)
    requires
        state.generations_fresh(),
        state.next_generation < u64::MAX,
    ensures
        state.with_peer(peer).generations_fresh(),
        state.without(peer, generation).generations_fresh(),
{
    let with = state.with_peer(peer);
    assert forall|other: Seq<char>| #[trigger] with.peers.contains_key(other) implies with.peers[other]
        < with.next_generation by {
        if other != peer {
            assert(state.peers.contains_key(other));
        }
    }
}

/// A peer that arrives is connected, and gone again when that very connection ends.
pub proof fn law_connect_then_disconnect(state: MeshState, peer: Seq<char>)
    requires
        !state.peers.contains_key(peer),
    ensures
        state.with_peer(peer).is_current(peer, state.next_generation),
        state.with_peer(peer).without(peer, state.next_generation).peers == state.peers,
{
    let with = state.with_peer(peer);
    assert(with.peers.remove(peer) =~= state.peers);
}

/// The end of one peer's connection leaves the others connected.
pub proof fn law_disconnect_leaves_others(
    state: MeshState,
    peer: Seq<char>,
    generation: u64,
    other: Seq<char>,
)
    requires
        other != peer,
        state.peers.contains_key(other),
    ensures
        state.without(peer, generation).is_current(other, state.peers[other]),
{
}

/// A transport can be started, stopped and started again: it is then as after the first start, but
/// for its peers, who connect anew, and for the generations that were used up.
pub proof fn law_restart(state: MeshState)
    requires
        !state.started,
    ensures
        state.listening(true).stopped().listening(true) == (MeshState {
            peers: Map::empty(),
            ..state.listening(true)
        }),
        state.listening(true).stopped().generations_fresh(),
        state.listening(false) == state,
{
}

/// Whether an event is what the program around the library reports of an action.
pub open spec fn answers(action: DialAction, event: DialEvent) -> bool {
    match action {
        DialAction::Connect(_) => event is SocketFailed || event is AddressFailed || event is Refused
            || event is Connected,
        DialAction::WriteHandshake(_) => event is HandshakeWritten,
        DialAction::TakeIn => event is TakenIn,
        DialAction::Report(_) => false,
        DialAction::Done => false,
    }
}

/// The dialling of a peer: a request, then for every action what came of it, each with the state of
/// the transport at that time.
pub open spec fn is_dialling(
    peer: Seq<char>,
    steps: Seq<(MeshState, DialEvent, DialAction)>,
) -> bool {
    &&& steps.len() > 0 ==> steps[0].1 is Requested
    &&& forall|i: int|
        0 <= i < steps.len() ==> is_dial_action(
            (#[trigger] steps[i]).0,
            peer,
            steps[i].1,
            steps[i].2,
        )
    &&& forall|i: int|
        0 < i < steps.len() ==> answers(steps[i - 1].2, (#[trigger] steps[i]).1)
}

/// A node introduces itself before it takes a peer in: a peer that is dialled is taken in only right
/// after the handshake, the frame of the node's id, was written to it without failure, and the
/// handshake is written only to a peer that answered.
pub proof fn law_handshake_before_peer(
    peer: Seq<char>,
    steps: Seq<(MeshState, DialEvent, DialAction)>,
    i: int,
)
    requires
        is_dialling(peer, steps),
        0 <= i < steps.len(),
        steps[i].2 is TakeIn,
    ensures
        i >= 2,
        steps[i].1 matches DialEvent::HandshakeWritten(Ok(_)),
        steps[i - 1].1 is Connected,
        steps[i - 1].2 matches DialAction::WriteHandshake(frame) && frame@ == framed(
            encode_utf8(steps[i - 1].0.node_id),
        ),
{
    assert(is_dial_action(steps[i].0, peer, steps[i].1, steps[i].2));
    assert(i > 0);
    assert(answers(steps[i - 1].2, steps[i].1));
    assert(is_dial_action(steps[i - 1].0, peer, steps[i - 1].1, steps[i - 1].2));
}

/// The dialling of a peer tells at most one fault, and that ends it: nothing is told before it and
/// nothing is done after it. Only where the taking in itself failed was it tried at all.
pub proof fn law_dialling_tells_one_fault(
    peer: Seq<char>,
    steps: Seq<(MeshState, DialEvent, DialAction)>,
    i: int,
)
    requires
        is_dialling(peer, steps),
        0 <= i < steps.len(),
        steps[i].2 is Report,
    ensures
        i == steps.len() - 1,
        forall|j: int| 0 <= j < i ==> !((#[trigger] steps[j]).2 is Report),
        steps[i].1 !is TakenIn ==> forall|j: int|
            0 <= j <= i ==> !((#[trigger] steps[j]).2 is TakeIn),
{
    if i + 1 < steps.len() {
        assert(answers(steps[i + 1 - 1].2, steps[i + 1].1));
    }
    assert forall|j: int| 0 <= j < i implies !((#[trigger] steps[j]).2 is Report) by {
        assert(answers(steps[j + 1 - 1].2, steps[j + 1].1));
    }
    assert forall|j: int| 0 <= j < i && steps[i].1 !is TakenIn implies !((
    #[trigger] steps[j]).2 is TakeIn) by {
        assert(answers(steps[j + 1 - 1].2, steps[j + 1].1));
        if steps[j].2 is TakeIn {
            assert(is_dial_action(steps[j + 1].0, peer, steps[j + 1].1, steps[j + 1].2));
            if j + 2 <= i {
                assert(answers(steps[j + 2 - 1].2, steps[j + 2].1));
            }
        }
    }
}

/// A peer learns from the handshake the id of the node that dialled it: the frame that the dialling
/// node writes is read as its id, which is valid UTF-8 and stands for no other id.
pub proof fn law_handshake_names_dialler(state: MeshState, frame: Vec<u8>, id: Seq<char>)
    requires
        is_handshake(state, Ok(frame)),
    ensures
        first_message(frame@, MAX_HANDSHAKE_LENGTH as nat) == Ok::<(Seq<u8>, Seq<u8>), ReadFault>(
            (encode_utf8(state.node_id), Seq::empty()),
        ),
        valid_utf8(encode_utf8(state.node_id)),
        encode_utf8(id) == encode_utf8(state.node_id) ==> id == state.node_id,
{
    let bytes = encode_utf8(state.node_id);
    law_frame_read_back(bytes, Seq::empty(), MAX_HANDSHAKE_LENGTH as nat);
    assert(framed(bytes) + Seq::<u8>::empty() =~= framed(bytes));
    encode_utf8_valid_utf8(state.node_id);
    if encode_utf8(id) == bytes {
        lemma_utf8_injective(id, state.node_id);
    }
}

} // verus!
