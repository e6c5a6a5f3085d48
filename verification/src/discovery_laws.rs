//! How nodes find each other: which ids are allowed, which of two nodes dials the other, and whom a
//! node dials among the socket files of a directory. Each law speaks of what functions were given and
//! what they returned.
use crate::error::{GlycoError, IoErrorKind, IoFailure};
use crate::identity::{
    dial_candidates, dialled, dials, node_of_socket, node_of_socket_file, should_dial,
    socket_file_name, socket_name, validate_node_id,
};
use crate::mesh::UnixDomainMeshConnexon;
use crate::transport::ConnexonEvent;
use vstd::prelude::*;
use vstd::string::*;

verus! {

/// An id is allowed exactly if it has a character, is neither `.` nor `..`, and none of its characters
/// is a control character or one that file systems reserve; a refusal names the id.
pub proof fn law_allowed_ids(node_id: &str, verdict: Result<(), GlycoError>)
    requires
        call_ensures(validate_node_id, (node_id,), verdict),
    ensures
        verdict is Ok <==> {
            &&& node_id@.len() > 0
            &&& node_id@ != seq!['.']
            &&& node_id@ != seq!['.', '.']
            &&& forall|i: int|
                0 <= i < node_id@.len() ==> {
                    let c = #[trigger] node_id@[i];
                    &&& c as u32 > 31
                    &&& (c as u32) < 127 || c as u32 > 159
                    &&& !seq!['<', '>', ':', '"', '/', '\\', '|', '?', '*'].contains(c)
                }
        },
        verdict matches Err(error) ==> (error matches GlycoError::InvalidNodeId(id) && id@
            == node_id@),
{
    reveal_strlit(".");
    reveal_strlit("..");
    assert("."@ =~= seq!['.']);
    assert(".."@ =~= seq!['.', '.']);
    let reserved = seq!['<', '>', ':', '"', '/', '\\', '|', '?', '*'];
    assert forall|c: char| #[trigger] reserved.contains(c) <==> (c == '<' || c == '>' || c == ':'
        || c == '"' || c == '/' || c == '\\' || c == '|' || c == '?' || c == '*') by {
        assert(reserved[0] == '<' && reserved[1] == '>' && reserved[2] == ':' && reserved[3] == '"'
            && reserved[4] == '/' && reserved[5] == '\\' && reserved[6] == '|' && reserved[7] == '?'
            && reserved[8] == '*');
    }
}

/// The socket file of a node is named after it, and the node is read back from that name; a name
/// without that ending, or with nothing in front of it, is that of no node.
pub proof fn law_socket_files(node_id: &str, name: String, file: &str, node: Option<&str>)
    requires
        call_ensures(socket_file_name, (node_id,), name),
        call_ensures(node_of_socket_file, (file,), node),
    ensures
        name@ == node_id@ + ".sock"@,
        file@ == name@ && node_id@.len() > 0 ==> (node matches Some(id) && id@ == node_id@),
        node matches Some(id) ==> id@.len() > 0 && file@ == id@ + ".sock"@,
        node is None ==> forall|id: Seq<char>| id.len() > 0 ==> file@ != #[trigger] (id + ".sock"@),
{
    reveal_strlit(".sock");
    let n = file@.len() as int;
    if node is Some {
        assert(file@ =~= file@.take(n - 5) + file@.skip(n - 5));
    }
    assert forall|id: Seq<char>| id.len() > 0 && file@ == #[trigger] (id + ".sock"@) implies node
        is Some && node->Some_0@ == id by {
        assert((id + ".sock"@).skip(n - 5) =~= ".sock"@);
        assert((id + ".sock"@).take(n - 5) =~= id);
    }
}

/// Of two nodes with different allowed ids exactly one dials the other, and no node dials itself or an
/// id that is not allowed.
pub proof fn law_exactly_one_dials(
    a: &str,
    b: &str,
    first: bool,
    second: bool,
    own: bool,
    valid_a: Result<(), GlycoError>,
    valid_b: Result<(), GlycoError>,
)
    requires
        call_ensures(should_dial, (a, b), first),
        call_ensures(should_dial, (b, a), second),
        call_ensures(should_dial, (a, a), own),
        call_ensures(validate_node_id, (a,), valid_a),
        call_ensures(validate_node_id, (b,), valid_b),
    ensures
        !own,
        a@ != b@ && valid_a is Ok && valid_b is Ok ==> (first <==> !second),
        first ==> valid_b is Ok && a@ != b@,
        second ==> valid_a is Ok,
{
    crate::text::law_utf16_order_total(a@, b@);
}

proof fn lemma_dialled_members(node_id: Seq<char>, names: Seq<Seq<char>>, peer: Seq<char>)
    ensures
        dialled(node_id, names).contains(peer) <==> dials(node_id, peer) && names.contains(
            socket_name(peer),
        ),
    decreases names.len(),
{
    reveal_strlit(".sock");
    let peers = dialled(node_id, names);
    if names.len() == 0 {
        assert(!peers.contains(peer));
    } else {
        let shorter = names.drop_last();
        let last = names.last();
        let before = dialled(node_id, shorter);
        lemma_dialled_members(node_id, shorter, peer);
        assert(names =~= shorter.push(last));
        if dials(node_id, peer) {
            assert(socket_name(peer).skip(peer.len() as int) =~= ".sock"@);
            assert(socket_name(peer).take(peer.len() as int) =~= peer);
        }
        if node_of_socket(last) is Some {
            let n = last.len() as int;
            assert(last =~= last.take(n - 5) + last.skip(n - 5));
        }
        assert(names.contains(socket_name(peer)) <==> shorter.contains(socket_name(peer)) || last
            == socket_name(peer)) by {
            if shorter.contains(socket_name(peer)) {
                let x = choose|x: int| 0 <= x < shorter.len() && shorter[x] == socket_name(peer);
                assert(names[x] == socket_name(peer));
            }
            assert(names[names.len() - 1] == last);
            if names.contains(socket_name(peer)) {
                let x = choose|x: int| 0 <= x < names.len() && names[x] == socket_name(peer);
                if x < shorter.len() {
                    assert(shorter[x] == socket_name(peer));
                }
            }
        }
        if peers.len() > before.len() {
            let added = peers.last();
            assert(peers =~= before.push(added));
            assert(peers.contains(peer) <==> before.contains(peer) || added == peer) by {
                if before.contains(peer) {
                    let x = choose|x: int| 0 <= x < before.len() && before[x] == peer;
                    assert(peers[x] == peer);
                }
                assert(peers[peers.len() - 1] == added);
                if peers.contains(peer) {
                    let x = choose|x: int| 0 <= x < peers.len() && peers[x] == peer;
                    if x < before.len() {
                        assert(before[x] == peer);
                    }
                }
            }
        }
    }
}

/// A peer is dialled exactly if its socket file is among those of the directory and the node is the
/// one of the two that dials, whatever else is in the directory and in whatever order it is listed.
pub proof fn law_dialled_exactly_if_listed(
    node_id: &str,
    names: &Vec<String>,
    peers: Vec<String>,
    peer: &str,
    dial: bool,
)
    requires
        call_ensures(dial_candidates, (node_id, names), peers),
        call_ensures(should_dial, (node_id, peer), dial),
    ensures
        peers.deep_view().contains(peer@) <==> dial && names.deep_view().contains(
            peer@ + ".sock"@,
        ),
{
    lemma_dialled_members(node_id@, names.deep_view(), peer@);
}

proof fn lemma_dialled_in_turn(node_id: Seq<char>, first: Seq<Seq<char>>, second: Seq<Seq<char>>)
    ensures
        dialled(node_id, first + second) == dialled(node_id, first) + dialled(node_id, second),
    decreases second.len(),
{
    let both = first + second;
    if second.len() == 0 {
        assert(both =~= first);
        assert(dialled(node_id, first) + dialled(node_id, second) =~= dialled(node_id, first));
    } else {
        lemma_dialled_in_turn(node_id, first, second.drop_last());
        assert(both.drop_last() =~= first + second.drop_last());
        assert(both.last() == second.last());
        assert(dialled(node_id, both) =~= dialled(node_id, first) + dialled(node_id, second));
    }
}

/// The peers of a listing are dialled in its order, each as often as it is listed: those of a listing
/// of two parts are those of the first part and then those of the second.
pub proof fn law_dialled_in_order(
    node_id: &str,
    first: &Vec<String>,
    second: &Vec<String>,
    both: &Vec<String>,
    from_first: Vec<String>,
    from_second: Vec<String>,
    from_both: Vec<String>,
)
    requires
        both@ == first@ + second@,
        call_ensures(dial_candidates, (node_id, first), from_first),
        call_ensures(dial_candidates, (node_id, second), from_second),
        call_ensures(dial_candidates, (node_id, both), from_both),
    ensures
        from_both.deep_view() == from_first.deep_view() + from_second.deep_view(),
{
    assert(both.deep_view() =~= first.deep_view() + second.deep_view());
    lemma_dialled_in_turn(node_id@, first.deep_view(), second.deep_view());
}

/// One socket file is that of at most one peer: a listing of one name dials at most one peer.
pub proof fn law_one_name_one_peer(node_id: &str, names: &Vec<String>, peers: Vec<String>)
    requires
        names@.len() == 1,
        call_ensures(dial_candidates, (node_id, names), peers),
    ensures
        peers@.len() <= 1,
{
    let listed = names.deep_view();
    assert(listed.drop_last().len() == 0);
    assert(dialled(node_id@, listed.drop_last()).len() == 0);
    assert(peers.deep_view().len() == peers@.len());
}

/// A transport dials the peers of its directory that it is to dial; a directory that is not there has
/// none, and one that cannot be read is told as a fault.
pub proof fn law_directory_scanned(
    mesh: &UnixDomainMeshConnexon,
    node_id: &str,
    listing: Result<Vec<String>, IoFailure>,
    scanned: Result<Vec<String>, ConnexonEvent>,
    peer: &str,
    dial: bool,
)
    requires
        call_ensures(UnixDomainMeshConnexon::scan_and_connect, (mesh, listing), scanned),
        node_id@ == mesh@.node_id,
        call_ensures(should_dial, (node_id, peer), dial),
    ensures
        listing matches Ok(names) ==> (scanned matches Ok(peers) && (peers.deep_view().contains(
            peer@,
        ) <==> dial && names.deep_view().contains(peer@ + ".sock"@))),
        listing matches Err(failure) ==> (if failure.kind == IoErrorKind::NotFound {
            scanned matches Ok(peers) && peers@.len() == 0
        } else {
            scanned matches Err(ConnexonEvent::Fault { peer: on, message }) && on is None
                && message@ == "socket discovery failed: "@ + failure.message@
        }),
{
    if listing is Ok {
        lemma_dialled_members(node_id@, (listing->Ok_0).deep_view(), peer@);
    }
}

} // verus!
