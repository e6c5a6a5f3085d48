//! Node ids: which are allowed, how they are ordered, and the socket files that carry them.
use crate::error::GlycoError;
use crate::text::{law_utf16_order_total, same_text, units_before, utf16_less, utf16_units};
use std::cmp::Ordering;
use vstd::prelude::*;
use vstd::string::*;

verus! {

/// A control character of Unicode.
pub open spec fn is_control(c: char) -> bool {
    let code = c as u32;
    code <= 0x1F || 0x7F <= code <= 0x9F
}

/// A character that file systems do not allow in a name.
pub open spec fn is_reserved(c: char) -> bool {
    c == '<' || c == '>' || c == ':' || c == '"' || c == '/' || c == '\\' || c == '|' || c == '?'
        || c == '*'
}

/// A node id that can be the name of a file: not empty, not a directory's own or parent entry, and
/// free of control and reserved characters.
pub open spec fn valid_node_id(id: Seq<char>) -> bool {
    &&& id.len() > 0
    &&& id != "."@
    &&& id != ".."@
    &&& forall|i: int| 0 <= i < id.len() ==> !is_control(#[trigger] id[i]) && !is_reserved(id[i])
}

fn is_forbidden(c: char) -> (forbidden: bool)
    ensures
        forbidden == (is_control(c) || is_reserved(c)),
{
    let code: u32 = c as u32;
    code <= 0x1F || (0x7F <= code && code <= 0x9F) || c == '<' || c == '>' || c == ':' || c == '"'
        || c == '/' || c == '\\' || c == '|' || c == '?' || c == '*'
}

/// Refuses a node id that cannot be the name of a file.
pub fn validate_node_id(node_id: &str) -> (verdict: Result<(), GlycoError>)
    ensures
        match verdict {
            Ok(_) => valid_node_id(node_id@),
            Err(error) => !valid_node_id(node_id@) && (error matches GlycoError::InvalidNodeId(id)
                && id@ == node_id@),
        },
{
    let mut forbidden = false;
    let mut empty = true;
    for c in iter: node_id.chars()
        invariant
            iter.seq() == node_id@,
            empty == (iter.index() == 0),
            forbidden == exists|i: int|
                0 <= i < iter.index() && (is_control(#[trigger] node_id@[i]) || is_reserved(
                    node_id@[i],
                )),
    {
        assert(c == node_id@[iter.index() as int]);
        empty = false;
        if is_forbidden(c) {
            forbidden = true;
        }
    }
    if empty || forbidden || same_text(node_id, ".") || same_text(node_id, "..") {
        Err(GlycoError::InvalidNodeId(node_id.to_owned()))
    } else {
        Ok(())
    }
}

/// Compares two texts by their UTF-16 code units.
pub fn dotnet_ordinal_cmp(left: &str, right: &str) -> (order: Ordering)
    ensures
        match order {
            Ordering::Less => utf16_less(left@, right@),
            Ordering::Equal => left@ == right@,
            Ordering::Greater => utf16_less(right@, left@),
        },
{
    let l = utf16_units(left);
    let r = utf16_units(right);
    proof {
        law_utf16_order_total(left@, right@);
    }
    if units_before(&l, &r) {
        Ordering::Less
    } else if units_before(&r, &l) {
        Ordering::Greater
    } else {
        Ordering::Equal
    }
}

/// The name of the socket file of a node.
pub open spec fn socket_name(node_id: Seq<char>) -> Seq<char> {
    node_id + ".sock"@
}

/// The node whose socket file has the given name; none where the name is not that of a socket file.
pub open spec fn node_of_socket(name: Seq<char>) -> Option<Seq<char>> {
    if name.len() > ".sock"@.len() && name.skip(name.len() - ".sock"@.len()) == ".sock"@ {
        Some(name.take(name.len() - ".sock"@.len()))
    } else {
        None
    }
}

/// The name of the socket file of a node.
pub fn socket_file_name(node_id: &str) -> (name: String)
    ensures
        name@ == socket_name(node_id@),
{
    let mut name = node_id.to_owned();
    name.append(".sock");
    name
}

/// The node whose socket file has the given name.
pub fn node_of_socket_file(name: &str) -> (node: Option<&str>)
    ensures
        match node {
            Some(node) => node_of_socket(name@) == Some(node@),
            None => node_of_socket(name@) is None,
        },
{
    proof {
        reveal_strlit(".sock");
    }
    let length: usize = name.unicode_len();
    if length <= 5 {
        return None;
    }
    let suffix = name.substring_char(length - 5, length);
    assert(suffix@ =~= name@.skip(length - 5));
    if same_text(suffix, ".sock") {
        let node = name.substring_char(0, length - 5);
        assert(node@ =~= name@.take(length - 5));
        Some(node)
    } else {
        None
    }
}

/// Whether a node is the one of the two that opens the connection to `peer`.
pub open spec fn dials(node_id: Seq<char>, peer: Seq<char>) -> bool {
    peer != node_id && !utf16_less(peer, node_id) && valid_node_id(peer)
}

/// Whether a node is the one of the two that opens the connection to `peer`: the smaller id dials
/// the larger one. An id that is not valid is never dialled.
pub fn should_dial(node_id: &str, peer: &str) -> (dial: bool)
    ensures
        dial == dials(node_id@, peer@),
{
    if same_text(peer, node_id) {
        return false;
    }
    proof {
        law_utf16_order_total(node_id@, peer@);
    }
    match dotnet_ordinal_cmp(node_id, peer) {
        Ordering::Greater => false,
        _ => validate_node_id(peer).is_ok(),
    }
}

/// The peers to dial among the socket files of a directory, in the order of the listing.
pub open spec fn dialled(node_id: Seq<char>, names: Seq<Seq<char>>) -> Seq<Seq<char>>
    decreases names.len(),
{
    if names.len() == 0 {
        seq![]
    } else {
        let before = dialled(node_id, names.drop_last());
        match node_of_socket(names.last()) {
            Some(peer) if dials(node_id, peer) => before.push(peer),
            _ => before,
        }
    }
}

/// The peers to dial among the socket files of a directory, in the order of the listing.
pub fn dial_candidates(node_id: &str, names: &Vec<String>) -> (peers: Vec<String>)
    ensures
        peers.deep_view() == dialled(node_id@, names.deep_view()),
{
    let mut peers: Vec<String> = Vec::new();
    let mut i: usize = 0;
    assert(peers.deep_view() =~= dialled(node_id@, names.deep_view().take(0)));
    while i < names.len()
        invariant
            i <= names@.len(),
            peers.deep_view() == dialled(node_id@, names.deep_view().take(i as int)),
        decreases names@.len() - i,
    {
        proof {
            let taken = names.deep_view().take(i + 1);
            assert(taken.drop_last() =~= names.deep_view().take(i as int));
            assert(taken.last() == names@[i as int]@);
        }
        let ghost before = peers.deep_view();
        match node_of_socket_file(names[i].as_str()) {
            Some(peer) => {
                if should_dial(node_id, peer) {
                    let ghost listed = peers@;
                    peers.push(peer.to_owned());
                    assert(peers.deep_view() =~= before.push(peer@));
                }
            },
            None => {},
        }
        i = i + 1;
    }
    assert(names.deep_view().take(names@.len() as int) =~= names.deep_view());
    peers
}

/// The id of a node is read back from the name of its socket file.
pub proof fn law_socket_name_read_back(node_id: Seq<char>)
    requires
        valid_node_id(node_id),
    ensures
        node_of_socket(socket_name(node_id)) == Some(node_id),
{
    reveal_strlit(".sock");
    let name = socket_name(node_id);
    assert(name.skip(name.len() - 5) =~= ".sock"@);
    assert(name.take(name.len() - 5) =~= node_id);
}

/// Of two different nodes exactly one dials the other.
pub proof fn law_one_side_dials(a: Seq<char>, b: Seq<char>)
    requires
        valid_node_id(a),
        valid_node_id(b),
        a != b,
    ensures
        dials(a, b) <==> !dials(b, a),
{
    law_utf16_order_total(a, b);
}

} // verus!
