use glycoprotein::identity::{
    dial_candidates, dotnet_ordinal_cmp, node_of_socket_file, should_dial, socket_file_name,
    validate_node_id,
};
use glycoprotein::GlycoError;
use std::cmp::Ordering;

#[test]
fn rejects_unsafe_node_ids() {
    for id in ["", ".", "..", "a/b", "a\\b", "a:b", "bad\nname"] {
        assert!(validate_node_id(id).is_err(), "{id:?} should be rejected");
    }
    assert!(validate_node_id("节点-alpha_1.2").is_ok());
}

#[test]
fn ordinal_comparison_matches_ascii_and_utf16_order() {
    assert_eq!(dotnet_ordinal_cmp("alpha", "beta"), Ordering::Less);
    assert_eq!(dotnet_ordinal_cmp("beta", "alpha"), Ordering::Greater);
    assert_eq!(dotnet_ordinal_cmp("same", "same"), Ordering::Equal);
}

#[test]
fn surrogates_sort_below_the_last_characters_of_the_basic_plane() {
    // As scalar values U+FFFD < U+1F600; as UTF-16 the surrogate 0xD83D < 0xFFFD.
    assert_eq!(dotnet_ordinal_cmp("\u{1F600}", "\u{FFFD}"), Ordering::Less);
    assert_eq!("\u{1F600}".cmp("\u{FFFD}"), Ordering::Greater);
    assert_eq!(dotnet_ordinal_cmp("a", "ab"), Ordering::Less);
    assert_eq!(dotnet_ordinal_cmp("\u{1F600}", "\u{1F601}"), Ordering::Less);
}

#[test]
fn every_forbidden_character_is_rejected_with_the_id() {
    for c in "<>:\"/\\|?*\u{0}\u{1f}\u{7f}\u{85}\u{9f}".chars() {
        let id = format!("a{c}b");
        assert_eq!(validate_node_id(&id), Err(GlycoError::InvalidNodeId(id.clone())));
    }
    for id in ["a b", "...", "\u{a0}", ".a", "a.", "~"] {
        assert!(validate_node_id(id).is_ok(), "{id:?} should be accepted");
    }
}

#[test]
fn socket_names_are_read_back() {
    for id in ["alpha", "a.sock", "节点", "..."] {
        let name = socket_file_name(id);
        assert_eq!(name, format!("{id}.sock"));
        assert_eq!(node_of_socket_file(&name), Some(id));
    }
    for name in ["", ".sock", "alpha", "alpha.soc", "alpha.sock2", "sock"] {
        assert_eq!(node_of_socket_file(name), None, "{name:?}");
    }
}

#[test]
fn exactly_one_of_two_nodes_dials() {
    for (a, b) in [("alpha", "beta"), ("a", "ab"), ("\u{1F600}", "\u{FFFD}"), ("节", "z")] {
        assert_ne!(should_dial(a, b), should_dial(b, a));
    }
    assert!(should_dial("alpha", "beta"));
    assert!(!should_dial("alpha", "alpha"));
    assert!(!should_dial("alpha", "b/c"));
}

#[test]
fn only_larger_valid_peers_are_candidates_in_listing_order() {
    let names: Vec<String> =
        ["zeta.sock", "beta.txt", "alpha.sock", "mid.sock", ".sock", "gamma.sock", "..sock", "m:x.sock"]
            .iter()
            .map(|name| name.to_string())
            .collect();
    assert_eq!(dial_candidates("beta", &names), vec!["zeta", "mid", "gamma"]);
    assert!(dial_candidates("zzz", &names).is_empty());
}

#[test]
fn ordinal_comparison_is_transitive() {
    let ordered = ["", "A", "a", "ab", "b", "\u{d7ff}", "\u{10000}", "\u{10FFFF}", "\u{e000}"];
    for i in 0..ordered.len() {
        for j in 0..ordered.len() {
            assert_eq!(dotnet_ordinal_cmp(ordered[i], ordered[j]), i.cmp(&j));
        }
    }
}
