use glycoprotein::frame::{frame_message, read_message};
use glycoprotein::mesh::{
    DialAction, DialEvent, PeerWrite, ReadOutcome, SendPlan, SocketProbe, WriterInput,
    DEFAULT_MAX_FRAME_LENGTH,
};
use glycoprotein::{
    Beacon, ConnexonEvent, GlycoError, Glycosyl, Heartbeat, IoErrorKind, IoFailure, Query, Reply,
    UnixDomainMeshConnexon,
};
use std::path::PathBuf;

fn connexon(id: &str) -> UnixDomainMeshConnexon {
    UnixDomainMeshConnexon::with_socket_directory(id, PathBuf::from("/tmp/mesh")).unwrap()
}

fn started(id: &str) -> UnixDomainMeshConnexon {
    let mut mesh = connexon(id);
    mesh.start_blocking(Ok(())).unwrap();
    mesh
}

fn connect(mesh: &mut UnixDomainMeshConnexon, peer: &str) -> u64 {
    let connected = mesh.install_peer(peer, Ok(())).unwrap().unwrap();
    assert_eq!(connected.event, ConnexonEvent::PeerConnected(peer.into()));
    connected.generation
}

fn fault(peer: Option<&str>, message: &str) -> ConnexonEvent {
    ConnexonEvent::Fault { peer: peer.map(|peer| peer.to_string()), message: message.into() }
}

fn io(kind: IoErrorKind, message: &str) -> IoFailure {
    IoFailure::new(kind, message)
}

#[test]
fn a_transport_is_made_in_its_directory() {
    let mesh = connexon("restartable");
    assert_eq!(mesh.node_id(), "restartable");
    assert_eq!(mesh.socket_directory(), &PathBuf::from("/tmp/mesh"));
    assert_eq!(mesh.socket_path(), &PathBuf::from("/tmp/mesh/restartable.sock"));
    assert_eq!(mesh.max_frame_length(), DEFAULT_MAX_FRAME_LENGTH);
    assert!(mesh.connected_peers().is_empty());
    let default = UnixDomainMeshConnexon::new("alpha", &PathBuf::from("/tmp")).unwrap();
    assert_eq!(default.socket_path(), &PathBuf::from("/tmp/glycoprotein/alpha.sock"));
}

#[test]
fn bad_ids_and_overlong_paths_are_refused() {
    let directory = PathBuf::from("/tmp/mesh");
    let bad = UnixDomainMeshConnexon::with_socket_directory("a/b", directory.clone());
    assert_eq!(bad.err(), Some(GlycoError::InvalidNodeId("a/b".into())));
    let long = "x".repeat(300);
    match UnixDomainMeshConnexon::with_socket_directory(&long, directory.clone()).err() {
        Some(GlycoError::Io(failure)) => assert_eq!(failure.kind, IoErrorKind::InvalidInput),
        other => panic!("{other:?}"),
    }
    let refused =
        UnixDomainMeshConnexon::with_checked_address("a", directory, Err("too long".into()));
    assert_eq!(
        refused.err(),
        Some(GlycoError::Io(io(IoErrorKind::InvalidInput, "too long")))
    );
}

#[test]
fn nothing_is_sent_before_the_start() {
    let mesh = connexon("alpha");
    let heartbeat = Glycosyl::Heartbeat(Heartbeat { id: "alpha".into() });
    assert_eq!(mesh.send(&heartbeat).err(), Some(GlycoError::NotStarted));
    assert_eq!(mesh.ensure_started(), Err(GlycoError::NotStarted));
}

#[test]
fn messages_are_routed_by_their_receiver() {
    let mut mesh = started("alpha");
    let zeta = connect(&mut mesh, "zeta");
    let beta = connect(&mut mesh, "beta");

    let heartbeat = Glycosyl::Heartbeat(Heartbeat { id: "alpha".into() });
    match mesh.send(&heartbeat).unwrap() {
        SendPlan::Broadcast { frame, peers } => {
            let bytes = heartbeat.to_bytes().unwrap();
            assert_eq!(frame, frame_message(&bytes, 1000).unwrap());
            assert_eq!(peers, vec![("beta".to_string(), beta), ("zeta".to_string(), zeta)]);
        }
        other => panic!("{other:?}"),
    }

    let query = Glycosyl::Query(Query::new("zeta", "alpha", "ping", None));
    match mesh.send(&query).unwrap() {
        SendPlan::Unicast { peer, generation, frame } => {
            assert_eq!((peer.as_str(), generation), ("zeta", zeta));
            assert_eq!(&frame[4..], &query.to_bytes().unwrap()[..]);
        }
        other => panic!("{other:?}"),
    }

    let own = Glycosyl::Query(Query::new("alpha", "alpha", "ping", None));
    let plan = mesh.send(&own).unwrap();
    assert!(matches!(plan, SendPlan::Loopback));
    assert!(plan.delivers_locally());

    let lost = Glycosyl::Query(Query::new("gone", "alpha", "ping", None));
    assert_eq!(mesh.send(&lost).err(), Some(GlycoError::PeerNotConnected("gone".into())));

    let reply = Reply { payload: None, qid: 1, target_gid: None, error: None };
    let plan = mesh.send(&Glycosyl::Reply(reply)).unwrap();
    assert!(matches!(plan, SendPlan::Broadcast { .. }));
    assert!(plan.delivers_locally());
}

#[test]
fn oversized_payloads_are_not_sent() {
    let mesh = started("alpha");
    let payload = vec![0u8; DEFAULT_MAX_FRAME_LENGTH + 1];
    assert_eq!(
        mesh.send_framed(&payload, Some("alpha")).err(),
        Some(GlycoError::FrameTooLarge {
            size: DEFAULT_MAX_FRAME_LENGTH + 1,
            limit: DEFAULT_MAX_FRAME_LENGTH,
        })
    );
}

#[test]
fn peers_are_taken_in_once() {
    let mut mesh = started("alpha");
    let first = connect(&mut mesh, "beta");
    assert_eq!(first, 1);
    assert!(mesh.install_peer("beta", Ok(())).unwrap().is_none());
    let other = connect(&mut mesh, "gamma");
    assert_eq!(other, 3);
    assert_eq!(mesh.connected_peers(), vec!["beta", "gamma"]);
    assert_eq!(
        mesh.install_peer("alpha", Ok(())).err(),
        Some(GlycoError::Protocol("peer claimed the local node id".into()))
    );
    assert_eq!(
        mesh.install_peer("a:b", Ok(())).err(),
        Some(GlycoError::InvalidNodeId("a:b".into()))
    );
    let failure = io(IoErrorKind::NotConnected, "gone");
    assert_eq!(
        mesh.install_peer("delta", Err(failure.clone())).err(),
        Some(GlycoError::Io(failure))
    );
    assert_eq!(mesh.connected_peers(), vec!["beta", "gamma"]);
}

#[test]
fn the_end_of_an_older_connection_is_ignored() {
    let mut mesh = started("alpha");
    let old = connect(&mut mesh, "beta");
    assert_eq!(
        mesh.disconnect_peer("beta", old),
        Some(ConnexonEvent::PeerDisconnected("beta".into()))
    );
    assert_eq!(mesh.disconnect_peer("beta", old), None);
    let new = connect(&mut mesh, "beta");
    assert!(new > old);
    assert_eq!(mesh.disconnect_peer("beta", old), None);
    assert_eq!(mesh.connected_peers(), vec!["beta"]);
    assert!(mesh.disconnect_peer("beta", new).is_some());
    assert!(mesh.connected_peers().is_empty());
}

#[test]
fn a_failed_write_to_one_peer_disconnects_it() {
    let mut mesh = started("alpha");
    let beta = connect(&mut mesh, "beta");
    let (outcome, event) = mesh.write_to_peer("beta", beta, PeerWrite::Written);
    assert_eq!((outcome, event), (Ok(()), None));

    let closed = io(IoErrorKind::BrokenPipe, "peer is closed");
    let (outcome, event) = mesh.write_to_peer("beta", beta, PeerWrite::NotQueued(closed.clone()));
    assert_eq!((outcome, event), (Err(GlycoError::Io(closed)), None));
    assert_eq!(mesh.connected_peers(), vec!["beta"]);

    let (outcome, event) = mesh.write_to_peer("beta", beta, PeerWrite::Abandoned);
    let stopped = io(IoErrorKind::BrokenPipe, "peer writer stopped");
    assert_eq!(outcome, Err(GlycoError::Io(stopped)));
    assert_eq!(event, Some(ConnexonEvent::PeerDisconnected("beta".into())));

    let failure = io(IoErrorKind::TimedOut, "slow");
    let (outcome, event) = mesh.write_to_peer("beta", beta, PeerWrite::Failed(failure.clone()));
    assert_eq!((outcome, event), (Err(GlycoError::Io(failure)), None));
}

#[test]
fn a_broadcast_survives_failing_peers() {
    let mut mesh = started("alpha");
    let beta = connect(&mut mesh, "beta");
    let gamma = connect(&mut mesh, "gamma");
    let (outcome, events) =
        mesh.broadcast_to_peer("beta", beta, PeerWrite::Failed(io(IoErrorKind::BrokenPipe, "gone")));
    assert_eq!(outcome, Ok(()));
    assert_eq!(
        events,
        vec![
            fault(Some("beta"), "broadcast write failed: gone"),
            ConnexonEvent::PeerDisconnected("beta".into()),
        ]
    );
    let (outcome, events) =
        mesh.broadcast_to_peer("beta", beta, PeerWrite::NotQueued(io(IoErrorKind::BrokenPipe, "x")));
    assert_eq!(outcome, Ok(()));
    assert_eq!(events, vec![fault(Some("beta"), "broadcast write failed: x")]);
    let (outcome, events) = mesh.broadcast_to_peer("gamma", gamma, PeerWrite::Written);
    assert_eq!((outcome, events.len()), (Ok(()), 0));
    let (outcome, events) = mesh.broadcast_to_peer("gamma", gamma, PeerWrite::Abandoned);
    let stopped = io(IoErrorKind::BrokenPipe, "peer writer stopped");
    assert_eq!((outcome, events.len()), (Err(GlycoError::Io(stopped)), 0));
    assert_eq!(mesh.connected_peers(), vec!["gamma"]);
}

fn requested(cancelled: bool) -> DialEvent {
    DialEvent::Requested { cancelled }
}

fn handshake_of(mesh: &UnixDomainMeshConnexon) -> Vec<u8> {
    match mesh.connect_to_peer("zzz", DialEvent::Connected) {
        DialAction::WriteHandshake(frame) => frame,
        other => panic!("{other:?}"),
    }
}

fn told(mesh: &UnixDomainMeshConnexon, event: DialEvent) -> ConnexonEvent {
    match mesh.connect_to_peer("beta", event) {
        DialAction::Report(fault) => fault,
        other => panic!("{other:?}"),
    }
}

#[test]
fn dialling_uses_the_peers_socket_and_names_the_node() {
    let mut mesh = started("alpha");
    match mesh.connect_to_peer("beta", requested(false)) {
        DialAction::Connect(path) => assert_eq!(path, PathBuf::from("/tmp/mesh/beta.sock")),
        other => panic!("{other:?}"),
    }
    assert_eq!(handshake_of(&mesh), frame_message(b"alpha", 4096).unwrap());
    assert!(matches!(mesh.connect_to_peer("beta", requested(true)), DialAction::Done));
    connect(&mut mesh, "beta");
    assert!(matches!(mesh.connect_to_peer("beta", requested(false)), DialAction::Done));
}

#[test]
fn a_dialled_peer_is_taken_in_only_after_the_handshake() {
    let mut mesh = started("alpha");
    assert!(matches!(
        mesh.connect_to_peer("beta", DialEvent::Connected),
        DialAction::WriteHandshake(_)
    ));
    assert!(mesh.connected_peers().is_empty());
    assert!(matches!(
        mesh.connect_to_peer("beta", DialEvent::HandshakeWritten(Ok(()))),
        DialAction::TakeIn
    ));
    let taken = mesh.install_peer("beta", Ok(())).map(|_| ());
    assert!(matches!(mesh.connect_to_peer("beta", DialEvent::TakenIn(taken)), DialAction::Done));
    assert_eq!(mesh.connected_peers(), vec!["beta"]);
    let cut = DialEvent::HandshakeWritten(Err("cut".into()));
    assert_eq!(told(&mesh, cut), fault(Some("beta"), "handshake failed: cut"));
}

#[test]
fn an_overlong_id_makes_no_handshake() {
    let id = "x".repeat(4097);
    let mesh =
        UnixDomainMeshConnexon::with_checked_address(&id, PathBuf::from("/tmp"), Ok(())).unwrap();
    assert_eq!(mesh.handshake(), Err(GlycoError::FrameTooLarge { size: 4097, limit: 4096 }));
}

#[test]
fn failed_dials_are_told_unless_nobody_answered() {
    let mesh = started("alpha");
    assert!(matches!(mesh.connect_to_peer("beta", DialEvent::Refused), DialAction::Done));
    let failed = DialEvent::SocketFailed("no".into());
    assert_eq!(told(&mesh, failed), fault(Some("beta"), "no"));
    let failed = DialEvent::AddressFailed("long".into());
    assert_eq!(told(&mesh, failed), fault(Some("beta"), "long"));
    let failed = DialEvent::TakenIn(Err(GlycoError::InvalidNodeId("a:b".into())));
    assert_eq!(told(&mesh, failed), fault(Some("beta"), "invalid node id 'a:b'"));
    let id = "x".repeat(5000);
    let overlong =
        UnixDomainMeshConnexon::with_checked_address(&id, PathBuf::from("/tmp"), Ok(())).unwrap();
    assert_eq!(
        told(&overlong, DialEvent::Connected),
        fault(Some("beta"), "message is too large: 5000 bytes (limit: 4096)")
    );
}

#[test]
fn a_writer_goes_on_until_it_is_stopped_or_fails() {
    assert!(WriterInput::Idle.goes_on());
    assert!(WriterInput::Written(Ok(())).goes_on());
    assert!(!WriterInput::Cancelled.goes_on());
    assert!(!WriterInput::Disconnected.goes_on());
    assert!(!WriterInput::Written(Err(io(IoErrorKind::BrokenPipe, "gone"))).goes_on());
}

#[test]
fn handshakes_name_the_peer() {
    assert_eq!(
        UnixDomainMeshConnexon::handle_incoming(Ok("节点".as_bytes().to_vec())),
        Ok("节点".to_string())
    );
    let failure = io(IoErrorKind::TimedOut, "slow");
    assert_eq!(
        UnixDomainMeshConnexon::handle_incoming(Err(failure)),
        Err(fault(None, "invalid peer handshake: slow"))
    );
    match UnixDomainMeshConnexon::handle_incoming(Ok(vec![b'a', 0xff])) {
        Err(ConnexonEvent::Fault { peer: None, message }) => {
            let reason = String::from_utf8(vec![b'a', 0xff]).unwrap_err().to_string();
            assert_eq!(message, format!("peer id is not UTF-8: {reason}"));
        }
        other => panic!("{other:?}"),
    }
}

#[test]
fn directories_are_scanned_for_peers_to_dial() {
    let mesh = started("beta");
    let names: Vec<String> = vec!["gamma.sock".into(), "alpha.sock".into(), "beta.sock".into()];
    assert_eq!(mesh.scan_and_connect(Ok(names)), Ok(vec!["gamma".to_string()]));
    assert_eq!(mesh.scan_and_connect(Err(io(IoErrorKind::NotFound, "gone"))), Ok(vec![]));
    assert_eq!(
        mesh.scan_and_connect(Err(io(IoErrorKind::PermissionDenied, "no"))),
        Err(fault(None, "socket discovery failed: no"))
    );
}

#[test]
fn readers_pass_messages_on_and_end_with_the_connection() {
    let mut mesh = started("alpha");
    let beta = connect(&mut mesh, "beta");
    let message = Glycosyl::Beacon(Beacon::new("beta", vec![]));
    let step = mesh.reader_step("beta", beta, ReadOutcome::Message(message.clone()), false);
    assert_eq!((step.events, step.go_on), (vec![ConnexonEvent::Message(message)], true));

    let step = mesh.reader_step("beta", beta, ReadOutcome::Malformed("bad".into()), false);
    assert_eq!(step.events, vec![fault(Some("beta"), "invalid JSON message ignored: bad")]);
    assert!(step.go_on);

    let failed = || ReadOutcome::Failed(io(IoErrorKind::UnexpectedEof, "eof"));
    let step = mesh.reader_step("beta", beta, failed(), false);
    assert_eq!(
        step.events,
        vec![
            fault(Some("beta"), "read failed: eof"),
            ConnexonEvent::PeerDisconnected("beta".into()),
        ]
    );
    assert!(!step.go_on);

    let again = connect(&mut mesh, "beta");
    let step = mesh.reader_step("beta", again, failed(), true);
    assert_eq!(step.events, vec![ConnexonEvent::PeerDisconnected("beta".into())]);
    let step = mesh.reader_step("beta", again, failed(), true);
    assert_eq!((step.events.len(), step.go_on), (0, false));
}

#[test]
fn writers_end_with_a_failed_write() {
    let mut mesh = started("alpha");
    let beta = connect(&mut mesh, "beta");
    for (input, go_on) in [
        (WriterInput::Idle, true),
        (WriterInput::Written(Ok(())), true),
        (WriterInput::Cancelled, false),
        (WriterInput::Disconnected, false),
    ] {
        let step = mesh.writer_step("beta", beta, &input);
        assert_eq!((step.events.len(), step.go_on), (0, go_on));
    }
    let failed = WriterInput::Written(Err(io(IoErrorKind::BrokenPipe, "gone")));
    let step = mesh.writer_step("beta", beta, &failed);
    assert_eq!(
        step.events,
        vec![
            fault(Some("beta"), "write failed: gone"),
            ConnexonEvent::PeerDisconnected("beta".into()),
        ]
    );
    assert!(!step.go_on);
}

#[test]
fn a_leftover_socket_is_removed_and_a_live_one_respected() {
    let mesh = connexon("alpha");
    assert_eq!(mesh.remove_stale_socket(SocketProbe::Absent), Ok(false));
    assert_eq!(mesh.remove_stale_socket(SocketProbe::Silent), Ok(true));
    assert_eq!(
        mesh.remove_stale_socket(SocketProbe::Answered),
        Err(GlycoError::NodeAlreadyRunning("alpha".into()))
    );
    let failure = io(IoErrorKind::Other, "no socket");
    assert_eq!(
        mesh.remove_stale_socket(SocketProbe::NoSocket(failure.clone())),
        Err(GlycoError::Io(failure))
    );
}

#[test]
fn a_transport_can_be_started_and_stopped_again() {
    let mut mesh = connexon("restartable");
    assert!(mesh.stop_blocking().is_none());
    assert_eq!(
        mesh.start_blocking(Err(GlycoError::NodeAlreadyRunning("restartable".into()))),
        Err(GlycoError::NodeAlreadyRunning("restartable".into()))
    );
    assert_eq!(mesh.ensure_started(), Err(GlycoError::NotStarted));
    assert_eq!(mesh.start_blocking(Ok(())), Ok(()));
    assert_eq!(mesh.start_blocking(Err(GlycoError::NotStarted)), Ok(()));
    let zeta = connect(&mut mesh, "zeta");
    let beta = connect(&mut mesh, "beta");
    assert_eq!(
        mesh.stop_blocking(),
        Some(vec![("beta".to_string(), beta), ("zeta".to_string(), zeta)])
    );
    assert!(mesh.connected_peers().is_empty());
    assert_eq!(mesh.start_blocking(Ok(())), Ok(()));
    assert!(connect(&mut mesh, "beta") > beta);
    assert_eq!(mesh.cancel_without_joining().len(), 1);
    assert_eq!(mesh.ensure_started(), Err(GlycoError::NotStarted));
}

#[test]
fn a_socket_file_that_is_gone_does_not_fail_the_stop() {
    assert_eq!(UnixDomainMeshConnexon::stop_outcome(Ok(())), Ok(()));
    let gone = io(IoErrorKind::NotFound, "gone");
    assert_eq!(UnixDomainMeshConnexon::stop_outcome(Err(gone)), Ok(()));
    let denied = io(IoErrorKind::PermissionDenied, "no");
    assert_eq!(
        UnixDomainMeshConnexon::stop_outcome(Err(denied.clone())),
        Err(GlycoError::Io(denied))
    );
}

#[test]
fn the_peer_that_is_dialled_learns_who_dials() {
    for id in ["alpha", "节点-1", "a b"] {
        let mesh = started(id);
        let handshake = handshake_of(&mesh);
        let (bytes, taken) = read_message(&handshake, 4096).unwrap();
        assert_eq!(taken, handshake.len());
        assert_eq!(UnixDomainMeshConnexon::handle_incoming(Ok(bytes)), Ok(id.to_string()));
    }
}

#[test]
fn peers_never_hold_the_own_or_an_invalid_id() {
    let mut mesh = started("m");
    for id in ["m", "", "..", "b", "x/y", "a", "b"] {
        let _ = mesh.install_peer(id, Ok(()));
    }
    assert_eq!(mesh.connected_peers(), vec!["a", "b"]);
}
