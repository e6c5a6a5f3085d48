use glycoprotein::error::broken_pipe;
use glycoprotein::workers::{
    accept_step, sleep_slice, spawn_fault, writer_stopped, AcceptAction, AcceptOutcome, PeerLink,
    INTERRUPT_POLL_MILLIS,
};
use glycoprotein::{ConnexonEvent, IoErrorKind};
use std::time::Duration;

#[test]
fn a_closed_link_takes_nothing_and_is_closed_once() {
    let mut link = PeerLink::new();
    assert_eq!(link.enqueue(true), Ok(()));
    assert_eq!(link.enqueue(false), Err(broken_pipe("peer writer stopped")));
    assert_eq!(link.ensure_open(), Ok(()));
    assert!(link.shutdown());
    assert_eq!(link.ensure_open(), Err(broken_pipe("peer is closed")));
    assert!(!link.shutdown());
    assert_eq!(link.enqueue(true), Err(broken_pipe("peer is closed")));
    assert_eq!(writer_stopped().kind, IoErrorKind::BrokenPipe);
}

#[test]
fn accepting_pauses_and_reports() {
    assert!(matches!(accept_step(AcceptOutcome::Connection, true), AcceptAction::Handle));
    assert!(matches!(accept_step(AcceptOutcome::WouldBlock, false), AcceptAction::Pause));
    assert!(matches!(accept_step(AcceptOutcome::Failed("x".into()), true), AcceptAction::Nothing));
    match accept_step(AcceptOutcome::Failed("x".into()), false) {
        AcceptAction::Report(event) => assert_eq!(
            event,
            ConnexonEvent::Fault { peer: None, message: "accept failed: x".into() }
        ),
        other => panic!("{other:?}"),
    }
    assert_eq!(
        spawn_fault("no threads"),
        ConnexonEvent::Fault {
            peer: None,
            message: "could not spawn handshake worker: no threads".into(),
        }
    );
}

#[test]
fn sleep_is_cut_into_slices() {
    let poll = INTERRUPT_POLL_MILLIS * 1_000_000;
    assert_eq!(poll, 25_000_000);
    let slice = |whole, gone| sleep_slice(Duration::from_nanos(whole), Duration::from_nanos(gone));
    assert_eq!(slice(2_000_000_000, 0), Some(poll));
    assert_eq!(slice(2_000_000_000, 1_990_000_000), Some(10_000_000));
    assert_eq!(slice(2_000_000_000, 1_975_000_000), Some(poll));
    assert_eq!(slice(2_000_000_000, 2_000_000_000), None);
    assert_eq!(slice(1, 5), None);
    assert_eq!(sleep_slice(Duration::MAX, Duration::ZERO), Some(poll));
}
