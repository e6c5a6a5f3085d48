use glycoprotein::error::broken_pipe;
use glycoprotein::{GlycoError, HandlerError, IoErrorKind, IoFailure, RemoteError};
use serde_json::Value;

#[test]
fn every_error_has_its_text() {
    let qid: u128 = 0x0011_2233_4455_6677_8899_aabb_ccdd_eeff;
    let id = "00112233-4455-6677-8899-aabbccddeeff";
    let cases: Vec<(GlycoError, String)> = vec![
        (GlycoError::Io(broken_pipe("gone")), "I/O failure: gone".into()),
        (GlycoError::Json("eof".into()), "JSON failure: eof".into()),
        (GlycoError::InvalidNodeId("a/b".into()), "invalid node id 'a/b'".into()),
        (
            GlycoError::FrameTooLarge { size: 1010, limit: 0 },
            "message is too large: 1010 bytes (limit: 0)".into(),
        ),
        (GlycoError::NotStarted, "the connexon is not started".into()),
        (GlycoError::PeerNotConnected("beta".into()), "peer 'beta' is not connected".into()),
        (GlycoError::NodeAlreadyRunning("beta".into()), "node 'beta' is already running".into()),
        (
            GlycoError::FieldNotFound { node: "beta".into(), field: "add".into() },
            "field 'add' on 'beta' does not exist".into(),
        ),
        (
            GlycoError::NotAMethod { node: "beta".into(), field: "add".into() },
            "field 'add' on 'beta' is not a method".into(),
        ),
        (GlycoError::DuplicateField("add".into()), "field 'add' is already registered".into()),
        (GlycoError::SchemaGeneration("x".into()), "JSON schema generation failed: x".into()),
        (GlycoError::Validation("x".into()), "JSON schema validation failed: x".into()),
        (
            GlycoError::Timeout { qid, node: "beta".into(), field: "add".into() },
            format!("query {id} to 'beta/add' timed out"),
        ),
        (GlycoError::Cancelled(qid), format!("query {id} was cancelled")),
        (
            GlycoError::Remote(RemoteError { message: "bad".into() }),
            "remote handler failed: bad".into(),
        ),
        (GlycoError::Handler(HandlerError::new("bad")), "handler failed: bad".into()),
        (GlycoError::Task("x".into()), "background task failed: x".into()),
        (
            GlycoError::TypedJson { context: "request".into(), source: "x".into() },
            "typed JSON conversion failed for request: x".into(),
        ),
        (GlycoError::Protocol("x".into()), "invalid protocol payload: x".into()),
        (
            GlycoError::UnexpectedPayload(Value::from(vec![1, 2])),
            "unexpected reply payload: [1,2]".into(),
        ),
    ];
    for (error, text) in cases {
        assert_eq!(error.message(), text);
    }
}

#[test]
fn handler_errors_are_made_from_texts() {
    let expected = HandlerError { message: "bad".into() };
    assert_eq!(HandlerError::new("bad"), expected);
    assert_eq!(HandlerError::from("bad"), expected);
    assert_eq!(HandlerError::from(String::from("bad")), expected);
    assert_eq!(expected.clone().message(), "bad");
    let remote = RemoteError { message: "far".into() };
    assert_eq!(remote.clone(), remote);
    assert_eq!(remote.message(), "far");
}

#[test]
fn a_broken_pipe_has_its_kind_and_text() {
    let failure = broken_pipe("peer writer stopped");
    assert_eq!(failure.kind, IoErrorKind::BrokenPipe);
    assert_eq!(failure.message, "peer writer stopped");
    assert_eq!(failure.clone(), failure);
}

#[test]
fn a_failure_that_is_retold_loses_its_code_only() {
    let failure = IoFailure {
        kind: IoErrorKind::NotADirectory,
        os_code: Some(20),
        message: "Not a directory (os error 20)".into(),
    };
    assert_eq!(
        failure.retold(),
        IoFailure::new(IoErrorKind::NotADirectory, "Not a directory (os error 20)")
    );
    assert_eq!(failure.clone().os_code, Some(20));
    assert_eq!(
        GlycoError::Io(failure).message(),
        "I/O failure: Not a directory (os error 20)"
    );
}
