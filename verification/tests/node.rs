use glycoprotein::node::{
    DispatchAction, DispatchInput, QueryStep, StartAction, StartEvent, StopAction, StopEvent,
};
use glycoprotein::schedule::{BeaconDue, BeaconSchedule, BeaconTrigger};
use glycoprotein::{
    Beacon, CallOptions, CallOutcome, ConnexonEvent, Event, EventField, Field, GlycoComplex,
    GlycoError, Glycosyl, HandlerError, Heartbeat, IoErrorKind, MethodField, PresenterEvent, Query,
    RemoteError, Reply,
};
use serde_json::Value;
use std::any::TypeId;
use std::path::PathBuf;
use std::time::Duration;
use tokio_util::sync::CancellationToken;

const SECOND: u128 = 1_000_000_000;

fn json(text: &str) -> Value {
    serde_json::from_str(text).unwrap()
}

fn node(id: &str) -> GlycoComplex {
    GlycoComplex::builder(id).connexon(id).build(&PathBuf::from("/tmp")).unwrap().0
}

fn started(id: &str) -> GlycoComplex {
    let mut node = node(id);
    node.start(StartEvent::TransportStarted(Ok(())));
    node
}

fn learn(node: &mut GlycoComplex, beacon: Beacon) -> DispatchAction {
    node.dispatch_message(Glycosyl::Beacon(beacon), 0)
}

fn integer() -> Value {
    json("{\"type\":\"integer\"}")
}

fn knows_beta() -> GlycoComplex {
    let mut alpha = started("alpha");
    let fields = vec![
        Field::Method(MethodField::new("add").query_schema(integer())),
        Field::Event(EventField::new("done")),
        Field::Method(MethodField::new("ping")),
    ];
    learn(&mut alpha, Beacon::new("beta", fields));
    alpha
}

fn ids(beacon: &Beacon) -> Vec<String> {
    beacon.fields.iter().map(|field| field.id().to_string()).collect()
}

#[test]
fn builders_make_nodes() {
    let node = GlycoComplex::builder("alpha")
        .vendor("Rust integration test")
        .connexon("alpha")
        .query_timeout(None)
        .loopback_presenter(false)
        .build(&PathBuf::from("/tmp"))
        .unwrap()
        .0;
    assert_eq!(node.id(), "alpha");
    assert_eq!(node.vendor().as_deref(), Some("Rust integration test"));
    assert_eq!(node.query_timeout(), None);
    assert!(!node.loopback_presenter());
    assert!(!node.is_started());
    assert!(node.presenters().is_empty());
    assert_eq!(node.beacon_revision(), 0);
}

#[test]
fn nodes_without_a_transport_get_one() {
    let (node, own) = GlycoComplex::new("alpha", &PathBuf::from("/tmp")).unwrap();
    assert_eq!(node.query_timeout(), Some(Duration::from_secs(30)));
    assert!(node.loopback_presenter());
    assert_eq!(own.unwrap().socket_path(), &PathBuf::from("/tmp/glycoprotein/alpha.sock"));
    assert_eq!(
        GlycoComplex::new("a/b", &PathBuf::from("/tmp")).err(),
        Some(GlycoError::InvalidNodeId("a/b".into()))
    );
    match GlycoComplex::new(&"x".repeat(300), &PathBuf::from("/tmp")).err() {
        Some(GlycoError::Io(failure)) => assert_eq!(failure.kind, IoErrorKind::InvalidInput),
        other => panic!("{other:?}"),
    }
}

#[test]
fn a_transport_with_another_id_is_refused() {
    let built = GlycoComplex::builder("alpha").connexon("beta").build(&PathBuf::from("/tmp"));
    assert_eq!(
        built.err(),
        Some(GlycoError::InvalidNodeId(
            "builder id 'alpha' does not match connexon id 'beta'".into()
        ))
    );
}

#[test]
fn field_ids_are_unique_across_methods_and_events() {
    let mut node = node("alpha");
    assert_eq!(node.register_action(MethodField::new("a"), 1), Ok(()));
    assert_eq!(node.register_signal(EventField::new("b")), Ok(()));
    assert_eq!(node.beacon_revision(), 2);
    let duplicate = |id: &str| Err(GlycoError::DuplicateField(id.into()));
    assert_eq!(node.register_raw_function(MethodField::new("a"), 2), duplicate("a"));
    assert_eq!(node.register_raw_function(MethodField::new("b"), 2), duplicate("b"));
    assert_eq!(node.register_signal(EventField::new("a")), duplicate("a"));
    assert_eq!(node.register_signal(EventField::new("b")), duplicate("b"));
    assert_eq!(node.beacon_revision(), 2);
    assert_eq!(node.method_handler("a"), Some(1));
    assert_eq!(node.method_handler("b"), None);
    assert!(node.remove_field("a"));
    assert!(!node.remove_field("a"));
    assert_eq!(node.method_handler("a"), None);
    assert_eq!(node.beacon_revision(), 3);
    assert_eq!(node.register_signal(EventField::new("a")), Ok(()));
    assert_eq!(ids(&node.build_beacon()), vec!["a", "b"]);
}

#[test]
fn beacons_list_the_fields_in_order() {
    let mut node = node("alpha");
    node.set_vendor(Some("v".into()));
    for id in ["m", "a", "节", "Z"] {
        node.register_action(MethodField::new(id), 1).unwrap();
    }
    for id in ["z", "b"] {
        node.register_signal(EventField::new(id)).unwrap();
    }
    let beacon = node.build_beacon();
    assert_eq!(ids(&beacon), vec!["Z", "a", "b", "m", "z", "节"]);
    assert_eq!(beacon.id, "alpha");
    assert_eq!(beacon.vendor.as_deref(), Some("v"));
    assert_eq!(beacon.protocol_version, Some(1));
}

#[test]
fn schemas_are_generated_where_they_are_missing() {
    let mut node = node("alpha");
    let failed = || Err(GlycoError::SchemaGeneration("no".into()));
    let refused = || Err(GlycoError::SchemaGeneration("no".into()));
    let own = MethodField::new("own").query_schema(integer()).receipt_schema(integer());
    assert_eq!(node.register_function(own, failed(), failed(), 1), Ok(()));
    let bare = MethodField::new("bare");
    assert_eq!(node.register_function(bare.clone(), failed(), Ok(integer()), 1), refused());
    assert_eq!(node.register_function(bare.clone(), Ok(integer()), failed(), 1), refused());
    assert_eq!(node.register_function(bare, Ok(integer()), Ok(json("true")), 1), Ok(()));
    let both = || MethodField::new("x").query_schema(integer()).receipt_schema(integer());
    assert_eq!(node.register_query(MethodField { id: "q".into(), ..both() }, failed(), 1), Ok(()));
    assert_eq!(node.register_query(MethodField::new("q2"), failed(), 1), refused());
    assert_eq!(node.register_action(MethodField { id: "a".into(), ..both() }, 1), Ok(()));
    let with = MethodField { id: "w".into(), ..both() };
    assert_eq!(node.register_action_with(with, failed(), 1), Ok(()));
    assert_eq!(node.register_action_with(MethodField::new("w2"), failed(), 1), refused());
    let event = EventField::new("e");
    assert_eq!(node.register_event(event.clone(), failed(), TypeId::of::<u8>()), refused());
    assert_eq!(node.register_event(event, Ok(integer()), TypeId::of::<u8>()), Ok(()));
    let signal = EventField::new("s").call_arg_schema(integer());
    assert_eq!(node.register_signal(signal), Ok(()));

    let shapes: Vec<(String, bool, bool)> = node
        .build_beacon()
        .fields
        .iter()
        .map(|field| match field {
            Field::Method(m) => (m.id.clone(), m.query_schema.is_some(), m.receipt_schema.is_some()),
            Field::Event(e) => (e.id.clone(), e.call_arg_schema.is_some(), false),
        })
        .collect();
    let expected: Vec<(String, bool, bool)> = vec![
        ("a".into(), false, false),
        ("bare".into(), true, true),
        ("e".into(), true, false),
        ("own".into(), true, true),
        ("q".into(), false, true),
        ("s".into(), false, false),
        ("w".into(), true, false),
    ];
    assert_eq!(shapes, expected);
}

#[test]
fn starting_rolls_back_when_the_first_beacon_fails() {
    let mut node = node("alpha");
    assert!(matches!(node.start(StartEvent::Requested), StartAction::StartTransport));
    let refused = GlycoError::NodeAlreadyRunning("alpha".into());
    match node.start(StartEvent::TransportStarted(Err(refused))) {
        StartAction::Done(Err(GlycoError::NodeAlreadyRunning(id))) => assert_eq!(id, "alpha"),
        other => panic!("{other:?}"),
    }
    assert!(!node.is_started());
    match node.start(StartEvent::TransportStarted(Ok(()))) {
        StartAction::SendBeacon(Glycosyl::Beacon(beacon)) => assert_eq!(beacon.id, "alpha"),
        other => panic!("{other:?}"),
    }
    assert!(node.is_started());
    match node.start(StartEvent::BeaconSent(Err(GlycoError::NotStarted))) {
        StartAction::RollBack(GlycoError::NotStarted) => {}
        other => panic!("{other:?}"),
    }
    assert!(!node.is_started());
    node.start(StartEvent::TransportStarted(Ok(())));
    assert!(matches!(node.start(StartEvent::BeaconSent(Ok(()))), StartAction::Done(Ok(()))));
    assert!(matches!(node.start(StartEvent::Requested), StartAction::Done(Ok(()))));
}

#[test]
fn stopping_forgets_presenters_and_pending_calls() {
    let mut node = knows_beta();
    let call = node.do_action("beta", "ping").unwrap();
    match node.stop(StopEvent::Requested) {
        StopAction::StopTransport { was_started } => assert!(was_started),
        other => panic!("{other:?}"),
    }
    let done = StopEvent::TransportStopped { was_started: true, outcome: Ok(()) };
    assert!(matches!(node.stop(done), StopAction::Done(Ok(()))));
    assert!(node.presenters().is_empty());
    let reply = Reply { payload: None, qid: call.query.qid, target_gid: None, error: None };
    assert!(matches!(node.dispatch_message(Glycosyl::Reply(reply), 0), DispatchAction::Nothing));
    assert!(matches!(
        node.stop(StopEvent::Requested),
        StopAction::StopTransport { was_started: false }
    ));
    let failed = StopEvent::TransportStopped { was_started: false, outcome: Err(GlycoError::NotStarted) };
    assert!(matches!(node.stop(failed), StopAction::Done(Err(GlycoError::NotStarted))));
}

#[test]
fn calls_are_checked_before_they_are_made() {
    let mut stopped = node("alpha");
    assert_eq!(stopped.call_query("beta", "add").err(), Some(GlycoError::NotStarted));
    let mut node = knows_beta();
    let missing = |node: &str, field: &str| {
        Some(GlycoError::FieldNotFound { node: node.into(), field: field.into() })
    };
    assert_eq!(node.call_query("gone", "add").err(), missing("gone", "add"));
    assert_eq!(node.call_query("beta", "sub").err(), missing("beta", "sub"));
    assert_eq!(
        node.call_query("beta", "done").err(),
        Some(GlycoError::NotAMethod { node: "beta".into(), field: "done".into() })
    );
    match node.call("beta", "add", Ok(json("\"not an integer\""))).err() {
        Some(GlycoError::Validation(text)) => assert!(text.contains("not an integer")),
        other => panic!("{other:?}"),
    }
    assert_eq!(
        node.call("beta", "add", Err("no JSON".into())).err(),
        Some(GlycoError::TypedJson { context: "request".into(), source: "no JSON".into() })
    );
    assert_eq!(
        node.do_action_with("beta", "add", Err("no JSON".into())).err(),
        Some(GlycoError::TypedJson { context: "action argument".into(), source: "no JSON".into() })
    );
}

#[test]
fn calls_carry_query_and_options() {
    let mut node = knows_beta();
    node.set_query_timeout(Some(Duration::from_millis(75)));
    let call = node.call("beta", "add", Ok(json("42"))).unwrap();
    assert_eq!(call.query.gid, "beta");
    assert_eq!(call.query.source_gid.as_deref(), Some("alpha"));
    assert_eq!(call.query.fid, "add");
    assert_eq!(call.query.payload, Some(json("42")));
    assert_eq!(call.options.timeout, Some(Duration::from_millis(75)));
    // Without a payload there is nothing to validate.
    assert!(node.call_query("beta", "add").is_ok());
    assert!(node.do_action_with("beta", "ping", Ok(json("\"anything\""))).is_ok());
    let token = CancellationToken::new();
    let options = CallOptions::default().with_timeout(None).with_cancellation(token.clone());
    let call = node.call_raw_with_options("beta", "ping", None, options).unwrap();
    assert_eq!(call.options.timeout, None);
    let copy = call.options.clone();
    token.cancel();
    assert!(call.options.cancellation.is_cancelled() && copy.cancellation.is_cancelled());
}

#[test]
fn default_options_wait_for_thirty_seconds() {
    let options = CallOptions::default();
    assert_eq!(options.timeout, Some(Duration::from_secs(30)));
    assert!(!options.cancellation.is_cancelled());
}

#[test]
fn a_given_verdict_decides_the_call() {
    let mut node = knows_beta();
    let refused = node.begin_call(
        "beta",
        "add",
        Some(json("1")),
        CallOptions::default(),
        Ok(vec!["first".into(), "second".into()]),
        7,
    );
    assert_eq!(refused.err(), Some(GlycoError::Validation("first\nsecond".into())));
    let unusable = node.begin_call(
        "beta",
        "add",
        Some(json("1")),
        CallOptions::default(),
        Err("bad schema".into()),
        7,
    );
    assert_eq!(unusable.err(), Some(GlycoError::Validation("bad schema".into())));
    let call = node
        .begin_call("beta", "add", Some(json("1")), CallOptions::default(), Ok(vec![]), 7)
        .unwrap();
    assert_eq!(call.query.qid, 7);
}

#[test]
fn calls_end_in_every_way() {
    let mut node = knows_beta();
    let begin = |node: &mut GlycoComplex| node.do_action("beta", "ping").unwrap();

    let call = begin(&mut node);
    assert_eq!(
        node.finish_call(&call, CallOutcome::Replied(Ok(Some(json("42"))))),
        Ok(Some(json("42")))
    );
    let call = begin(&mut node);
    let failure = RemoteError { message: "deliberate failure".into() };
    assert_eq!(
        node.finish_call(&call, CallOutcome::Replied(Err(failure.clone()))),
        Err(GlycoError::Remote(failure))
    );
    let call = begin(&mut node);
    assert_eq!(
        node.finish_call(&call, CallOutcome::ChannelClosed),
        Err(GlycoError::Task("reply channel closed".into()))
    );
    let call = begin(&mut node);
    assert_eq!(
        node.finish_call(&call, CallOutcome::SendFailed(GlycoError::PeerNotConnected("beta".into()))),
        Err(GlycoError::PeerNotConnected("beta".into()))
    );
    let call = begin(&mut node);
    assert_eq!(
        node.finish_call(&call, CallOutcome::Cancelled),
        Err(GlycoError::Cancelled(call.query.qid))
    );
    let call = begin(&mut node);
    assert_eq!(
        node.finish_call(&call, CallOutcome::TimedOut),
        Err(GlycoError::Timeout {
            qid: call.query.qid,
            node: "beta".into(),
            field: "ping".into(),
        })
    );
    let late = Reply { payload: None, qid: call.query.qid, target_gid: None, error: None };
    assert!(matches!(node.dispatch_message(Glycosyl::Reply(late), 0), DispatchAction::Nothing));
}

#[test]
fn replies_are_delivered_once() {
    let mut node = knows_beta();
    let call = node.call_query("beta", "ping").unwrap();
    let reply = Reply {
        payload: Some(json("[1]")),
        qid: call.query.qid,
        target_gid: Some("alpha".into()),
        error: None,
    };
    match node.dispatch_message(Glycosyl::Reply(reply.clone()), 0) {
        DispatchAction::Deliver { qid, result } => {
            assert_eq!((qid, result), (call.query.qid, Ok(Some(json("[1]")))));
        }
        other => panic!("{other:?}"),
    }
    assert!(matches!(node.dispatch_message(Glycosyl::Reply(reply), 0), DispatchAction::Nothing));
    let call = node.call_query("beta", "ping").unwrap();
    let failed = Reply {
        payload: Some(json("1")),
        qid: call.query.qid,
        target_gid: None,
        error: Some("bad".into()),
    };
    match node.dispatch_message(Glycosyl::Reply(failed), 0) {
        DispatchAction::Deliver { result, .. } => {
            assert_eq!(result, Err(RemoteError { message: "bad".into() }));
        }
        other => panic!("{other:?}"),
    }
}

#[test]
fn a_call_goes_there_and_back() {
    let mut server = started("server");
    server.register_action(MethodField::new("touch"), 9).unwrap();
    let mut client = started("client");
    learn(&mut client, server.build_beacon());
    let call = client.do_action("server", "touch").unwrap();
    let query = match server.dispatch_message(Glycosyl::Query(call.query.clone()), 0) {
        DispatchAction::Answer(query) => query,
        other => panic!("{other:?}"),
    };
    match server.handle_query(&query, CancellationToken::new()) {
        QueryStep::Run { handler, context } => {
            assert_eq!(handler, 9);
            assert_eq!(context.qid, call.query.qid);
            assert_eq!(context.clone().source_gid.as_deref(), Some("client"));
        }
        other => panic!("{other:?}"),
    }
    let reply = Glycosyl::Reply(server.finish_query(&query, Ok(Some(json("42")))));
    assert_eq!(reply.receiver(), Some("client"));
    match client.dispatch_message(reply, 0) {
        DispatchAction::Deliver { qid, result } => {
            assert_eq!((qid, result), (call.query.qid, Ok(Some(json("42")))));
        }
        other => panic!("{other:?}"),
    }
    // A query for another node is not answered here.
    let other = Glycosyl::Query(Query::new("elsewhere", "client", "touch", None));
    assert!(matches!(server.dispatch_message(other, 0), DispatchAction::Nothing));
}

#[test]
fn queries_are_refused_when_busy_or_unknown() {
    let mut server = GlycoComplex::builder("server")
        .connexon("server")
        .max_concurrent_handlers(0)
        .build(&PathBuf::from("/tmp"))
        .unwrap()
        .0;
    server.register_action(MethodField::new("touch"), 9).unwrap();
    let touch = Query::with_qid("server", "client", "touch", None, 5);
    let unknown = Query::with_qid("server", "client", "gone", None, 6);
    let refusal = |query: &Query, text: &str| Reply {
        payload: None,
        qid: query.qid,
        target_gid: Some("client".into()),
        error: Some(text.into()),
    };
    match server.handle_query(&unknown, CancellationToken::new()) {
        QueryStep::Refuse(reply) => {
            assert_eq!(reply, refusal(&unknown, "field 'gone' is not registered"));
        }
        other => panic!("{other:?}"),
    }
    assert!(matches!(
        server.handle_query(&touch, CancellationToken::new()),
        QueryStep::Run { .. }
    ));
    for query in [&touch, &unknown] {
        match server.handle_query(query, CancellationToken::new()) {
            QueryStep::Refuse(reply) => assert_eq!(reply, refusal(query, "server is busy")),
            other => panic!("{other:?}"),
        }
    }
    let failed = server.finish_query(&touch, Err(HandlerError::new("deliberate failure")));
    assert_eq!(failed, refusal(&touch, "deliberate failure"));
    assert!(matches!(
        server.handle_query(&touch, CancellationToken::new()),
        QueryStep::Run { .. }
    ));
    server.abandon_query();
    server.abandon_query();
    assert!(matches!(
        server.handle_query(&touch, CancellationToken::new()),
        QueryStep::Run { .. }
    ));
}

#[test]
fn presenters_are_discovered_changed_and_expired() {
    let mut node = started("alpha");
    let first = Beacon::new("beta", vec![Field::Method(MethodField::new("ping"))]);
    match node.dispatch_message(Glycosyl::Beacon(first.clone()), 0) {
        DispatchAction::Tell(event) => {
            assert_eq!(event, PresenterEvent::Discovered(first.clone()));
            assert_eq!(event.clone(), event);
        }
        other => panic!("{other:?}"),
    }
    let again = Beacon::new("beta", vec![Field::Method(MethodField::new("ping"))]);
    assert!(matches!(
        node.dispatch_message(Glycosyl::Beacon(again.clone()), SECOND),
        DispatchAction::Nothing
    ));
    let changed = Beacon::new("beta", vec![]);
    match node.dispatch_message(Glycosyl::Beacon(changed.clone()), 2 * SECOND) {
        DispatchAction::Tell(PresenterEvent::Changed { previous, current }) => {
            assert_eq!((previous, current), (again, changed.clone()));
        }
        other => panic!("{other:?}"),
    }
    assert_eq!(node.presenters(), vec![changed.clone()]);
    assert!(node.expire_presenters(5 * SECOND - 1).is_empty());
    let heartbeat = Glycosyl::Heartbeat(Heartbeat { id: "beta".into() });
    assert!(matches!(node.dispatch_message(heartbeat, 4 * SECOND), DispatchAction::Nothing));
    assert!(node.expire_presenters(7 * SECOND - 1).is_empty());
    assert_eq!(
        node.expire_presenters(7 * SECOND),
        vec![PresenterEvent::Expired(changed.clone())]
    );
    assert!(node.presenters().is_empty());
    let stranger = Glycosyl::Heartbeat(Heartbeat { id: "beta".into() });
    node.dispatch_message(stranger, 8 * SECOND);
    assert!(node.presenters().is_empty());
    assert!(matches!(
        node.dispatch_message(Glycosyl::Beacon(changed), 9 * SECOND),
        DispatchAction::Tell(PresenterEvent::Discovered(_))
    ));
}

#[test]
fn every_announced_detail_counts_as_a_change() {
    let base = || {
        let mut method = MethodField::new("m").friendly_name("n").description("d");
        method = method.query_schema(integer()).receipt_schema(integer());
        let event = EventField::new("e").call_arg_schema(integer());
        let mut beacon = Beacon::new("beta", vec![Field::Method(method), Field::Event(event)]);
        beacon.vendor = Some("v".into());
        beacon
    };
    let alter: Vec<fn(&mut Beacon)> = vec![
        |beacon| beacon.vendor = None,
        |beacon| beacon.protocol_version = Some(2),
        |beacon| beacon.protocol_version = None,
        |beacon| beacon.fields.swap(0, 1),
        |beacon| beacon.fields.truncate(1),
        |beacon| beacon.fields[0] = Field::Method(MethodField::new("m")),
        |beacon| beacon.fields[0] = Field::Event(EventField::new("m")),
        |beacon| beacon.fields[1] = Field::Event(EventField::new("e")),
        |beacon| beacon.fields[1] = Field::Event(EventField::new("e").call_arg_schema(Value::from(1))),
    ];
    for change in alter {
        let mut node = started("alpha");
        learn(&mut node, base());
        assert!(matches!(learn(&mut node, base()), DispatchAction::Nothing));
        let mut other = base();
        change(&mut other);
        assert!(matches!(
            learn(&mut node, other),
            DispatchAction::Tell(PresenterEvent::Changed { .. })
        ));
    }
}

#[test]
fn a_schema_that_is_null_counts_as_none() {
    let mut node = started("alpha");
    learn(&mut node, Beacon::new("beta", vec![Field::Method(MethodField::new("m"))]));
    let field = MethodField::new("m").query_schema(Value::Null);
    let beacon = Beacon::new("beta", vec![Field::Method(field)]);
    assert!(matches!(learn(&mut node, beacon), DispatchAction::Nothing));
}

#[test]
fn own_discovery_can_be_hidden() {
    let mut node = started("alpha");
    let own = node.build_beacon();
    assert!(matches!(
        learn(&mut node, own),
        DispatchAction::Tell(PresenterEvent::Discovered(_))
    ));
    let mut quiet = started("alpha");
    quiet.set_loopback_presenter(false);
    let own = quiet.build_beacon();
    assert!(matches!(learn(&mut quiet, own), DispatchAction::Nothing));
    assert_eq!(quiet.presenters().len(), 1);
    quiet.set_vendor(Some("v".into()));
    let own = quiet.build_beacon();
    assert!(matches!(
        learn(&mut quiet, own),
        DispatchAction::Tell(PresenterEvent::Changed { .. })
    ));
}

#[test]
fn presenters_expire_in_the_order_of_their_ids() {
    let mut node = started("alpha");
    for id in ["zeta", "beta", "mid"] {
        node.dispatch_message(Glycosyl::Beacon(Beacon::new(id, vec![])), 0);
    }
    node.dispatch_message(Glycosyl::Beacon(Beacon::new("kept", vec![])), SECOND);
    let listed: Vec<String> = node.presenters().into_iter().map(|beacon| beacon.id).collect();
    assert_eq!(listed, vec!["beta", "kept", "mid", "zeta"]);
    let gone: Vec<String> = node
        .expire_presenters(3 * SECOND)
        .into_iter()
        .map(|event| match event {
            PresenterEvent::Expired(beacon) => beacon.id,
            other => panic!("{other:?}"),
        })
        .collect();
    assert_eq!(gone, vec!["beta", "mid", "zeta"]);
    assert_eq!(node.presenters().len(), 1);
}

#[test]
fn events_reach_their_listeners() {
    let mut emitter = started("server");
    emitter.register_signal(EventField::new("ready")).unwrap();
    let mut listener = started("client");
    assert_eq!(listener.on_event_raw("server", "ready", 1), None);
    assert_eq!(listener.on_event_raw("server", "ready", 2), Some(1));
    assert_eq!(listener.on_event_raw("server", "other", 3), None);
    let message = emitter.emit_signal("ready").unwrap();
    match listener.dispatch_message(message, 0) {
        DispatchAction::Notify { handler, event } => {
            assert_eq!(handler, 2);
            assert_eq!(event, Event { gid: "server".into(), fid: "ready".into(), arg: None });
        }
        other => panic!("{other:?}"),
    }
    assert_eq!(listener.remove_event_handler("server", "ready"), Some(2));
    assert_eq!(listener.remove_event_handler("server", "ready"), None);
    let message = emitter.emit_signal("ready").unwrap();
    assert!(matches!(listener.dispatch_message(message, 0), DispatchAction::Nothing));
}

#[test]
fn events_are_checked_before_they_are_emitted() {
    let mut node = node("alpha");
    assert_eq!(node.emit_raw("x", None).err(), Some(GlycoError::NotStarted));
    node.register_event(EventField::new("progress"), Ok(integer()), TypeId::of::<i32>()).unwrap();
    node.register_signal(EventField::new("ready")).unwrap();
    let missing = Some(GlycoError::FieldNotFound { node: "alpha".into(), field: "gone".into() });
    assert_eq!(node.emit_signal("gone").err(), missing);
    assert_eq!(node.emit("gone", &TypeId::of::<i32>(), Ok(json("1"))).err(), missing);
    assert_eq!(
        node.emit_signal("progress").err(),
        Some(GlycoError::Protocol("event 'progress' expects an argument".into()))
    );
    let mismatch = |id: &str| {
        Some(GlycoError::Protocol(format!(
            "event '{id}' argument type does not match its registration"
        )))
    };
    assert_eq!(
        node.emit("progress", &TypeId::of::<u8>(), Ok(json("1"))).err(),
        mismatch("progress")
    );
    assert_eq!(node.emit("ready", &TypeId::of::<u8>(), Ok(json("1"))).err(), mismatch("ready"));
    assert_eq!(
        node.emit("progress", &TypeId::of::<i32>(), Err("bad".into())).err(),
        Some(GlycoError::TypedJson { context: "event argument".into(), source: "bad".into() })
    );
    assert_eq!(
        node.emit("progress", &TypeId::of::<i32>(), Ok(json("75"))).err(),
        Some(GlycoError::NotStarted)
    );
    assert_eq!(node.emit_signal("ready").err(), Some(GlycoError::NotStarted));
    node.start(StartEvent::TransportStarted(Ok(())));
    match node.emit("progress", &TypeId::of::<i32>(), Ok(json("75"))).unwrap() {
        Glycosyl::Event(event) => {
            assert_eq!((event.gid.as_str(), event.fid.as_str()), ("alpha", "progress"));
            assert_eq!(event.arg, Some(json("75")));
        }
        other => panic!("{other:?}"),
    }
    assert!(node.emit_raw("anything", None).is_ok());
}

#[test]
fn the_dispatching_task_ends_with_its_events() {
    let mut node = started("alpha");
    assert!(node.dispatch_step(DispatchInput::Cancelled, 0).is_none());
    assert!(node.dispatch_step(DispatchInput::Closed, 0).is_none());
    assert!(matches!(
        node.dispatch_step(DispatchInput::Lagged, 0),
        Some(DispatchAction::Nothing)
    ));
    let connected = ConnexonEvent::PeerConnected("beta".into());
    assert_eq!(connected.clone(), connected);
    assert!(matches!(
        node.dispatch_step(DispatchInput::Event(connected), 0),
        Some(DispatchAction::Nothing)
    ));
    let beacon = ConnexonEvent::Message(Glycosyl::Beacon(Beacon::new("beta", vec![])));
    assert!(matches!(
        node.dispatch_step(DispatchInput::Event(beacon), 0),
        Some(DispatchAction::Tell(PresenterEvent::Discovered(_)))
    ));
}

#[test]
fn every_fifth_tick_brings_a_full_beacon() {
    let mut schedule = BeaconSchedule::new();
    for tick in 1..=20u32 {
        let due = schedule.step(BeaconTrigger::Tick);
        let full = tick % 5 == 0;
        assert_eq!(due == BeaconDue::FullBeacon, full);
        assert_eq!(due == BeaconDue::Heartbeat, !full);
    }
    schedule.step(BeaconTrigger::Tick);
    assert_eq!(schedule.step(BeaconTrigger::Changed), BeaconDue::FullBeacon);
    for _ in 0..4 {
        assert_eq!(schedule.step(BeaconTrigger::Tick), BeaconDue::Heartbeat);
    }
    assert_eq!(schedule.step(BeaconTrigger::Tick), BeaconDue::FullBeacon);
    assert_eq!(schedule.step(BeaconTrigger::Cancelled), BeaconDue::Stop);
    assert_eq!(schedule.step(BeaconTrigger::ChangesClosed), BeaconDue::Stop);
}

#[test]
fn due_messages_announce_the_node() {
    let mut node = node("alpha");
    node.refresh_beacon();
    assert_eq!(node.beacon_revision(), 1);
    assert!(node.due_message(BeaconDue::Stop).is_none());
    assert_eq!(
        node.due_message(BeaconDue::Heartbeat),
        Some(Glycosyl::Heartbeat(Heartbeat { id: "alpha".into() }))
    );
    match node.due_message(BeaconDue::FullBeacon) {
        Some(Glycosyl::Beacon(beacon)) => assert_eq!(beacon.id, "alpha"),
        other => panic!("{other:?}"),
    }
}

#[test]
fn adding_and_removing_a_field_restores_the_announcement() {
    let mut node = node("alpha");
    node.register_action(MethodField::new("kept"), 1).unwrap();
    let before = node.build_beacon().fields;
    node.register_action(MethodField::new("brief"), 2).unwrap();
    assert!(node.remove_field("brief"));
    assert_eq!(node.build_beacon().fields, before);
    node.register_signal(EventField::new("brief")).unwrap();
    assert!(node.remove_field("brief"));
    assert_eq!(node.build_beacon().fields, before);
}

#[test]
fn announced_fields_are_found_by_those_who_got_the_beacon() {
    let mut server = started("server");
    server.register_action(MethodField::new("touch"), 1).unwrap();
    server.register_signal(EventField::new("ready")).unwrap();
    let mut client = started("client");
    learn(&mut client, server.build_beacon());
    assert!(client.do_action("server", "touch").is_ok());
    assert!(matches!(
        client.do_action("server", "ready").err(),
        Some(GlycoError::NotAMethod { .. })
    ));
    server.remove_field("touch");
    learn(&mut client, server.build_beacon());
    assert!(matches!(
        client.do_action("server", "touch").err(),
        Some(GlycoError::FieldNotFound { .. })
    ));
}

#[test]
fn messages_leave_the_node_itself_alone() {
    let mut node = knows_beta();
    node.register_action(MethodField::new("touch"), 1).unwrap();
    node.on_event_raw("beta", "done", 5);
    let revision = node.beacon_revision();
    let messages = vec![
        Glycosyl::Beacon(Beacon::new("gamma", vec![])),
        Glycosyl::Heartbeat(Heartbeat { id: "beta".into() }),
        Glycosyl::Query(Query::new("alpha", "beta", "touch", None)),
        Glycosyl::Reply(Reply { payload: None, qid: 1, target_gid: None, error: None }),
        Glycosyl::Event(Event { gid: "beta".into(), fid: "done".into(), arg: None }),
    ];
    for message in messages {
        node.dispatch_message(message, 1);
    }
    assert!(node.is_started());
    assert_eq!(node.beacon_revision(), revision);
    assert_eq!(ids(&node.build_beacon()), vec!["touch"]);
    assert_eq!(node.remove_event_handler("beta", "done"), Some(5));
}

#[test]
fn a_reply_completes_its_own_call_alone() {
    let mut node = knows_beta();
    let first = node.call_query("beta", "ping").unwrap();
    let second = node.call_query("beta", "ping").unwrap();
    let reply = |qid: u128, error: Option<&str>| Reply {
        payload: Some(json("1")),
        qid,
        target_gid: None,
        error: error.map(|text| text.to_string()),
    };
    match node.process_reply(reply(first.query.qid, Some("bad"))) {
        DispatchAction::Deliver { qid, result } => {
            assert_eq!(qid, first.query.qid);
            assert_eq!(result, Err(RemoteError { message: "bad".into() }));
        }
        other => panic!("{other:?}"),
    }
    node.dispatch_message(Glycosyl::Heartbeat(Heartbeat { id: "beta".into() }), 1);
    assert!(matches!(node.process_reply(reply(first.query.qid, None)), DispatchAction::Nothing));
    match node.process_reply(reply(second.query.qid, None)) {
        DispatchAction::Deliver { qid, result } => {
            assert_eq!((qid, result), (second.query.qid, Ok(Some(json("1")))));
        }
        other => panic!("{other:?}"),
    }
}

#[test]
fn id_errors_come_before_the_bound_on_handlers() {
    let temporary = PathBuf::from("/tmp");
    let mismatch = GlycoComplex::builder("alpha")
        .connexon("beta")
        .max_concurrent_handlers(usize::MAX)
        .build(&temporary);
    assert!(matches!(mismatch.err(), Some(GlycoError::InvalidNodeId(_))));
    let invalid =
        GlycoComplex::builder("a/b").max_concurrent_handlers(usize::MAX).build(&temporary);
    assert_eq!(invalid.err(), Some(GlycoError::InvalidNodeId("a/b".into())));
}
