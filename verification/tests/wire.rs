use glycoprotein::{
    Beacon, Event, EventField, Field, Glycosyl, Heartbeat, MethodField, Query, Reply,
    PROTOCOL_VERSION,
};
use serde_json::Value;
use uuid::Uuid;

fn json(text: &str) -> Value {
    serde_json::from_str(text).unwrap()
}

fn text_of(message: &Glycosyl) -> String {
    String::from_utf8(message.to_bytes().unwrap()).unwrap()
}

fn value_of(message: &Glycosyl) -> Value {
    serde_json::from_slice(&message.to_bytes().unwrap()).unwrap()
}

fn moment(nanos: u32) -> chrono::NaiveDateTime {
    chrono::NaiveDate::from_ymd_opt(2024, 1, 2).unwrap().and_hms_nano_opt(3, 4, 5, nanos).unwrap()
}

#[test]
fn query_uses_dotnet_property_names_and_discriminator() {
    let qid = Uuid::parse_str("00112233-4455-6677-8899-aabbccddeeff").unwrap();
    let message = Glycosyl::Query(Query {
        gid: "beta".into(),
        source_gid: Some("alpha".into()),
        fid: "add".into(),
        payload: Some(json("{\"A\": 1, \"B\": 2}")),
        qid: qid.as_u128(),
    });

    let value = value_of(&message);
    assert_eq!(value["Type"], "Query");
    assert_eq!(value["Gid"], "beta");
    assert_eq!(value["SourceGid"], "alpha");
    assert_eq!(value["Fid"], "add");
    assert_eq!(value["Payload"]["A"], 1);
    assert_eq!(value["Qid"], qid.to_string());
}

#[test]
fn optional_values_are_serialized_as_null_like_system_text_json() {
    let message = Glycosyl::Reply(Reply {
        payload: None,
        qid: Uuid::nil().as_u128(),
        target_gid: None,
        error: None,
    });

    let value = value_of(&message);
    assert!(value.get("Payload").unwrap().is_null());
    assert!(value.get("TargetGid").unwrap().is_null());
    assert!(value.get("Error").unwrap().is_null());
}

#[test]
fn field_discriminator_is_flattened() {
    let beacon = Beacon::new("node", vec![Field::Method(MethodField::new("ping"))]);
    let message = value_of(&Glycosyl::Beacon(beacon));
    let value = &message["Fields"][0];
    assert_eq!(value["Type"], "Method");
    assert_eq!(value["Id"], "ping");
    assert!(value["QuerySchema"].is_null());
    assert!(value["ReceiptSchema"].is_null());
}

#[test]
fn query_text_is_exact() {
    let query = Query::with_qid("beta", "alpha", "add", Some(json("[1,2]")), 0x0011_2233_4455_6677_8899_aabb_ccdd_eeff);
    assert_eq!(
        text_of(&Glycosyl::Query(query)),
        "{\"Type\":\"Query\",\"Gid\":\"beta\",\"SourceGid\":\"alpha\",\"Fid\":\"add\",\
         \"Payload\":[1,2],\"Qid\":\"00112233-4455-6677-8899-aabbccddeeff\"}"
    );
}

#[test]
fn reply_text_is_exact() {
    let reply = Reply {
        payload: None,
        qid: 1,
        target_gid: Some("alpha".into()),
        error: Some("no".into()),
    };
    assert_eq!(
        text_of(&Glycosyl::Reply(reply)),
        "{\"Type\":\"Reply\",\"Payload\":null,\"Qid\":\"00000000-0000-0000-0000-000000000001\",\
         \"TargetGid\":\"alpha\",\"Error\":\"no\"}"
    );
}

#[test]
fn event_and_heartbeat_texts_are_exact() {
    let event = Event { gid: "alpha".into(), fid: "ready".into(), arg: None };
    assert_eq!(
        text_of(&Glycosyl::Event(event)),
        "{\"Type\":\"Event\",\"Gid\":\"alpha\",\"Fid\":\"ready\",\"Arg\":null}"
    );
    let heartbeat = Heartbeat { id: "alpha".into() };
    assert_eq!(
        text_of(&Glycosyl::Heartbeat(heartbeat)),
        "{\"Type\":\"Heartbeat\",\"Id\":\"alpha\"}"
    );
}

#[test]
fn beacon_text_is_exact() {
    let method = MethodField::new("add")
        .friendly_name("Add")
        .description("Adds")
        .query_schema(json("{\"type\":\"integer\"}"));
    let event = EventField::new("done").call_arg_schema(json("true"));
    let mut beacon = Beacon::at(
        "alpha",
        vec![Field::Method(method), Field::Event(event)],
        moment(250_000_000),
    );
    beacon.vendor = Some("test".into());
    assert_eq!(
        text_of(&Glycosyl::Beacon(beacon)),
        "{\"Type\":\"Beacon\",\"Id\":\"alpha\",\"Vendor\":\"test\",\"ProtocolVersion\":1,\
         \"Fields\":[{\"Type\":\"Method\",\"Id\":\"add\",\"FriendlyName\":\"Add\",\
         \"Description\":\"Adds\",\"QuerySchema\":{\"type\":\"integer\"},\"ReceiptSchema\":null},\
         {\"Type\":\"Event\",\"Id\":\"done\",\"FriendlyName\":null,\"Description\":null,\
         \"CallArgSchema\":true}],\"Timestamp\":\"2024-01-02T03:04:05.250Z\"}"
    );
}

#[test]
fn whole_seconds_and_missing_version_are_written() {
    let mut beacon = Beacon::at("alpha", vec![], moment(0));
    beacon.protocol_version = None;
    assert_eq!(
        text_of(&Glycosyl::Beacon(beacon)),
        "{\"Type\":\"Beacon\",\"Id\":\"alpha\",\"Vendor\":null,\"ProtocolVersion\":null,\
         \"Fields\":[],\"Timestamp\":\"2024-01-02T03:04:05Z\"}"
    );
    let mut negative = Beacon::at("alpha", vec![], moment(0));
    negative.protocol_version = Some(-12);
    assert_eq!(value_of(&Glycosyl::Beacon(negative))["ProtocolVersion"], -12);
}

#[test]
fn strings_are_escaped_as_json_demands() {
    let id = "a\"b\\c\u{8}\t\n\u{c}\r\u{1}\u{1f}\u{7f}节\u{1F600}";
    let heartbeat = Heartbeat { id: id.into() };
    let text = text_of(&Glycosyl::Heartbeat(heartbeat.clone()));
    assert_eq!(
        text,
        "{\"Type\":\"Heartbeat\",\"Id\":\"a\\\"b\\\\c\\b\\t\\n\\f\\r\\u0001\\u001f\u{7f}节\u{1F600}\"}"
    );
    assert_eq!(value_of(&Glycosyl::Heartbeat(heartbeat))["Id"], id);
}

#[test]
fn receivers_are_callees_and_named_callers() {
    let query = Glycosyl::Query(Query::new("beta", "alpha", "ping", None));
    assert_eq!(query.receiver(), Some("beta"));
    let reply = Reply { payload: None, qid: 1, target_gid: Some("alpha".into()), error: None };
    assert_eq!(Glycosyl::Reply(reply.clone()).receiver(), Some("alpha"));
    let lost = Reply { target_gid: None, ..reply };
    assert_eq!(Glycosyl::Reply(lost).receiver(), None);
    let event = Event { gid: "alpha".into(), fid: "ready".into(), arg: None };
    assert_eq!(Glycosyl::Event(event).receiver(), None);
    assert_eq!(Glycosyl::Beacon(Beacon::new("alpha", vec![])).receiver(), None);
    assert_eq!(Glycosyl::Heartbeat(Heartbeat { id: "alpha".into() }).receiver(), None);
}

#[test]
fn fresh_queries_have_random_ids() {
    let first = Query::new("beta", "alpha", "ping", None);
    let second = Query::new("beta", "alpha", "ping", None);
    assert_ne!(first.qid, second.qid);
    let id = Uuid::from_u128(first.qid);
    assert_eq!(id.get_version_num(), 4);
    assert_eq!(id.get_variant(), uuid::Variant::RFC4122);
    assert_eq!(first.source_gid.as_deref(), Some("alpha"));
}

#[test]
fn new_beacons_carry_the_time_and_the_version() {
    let before = chrono::Utc::now().naive_utc();
    let beacon = Beacon::new("alpha", vec![]);
    let after = chrono::Utc::now().naive_utc();
    assert!(before <= beacon.timestamp && beacon.timestamp <= after);
    assert_eq!(beacon.protocol_version, Some(PROTOCOL_VERSION));
    assert_eq!(beacon.vendor, None);
}

#[test]
fn method_fields_know_what_they_take() {
    let action = MethodField::new("touch");
    assert!(action.is_action() && action.is_actable());
    let query = MethodField::new("get").receipt_schema(json("true"));
    assert!(!query.is_action() && query.is_actable());
    let function = query.clone().query_schema(json("false"));
    assert!(!function.is_action() && !function.is_actable());
    assert_eq!(function.clone(), function);
    assert_ne!(function, query);
    assert_eq!(Field::Method(action).id(), "touch");
    assert_eq!(Field::Event(EventField::new("done").friendly_name("Done").description("d")).id(), "done");
}

#[test]
fn clones_of_messages_are_equal() {
    let messages = vec![
        Glycosyl::Beacon(Beacon::new("alpha", vec![Field::Method(MethodField::new("ping"))])),
        Glycosyl::Query(Query::new("beta", "alpha", "ping", Some(json("{\"x\":[null,1.5]}")))),
        Glycosyl::Reply(Reply { payload: None, qid: 7, target_gid: None, error: None }),
        Glycosyl::Event(Event { gid: "alpha".into(), fid: "ready".into(), arg: Some(json("3")) }),
        Glycosyl::Heartbeat(Heartbeat { id: "alpha".into() }),
    ];
    for message in messages {
        assert_eq!(message.clone(), message);
    }
}

#[test]
fn different_messages_have_different_bytes() {
    let query = || Query::with_qid("beta", "alpha", "ping", None, 1);
    let reply = || Reply { payload: None, qid: 1, target_gid: Some("a".into()), error: None };
    let beacon = |fields: Vec<Field>| Glycosyl::Beacon(Beacon::at("alpha", fields, moment(0)));
    let messages = vec![
        Glycosyl::Heartbeat(Heartbeat { id: "alpha".into() }),
        Glycosyl::Heartbeat(Heartbeat { id: "alpha\"".into() }),
        Glycosyl::Heartbeat(Heartbeat { id: "alpha\\".into() }),
        Glycosyl::Event(Event { gid: "alpha".into(), fid: "x".into(), arg: None }),
        Glycosyl::Event(Event { gid: "alpha".into(), fid: "x".into(), arg: Some(json("0")) }),
        Glycosyl::Event(Event { gid: "alpha\",\"Fid\":\"x".into(), fid: "".into(), arg: None }),
        Glycosyl::Query(query()),
        Glycosyl::Query(Query { qid: 2, ..query() }),
        Glycosyl::Query(Query { source_gid: None, ..query() }),
        Glycosyl::Query(Query { source_gid: Some("null".into()), ..query() }),
        Glycosyl::Query(Query { payload: Some(json("\"x\"")), ..query() }),
        Glycosyl::Reply(reply()),
        Glycosyl::Reply(Reply { error: Some("".into()), ..reply() }),
        Glycosyl::Reply(Reply { target_gid: None, error: Some("a".into()), ..reply() }),
        beacon(vec![]),
        beacon(vec![Field::Method(MethodField::new("m"))]),
        beacon(vec![Field::Event(EventField::new("m"))]),
        beacon(vec![Field::Method(MethodField::new("m")), Field::Event(EventField::new("e"))]),
        Glycosyl::Beacon(Beacon::at("alpha", vec![], moment(1))),
    ];
    for (i, left) in messages.iter().enumerate() {
        for (j, right) in messages.iter().enumerate() {
            let same = left.to_bytes().unwrap() == right.to_bytes().unwrap();
            assert_eq!(same, i == j, "{left:?} and {right:?}");
        }
    }
}
