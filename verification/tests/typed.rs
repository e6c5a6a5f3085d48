use glycoprotein::typed::{
    argument_document, typed_event, typed_json, typed_reply, typed_request, typed_response,
};
use glycoprotein::{GlycoError, HandlerError};
use serde_json::Value;

#[test]
fn a_missing_payload_is_read_as_null() {
    assert_eq!(argument_document(None), Value::Null);
    assert_eq!(argument_document(Some(Value::from(3))), Value::from(3));
}

#[test]
fn conversions_fail_with_their_own_words() {
    let failed = |text: &str| Err(HandlerError::new(text));
    assert_eq!(typed_request(Ok(7)), Ok(7));
    assert_eq!(typed_request::<u8>(Err("x".into())), failed("request JSON is invalid: x"));
    assert_eq!(typed_event(Ok(7)), Ok(7));
    assert_eq!(typed_event::<u8>(Err("x".into())), failed("event JSON is invalid: x"));
    assert_eq!(typed_response(Ok(Value::from(7))), Ok(Some(Value::from(7))));
    assert_eq!(
        typed_response(Err("x".into())),
        Err(HandlerError::new("response JSON failed: x"))
    );
    assert_eq!(typed_json("response", Ok(7)), Ok(7));
    assert_eq!(
        typed_json::<u8>("response", Err("x".into())),
        Err(GlycoError::TypedJson { context: "response".into(), source: "x".into() })
    );
}

#[test]
fn a_typed_reply_is_nothing_a_value_or_a_failure() {
    assert_eq!(typed_reply::<u8>(None), Ok(None));
    assert_eq!(typed_reply(Some(Ok(7))), Ok(Some(7)));
    assert_eq!(
        typed_reply::<u8>(Some(Err("x".into()))),
        Err(GlycoError::TypedJson { context: "response".into(), source: "x".into() })
    );
}
