use glycoprotein::schema::validation_outcome;
use glycoprotein::{validate_json, GlycoError};
use serde_json::Value;

fn json(text: &str) -> Value {
    serde_json::from_str(text).unwrap()
}

#[test]
fn documents_are_validated() {
    let schema = json("{\"type\":\"object\",\"properties\":{\"Left\":{\"type\":\"integer\"}},\"required\":[\"Left\"]}");
    assert_eq!(validate_json(&schema, &json("{\"Left\":1}")), Ok(()));
    match validate_json(&schema, &json("{\"Left\":\"not an integer\"}")) {
        Err(GlycoError::Validation(text)) => assert!(text.contains("not an integer")),
        other => panic!("{other:?}"),
    }
    assert!(matches!(validate_json(&schema, &json("{}")), Err(GlycoError::Validation(_))));
    assert_eq!(validate_json(&json("true"), &json("[]")), Ok(()));
}

#[test]
fn several_errors_stand_on_lines_of_their_own() {
    let schema = json(
        "{\"properties\":{\"A\":{\"type\":\"integer\"},\"B\":{\"type\":\"integer\"}}}",
    );
    match validate_json(&schema, &json("{\"A\":\"x\",\"B\":\"y\"}")) {
        Err(GlycoError::Validation(text)) => {
            let lines: Vec<&str> = text.split('\n').collect();
            assert_eq!(lines.len(), 2);
            assert!(lines[0].contains("\"x\"") && lines[1].contains("\"y\""));
        }
        other => panic!("{other:?}"),
    }
}

#[test]
fn unusable_schemas_fail_validation() {
    assert!(matches!(
        validate_json(&json("{\"type\":\"no such type\"}"), &json("1")),
        Err(GlycoError::Validation(_))
    ));
}

#[test]
fn verdicts_become_outcomes() {
    assert_eq!(validation_outcome(Ok(vec![])), Ok(()));
    assert_eq!(
        validation_outcome(Ok(vec!["one".into()])),
        Err(GlycoError::Validation("one".into()))
    );
    assert_eq!(
        validation_outcome(Ok(vec!["one".into(), "two".into(), "three".into()])),
        Err(GlycoError::Validation("one\ntwo\nthree".into()))
    );
    assert_eq!(
        validation_outcome(Err("bad schema".into())),
        Err(GlycoError::Validation("bad schema".into()))
    );
}

#[test]
fn references_that_cannot_be_fetched_make_a_schema_unusable() {
    let schema = json(
        "{\"properties\":{\"a\":{\"$ref\":\"http://one.example/a\"},\"b\":{\"$ref\":\"http://two.example/b\"}}}",
    );
    // Either of the two may be named.
    match validate_json(&schema, &json("{}")) {
        Err(GlycoError::Validation(text)) => assert!(text.contains(".example/")),
        other => panic!("{other:?}"),
    }
}
