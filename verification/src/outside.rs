//! What the library takes from other crates and from parts of `std` without a specification.
//!
//! Every item here is believed, not proved. Each says which outside function it stands for and
//! what is claimed of it.
use std::time::Duration;
use vstd::arithmetic::power::pow;
use vstd::prelude::*;
use vstd::utf8::*;

verus! {

/// A JSON document of `serde_json`. The library carries it and never looks inside.
#[verifier::external_type_specification]
#[verifier::external_body]
pub struct ExValue(serde_json::Value);

/// A calendar date and time of `chrono`, read as UTC. The library carries it.
#[verifier::external_type_specification]
#[verifier::external_body]
pub struct ExNaiveDateTime(chrono::NaiveDateTime);

/// A cancellation token of `tokio_util`. The library carries it.
#[verifier::external_type_specification]
#[verifier::external_body]
pub struct ExCancellationToken(tokio_util::sync::CancellationToken);

/// A path of `std`. The library carries it and joins file names to it.
#[verifier::external_type_specification]
#[verifier::external_body]
pub struct ExPathBuf(std::path::PathBuf);

/// The identity of a Rust type, of `std`. The library carries it and compares it.
#[verifier::external_type_specification]
#[verifier::external_body]
pub struct ExTypeId(std::any::TypeId);

/// `serde_json::Value::clone`: the clone is the same JSON document.
pub assume_specification[ <serde_json::Value as Clone>::clone ](value: &serde_json::Value) -> (copy:
    serde_json::Value)
    ensures
        copy == *value,
;

/// `tokio_util::sync::CancellationToken::new`: a token of its own. Nothing is claimed of it: the
/// state of a token changes behind shared references.
pub assume_specification[ tokio_util::sync::CancellationToken::new ]() -> (token:
    tokio_util::sync::CancellationToken)
;

/// `tokio_util::sync::CancellationToken::clone`: another handle of the same token, which is
/// cancelled whenever this one is, and the other way round.
pub assume_specification[ <tokio_util::sync::CancellationToken as Clone>::clone ](token:
    &tokio_util::sync::CancellationToken) -> (copy: tokio_util::sync::CancellationToken)
    ensures
        copy == *token,
;

/// The length of a duration in nanoseconds, as `std::time::Duration::as_nanos` gives it.
pub uninterp spec fn duration_nanos(duration: Duration) -> nat;

/// `std::time::Duration::as_nanos`: the length in nanoseconds.
pub assume_specification[ Duration::as_nanos ](duration: &Duration) -> (nanos: u128)
    ensures
        nanos == duration_nanos(*duration),
;

/// `std::time::Duration::from_secs`: the duration is that many seconds long, to the nanosecond.
pub assume_specification[ Duration::from_secs ](secs: u64) -> (duration: Duration)
    ensures
        duration_nanos(duration) == secs * 1_000_000_000,
;

/// What `std::path::Path::join` returns for a directory and a file name.
pub uninterp spec fn path_joined(directory: std::path::PathBuf, name: Seq<char>) -> std::path::PathBuf;

/// `std::path::Path::join`: the result is named after the directory and the file name. The
/// separator is that of the platform to which both belong.
#[verifier::external_body]
pub(crate) fn join_path(directory: &std::path::PathBuf, name: &str) -> (path: std::path::PathBuf)
    ensures
        path == path_joined(*directory, name@),
{
    directory.join(name)
}

/// `==` of `std::any::TypeId`: two identities are equal exactly when they are those of one type.
#[verifier::external_body]
pub(crate) fn same_type(left: &std::any::TypeId, right: &std::any::TypeId) -> (same: bool)
    ensures
        same == (*left == *right),
{
    *left == *right
}

/// What `serde_json::to_string` writes for a JSON document.
pub uninterp spec fn json_text(value: serde_json::Value) -> Seq<char>;

/// `serde_json::to_string` on a JSON document: compact JSON text, named after the document. It
/// cannot fail there: the keys of a document are strings and the text goes to memory.
#[verifier::external_body]
pub(crate) fn write_json(value: &serde_json::Value) -> (text: String)
    ensures
        text@ == json_text(*value),
{
    serde_json::to_string(value).expect("a JSON document always has a text")
}

/// `serde_json::Value::Null`: the document whose text is `null`.
#[verifier::external_body]
pub(crate) fn json_null() -> (value: serde_json::Value)
    ensures
        json_text(value) == "null"@,
{
    serde_json::Value::Null
}

/// A lower-case hexadecimal digit.
pub open spec fn hex_digit(n: int) -> char {
    if n < 10 {
        (48 + n) as char
    } else {
        (87 + n) as char
    }
}

/// How one character stands inside a JSON string.
pub open spec fn json_escaped(c: char) -> Seq<char> {
    let code = c as u32;
    if c == '"' {
        seq!['\\', '"']
    } else if c == '\\' {
        seq!['\\', '\\']
    } else if code == 8 {
        seq!['\\', 'b']
    } else if code == 9 {
        seq!['\\', 't']
    } else if code == 10 {
        seq!['\\', 'n']
    } else if code == 12 {
        seq!['\\', 'f']
    } else if code == 13 {
        seq!['\\', 'r']
    } else if code < 32 {
        seq!['\\', 'u', '0', '0', hex_digit(code as int / 16), hex_digit(code as int % 16)]
    } else {
        seq![c]
    }
}

/// A text inside a JSON string, character by character.
pub open spec fn json_inside(text: Seq<char>) -> Seq<char>
    decreases text.len(),
{
    if text.len() == 0 {
        seq![]
    } else {
        json_escaped(text[0]) + json_inside(text.drop_first())
    }
}

/// A text as a JSON string, with its quotes.
pub open spec fn json_quoted(text: Seq<char>) -> Seq<char> {
    seq!['"'] + json_inside(text) + seq!['"']
}

/// `serde_json::to_string` on a string: the text between quotes, with quotes, backslashes and the
/// characters below U+0020 escaped. It cannot fail there: the text goes to memory.
#[verifier::external_body]
pub(crate) fn write_json_string(text: &str) -> (quoted: String)
    ensures
        quoted@ == json_quoted(text@),
{
    serde_json::to_string(text).expect("a string always has a JSON text")
}

/// What `jsonschema` finds wrong with a document under a schema, in the order in which it is found;
/// `None` where the schema cannot be used.
pub uninterp spec fn schema_verdict(
    schema: serde_json::Value,
    instance: serde_json::Value,
) -> Option<Seq<Seq<char>>>;

/// `jsonschema::validator_for`, and `Validator::iter_errors` of the validator that it returns, each
/// error by its text: whether the schema can be used, and what is found wrong where it can, are
/// named after the schema and the document. The crate is built without the features that fetch
/// references over the network or from disk, so a reference to another document makes a schema
/// unusable. Why a schema cannot be used is left unsaid: of several references that cannot be
/// fetched the text names one, picked by a hasher that each process seeds at random.
#[verifier::external_body]
pub(crate) fn schema_errors(schema: &serde_json::Value, instance: &serde_json::Value) -> (verdict:
    Result<Vec<String>, String>)
    ensures
        match verdict {
            Ok(errors) => schema_verdict(*schema, *instance) == Some(errors.deep_view()),
            Err(_) => schema_verdict(*schema, *instance) is None,
        },
{
    match jsonschema::validator_for(schema) {
        Ok(validator) => Ok(validator.iter_errors(instance).map(|e| e.to_string()).collect()),
        Err(error) => Err(error.to_string()),
    }
}

/// A number of 128 bits as a version 4 UUID of the RFC 9562 variant.
pub open spec fn is_random_uuid(number: u128) -> bool {
    &&& (number as int / pow(16, 19)) % 16 == 4
    &&& (number as int / pow(16, 15)) % 16 / 4 == 2
}

/// `uuid::Uuid::new_v4`, as a number: the version and variant bits are those of a random UUID; the
/// others are left to chance. It panics on a system that has no randomness to give.
#[verifier::external_body]
pub(crate) fn random_uuid() -> (number: u128)
    ensures
        is_random_uuid(number),
{
    uuid::Uuid::new_v4().as_u128()
}

/// A number of 128 bits as the text of a UUID: thirty-two hexadecimal digits in groups of eight,
/// four, four, four and twelve.
pub open spec fn uuid_text(number: u128) -> Seq<char> {
    Seq::new(
        36,
        |i: int|
            if i == 8 || i == 13 || i == 18 || i == 23 {
                '-'
            } else {
                let before: int = if i < 8 {
                    0
                } else if i < 13 {
                    1
                } else if i < 18 {
                    2
                } else if i < 23 {
                    3
                } else {
                    4
                };
                hex_digit((number as int / pow(16, (31 - (i - before)) as nat)) % 16)
            },
    )
}

/// `to_string` of `uuid::Uuid::from_u128`: the hyphenated lower-case notation.
#[verifier::external_body]
pub(crate) fn write_uuid(number: u128) -> (text: String)
    ensures
        text@ == uuid_text(number),
{
    uuid::Uuid::from_u128(number).to_string()
}

/// `chrono::Utc::now`, as a date and time in UTC. Nothing is claimed of the reading.
#[verifier::external_body]
pub(crate) fn utc_now() -> (now: chrono::NaiveDateTime)
{
    chrono::Utc::now().naive_utc()
}

/// What `chrono::DateTime::to_rfc3339_opts` writes for a time in UTC, with as many fractional
/// digits as the time needs and `Z` for the offset.
pub uninterp spec fn rfc3339_text(time: chrono::NaiveDateTime) -> Seq<char>;

/// `chrono::DateTime::to_rfc3339_opts`: the text is named after the time.
#[verifier::external_body]
pub(crate) fn write_rfc3339(time: chrono::NaiveDateTime) -> (text: String)
    ensures
        text@ == rfc3339_text(time),
{
    time.and_utc().to_rfc3339_opts(chrono::SecondsFormat::AutoSi, true)
}

/// What the error of `String::from_utf8` says of bytes that are not UTF-8.
pub uninterp spec fn utf8_error_text(bytes: Seq<u8>) -> Seq<char>;

/// `String::from_utf8`: the text that the bytes encode, or, where they are not UTF-8, the text of
/// the error, named after the bytes.
#[verifier::external_body]
pub(crate) fn read_utf8(bytes: Vec<u8>) -> (text: Result<String, String>)
    ensures
        match text {
            Ok(text) => encode_utf8(text@) == bytes@,
            Err(error) => !valid_utf8(bytes@) && error@ == utf8_error_text(bytes@),
        },
{
    String::from_utf8(bytes).map_err(|error| error.to_string())
}

/// `socket2::SockAddr::unix`: whether a path can be the address of a Unix-domain socket, and if
/// not, the error text. How long a path may be is up to the operating system, so nothing is
/// claimed of the answer.
#[verifier::external_body]
pub(crate) fn check_socket_address(path: &std::path::PathBuf) -> (fits: Result<(), String>)
{
    match socket2::SockAddr::unix(path) {
        Ok(_) => Ok(()),
        Err(error) => Err(error.to_string()),
    }
}

} // verus!
