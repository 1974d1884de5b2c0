//! The rendezvous message of the TCP path: a JSON object with one field,
//! `address`, holding the peer's address as text.

use vstd::prelude::*;
use vstd::string::StringExecFns;

verus! {

/// The JSON string literal that serde_json writes for `s`: quoted, with the
/// characters that need it escaped.
pub uninterp spec fn json_string_literal(s: Seq<char>) -> Seq<char>;

/// What serde_json reads from `b` as an object of string fields: `None` when
/// `b` is no such object, else the value of field `key`, if it has one.
pub uninterp spec fn json_string_field(b: Seq<u8>, key: Seq<char>) -> Option<Option<Seq<char>>>;

/// The text of an optional string.
pub open spec fn opt_text(v: Option<String>) -> Option<Seq<char>> {
    match v {
        Some(s) => Some(s@),
        None => None,
    }
}

/// Relies on the compact rendering of `serde_json::Value::String`: the JSON
/// string literal of `s`, which depends on `s` alone.
#[verifier::external_body]
fn to_json_string(s: &str) -> (r: String)
    ensures
        r@ == json_string_literal(s@),
{
    serde_json::Value::String(s.to_owned()).to_string()
}

/// Relies on `serde_json::from_slice` into a `HashMap<String, String>`, and
/// on looking `key` up in the map it gives.
#[verifier::external_body]
fn read_json_string_field(b: &[u8], key: &str) -> (r: Option<Option<String>>)
    ensures
        match r {
            None => json_string_field(b@, key@) is None,
            Some(v) => json_string_field(b@, key@) == Some(opt_text(v)),
        },
{
    serde_json::from_slice::<std::collections::HashMap<String, String>>(b).ok().map(
        |m| m.get(key).cloned(),
    )
}

/// The name of the one field of the message.
pub open spec fn address_key() -> Seq<char> {
    "address"@
}

/// The message around an already quoted address: `{"address":` then the
/// literal then `}`.
pub open spec fn address_object(literal: Seq<char>) -> Seq<char> {
    "{\"address\":"@ + literal + "}"@
}

/// The message that announces the peer address `addr_text`.
pub open spec fn address_message_spec(addr_text: Seq<char>) -> Seq<char> {
    address_object(json_string_literal(addr_text))
}

/// Why a rendezvous message gave no address.
#[derive(Clone, Copy, Debug, PartialEq, Eq, Structural)]
pub enum MessageError {
    /// The bytes are not a JSON object of string fields.
    Malformed,
    /// The object has no `address` field.
    MissingAddress,
}

/// Frames an already quoted JSON string as the address message.
pub fn frame_address_literal(literal: &str) -> (r: String)
    ensures
        r@ == address_object(literal@),
{
    let head = String::from_str("{\"address\":");
    head.concat(literal).concat("}")
}

/// The message that announces the peer address `addr_text`, as the server
/// sends it.
pub fn address_message(addr_text: &str) -> (r: String)
    ensures
        r@ == address_message_spec(addr_text@),
{
    let literal = to_json_string(addr_text);
    frame_address_literal(literal.as_str())
}

/// The address that a read of the message yields: `field` is `None` for a
/// malformed message, `Some(None)` for one without the field.
pub fn address_from_field(field: Option<Option<String>>) -> (r: Result<String, MessageError>)
    ensures
        match field {
            None => r == Err::<String, MessageError>(MessageError::Malformed),
            Some(None) => r == Err::<String, MessageError>(MessageError::MissingAddress),
            Some(Some(t)) => r is Ok && r->Ok_0@ == t@,
        },
{
    match field {
        None => Err(MessageError::Malformed),
        Some(None) => Err(MessageError::MissingAddress),
        Some(Some(t)) => Ok(t),
    }
}

/// Reads the peer address text out of a message from the server.
pub fn decode_address_message(b: &[u8]) -> (r: Result<String, MessageError>)
    ensures
        match json_string_field(b@, address_key()) {
            None => r == Err::<String, MessageError>(MessageError::Malformed),
            Some(None) => r == Err::<String, MessageError>(MessageError::MissingAddress),
            Some(Some(t)) => r is Ok && r->Ok_0@ == t,
        },
{
    let field = read_json_string_field(b, "address");
    address_from_field(field)
}

} // verus!
