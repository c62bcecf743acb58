//! The payload classifier: distinguishes a liveness probe from a command
//! invocation and decodes the command's arguments.
//!
//! A verified body is JSON. A discriminator field `type` of value 1 marks a
//! probe; any other value marks a command invocation, whose `data` member
//! carries the target collection's name and an ordered list of options. The
//! query text is the first option's value; an invocation with no options is
//! a caller contract violation.
//!
//! The JSON tree itself is the parser crate's and opaque here; what the
//! parser and each accessor return is given a name (`parsed_json`,
//! `json_field`, `json_u64`, `json_string`, `json_items`), and
//! `decoded_payload` states classification exactly over those names.

use crate::RequestError;
use vstd::prelude::*;

verus! {

#[verifier::external_type_specification]
#[verifier::external_body]
pub struct ExValue(serde_json::Value);

/// The discriminator value that marks a liveness probe.
pub const PROBE_DISCRIMINATOR: u64 = 1;

/// The decoded intent of a command invocation: which collection to search,
/// and the free-form query text.
#[derive(Debug, PartialEq, Eq, Clone)]
pub struct Command {
    pub collection: String,
    pub query_text: String,
}

/// A decoded request payload: a liveness probe, or a command invocation.
#[derive(Debug, PartialEq, Eq, Clone)]
pub enum Payload {
    Probe,
    Invoke(Command),
}

/// What parsing a byte string as JSON returns: the document, or `None`
/// when the bytes are not one valid JSON document. A function of the bytes
/// alone.
pub uninterp spec fn parsed_json(bytes: Seq<u8>) -> Option<serde_json::Value>;

/// What object field lookup returns: the named member, or `None` when the
/// value is no object or has no such member.
pub uninterp spec fn json_field(v: serde_json::Value, key: Seq<char>) -> Option<serde_json::Value>;

/// What reading a value as an unsigned integer returns: its value when it
/// is a JSON integer representable in a `u64`, else `None`.
pub uninterp spec fn json_u64(v: serde_json::Value) -> Option<u64>;

/// What reading a value as a string returns: its characters when it is a
/// JSON string, else `None`.
pub uninterp spec fn json_string(v: serde_json::Value) -> Option<Seq<char>>;

/// What reading a value as an array returns: its elements in order when it
/// is a JSON array, else `None`.
pub uninterp spec fn json_items(v: serde_json::Value) -> Option<Seq<serde_json::Value>>;

/// Relies on `serde_json::from_slice::<Value>`: parses a byte string as one
/// JSON document — a deterministic, recursion-limited parser that returns
/// an error rather than panicking.
#[verifier::external_body]
pub(crate) fn json_parse(bytes: &[u8]) -> (r: Option<serde_json::Value>)
    ensures
        r == parsed_json(bytes@),
{
    serde_json::from_slice(bytes).ok()
}

/// Relies on `serde_json::Value::get` with a string index: looks a field up
/// in a JSON object, `None` when the value is no object or has no such field.
#[verifier::external_body]
pub(crate) fn json_get<'a>(v: &'a serde_json::Value, key: &str) -> (r: Option<
    &'a serde_json::Value,
>)
    ensures
        match r {
            Some(f) => json_field(*v, key@) == Some(*f),
            None => json_field(*v, key@) is None,
        },
{
    v.get(key)
}

/// Relies on `serde_json::Value::as_u64`: the value of a JSON integer that
/// fits a `u64`, `None` for anything else.
#[verifier::external_body]
pub(crate) fn json_as_u64(v: &serde_json::Value) -> (r: Option<u64>)
    ensures
        r == json_u64(*v),
{
    v.as_u64()
}

/// Relies on `serde_json::Value::as_str`: the contents of a JSON string,
/// `None` for anything else.
#[verifier::external_body]
pub(crate) fn json_as_string(v: &serde_json::Value) -> (r: Option<String>)
    ensures
        match r {
            Some(s) => json_string(*v) == Some(s@),
            None => json_string(*v) is None,
        },
{
    v.as_str().map(str::to_owned)
}

/// Relies on `serde_json::Value::as_array`: the elements of a JSON array,
/// `None` for anything else.
#[verifier::external_body]
pub(crate) fn json_as_array<'a>(v: &'a serde_json::Value) -> (r: Option<
    &'a Vec<serde_json::Value>,
>)
    ensures
        match r {
            Some(a) => json_items(*v) == Some(a@),
            None => json_items(*v) is None,
        },
{
    v.as_array()
}

/// The value of one option: the string under its `value` member, or `None`
/// when the member is absent or no string.
pub open spec fn option_value_of(item: serde_json::Value) -> Option<Seq<char>> {
    match json_field(item, "value"@) {
        None => None,
        Some(f) => json_string(f),
    }
}

/// Whether every element of an options array carries a string `value`.
pub open spec fn all_options_valid(items: Seq<serde_json::Value>) -> bool {
    forall|j: int| 0 <= j < items.len() ==> option_value_of(#[trigger] items[j]) is Some
}

/// What classification says of one body, over the parse names: a probe, a
/// command invocation's collection name and query text, or the exact error.
pub ghost enum DecodeOutcome {
    Probe,
    Invoke { collection: Seq<char>, query: Seq<char> },
    Fail { error: RequestError },
}

/// The command half of `decoded_payload`: the body's `data` member must
/// hold a string `name` and an array `options` of objects each holding a
/// string `value`; the query text is the first option's value, and zero
/// options are the caller's contract violation.
pub open spec fn decoded_command(doc: serde_json::Value) -> DecodeOutcome {
    match json_field(doc, "data"@) {
        None => DecodeOutcome::Fail { error: RequestError::InvalidEncoding },
        Some(data) => match json_field(data, "name"@) {
            None => DecodeOutcome::Fail { error: RequestError::InvalidEncoding },
            Some(name_field) => match json_string(name_field) {
                None => DecodeOutcome::Fail { error: RequestError::InvalidEncoding },
                Some(name) => match json_field(data, "options"@) {
                    None => DecodeOutcome::Fail { error: RequestError::InvalidEncoding },
                    Some(options_field) => match json_items(options_field) {
                        None => DecodeOutcome::Fail { error: RequestError::InvalidEncoding },
                        Some(items) => if !all_options_valid(items) {
                            DecodeOutcome::Fail { error: RequestError::InvalidEncoding }
                        } else if items.len() == 0 {
                            DecodeOutcome::Fail { error: RequestError::MalformedPayload }
                        } else {
                            match option_value_of(items[0]) {
                                Some(query) => DecodeOutcome::Invoke { collection: name, query },
                                None => DecodeOutcome::Fail {
                                    error: RequestError::InvalidEncoding,
                                },
                            }
                        },
                    },
                },
            },
        },
    }
}

/// What classification returns for a body, over the parse names: not valid
/// JSON, no `type` member, a non-integer or out-of-range discriminator —
/// `InvalidEncoding`; discriminator 1 — a probe; anything else — the
/// command case.
pub open spec fn decoded_payload(body: Seq<u8>) -> DecodeOutcome {
    match parsed_json(body) {
        None => DecodeOutcome::Fail { error: RequestError::InvalidEncoding },
        Some(doc) => match json_field(doc, "type"@) {
            None => DecodeOutcome::Fail { error: RequestError::InvalidEncoding },
            Some(type_field) => match json_u64(type_field) {
                None => DecodeOutcome::Fail { error: RequestError::InvalidEncoding },
                Some(d) => if d > u32::MAX as u64 {
                    DecodeOutcome::Fail { error: RequestError::InvalidEncoding }
                } else if d == PROBE_DISCRIMINATOR {
                    DecodeOutcome::Probe
                } else {
                    decoded_command(doc)
                },
            },
        },
    }
}

/// Builds a Command from a collection name and the decoded option values.
///
/// The query text is the first option's value. Zero options violate the
/// caller's contract: that fails with `MalformedPayload`, never with a
/// silent default.
pub fn command_from_values(name: String, values: &Vec<String>) -> (r: Result<
    Command,
    RequestError,
>)
    ensures
        values@.len() == 0 ==> (r matches Err(e) && e == RequestError::MalformedPayload),
        values@.len() > 0 ==> (r matches Ok(c) && c.collection@ == name@ && c.query_text@
            == values@[0]@),
{
    if values.len() == 0 {
        Err(RequestError::MalformedPayload)
    } else {
        Ok(Command { collection: name, query_text: values[0].clone() })
    }
}

/// Classifies and decodes a verified request body, exactly as
/// `decoded_payload` says: `Ok(Probe)` for discriminator 1, `Ok(Invoke)`
/// carrying the body's `data.name` and first option value, and otherwise
/// the error `decoded_payload` names.
#[verifier::loop_isolation(false)]
pub fn decode_payload(body: &Vec<u8>) -> (r: Result<Payload, RequestError>)
    ensures
        match decoded_payload(body@) {
            DecodeOutcome::Probe => r == Ok::<Payload, RequestError>(Payload::Probe),
            DecodeOutcome::Invoke { collection, query } => (r matches Ok(p) && p matches
                Payload::Invoke(c) && c.collection@ == collection && c.query_text@ == query),
            DecodeOutcome::Fail { error } => (r matches Err(e) && e == error),
        },
{
    let doc = match json_parse(body.as_slice()) {
        Some(v) => v,
        None => {
            return Err(RequestError::InvalidEncoding);
        },
    };
    let discriminator_field = match json_get(&doc, "type") {
        Some(v) => v,
        None => {
            return Err(RequestError::InvalidEncoding);
        },
    };
    let discriminator = match json_as_u64(discriminator_field) {
        Some(t) => t,
        None => {
            return Err(RequestError::InvalidEncoding);
        },
    };
    if discriminator > u32::MAX as u64 {
        return Err(RequestError::InvalidEncoding);
    }
    if discriminator == PROBE_DISCRIMINATOR {
        return Ok(Payload::Probe);
    }
    let data = match json_get(&doc, "data") {
        Some(v) => v,
        None => {
            return Err(RequestError::InvalidEncoding);
        },
    };
    let name_field = match json_get(data, "name") {
        Some(v) => v,
        None => {
            return Err(RequestError::InvalidEncoding);
        },
    };
    let name = match json_as_string(name_field) {
        Some(s) => s,
        None => {
            return Err(RequestError::InvalidEncoding);
        },
    };
    let options = match json_get(data, "options") {
        Some(v) => v,
        None => {
            return Err(RequestError::InvalidEncoding);
        },
    };
    let items = match json_as_array(options) {
        Some(a) => a,
        None => {
            return Err(RequestError::InvalidEncoding);
        },
    };
    let mut values: Vec<String> = Vec::new();
    let mut i: usize = 0;
    while i < items.len()
        invariant
            i <= items@.len(),
            values@.len() == i,
            forall|j: int|
                0 <= j < i ==> option_value_of(#[trigger] items@[j]) == Some(values@[j]@),
        decreases items@.len() - i,
    {
        let value_field = match json_get(&items[i], "value") {
            Some(v) => v,
            None => {
                proof {
                    assert(option_value_of(items@[i as int]) is None);
                }
                return Err(RequestError::InvalidEncoding);
            },
        };
        let value = match json_as_string(value_field) {
            Some(s) => s,
            None => {
                proof {
                    assert(option_value_of(items@[i as int]) is None);
                }
                return Err(RequestError::InvalidEncoding);
            },
        };
        values.push(value);
        i = i + 1;
    }
    match command_from_values(name, &values) {
        Ok(c) => Ok(Payload::Invoke(c)),
        Err(e) => Err(e),
    }
}

} // verus!
