//! The JSON-RPC envelopes that go to a backend and come back from it.
//!
//! Payloads (`params`, `result`, `error`) are carried as JSON text, in
//! bytes, and never looked into. An envelope is written around them here;
//! a response is taken apart with the JSON reader of `serde_json`.

use vstd::prelude::*;
use vstd::string::StringSliceAdditionalSpecFns;
use crate::decimal::{signed_decimal, write_signed_decimal};
use crate::framing::{encode_frame, frame};
use crate::text::{append_bytes, bytes_eq};

verus! {

/// The JSON string literal that `serde_json` writes for the text `s`.
pub uninterp spec fn json_string(s: Seq<char>) -> Seq<u8>;

/// Whether `doc` is the text of a JSON object, as `serde_json` reads it.
pub uninterp spec fn json_is_object(doc: Seq<u8>) -> bool;

/// The JSON text of the member `key` of the JSON object `doc`, as
/// `serde_json` reads the one and writes the other; `None` where `doc` is
/// no JSON text, no object, or has no such member.
pub uninterp spec fn json_member(doc: Seq<u8>, key: Seq<char>) -> Option<Seq<u8>>;

/// The integer that the JSON text `doc` stands for, where it is a number
/// that fits an `i64` and has no fraction or exponent.
pub uninterp spec fn json_integer(doc: Seq<u8>) -> Option<i64>;

/// The text that the JSON text `doc` stands for, where it is a string.
pub uninterp spec fn json_text(doc: Seq<u8>) -> Option<Seq<char>>;

/// The number that the JSON text `doc` stands for, where it is an integer
/// that is not negative and fits a `u64`.
pub uninterp spec fn json_unsigned(doc: Seq<u8>) -> Option<u64>;

/// `serde_json::to_vec` of a `str` writes it as a JSON string literal,
/// quoted and escaped. Writing to a vector does not fail.
#[verifier::external_body]
pub(crate) fn quote(s: &str) -> (out: Vec<u8>)
    ensures
        out@ == json_string(s@),
{
    serde_json::to_vec(s).unwrap_or_default()
}

/// `serde_json::Value::is_object` on the value that `serde_json::from_slice`
/// reads from `doc`; text that does not parse is no object.
#[verifier::external_body]
pub(crate) fn is_object(doc: &[u8]) -> (out: bool)
    ensures
        out == json_is_object(doc@),
{
    match serde_json::from_slice::<serde_json::Value>(doc) {
        Ok(value) => value.is_object(),
        Err(_) => false,
    }
}

/// `serde_json::Value::get` with a string key, on the value that
/// `serde_json::from_slice` reads from `doc`: the member of that name where
/// the value is an object that has one. The member is handed out as the
/// text that `serde_json::to_vec` writes for it.
#[verifier::external_body]
pub(crate) fn member(doc: &[u8], key: &str) -> (out: Option<Vec<u8>>)
    ensures
        match out {
            Some(text) => json_member(doc@, key@) == Some(text@),
            None => json_member(doc@, key@) is None,
        },
{
    let value: serde_json::Value = serde_json::from_slice(doc).ok()?;
    serde_json::to_vec(value.get(key)?).ok()
}

/// `serde_json::Value::as_i64` on the value that `serde_json::from_slice`
/// reads from `doc`: the integer, where the value is one that fits.
#[verifier::external_body]
pub(crate) fn integer(doc: &[u8]) -> (out: Option<i64>)
    ensures
        out == json_integer(doc@),
{
    serde_json::from_slice::<serde_json::Value>(doc).ok()?.as_i64()
}

/// `serde_json::Value::as_str` on the value that `serde_json::from_slice`
/// reads from `doc`: the text, where the value is a string.
#[verifier::external_body]
pub(crate) fn text_of(doc: &[u8]) -> (out: Option<String>)
    ensures
        match out {
            Some(text) => json_text(doc@) == Some(text@),
            None => json_text(doc@) is None,
        },
{
    Some(serde_json::from_slice::<serde_json::Value>(doc).ok()?.as_str()?.to_string())
}

/// `serde_json::Value::as_u64` on the value that `serde_json::from_slice`
/// reads from `doc`: the number, where the value is an integer that fits.
#[verifier::external_body]
pub(crate) fn unsigned(doc: &[u8]) -> (out: Option<u64>)
    ensures
        out == json_unsigned(doc@),
{
    serde_json::from_slice::<serde_json::Value>(doc).ok()?.as_u64()
}

/// The text of the JSON value `null`.
pub open spec fn null_text() -> Seq<u8> {
    "null".spec_bytes()
}

/// The payload under `key` in the envelope `doc`: the member's text, where
/// there is such a member and it is not `null`.
pub open spec fn payload(doc: Seq<u8>, key: Seq<char>) -> Option<Seq<u8>> {
    match json_member(doc, key) {
        Some(text) => if text == null_text() {
            None
        } else {
            Some(text)
        },
        None => None,
    }
}

/// The identifier in the envelope `doc`: its member `id`, where that is an
/// integer.
pub open spec fn envelope_id(doc: Seq<u8>) -> Option<i64> {
    match json_member(doc, "id"@) {
        Some(text) => json_integer(text),
        None => None,
    }
}

/// The start of every envelope: the opening brace and the version member.
pub open spec fn envelope_open() -> Seq<u8> {
    "{\"jsonrpc\":\"2.0\"".spec_bytes()
}

/// The member `method`, and the member `params` where there are any, with
/// the comma before each.
pub open spec fn method_and_params(method: Seq<char>, params: Option<Seq<u8>>) -> Seq<u8> {
    ",\"method\":".spec_bytes() + json_string(method) + match params {
        Some(text) => ",\"params\":".spec_bytes() + text,
        None => Seq::empty(),
    }
}

/// The envelope of a request: version, identifier, method, and the
/// parameters where there are any.
pub open spec fn request_json(id: i64, method: Seq<char>, params: Option<Seq<u8>>) -> Seq<u8> {
    envelope_open() + ",\"id\":".spec_bytes() + signed_decimal(id as int) + method_and_params(
        method,
        params,
    ) + "}".spec_bytes()
}

/// The envelope of a notification: as a request's, without an identifier.
pub open spec fn notification_json(method: Seq<char>, params: Option<Seq<u8>>) -> Seq<u8> {
    envelope_open() + method_and_params(method, params) + "}".spec_bytes()
}

/// A payload as a mathematical value.
pub open spec fn payload_view(payload: Option<Vec<u8>>) -> Option<Seq<u8>> {
    match payload {
        Some(text) => Some(text@),
        None => None,
    }
}

/// A request to a backend, which answers it with a response that carries
/// the same identifier.
#[derive(Debug, Clone)]
pub struct JsonRpcRequest {
    pub id: i64,
    pub method: String,
    /// The parameters as JSON text.
    pub params: Option<Vec<u8>>,
}

/// A notification to a backend, which does not answer it.
#[derive(Debug, Clone)]
pub struct JsonRpcNotification {
    pub method: String,
    /// The parameters as JSON text.
    pub params: Option<Vec<u8>>,
}

/// A response as a mathematical value.
pub struct ResponseView {
    pub id: Option<i64>,
    pub result: Option<Seq<u8>>,
    pub error: Option<Seq<u8>>,
}

/// A backend's response to a request.
#[derive(Debug, Clone)]
pub struct JsonRpcResponse {
    /// The identifier of the request that it answers.
    pub id: Option<i64>,
    /// The result as JSON text, present on success.
    pub result: Option<Vec<u8>>,
    /// The error as JSON text, present on failure.
    pub error: Option<Vec<u8>>,
}

impl View for JsonRpcResponse {
    type V = ResponseView;

    open spec fn view(&self) -> ResponseView {
        ResponseView {
            id: self.id,
            result: payload_view(self.result),
            error: payload_view(self.error),
        }
    }
}

/// What the body of a frame decodes to: a response, where the body is a
/// JSON object. Its identifier is the member `id` where that is an
/// integer; `result` and `error` are the members of those names where they
/// are there and not `null`.
pub open spec fn decoded(doc: Seq<u8>) -> Option<ResponseView> {
    if json_is_object(doc) {
        Some(
            ResponseView {
                id: envelope_id(doc),
                result: payload(doc, "result"@),
                error: payload(doc, "error"@),
            },
        )
    } else {
        None
    }
}

fn write_method_and_params(out: &mut Vec<u8>, method: &str, params: &Option<Vec<u8>>)
    ensures
        final(out)@ == old(out)@ + method_and_params(method@, payload_view(*params)),
{
    append_bytes(out, ",\"method\":".as_bytes());
    let name = quote(method);
    append_bytes(out, name.as_slice());
    match params {
        Some(text) => {
            append_bytes(out, ",\"params\":".as_bytes());
            append_bytes(out, text.as_slice());
            assert(out@ =~= old(out)@ + method_and_params(method@, payload_view(*params)));
        },
        None => {
            assert(out@ =~= old(out)@ + method_and_params(method@, payload_view(*params)));
        },
    }
}

impl JsonRpcRequest {
    /// A request with the identifier `id` for the method `method`.
    pub fn new(id: i64, method: &str, params: Option<Vec<u8>>) -> (request: Self)
        ensures
            request.id == id,
            request.method@ == method@,
            request.params == params,
    {
        JsonRpcRequest { id, method: method.to_owned(), params }
    }

    /// Writes the request's envelope.
    pub fn encode(&self) -> (out: Vec<u8>)
        ensures
            out@ == request_json(self.id, self.method@, payload_view(self.params)),
    {
        let mut out: Vec<u8> = Vec::new();
        append_bytes(&mut out, "{\"jsonrpc\":\"2.0\"".as_bytes());
        append_bytes(&mut out, ",\"id\":".as_bytes());
        let digits = write_signed_decimal(self.id);
        append_bytes(&mut out, digits.as_slice());
        write_method_and_params(&mut out, self.method.as_str(), &self.params);
        append_bytes(&mut out, "}".as_bytes());
        assert(out@ =~= request_json(self.id, self.method@, payload_view(self.params)));
        out
    }
}

impl JsonRpcNotification {
    /// A notification for the method `method`.
    pub fn new(method: &str, params: Option<Vec<u8>>) -> (notification: Self)
        ensures
            notification.method@ == method@,
            notification.params == params,
    {
        JsonRpcNotification { method: method.to_owned(), params }
    }

    /// Writes the notification's envelope.
    pub fn encode(&self) -> (out: Vec<u8>)
        ensures
            out@ == notification_json(self.method@, payload_view(self.params)),
    {
        let mut out: Vec<u8> = Vec::new();
        append_bytes(&mut out, "{\"jsonrpc\":\"2.0\"".as_bytes());
        write_method_and_params(&mut out, self.method.as_str(), &self.params);
        append_bytes(&mut out, "}".as_bytes());
        assert(out@ =~= notification_json(self.method@, payload_view(self.params)));
        out
    }
}

/// Puts an envelope into a frame, ready to be written to a backend.
pub fn encode_message(envelope: &[u8]) -> (out: Vec<u8>)
    ensures
        out@ == frame(envelope@),
{
    encode_frame(envelope)
}

/// The member `key` of the envelope `doc`, unless it is `null`.
fn read_payload(doc: &[u8], key: &str) -> (out: Option<Vec<u8>>)
    ensures
        payload_view(out) == payload(doc@, key@),
{
    match member(doc, key) {
        Some(text) => {
            if bytes_eq(text.as_slice(), "null".as_bytes()) {
                None
            } else {
                Some(text)
            }
        },
        None => None,
    }
}

impl JsonRpcResponse {
    /// Decodes the body of a frame as a response. `None` where the body is
    /// no JSON object: such a frame is to be passed over.
    pub fn decode(body: &[u8]) -> (out: Option<Self>)
        ensures
            match out {
                Some(response) => decoded(body@) == Some(response@),
                None => decoded(body@) is None,
            },
    {
        if !is_object(body) {
            return None;
        }
        let id = match member(body, "id") {
            Some(text) => integer(text.as_slice()),
            None => None,
        };
        let result = read_payload(body, "result");
        let error = read_payload(body, "error");
        Some(JsonRpcResponse { id, result, error })
    }
}

} // verus!
