//! Reading the JSON text of a frame with serde_json and json_rpc_types.
use vstd::prelude::*;
use json_rpc_types::{Id, Request, Response};
use serde_json::Value;
use crate::stratum::protocol::{JsonValue, RpcError, RpcId};

verus! {

#[verifier::external_type_specification]
#[verifier::external_body]
pub struct ExJsonError(serde_json::Error);

/// A JSON-RPC request as read from its text: its id (if any), its method,
/// and the JSON text of each of its parameters (if it has any).
#[derive(Debug)]
pub struct RequestFrame {
    pub id: Option<RpcId>,
    pub method: String,
    pub params: Option<Vec<String>>,
}

/// A JSON-RPC response as read from its text: its id (if any), and the JSON
/// text of its result or its error.
#[derive(Debug)]
pub struct ResponseFrame {
    pub id: Option<RpcId>,
    pub payload: Result<String, RpcError>,
}

/// The JSON value that a text stands for, one level deep, if it is JSON.
pub uninterp spec fn json_value_of(bytes: Seq<u8>) -> Option<JsonValue>;

/// The JSON-RPC request that a text stands for, if it is one.
pub uninterp spec fn json_request_of(bytes: Seq<u8>) -> Option<RequestFrame>;

/// The JSON-RPC response that a text stands for, if it is one.
pub uninterp spec fn json_response_of(bytes: Seq<u8>) -> Option<ResponseFrame>;

/// `serde_json::from_slice` into a `serde_json::Value`, with the value kept
/// one level deep: a number as its `as_u64`, the items of an array and the
/// members of an object (in the map's order) with their values as their
/// JSON text (`Display` of `Value`). It fails where the bytes are not JSON
/// text.
#[verifier::external_body]
pub(crate) fn read_json(bytes: &[u8]) -> (res: Result<JsonValue, serde_json::Error>)
    ensures
        res is Ok <==> json_value_of(bytes@) is Some,
        res matches Ok(value) ==> value == json_value_of(bytes@)->0,
{
    serde_json::from_slice::<Value>(bytes).map(|value| match value {
        Value::Null => JsonValue::Null,
        Value::Bool(b) => JsonValue::Bool(b),
        Value::Number(n) => JsonValue::Number(n.as_u64()),
        Value::String(s) => JsonValue::Str(s),
        Value::Array(items) => JsonValue::Array(items.iter().map(Value::to_string).collect()),
        Value::Object(map) => JsonValue::Object(map.iter().map(|(k, v)| (k.clone(), v.to_string())).collect()),
    })
}

/// `serde_json::from_value` into a `json_rpc_types::Request<Vec<Value>>` of
/// the value that `serde_json::from_slice` reads, with the id as the
/// library's id, the method as text and each parameter as its JSON text.
/// Each parameter's text reads back as JSON: `Display` of `Value` writes
/// JSON text, of less depth than the text it was read from.
#[verifier::external_body]
pub(crate) fn read_json_request(bytes: &[u8]) -> (res: Result<RequestFrame, serde_json::Error>)
    ensures
        res is Ok <==> json_request_of(bytes@) is Some,
        res matches Ok(request) ==> request == json_request_of(bytes@)->0,
        res matches Ok(request) ==> request.params matches Some(params) ==> forall|i: int|
            0 <= i < params@.len() ==> #[trigger] json_value_of(vstd::utf8::encode_utf8(params@[i]@)) is Some,
{
    let request = serde_json::from_slice::<Value>(bytes).and_then(serde_json::from_value::<Request<Vec<Value>>>)?;
    Ok(RequestFrame {
        id: request.id.map(|id| match id { Id::Num(n) => RpcId::Num(n), Id::Str(s) => RpcId::Str(s.as_str().to_string()) }),
        method: request.method.as_str().to_string(),
        params: request.params.map(|params| params.iter().map(Value::to_string).collect()),
    })
}

/// `serde_json::from_value` into a `json_rpc_types::Response<Value, (),
/// String>` of the value that `serde_json::from_slice` reads, with the id as
/// the library's id, a result as its JSON text and an error as its code and
/// message. A result's text reads back as JSON, as for `read_json_request`.
#[verifier::external_body]
pub(crate) fn read_json_response(bytes: &[u8]) -> (res: Result<ResponseFrame, serde_json::Error>)
    ensures
        res is Ok <==> json_response_of(bytes@) is Some,
        res matches Ok(response) ==> response == json_response_of(bytes@)->0,
        res matches Ok(response) ==> response.payload matches Ok(text) ==> json_value_of(
            vstd::utf8::encode_utf8(text@),
        ) is Some,
{
    let response = serde_json::from_slice::<Value>(bytes).and_then(serde_json::from_value::<Response<Value, (), String>>)?;
    Ok(ResponseFrame {
        id: response.id.map(|id| match id { Id::Num(n) => RpcId::Num(n), Id::Str(s) => RpcId::Str(s.as_str().to_string()) }),
        payload: response.payload.map(|value| value.to_string()).map_err(|e| RpcError { code: e.code.code(), message: e.message }),
    })
}

} // verus!
