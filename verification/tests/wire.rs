use bytes::BytesMut;
use wusheng_pool_client::stratum::codec::{encode_message, read_frame, CodecError, DecodeError, RpcOutgoing, StratumCodec};
use wusheng_pool_client::stratum::message::ResponseParams;
use wusheng_pool_client::stratum::protocol::{JsonValue, RpcError, RpcId, StratumProtocol};

#[test]
fn reads_a_notify_request() {
    let text = br#"{"jsonrpc":"2.0","method":"mining.notify","params":["j","r","a","b","c","d",true]}"#;
    match read_frame(text) {
        Ok(Some(StratumProtocol::Notify(j, r, a, b, c, d, true))) => {
            assert_eq!(vec![j, r, a, b, c, d], vec!["j", "r", "a", "b", "c", "d"])
        }
        other => panic!("unexpected {:?}", other),
    }
}

#[test]
fn reads_subscribe_with_string_id_and_null_session() {
    let text = br#"{"jsonrpc":"2.0","id":"s1","method":"mining.subscribe","params":["agent","v1",null]}"#;
    match read_frame(text) {
        Ok(Some(StratumProtocol::Subscribe(RpcId::Str(id), agent, version, None))) => {
            assert_eq!((id.as_str(), agent.as_str(), version.as_str()), ("s1", "agent", "v1"))
        }
        other => panic!("unexpected {:?}", other),
    }
}

#[test]
fn reads_set_target_and_rejects_wrong_params() {
    let text = br#"{"jsonrpc":"2.0","method":"mining.set_target","params":[123]}"#;
    assert!(matches!(read_frame(text), Ok(Some(StratumProtocol::SetTarget(123)))));
    let text = br#"{"jsonrpc":"2.0","method":"mining.set_target","params":[-1]}"#;
    assert!(matches!(read_frame(text), Err(DecodeError::Codec(CodecError::NotU64))));
    let text = br#"{"jsonrpc":"2.0","method":"mining.set_target","params":[[1,2]]}"#;
    assert!(matches!(read_frame(text), Err(DecodeError::Codec(CodecError::NotU64))));
    let text = br#"{"jsonrpc":"2.0","method":"mining.unknown","params":[]}"#;
    assert!(matches!(read_frame(text), Err(DecodeError::Codec(CodecError::UnknownMethod))));
    let text = br#"{"jsonrpc":"2.0","method":"mining.notify"}"#;
    assert!(matches!(read_frame(text), Err(DecodeError::Codec(CodecError::NoParams))));
}

#[test]
fn reads_responses() {
    let text = br#"{"jsonrpc":"2.0","result":true,"id":3}"#;
    assert!(matches!(
        read_frame(text),
        Ok(Some(StratumProtocol::Response(RpcId::Num(3), Some(ResponseParams::Bool(true)), None)))
    ));
    let text = br#"{"jsonrpc":"2.0","result":[1,"a",[2]],"id":4}"#;
    match read_frame(text) {
        Ok(Some(StratumProtocol::Response(RpcId::Num(4), Some(ResponseParams::Array(items)), None))) => {
            assert_eq!(items, vec!["1", "\"a\"", "[2]"])
        }
        other => panic!("unexpected {:?}", other),
    }
    let text = br#"{"jsonrpc":"2.0","error":{"code":-32000,"message":"stale"},"id":5}"#;
    match read_frame(text) {
        Ok(Some(StratumProtocol::Response(RpcId::Num(5), None, Some(error)))) => {
            assert_eq!(error, RpcError { code: -32000, message: "stale".to_string() })
        }
        other => panic!("unexpected {:?}", other),
    }
    let text = br#"{"jsonrpc":"2.0","result":"text","id":6}"#;
    assert!(matches!(read_frame(text), Err(DecodeError::Codec(CodecError::InvalidResult))));
}

#[test]
fn refuses_what_is_not_a_message() {
    assert!(matches!(read_frame(b"[1,2]"), Err(DecodeError::Codec(CodecError::NotAnObject))));
    assert!(matches!(read_frame(b"not json"), Err(DecodeError::Json(_))));
    assert!(matches!(read_frame(br#"{"method":5}"#), Err(DecodeError::Json(_))));
    // a null result counts as no result, and a response needs one or an error
    assert!(matches!(read_frame(br#"{"jsonrpc":"2.0","result":null,"id":1}"#), Err(DecodeError::Json(_))));
}

#[test]
fn decode_reads_messages_off_the_stream() {
    let mut codec = StratumCodec::default();
    let mut buf = BytesMut::from(&br#"{"jsonrpc":"2.0","method":"mining.set_"#[..]);
    assert!(matches!(codec.decode(&mut buf), Ok(None)));
    buf.extend_from_slice(b"target\",\"params\":[9]}\n{\"jsonrpc\":\"2.0\",\"result\":false,\"id\":1}\n");
    assert!(matches!(codec.decode(&mut buf), Ok(Some(StratumProtocol::SetTarget(9)))));
    assert!(matches!(
        codec.decode(&mut buf),
        Ok(Some(StratumProtocol::Response(RpcId::Num(1), Some(ResponseParams::Bool(false)), None)))
    ));
    assert!(buf.is_empty());
    assert!(matches!(codec.decode(&mut buf), Ok(None)));
}

fn written_request(message: StratumProtocol) -> Vec<u8> {
    let (method, params, id) = match encode_message(message) {
        RpcOutgoing::Request { method, params, id } => (method, params, id),
        other => panic!("not a request: {:?}", other),
    };
    let params: Vec<serde_json::Value> = params
        .into_iter()
        .map(|p| match p {
            JsonValue::Null => serde_json::Value::Null,
            JsonValue::Bool(b) => serde_json::Value::Bool(b),
            JsonValue::Number(Some(n)) => serde_json::Value::from(n),
            JsonValue::Str(s) => serde_json::Value::String(s),
            other => panic!("unexpected parameter {:?}", other),
        })
        .collect();
    let request = json_rpc_types::Request {
        jsonrpc: json_rpc_types::Version::V2,
        method: json_rpc_types::str_buf::StrBuf::<32>::from_str_checked(method).unwrap(),
        params: Some(params),
        id: id.map(|id| match id {
            RpcId::Num(n) => json_rpc_types::Id::Num(n),
            RpcId::Str(s) => json_rpc_types::Id::Str(json_rpc_types::str_buf::StrBuf::from_str_checked(&s).unwrap()),
        }),
    };
    serde_json::to_vec(&request).unwrap()
}

#[test]
fn written_requests_read_back_as_themselves() {
    let text = written_request(StratumProtocol::Submit(RpcId::Num(8), "j".into(), "n".into(), "p".into()));
    match read_frame(&text) {
        Ok(Some(StratumProtocol::Submit(RpcId::Num(8), j, n, p))) => assert_eq!(vec![j, n, p], vec!["j", "n", "p"]),
        other => panic!("unexpected {:?}", other),
    }
    let text = written_request(StratumProtocol::Authorize(RpcId::Num(1), "acct".into(), "m".into(), None));
    match read_frame(&text) {
        Ok(Some(StratumProtocol::Authorize(RpcId::Num(1), a, m, None))) => assert_eq!((a.as_str(), m.as_str()), ("acct", "m")),
        other => panic!("unexpected {:?}", other),
    }
    let text = written_request(StratumProtocol::SetTarget(u64::MAX));
    assert!(matches!(read_frame(&text), Ok(Some(StratumProtocol::SetTarget(u64::MAX)))));
}
