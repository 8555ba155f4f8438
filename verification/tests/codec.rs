use wusheng_pool_client::stratum::codec::{
    decode_request, decode_response, encode_message, encode_stratum_message, frame_kind, unwrap_bool_value,
    unwrap_str_value, unwrap_u64_value, CodecError, FrameKind, RpcOutgoing,
};
use wusheng_pool_client::stratum::message::{NotifyParams, ResponseParams, StratumMessage, SubscribeParams};
use wusheng_pool_client::stratum::protocol::{JsonValue, RpcError, RpcId, StratumProtocol};

fn s(text: &str) -> JsonValue {
    JsonValue::Str(text.to_string())
}

fn notify_params() -> Vec<JsonValue> {
    vec![s("job"), s("root"), s("l1"), s("l2"), s("l3"), s("l4"), JsonValue::Bool(true)]
}

#[test]
fn decodes_subscribe_with_null_session() {
    let params = vec![s("client/1.0"), s("AleoStratum/1.0.0"), JsonValue::Null];
    let message = decode_request(None, "mining.subscribe", Some(params)).unwrap();
    match message {
        StratumProtocol::Subscribe(RpcId::Num(0), agent, version, None) => {
            assert_eq!(agent, "client/1.0");
            assert_eq!(version, "AleoStratum/1.0.0");
        }
        other => panic!("unexpected {:?}", other),
    }
}

#[test]
fn decodes_authorize_with_id_and_password() {
    let params = vec![s("account"), s("miner"), s("secret")];
    let message = decode_request(Some(RpcId::Num(7)), "mining.authorize", Some(params)).unwrap();
    match message {
        StratumProtocol::Authorize(RpcId::Num(7), account, miner, Some(password)) => {
            assert_eq!((account.as_str(), miner.as_str(), password.as_str()), ("account", "miner", "secret"));
        }
        other => panic!("unexpected {:?}", other),
    }
}

#[test]
fn decodes_set_target() {
    let message = decode_request(None, "mining.set_target", Some(vec![JsonValue::Number(Some(12345))])).unwrap();
    assert!(matches!(message, StratumProtocol::SetTarget(12345)));
}

#[test]
fn decodes_notify() {
    let message = decode_request(Some(RpcId::Num(3)), "mining.notify", Some(notify_params())).unwrap();
    match message {
        StratumProtocol::Notify(job, root, l1, l2, l3, l4, clean) => {
            assert_eq!(vec![job, root, l1, l2, l3, l4], vec!["job", "root", "l1", "l2", "l3", "l4"]);
            assert!(clean);
        }
        other => panic!("unexpected {:?}", other),
    }
}

#[test]
fn decodes_submit() {
    let params = vec![s("job"), s("nonce"), s("proof")];
    let message = decode_request(Some(RpcId::Str("abc".to_string())), "mining.submit", Some(params)).unwrap();
    match message {
        StratumProtocol::Submit(RpcId::Str(id), job, nonce, proof) => {
            assert_eq!(vec![id, job, nonce, proof], vec!["abc", "job", "nonce", "proof"]);
        }
        other => panic!("unexpected {:?}", other),
    }
}

#[test]
fn request_errors() {
    assert_eq!(decode_request(None, "mining.subscribe", None).unwrap_err(), CodecError::NoParams);
    assert_eq!(decode_request(None, "mining.unknown", None).unwrap_err(), CodecError::NoParams);
    assert_eq!(decode_request(None, "mining.unknown", Some(vec![])).unwrap_err(), CodecError::UnknownMethod);
    assert_eq!(
        decode_request(None, "mining.subscribe", Some(vec![s("a"), s("b")])).unwrap_err(),
        CodecError::InvalidParams
    );
    assert_eq!(
        decode_request(None, "mining.subscribe", Some(vec![JsonValue::Bool(true), s("b"), JsonValue::Null]))
            .unwrap_err(),
        CodecError::NotStr
    );
    assert_eq!(
        decode_request(None, "mining.authorize", Some(vec![s("a"), s("b"), JsonValue::Number(Some(1))]))
            .unwrap_err(),
        CodecError::InvalidParams
    );
    assert_eq!(
        decode_request(None, "mining.set_target", Some(vec![JsonValue::Number(None)])).unwrap_err(),
        CodecError::NotU64
    );
    assert_eq!(
        decode_request(None, "mining.set_target", Some(vec![s("5")])).unwrap_err(),
        CodecError::NotU64
    );
    let mut params = notify_params();
    params[6] = s("true");
    assert_eq!(decode_request(None, "mining.notify", Some(params)).unwrap_err(), CodecError::NotBool);
    let mut params = notify_params();
    params[3] = JsonValue::Null;
    assert_eq!(decode_request(None, "mining.notify", Some(params)).unwrap_err(), CodecError::NotStr);
    assert_eq!(
        decode_request(None, "mining.submit", Some(vec![s("a"), s("b"), JsonValue::Object(vec![])])).unwrap_err(),
        CodecError::NotStr
    );
}

#[test]
fn decodes_responses() {
    let ok = decode_response(Some(RpcId::Num(4)), Ok(JsonValue::Bool(true))).unwrap();
    assert!(matches!(ok, StratumProtocol::Response(RpcId::Num(4), Some(ResponseParams::Bool(true)), None)));
    let error = RpcError { code: -32000, message: "stale".to_string() };
    let failed = decode_response(None, Err(error.clone())).unwrap();
    match failed {
        StratumProtocol::Response(RpcId::Num(0), None, Some(e)) => assert_eq!(e, error),
        other => panic!("unexpected {:?}", other),
    }
    let array = decode_response(None, Ok(JsonValue::Array(vec!["\"session\"".to_string()]))).unwrap();
    assert!(matches!(array, StratumProtocol::Response(_, Some(ResponseParams::Array(items)), None) if items.len() == 1));
    assert_eq!(decode_response(None, Ok(s("text"))).unwrap_err(), CodecError::InvalidResult);
}

#[test]
fn frame_kinds() {
    assert_eq!(frame_kind(false, false), Err(CodecError::NotAnObject));
    assert_eq!(frame_kind(true, true), Ok(FrameKind::Request));
    assert_eq!(frame_kind(true, false), Ok(FrameKind::Response));
}

#[test]
fn unwrap_values() {
    assert_eq!(unwrap_str_value(s("x")).unwrap(), "x");
    assert_eq!(unwrap_str_value(JsonValue::Null).unwrap_err(), CodecError::NotStr);
    assert_eq!(unwrap_bool_value(JsonValue::Bool(false)).unwrap(), false);
    assert_eq!(unwrap_bool_value(s("false")).unwrap_err(), CodecError::NotBool);
    assert_eq!(unwrap_u64_value(JsonValue::Number(Some(u64::MAX))).unwrap(), u64::MAX);
    assert_eq!(unwrap_u64_value(JsonValue::Number(None)).unwrap_err(), CodecError::NotU64);
}

#[test]
fn error_messages() {
    assert_eq!(CodecError::NotAnObject.message(), "Not an object");
    assert_eq!(CodecError::NoParams.message(), "No params");
    assert_eq!(CodecError::InvalidParams.message(), "Invalid params");
    assert_eq!(CodecError::UnknownMethod.message(), "Unknown method");
    assert_eq!(CodecError::NotStr.message(), "Param is not str");
    assert_eq!(CodecError::NotBool.message(), "Param is not bool");
    assert_eq!(CodecError::NotU64.message(), "Param is not u64");
}

fn request_parts(out: RpcOutgoing) -> (&'static str, Vec<JsonValue>, Option<RpcId>) {
    match out {
        RpcOutgoing::Request { method, params, id } => (method, params, id),
        other => panic!("not a request: {:?}", other),
    }
}

#[test]
fn encodes_requests() {
    let (method, params, id) = request_parts(encode_message(StratumProtocol::Subscribe(
        RpcId::Num(0),
        "agent".to_string(),
        "v1".to_string(),
        None,
    )));
    assert_eq!(method, "mining.subscribe");
    assert_eq!(params.len(), 3);
    assert!(matches!(&params[2], JsonValue::Null));
    assert_eq!(id, Some(RpcId::Num(0)));

    let (method, params, id) = request_parts(encode_message(StratumProtocol::SetTarget(99)));
    assert_eq!(method, "mining.set_target");
    assert!(matches!(params.as_slice(), [JsonValue::Number(Some(99))]));
    assert_eq!(id, None);

    let (method, params, id) = request_parts(encode_message(StratumProtocol::Submit(
        RpcId::Num(2),
        "job".to_string(),
        "nonce".to_string(),
        "proof".to_string(),
    )));
    assert_eq!(method, "mining.submit");
    assert_eq!(params.len(), 3);
    assert_eq!(id, Some(RpcId::Num(2)));
}

#[test]
fn encodes_responses() {
    let error = RpcError { code: 1, message: "bad".to_string() };
    let out = encode_message(StratumProtocol::Response(
        RpcId::Num(5),
        Some(ResponseParams::Bool(true)),
        Some(error.clone()),
    ));
    match out {
        RpcOutgoing::Failure { id, error: e } => {
            assert_eq!(id, RpcId::Num(5));
            assert_eq!(e, error);
        }
        other => panic!("unexpected {:?}", other),
    }
    let out = encode_message(StratumProtocol::Response(RpcId::Num(6), Some(ResponseParams::Bool(true)), None));
    assert!(matches!(out, RpcOutgoing::Success { id: RpcId::Num(6), result: Some(ResponseParams::Bool(true)) }));
}

fn round_trip(message: StratumProtocol) -> StratumProtocol {
    let (method, params, id) = request_parts(encode_message(message));
    decode_request(id, method, Some(params)).unwrap()
}

#[test]
fn requests_read_back_as_themselves() {
    match round_trip(StratumProtocol::Subscribe(RpcId::Num(0), "a".to_string(), "b".to_string(), Some("c".to_string()))) {
        StratumProtocol::Subscribe(RpcId::Num(0), a, b, Some(c)) => assert_eq!((a, b, c), ("a".into(), "b".into(), "c".into())),
        other => panic!("unexpected {:?}", other),
    }
    match round_trip(StratumProtocol::Authorize(RpcId::Num(1), "acct".to_string(), "m".to_string(), None)) {
        StratumProtocol::Authorize(RpcId::Num(1), a, m, None) => assert_eq!((a.as_str(), m.as_str()), ("acct", "m")),
        other => panic!("unexpected {:?}", other),
    }
    assert!(matches!(round_trip(StratumProtocol::SetTarget(7)), StratumProtocol::SetTarget(7)));
    let notify = StratumProtocol::Notify(
        "j".into(), "r".into(), "1".into(), "2".into(), "3".into(), "4".into(), false,
    );
    match round_trip(notify) {
        StratumProtocol::Notify(j, r, a, b, c, d, false) => {
            assert_eq!(vec![j, r, a, b, c, d], vec!["j", "r", "1", "2", "3", "4"])
        }
        other => panic!("unexpected {:?}", other),
    }
    match round_trip(StratumProtocol::Submit(RpcId::Num(8), "j".into(), "n".into(), "p".into())) {
        StratumProtocol::Submit(RpcId::Num(8), j, n, p) => assert_eq!(vec![j, n, p], vec!["j", "n", "p"]),
        other => panic!("unexpected {:?}", other),
    }
}

#[test]
fn encodes_handler_messages() {
    let (method, params, id) = request_parts(encode_stratum_message(StratumMessage::Authorize(
        RpcId::Num(1),
        "aleo1miner".to_string(),
        "123456".to_string(),
    )));
    assert_eq!(method, "mining.authorize");
    assert!(matches!(params.as_slice(), [JsonValue::Str(a), JsonValue::Str(p)] if a == "aleo1miner" && p == "123456"));
    assert_eq!(id, Some(RpcId::Num(1)));

    let (method, params, id) = request_parts(encode_stratum_message(StratumMessage::Submit(
        RpcId::Num(0),
        "worker".into(),
        "job".into(),
        "nonce".into(),
        "commitment".into(),
        "proof".into(),
    )));
    assert_eq!(method, "mining.submit");
    assert_eq!(params.len(), 5);
    assert_eq!(id, Some(RpcId::Num(0)));

    let (method, _, id) = request_parts(encode_stratum_message(StratumMessage::SetDifficulty(3)));
    assert_eq!(method, "mining.set_difficulty");
    assert_eq!(id, None);
}

#[test]
fn message_names() {
    assert_eq!(StratumMessage::SetDifficulty(1).name(), "mining.set_difficulty");
    assert_eq!(StratumMessage::Response(RpcId::Num(0), None, None).name(), "mining.response");
    assert_eq!(StratumProtocol::SetTarget(1).name(), "mining.set_target");
    assert_eq!(
        StratumMessage::Notify("a".into(), "b".into(), "c".into(), "d".into(), "e".into(), "f".into(), true).name(),
        "mining.notify"
    );
}

#[test]
fn params_into_json() {
    let notify = NotifyParams("a".into(), "b".into(), "c".into(), "d".into(), "e".into(), "f".into(), true);
    let values = notify.into_json();
    assert_eq!(values.len(), 7);
    assert!(matches!(values[6], JsonValue::Bool(true)));
    let subscribe = SubscribeParams("agent".into(), "v".into(), Some("session".into()));
    let values = subscribe.into_json();
    assert!(matches!(&values[2], JsonValue::Str(s) if s == "session"));
}

#[test]
fn protocol_reads_as_handler_message() {
    let m = StratumMessage::from_protocol(StratumProtocol::SetTarget(5));
    assert!(matches!(m, StratumMessage::SetDifficulty(5)));
    let m = StratumMessage::from_protocol(StratumProtocol::Authorize(RpcId::Num(1), "acct".into(), "miner".into(), None));
    assert!(matches!(m, StratumMessage::Authorize(RpcId::Num(1), miner, pw) if miner == "miner" && pw.is_empty()));
    let m = StratumMessage::from_protocol(StratumProtocol::Submit(RpcId::Num(2), "j".into(), "n".into(), "p".into()));
    assert!(matches!(m, StratumMessage::Submit(RpcId::Num(2), w, j, n, c, p)
        if w.is_empty() && j == "j" && n == "n" && c.is_empty() && p == "p"));
}
