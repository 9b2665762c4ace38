use rpc_provider::error::{Error, RpcError};
use rpc_provider::response::{decode_response, parse_response, JsonRpcResponse};

#[test]
fn decode_result_envelope() {
    let raw = "{\"jsonrpc\":\"2.0\",\"id\":\"1\",\"result\":\"0xdeadbeef\"}";
    assert_eq!(decode_response(raw).unwrap(), "\"0xdeadbeef\"");
}

#[test]
fn decode_structured_result() {
    let raw = "{\"jsonrpc\":\"2.0\",\"id\":\"1\",\"result\":{\"peers\":3,\"isSyncing\":false}}";
    assert_eq!(decode_response(raw).unwrap(), "{\"peers\":3,\"isSyncing\":false}");
}

#[test]
fn decode_error_envelope() {
    let raw =
        "{\"jsonrpc\":\"2.0\",\"id\":\"1\",\"error\":{\"code\":-32601,\"message\":\"Method not found\"}}";
    match decode_response(raw) {
        Err(Error::JsonRpcError(e)) => {
            assert_eq!(e.code, -32601);
            assert_eq!(e.message, "Method not found");
        },
        other => panic!("expected a structured RPC error, got {:?}", other),
    }
}

#[test]
fn decode_empty_envelope_gives_default_error() {
    let raw = "{\"jsonrpc\":\"2.0\",\"id\":\"1\"}";
    match decode_response(raw) {
        Err(Error::JsonRpcError(e)) => {
            assert_eq!(e.code, 0);
            assert_eq!(e.message, "No matched rpc error");
        },
        other => panic!("expected the default RPC error, got {:?}", other),
    }
}

#[test]
fn decode_garbage_is_deserialization_failure() {
    assert!(matches!(decode_response("not json"), Err(Error::SerdeJson(_))));
    assert!(matches!(decode_response(""), Err(Error::SerdeJson(_))));
    assert!(matches!(
        decode_response("{\"id\":\"1\",\"jsonrpc\":\"2.0\"}"),
        Err(Error::SerdeJson(_))
    ));
}

#[test]
fn parse_unescapes_strings() {
    let raw = "{\"jsonrpc\":\"2.0\",\"id\":\"a\\\"b\\\\c\\n\",\"result\":1}";
    let env = parse_response(raw).unwrap();
    assert_eq!(env.id, "a\"b\\c\n");
    assert_eq!(env.jsonrpc, "2.0");
    assert_eq!(env.result.unwrap(), "1");
    assert!(env.error.is_none());
}

#[test]
fn parse_positive_error_code() {
    let raw = "{\"jsonrpc\":\"2.0\",\"id\":\"1\",\"error\":{\"code\":7,\"message\":\"x\"}}";
    let env = parse_response(raw).unwrap();
    assert_eq!(env.error.unwrap().code, 7);
}

#[test]
fn parse_rejects_trailing_text() {
    let raw = "{\"jsonrpc\":\"2.0\",\"id\":\"1\"}extra";
    assert!(parse_response(raw).is_none());
}

#[test]
fn into_result_prefers_result_field() {
    let env = JsonRpcResponse::<String> {
        id: String::from("1"),
        jsonrpc: String::from("2.0"),
        result: Some(String::from("ok")),
        error: Some(RpcError { code: 1, message: String::from("ignored") }),
    };
    assert_eq!(env.into_result().unwrap(), "ok");
}

#[test]
fn into_result_uses_error_field() {
    let env = JsonRpcResponse::<u64> {
        id: String::from("1"),
        jsonrpc: String::from("2.0"),
        result: None,
        error: Some(RpcError { code: -3, message: String::from("bad") }),
    };
    match env.into_result() {
        Err(Error::JsonRpcError(e)) => {
            assert_eq!(e.code, -3);
            assert_eq!(e.message, "bad");
        },
        other => panic!("expected the envelope's error, got {:?}", other),
    }
}

#[test]
fn default_rpc_error_message() {
    let e = RpcError::default();
    assert_eq!(e.code, 0);
    assert_eq!(e.message, "No matched rpc error");
}

#[test]
fn decode_error_with_data_member() {
    let raw = "{\"jsonrpc\":\"2.0\",\"id\":\"1\",\"error\":{\"code\":-32603,\"message\":\"boom\",\"data\":\"extra detail\"}}";
    match decode_response(raw) {
        Err(Error::JsonRpcError(e)) => {
            assert_eq!(e.code, -32603);
            assert_eq!(e.message, "boom");
        },
        other => panic!("expected the structured error, got {:?}", other),
    }
}

#[test]
fn parse_accepts_all_json_escapes() {
    let raw = "{\"jsonrpc\":\"2.0\",\"id\":\"a\\u0009b\\bc\\fd\\/e\",\"result\":1}";
    let env = parse_response(raw).unwrap();
    assert_eq!(env.id, "a\tb\u{0008}c\u{000C}d/e");
    assert_eq!(env.result.unwrap(), "1");
}

#[test]
fn parse_rejects_wide_unicode_escape() {
    let raw = "{\"jsonrpc\":\"2.0\",\"id\":\"\\u0100\",\"result\":1}";
    assert!(parse_response(raw).is_none());
    assert!(matches!(decode_response(raw), Err(Error::SerdeJson(_))));
}

#[test]
fn parse_extreme_error_codes() {
    let raw = "{\"jsonrpc\":\"2.0\",\"id\":\"1\",\"error\":{\"code\":-170141183460469231731687303715884105728,\"message\":\"m\"}}";
    assert_eq!(parse_response(raw).unwrap().error.unwrap().code, i128::MIN);
    let raw2 = "{\"jsonrpc\":\"2.0\",\"id\":\"1\",\"error\":{\"code\":170141183460469231731687303715884105727,\"message\":\"m\"}}";
    assert_eq!(parse_response(raw2).unwrap().error.unwrap().code, i128::MAX);
    let raw3 = "{\"jsonrpc\":\"2.0\",\"id\":\"1\",\"error\":{\"code\":170141183460469231731687303715884105728,\"message\":\"m\"}}";
    assert!(parse_response(raw3).is_none());
}

#[test]
fn parse_rejects_leading_zero_code() {
    let raw = "{\"jsonrpc\":\"2.0\",\"id\":\"1\",\"error\":{\"code\":007,\"message\":\"m\"}}";
    assert!(parse_response(raw).is_none());
}

#[test]
fn decode_engine_emitted_error_shape() {
    let raw = "{\"jsonrpc\":\"2.0\",\"id\":null,\"error\":{\"code\":-32700,\"message\":\"Parse error\"}}";
    // the engine answers an unparsable request with a null id, which is
    // outside the string-id language this crate sends and reads back
    assert!(matches!(decode_response(raw), Err(Error::SerdeJson(_))));
    let raw2 = "{\"jsonrpc\":\"2.0\",\"id\":\"1\",\"error\":{\"code\":-32700,\"message\":\"Parse error\"}}";
    match decode_response(raw2) {
        Err(Error::JsonRpcError(e)) => assert_eq!(e.code, -32700),
        other => panic!("expected the structured error, got {:?}", other),
    }
}
