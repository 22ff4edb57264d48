use eth_rpc_client::json::{JsonNumber, JsonValue};
use eth_rpc_client::response::{
    Error, ResponseFormatError, RpcResponse, RpcSyncErrorResponseError, RpcSyncResponse,
    RpcSyncSuccessResponse,
};

fn convert(v: serde_json::Value) -> JsonValue {
    match v {
        serde_json::Value::Null => JsonValue::Null,
        serde_json::Value::Bool(b) => JsonValue::Bool(b),
        serde_json::Value::Number(n) => {
            if let Some(u) = n.as_u64() {
                JsonValue::Number(JsonNumber::PosInt(u))
            } else if let Some(i) = n.as_i64() {
                JsonValue::Number(JsonNumber::NegInt(i))
            } else {
                JsonValue::Number(JsonNumber::Float(n.to_string()))
            }
        }
        serde_json::Value::String(s) => JsonValue::String(s),
        serde_json::Value::Array(items) => JsonValue::Array(items.into_iter().map(convert).collect()),
        serde_json::Value::Object(m) => {
            JsonValue::Object(m.into_iter().map(|(k, v)| (k, convert(v))).collect())
        }
    }
}

fn json(text: &str) -> JsonValue {
    convert(serde_json::from_str(text).unwrap())
}

fn back(v: &JsonValue) -> serde_json::Value {
    match v {
        JsonValue::Null => serde_json::Value::Null,
        JsonValue::Bool(b) => serde_json::Value::Bool(*b),
        JsonValue::Number(JsonNumber::PosInt(u)) => serde_json::Value::from(*u),
        JsonValue::Number(JsonNumber::NegInt(i)) => serde_json::Value::from(*i),
        JsonValue::Number(JsonNumber::Float(s)) => serde_json::from_str(s).unwrap(),
        JsonValue::String(s) => serde_json::Value::String(s.clone()),
        JsonValue::Array(items) => serde_json::Value::Array(items.iter().map(back).collect()),
        JsonValue::Object(m) => {
            serde_json::Value::Object(m.iter().map(|(k, v)| (k.clone(), back(v))).collect())
        }
    }
}

fn parse(text: &str) -> Result<RpcResponse, ResponseFormatError> {
    RpcResponse::parse(text.to_string())
}

#[test]
fn success_answers_are_read() {
    match parse(r#"{"jsonrpc":"2.0","id":"BlockNumber__abc","result":"0x10"}"#) {
        Ok(RpcResponse::Sync(RpcSyncResponse::Success(s))) => {
            assert_eq!(s.id, "BlockNumber__abc");
            assert_eq!(back(&s.result), serde_json::Value::String("0x10".to_string()));
        }
        _ => panic!("expected a successful answer"),
    }
}


#[test]
fn error_answers_are_read() {
    let text = r#"{"jsonrpc":"2.0","id":"Nonce__x","error":{"code":-32000,"message":"nonce too low"}}"#;
    match parse(text) {
        Ok(RpcResponse::Sync(RpcSyncResponse::Error(e))) => {
            assert_eq!(e.id, "Nonce__x");
            assert_eq!(e.jsonrpc, "2.0");
            assert_eq!(e.error.code, -32000);
            assert_eq!(e.error.message, "nonce too low");
            assert_eq!(e.error.display(), "-32000 nonce too low");
        }
        _ => panic!("expected an error answer"),
    }
}

#[test]
fn subscription_events_are_read() {
    let text = r#"{"jsonrpc":"2.0","method":"eth_subscription","params":{"subscription":"0xabc","result":{"number":"0x1b4"}}}"#;
    match parse(text) {
        Ok(RpcResponse::Subscription(s)) => {
            assert_eq!(s.id(), "0xabc");
            assert_eq!(back(&s.params.result), serde_json::from_str::<serde_json::Value>(r#"{"number":"0x1b4"}"#).unwrap());
        }
        _ => panic!("expected an event"),
    }
}

#[test]
fn error_comes_before_subscription() {
    let text = r#"{"id":"a","jsonrpc":"2.0","method":"eth_subscription","error":{"code":1,"message":"m"}}"#;
    assert!(matches!(parse(text), Ok(RpcResponse::Sync(RpcSyncResponse::Error(_)))));
}

#[test]
fn malformed_messages_are_refused_by_reading() {
    // not a struct
    assert_eq!(parse("3").err(), Some(ResponseFormatError::Message));
    // error of the wrong shape
    assert_eq!(parse(r#"{"id":"a","error":"boom"}"#).err(), Some(ResponseFormatError::Message));
    // a code that is not an integer
    assert_eq!(parse(r#"{"id":"a","error":{"code":1.5,"message":"m"}}"#).err(), Some(ResponseFormatError::Message));
    // a method that is not a string
    assert_eq!(parse(r#"{"id":"a","result":1,"method":7}"#).err(), Some(ResponseFormatError::Message));
    // an error answer without jsonrpc
    assert_eq!(parse(r#"{"id":"a","error":{"code":1,"message":"m"}}"#).err(), Some(ResponseFormatError::ErrorResponse));
    // an event without params
    assert_eq!(parse(r#"{"method":"eth_subscription"}"#).err(), Some(ResponseFormatError::Subscription));
    // an answer without result
    assert_eq!(parse(r#"{"id":"a"}"#).err(), Some(ResponseFormatError::SuccessResponse));
    // an answer with a numeric id
    assert_eq!(parse(r#"{"id":1,"result":true}"#).err(), Some(ResponseFormatError::SuccessResponse));
}

#[test]
fn null_error_and_method_read_as_absent() {
    assert!(matches!(
        parse(r#"{"id":"a","result":null,"error":null,"method":null}"#),
        Ok(RpcResponse::Sync(RpcSyncResponse::Success(_)))
    ));
}

#[test]
fn arrays_read_as_structs_by_position() {
    // header [result, error, method], then a successful answer of two fields
    assert_eq!(parse(r#"[1, null, null]"#).err(), Some(ResponseFormatError::SuccessResponse));
    assert_eq!(parse(r#"["id", "2.0", {"code":1,"message":"m"}]"#).err(), Some(ResponseFormatError::Message));
    assert_eq!(parse(r#"[1, 2]"#).err(), Some(ResponseFormatError::Message));
}

#[test]
fn result_as_string_and_bool() {
    let s = RpcSyncSuccessResponse { id: "a".to_string(), result: JsonValue::String("x".to_string()) };
    assert_eq!(s.result_as_string().ok(), Some("x".to_string()));
    match s.result_as_bool() {
        Err(Error::Parsing(m)) => assert_eq!(m, "Failed to convert blockchain RPC result field as bool"),
        _ => panic!(),
    }
    let b = RpcSyncSuccessResponse { id: "a".to_string(), result: JsonValue::Bool(true) };
    assert_eq!(b.result_as_bool().ok(), Some(true));
    match b.result_as_string() {
        Err(Error::Parsing(m)) => assert_eq!(m, "Failed to convert blockchain RPC result field as string"),
        _ => panic!(),
    }
}

#[test]
fn answers_carry_their_request_id() {
    let s = RpcSyncResponse::Success(RpcSyncSuccessResponse { id: "q1".to_string(), result: JsonValue::Null });
    assert_eq!(s.id(), "q1");
    let e = RpcSyncResponse::Error(eth_rpc_client::response::RpcSyncErrorResponse {
        id: "q2".to_string(),
        jsonrpc: "2.0".to_string(),
        error: RpcSyncErrorResponseError { code: 3, message: "m".to_string() },
    });
    assert_eq!(e.id(), "q2");
}

#[test]
fn copies_keep_the_document() {
    let v = json(r#"{"a":[1,-2,1.5,"s",null,true,{"b":[]}]}"#);
    assert_eq!(back(&v.duplicate()), back(&v));
}

#[test]
fn text_that_is_not_json_is_refused() {
    assert_eq!(parse("").err(), Some(ResponseFormatError::Message));
    assert_eq!(parse("{\"id\":").err(), Some(ResponseFormatError::Message));
    assert_eq!(parse("hello").err(), Some(ResponseFormatError::Message));
}

#[test]
fn numbers_of_the_text_keep_their_kind() {
    let result = |text: &str| match parse(&format!(r#"{{"id":"n","result":{text}}}"#)) {
        Ok(RpcResponse::Sync(RpcSyncResponse::Success(s))) => s.result,
        _ => panic!("expected a successful answer"),
    };
    assert!(matches!(result("18446744073709551615"), JsonValue::Number(JsonNumber::PosInt(u64::MAX))));
    assert!(matches!(result("-5"), JsonValue::Number(JsonNumber::NegInt(-5))));
    match result("1.5") {
        JsonValue::Number(JsonNumber::Float(t)) => assert_eq!(t, "1.5"),
        _ => panic!("expected a float"),
    }
    match result(r#"[true,{"a":null}]"#) {
        JsonValue::Array(items) => {
            assert!(matches!(items[0], JsonValue::Bool(true)));
            assert!(matches!(&items[1], JsonValue::Object(m) if m.len() == 1 && m[0].0 == "a"));
        }
        _ => panic!("expected an array"),
    }
}
