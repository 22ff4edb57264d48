use eth_rpc_client::abi::AbiToken;
use ethereum_types::{H160 as EthH160, U256 as EthU256};
use eth_rpc_client::json::{JsonNumber, JsonValue};
use eth_rpc_client::operation::{
    BlockNumberRequest, BlockNumberResponse, BlockchainReceipt, BlockchainTransaction,
    ChainIdRequest, ChainIdResponse, EthCallRequest, FromRpcSyncSuccessResponse,
    NetListeningRequest, NetListeningResponse, NonceRequest, NonceResponse, ReceiptRequest,
    ReceiptResponse, SendTransactionRequest, SendTransactionResponse, SubscribeLogsEvent,
    SubscribeLogsRequest, SubscribeNewHeadsEvent, SubscribeNewHeadsRequest, SubscribeResponse,
    TransactionRequest, TransactionResponse,
};
use eth_rpc_client::request::{RpcRequest, RpcRequestContractCall, ToRpcRequest};
use eth_rpc_client::response::{Error, RpcSyncSuccessResponse};
use eth_rpc_client::types::{H160, H256, U256};

fn convert(v: serde_json::Value) -> JsonValue {
    match v {
        serde_json::Value::Null => JsonValue::Null,
        serde_json::Value::Bool(b) => JsonValue::Bool(b),
        serde_json::Value::Number(n) => {
            if let Some(u) = n.as_u64() {
                JsonValue::Number(JsonNumber::PosInt(u))
            } else if let Some(i) = n.as_i64() {
                JsonValue::Number(JsonNumber::NegInt(i))
            } else {
                JsonValue::Number(JsonNumber::Float(n.to_string()))
            }
        }
        serde_json::Value::String(s) => JsonValue::String(s),
        serde_json::Value::Array(items) => JsonValue::Array(items.into_iter().map(convert).collect()),
        serde_json::Value::Object(m) => {
            JsonValue::Object(m.into_iter().map(|(k, v)| (k, convert(v))).collect())
        }
    }
}

fn json(text: &str) -> JsonValue {
    convert(serde_json::from_str(text).unwrap())
}

fn back(v: &JsonValue) -> serde_json::Value {
    match v {
        JsonValue::Null => serde_json::Value::Null,
        JsonValue::Bool(b) => serde_json::Value::Bool(*b),
        JsonValue::Number(JsonNumber::PosInt(u)) => serde_json::Value::from(*u),
        JsonValue::Number(JsonNumber::NegInt(i)) => serde_json::Value::from(*i),
        JsonValue::Number(JsonNumber::Float(s)) => serde_json::from_str(s).unwrap(),
        JsonValue::String(s) => serde_json::Value::String(s.clone()),
        JsonValue::Array(items) => serde_json::Value::Array(items.iter().map(back).collect()),
        JsonValue::Object(m) => {
            serde_json::Value::Object(m.iter().map(|(k, v)| (k.clone(), back(v))).collect())
        }
    }
}


fn answer(result: &str) -> RpcSyncSuccessResponse {
    RpcSyncSuccessResponse { id: "id".to_string(), result: json(result) }
}

fn parsing_message<T>(r: Result<T, Error>) -> String {
    match r {
        Err(Error::Parsing(m)) => m,
        _ => panic!("expected a parsing error"),
    }
}

fn check_request(r: &RpcRequest, prefix: &str, method: &str, params: &str) {
    assert_eq!(r.jsonrpc, "2.0");
    assert_eq!(r.method, method);
    assert!(r.id.starts_with(&format!("{prefix}__")));
    assert_eq!(r.id.len(), prefix.len() + 23);
    let suffix = &r.id[prefix.len() + 2..];
    assert!(suffix.chars().all(|c| c.is_ascii_alphanumeric() || c == '_' || c == '-'));
    assert_eq!(back(&r.params), serde_json::from_str::<serde_json::Value>(params).unwrap());
}

#[test]
fn requests_without_parameters() {
    check_request(&BlockNumberRequest.to_rpc_request(), "BlockNumber", "eth_blockNumber", "[]");
    check_request(&ChainIdRequest.to_rpc_request(), "ChainId", "eth_chainId", "[]");
    check_request(&NetListeningRequest.to_rpc_request(), "NetListening", "net_listening", "[]");
    check_request(&SubscribeNewHeadsRequest.to_rpc_request(), "SubscribeNewHeads", "eth_subscribe", r#"["newHeads"]"#);
    assert!(!BlockNumberRequest.is_subscription());
    assert!(!ChainIdRequest.is_subscription());
    assert!(!NetListeningRequest.is_subscription());
    assert!(SubscribeNewHeadsRequest.is_subscription());
}

#[test]
fn request_ids_differ() {
    let a = BlockNumberRequest.to_rpc_request();
    let b = BlockNumberRequest.to_rpc_request();
    assert_ne!(a.id, b.id);
}

#[test]
fn requests_with_parameters() {
    let mut w = [0u8; 20];
    w[19] = 1;
    let r = NonceRequest { wallet: H160(w) }.to_rpc_request();
    check_request(&r, "Nonce", "eth_getTransactionCount", r#"["0x0000000000000000000000000000000000000001","pending"]"#);
    let h = H256([0xab; 32]);
    let hex = format!("0x{}", "ab".repeat(32));
    check_request(&ReceiptRequest { hash: h }.to_rpc_request(), "Receipt", "eth_getTransactionReceipt", &format!("[\"{hex}\"]"));
    check_request(&TransactionRequest { hash: h }.to_rpc_request(), "Transaction", "eth_getTransactionByHash", &format!("[\"{hex}\"]"));
    check_request(
        &SendTransactionRequest { signed_data: "0xf86c".to_string() }.to_rpc_request(),
        "SendTransaction",
        "eth_sendRawTransaction",
        r#"["0xf86c"]"#,
    );
    assert!(!NonceRequest { wallet: H160(w) }.is_subscription());
    assert!(!ReceiptRequest { hash: h }.is_subscription());
    assert!(!TransactionRequest { hash: h }.is_subscription());
    assert!(!SendTransactionRequest { signed_data: String::new() }.is_subscription());
}

#[test]
fn logs_subscription_request() {
    let req = SubscribeLogsRequest {
        contract: H160([0x11; 20]),
        topics: vec![json(r#"["0xaa", null]"#)],
    };
    assert!(req.is_subscription());
    check_request(
        &req.to_rpc_request(),
        "SubscribeLogs",
        "eth_subscribe",
        &format!(r#"["logs", {{"address": "0x{}", "topics": [["0xaa", null]]}}]"#, "11".repeat(20)),
    );
}

#[test]
fn contract_calls() {
    let call = RpcRequestContractCall::from_encoded_params(
        H160([0x22; 20]),
        H160([0x33; 20]),
        [0xa9, 0x05, 0x9c, 0xbb],
        vec![0x00, 0xff],
        U256([21000, 0, 0, 0]),
        U256([0, 0, 0, 0]),
    );
    assert_eq!(call.data, "0xa9059cbb00ff");
    let req = EthCallRequest { id_prefix: "Balance".to_string(), payload: call };
    assert!(!req.is_subscription());
    check_request(
        &req.to_rpc_request(),
        "Balance",
        "eth_call",
        &format!(
            r#"[{{"from":"0x{}","to":"0x{}","data":"0xa9059cbb00ff","gas":"0x5208","gasPrice":"0x0"}}]"#,
            "22".repeat(20),
            "33".repeat(20)
        ),
    );
    let encoded = RpcRequestContractCall::new(
        H160([0; 20]),
        H160([0; 20]),
        [1, 2, 3, 4],
        vec![AbiToken::Uint(U256([1, 0, 0, 0]))],
        U256([0; 4]),
        U256([0; 4]),
    );
    assert_eq!(encoded.data, format!("0x01020304{}01", "0".repeat(62)));
}

#[test]
fn block_number_answers() {
    let r = <BlockNumberResponse as FromRpcSyncSuccessResponse<()>>::from_rpc_response(answer(r#""0x1b4""#), ());
    assert_eq!(r.ok().map(|x| x.block_number), Some(436));
    let r = <BlockNumberResponse as FromRpcSyncSuccessResponse<()>>::from_rpc_response(answer(r#""0xzz""#), ());
    assert_eq!(parsing_message(r), "Failed to parse blockchain RPC block number result | rpc=zz");
    let r = <BlockNumberResponse as FromRpcSyncSuccessResponse<()>>::from_rpc_response(answer("12"), ());
    assert_eq!(parsing_message(r), "Failed to convert blockchain RPC result field as string");
}

#[test]
fn chain_id_answers() {
    let r = <ChainIdResponse as FromRpcSyncSuccessResponse<()>>::from_rpc_response(answer(r#""0x0x89""#), ());
    assert_eq!(r.ok().map(|x| x.chain_id), Some(137));
    let r = <ChainIdResponse as FromRpcSyncSuccessResponse<()>>::from_rpc_response(answer(r#""0x""#), ());
    assert_eq!(parsing_message(r), "Failed to parse blockchain RPC chain id result | rpc=");
}

#[test]
fn net_listening_answers() {
    let r = <NetListeningResponse as FromRpcSyncSuccessResponse<()>>::from_rpc_response(answer("true"), ());
    assert_eq!(r.ok().map(|x| x.is_listening), Some(true));
    let r = <NetListeningResponse as FromRpcSyncSuccessResponse<()>>::from_rpc_response(answer(r#""true""#), ());
    assert_eq!(parsing_message(r), "Failed to convert blockchain RPC result field as bool");
}

#[test]
fn nonce_answers() {
    let n = |s: &str| <NonceResponse as FromRpcSyncSuccessResponse<()>>::from_rpc_response(answer(s), ());
    assert_eq!(n(r#""0x1f""#).ok().map(|x| x.nonce), Some(31));
    assert_eq!(n(r#""0x""#).ok().map(|x| x.nonce), Some(0));
    assert_eq!(n(r#""abc""#).ok().map(|x| x.nonce), Some(0xabc));
    assert_eq!(n(&format!("\"0x{}\"", "f".repeat(32))).ok().map(|x| x.nonce), Some(u128::MAX));
    assert_eq!(parsing_message(n(&format!("\"0x1{}\"", "0".repeat(32)))), format!("Failed to parse blockchain RPC nonce result | payload=0x1{}", "0".repeat(32)));
    assert_eq!(parsing_message(n(r#""0x 1""#)), "Failed to parse blockchain RPC nonce result | payload=0x 1");
}

#[test]
fn send_transaction_answers() {
    let t = |s: &str| <SendTransactionResponse as FromRpcSyncSuccessResponse<()>>::from_rpc_response(answer(s), ());
    let hex = "12".repeat(32);
    assert_eq!(t(&format!("\"0x{hex}\"")).ok().map(|x| x.hash), Some(H256([0x12; 32])));
    assert_eq!(t(&format!("\"{hex}\"")).ok().map(|x| x.hash), Some(H256([0x12; 32])));
    assert_eq!(parsing_message(t(r#""0x12""#)), "Failed to parse blockchain RPC transaction hash result | rpc=0x12");
}

#[test]
fn receipt_answers() {
    let t = |s: &str| <ReceiptResponse as FromRpcSyncSuccessResponse<()>>::from_rpc_response(answer(s), ());
    let r = t(r#"{"status":"0x1","blockNumber":"0x5"}"#).ok().unwrap();
    let receipt = r.receipt.unwrap();
    assert_eq!(receipt.status, 1);
    assert!(receipt.is_confirmed());
    assert!(!BlockchainReceipt { status: 0 }.is_confirmed());
    assert!(t("null").ok().unwrap().receipt.is_none());
    assert_eq!(parsing_message(t(r#"{"status":1}"#)), "Failed to parse eth_getTransactionReceipt response");
    assert_eq!(parsing_message(t(r#"["0x1"]"#)), "Unexpected response format for eth_getTransactionReceipt because result is not an object or null");
}

#[test]
fn transaction_answers() {
    let t = |s: &str| <TransactionResponse as FromRpcSyncSuccessResponse<()>>::from_rpc_response(answer(s), ());
    let text = format!(
        r#"{{"chainId":"0x89","nonce":"0x2a","from":"0x{}","to":"0x{}","input":"0xdead","hash":"0x00"}}"#,
        "01".repeat(20),
        "02".repeat(20)
    );
    let tx: BlockchainTransaction = t(&text).ok().unwrap().transaction.unwrap();
    assert_eq!(tx.chain_id, 137);
    assert_eq!(tx.nonce, 42);
    assert_eq!(tx.from, H160([1; 20]));
    assert_eq!(tx.to, H160([2; 20]));
    assert_eq!(tx.input, vec![0xde, 0xad]);
    assert!(t("null").ok().unwrap().transaction.is_none());
    assert_eq!(parsing_message(t(r#"{"chainId":"0x89"}"#)), "Failed to parse eth_getTransactionByHash response");
    assert_eq!(parsing_message(t("7")), "Unexpected response format for eth_getTransactionByHash because result is not an object or null");
}

#[test]
fn transaction_fields_follow_the_readers_of_ethereum_types() {
    let f = |from: &str, nonce: &str| {
        let text = format!(r#"{{"chainId":"0x1","nonce":"{nonce}","from":"{from}","to":"0x{}","input":""}}"#, "00".repeat(20));
        BlockchainTransaction::from_json(&json(&text))
    };
    let ok = format!("0x{}", "ab".repeat(20));
    assert!(f(&ok, "0x1").is_some());
    // an address of the wrong length
    assert!(f("0xab", "0x1").is_none());
    // a nonce with no digits
    assert!(f(&ok, "0x").is_none());
    // a nonce of odd length
    assert_eq!(f(&ok, "0x123").map(|t| t.nonce), Some(0x123));
}

#[test]
fn subscribe_answers_keep_the_receiver() {
    let r = <SubscribeResponse<u8> as FromRpcSyncSuccessResponse<u8>>::from_rpc_response(answer(r#""0xsub""#), 7u8).ok().unwrap();
    assert_eq!(r.id, "0xsub");
    assert_eq!(r.rx_subscription, 7);
    let r = <SubscribeResponse<u8> as FromRpcSyncSuccessResponse<u8>>::from_rpc_response(answer("1"), 7u8);
    assert_eq!(parsing_message(r), "Failed to convert blockchain RPC result field as string");
}

#[test]
fn subscription_events() {
    let text = format!(
        r#"{{"transactionHash":"0x{}","logIndex":"0x3","removed":false,"data":"0x","topics":[]}}"#,
        "cd".repeat(32)
    );
    let e = SubscribeLogsEvent::from_json(&json(&text)).unwrap();
    assert_eq!(e.transaction_hash, H256([0xcd; 32]));
    assert_eq!(e.log_index, 3);
    assert!(!e.removed);
    assert_eq!(e.data, "0x");
    assert!(SubscribeLogsEvent::from_json(&json(r#"{"logIndex":"0x3"}"#)).is_none());
    assert_eq!(SubscribeNewHeadsEvent::from_json(&json(r#"{"number":"0x10","hash":"0x1"}"#)).map(|e| e.block_number), Some(16));
    assert_eq!(SubscribeNewHeadsEvent::from_json(&json(r#"["0x10"]"#)).map(|e| e.block_number), Some(16));
    assert!(SubscribeNewHeadsEvent::from_json(&json(r#"["0x10", 1]"#)).is_none());
    assert!(SubscribeNewHeadsEvent::from_json(&json(r#"{"number":16}"#)).is_none());
}

#[test]
fn readers_of_ethereum_types_skip_blanks() {
    let tx = |from: &str, nonce: &str| {
        let text = format!(r#"{{"chainId":"0x1","nonce":"{nonce}","from":"{from}","to":"0x{}","input":""}}"#, "00".repeat(20));
        BlockchainTransaction::from_json(&json(&text))
    };
    // forty characters with one blank: nineteen full bytes, the last nibble dropped, the rest zero
    let mut expected = [0xabu8; 20];
    expected[19] = 0;
    let from = format!("0x{}a ", "ab".repeat(19));
    assert_eq!(tx(&from, "0x1").map(|t| t.from), Some(H160(expected)));
    // an odd length: the first digit stands alone, the unpaired last digit is dropped
    assert_eq!(tx(&format!("0x{}", "00".repeat(20)), "0x1 2").map(|t| t.nonce), Some(1));
    // more than thirty-two characters
    assert!(tx(&format!("0x{}", "00".repeat(20)), &format!("0x{}", "1".repeat(33))).is_none());
    let t = |s: &str| <SendTransactionResponse as FromRpcSyncSuccessResponse<()>>::from_rpc_response(answer(s), ());
    let spaced = format!("\"0x {} \\t\"", "0f".repeat(32));
    assert_eq!(t(&spaced).ok().map(|x| x.hash), Some(H256([0x0f; 32])));
    let upper = format!("\"0X{}\"", "0F".repeat(32));
    assert!(t(&upper).is_err());
}

#[test]
fn contract_call_parameters_are_encoded_by_ethabi() {
    let params = vec![
        AbiToken::Address(H160([7; 20])),
        AbiToken::Array(vec![AbiToken::Uint(U256([2, 0, 0, 0])), AbiToken::Int(U256([u64::MAX; 4]))]),
        AbiToken::Tuple(vec![AbiToken::Bool(true), AbiToken::String("hi".to_string())]),
        AbiToken::Bytes(vec![1, 2, 3]),
        AbiToken::FixedBytes(vec![9; 4]),
        AbiToken::FixedArray(vec![AbiToken::Bool(false)]),
    ];
    let expected = ethabi::encode(&[
        ethabi::Token::Address(EthH160([7; 20])),
        ethabi::Token::Array(vec![ethabi::Token::Uint(EthU256::from(2u64)), ethabi::Token::Int(EthU256::MAX)]),
        ethabi::Token::Tuple(vec![ethabi::Token::Bool(true), ethabi::Token::String("hi".to_string())]),
        ethabi::Token::Bytes(vec![1, 2, 3]),
        ethabi::Token::FixedBytes(vec![9; 4]),
        ethabi::Token::FixedArray(vec![ethabi::Token::Bool(false)]),
    ]);
    let call = RpcRequestContractCall::new(H160([0; 20]), H160([0; 20]), [0xaa, 0xbb, 0xcc, 0xdd], params, U256([0; 4]), U256([0; 4]));
    assert_eq!(call.data, format!("0xaabbccdd{}", hex::encode(expected)));
}
