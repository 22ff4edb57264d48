use eth_rpc_client::client::blockchain::{
    confirmation_log_index, decode_sync_response, next_block_number, send_transaction_step, SendStep,
};
use eth_rpc_client::client::errors::Error;
use eth_rpc_client::client::request_manager::{socket_action, RequestRouter, SocketAction, SocketEvent, WsMessage};
use eth_rpc_client::client::subscription::{
    handle_logs_message, handle_new_heads_message, handle_new_heads_message_at, subscribe_outcome,
    transactions_subscribe_operation, BlockNumberInfo, NextBlockSource, SubscribeRejection, TransactionConfirmation,
    BLOCK_NUMBER_INTERVAL_NANOS,
};
use eth_rpc_client::json::{JsonNumber, JsonValue};
use eth_rpc_client::operation::{BlockNumberRequest, BlockNumberResponse, SubscribeNewHeadsRequest};
use eth_rpc_client::request::ToRpcRequest;
use eth_rpc_client::response::{
    Error as RpcError, RpcSubscriptionResponse, RpcSubscriptionResponseParams, RpcSyncErrorResponse,
    RpcSyncErrorResponseError, RpcSyncResponse, RpcSyncSuccessResponse,
};
use eth_rpc_client::table::KeyedTable;
use eth_rpc_client::types::{H160, H256};

fn convert(v: serde_json::Value) -> JsonValue {
    match v {
        serde_json::Value::Null => JsonValue::Null,
        serde_json::Value::Bool(b) => JsonValue::Bool(b),
        serde_json::Value::Number(n) => {
            if let Some(u) = n.as_u64() {
                JsonValue::Number(JsonNumber::PosInt(u))
            } else if let Some(i) = n.as_i64() {
                JsonValue::Number(JsonNumber::NegInt(i))
            } else {
                JsonValue::Number(JsonNumber::Float(n.to_string()))
            }
        }
        serde_json::Value::String(s) => JsonValue::String(s),
        serde_json::Value::Array(items) => JsonValue::Array(items.into_iter().map(convert).collect()),
        serde_json::Value::Object(m) => {
            JsonValue::Object(m.into_iter().map(|(k, v)| (k, convert(v))).collect())
        }
    }
}

fn json(text: &str) -> JsonValue {
    convert(serde_json::from_str(text).unwrap())
}


fn success(id: &str, result: &str) -> RpcSyncResponse {
    RpcSyncResponse::Success(RpcSyncSuccessResponse { id: id.to_string(), result: json(result) })
}

fn failure(id: &str) -> RpcSyncResponse {
    RpcSyncResponse::Error(RpcSyncErrorResponse {
        id: id.to_string(),
        jsonrpc: "2.0".to_string(),
        error: RpcSyncErrorResponseError { code: -1, message: "no".to_string() },
    })
}

fn event(subscription: &str, result: &str) -> RpcSubscriptionResponse {
    RpcSubscriptionResponse {
        params: RpcSubscriptionResponseParams { subscription: subscription.to_string(), result: json(result) },
    }
}

#[test]
fn table_keeps_one_value_per_key() {
    let mut t: KeyedTable<u32> = KeyedTable::new();
    assert_eq!(t.insert("a".to_string(), 1), None);
    assert_eq!(t.insert("b".to_string(), 2), None);
    assert_eq!(t.insert("a".to_string(), 3), Some(1));
    assert_eq!(t.get(&"a".to_string()), Some(&3));
    assert_eq!(t.remove(&"a".to_string()), Some(3));
    assert_eq!(t.remove(&"a".to_string()), None);
    assert_eq!(t.get(&"b".to_string()), Some(&2));
    t.clear();
    assert_eq!(t.get(&"b".to_string()), None);
}

#[test]
fn answers_reach_their_requester_once() {
    let mut router: RequestRouter<u32, u32> = RequestRouter::new();
    router.register_request(&"q1".to_string(), 10, None);
    router.register_request(&"q2".to_string(), 20, None);
    assert_eq!(router.on_sync_response(&success("q2", "1")), Some(20));
    assert_eq!(router.on_sync_response(&success("q2", "1")), None);
    assert_eq!(router.on_sync_response(&failure("q1")), Some(10));
    assert_eq!(router.on_sync_response(&success("unknown", "1")), None);
}

#[test]
fn subscriptions_open_on_a_string_result() {
    let mut router: RequestRouter<u32, u32> = RequestRouter::new();
    router.register_request(&"s1".to_string(), 1, Some(100));
    assert!(router.subscriber_for(&event("0xabc", "null")).is_none());
    assert_eq!(router.on_sync_response(&success("s1", r#""0xabc""#)), Some(1));
    assert_eq!(router.subscriber_for(&event("0xabc", "{}")), Some(&100));
    assert_eq!(router.subscriber_for(&event("0xabc", "{}")), Some(&100));
    assert!(router.subscriber_for(&event("0xdef", "{}")).is_none());
}

#[test]
fn failed_subscriptions_open_nothing() {
    let mut router: RequestRouter<u32, u32> = RequestRouter::new();
    router.register_request(&"s1".to_string(), 1, Some(100));
    router.register_request(&"s2".to_string(), 2, Some(200));
    assert_eq!(router.on_sync_response(&failure("s1")), Some(1));
    assert_eq!(router.on_sync_response(&success("s2", "5")), Some(2));
    // a later answer with the same ids opens nothing either
    assert_eq!(router.on_sync_response(&success("s1", r#""0x1""#)), None);
    assert!(router.subscriber_for(&event("0x1", "{}")).is_none());
}

#[test]
fn reconnection_forgets_subscriptions_but_not_requests() {
    let mut router: RequestRouter<u32, u32> = RequestRouter::new();
    router.register_request(&"s1".to_string(), 1, Some(100));
    router.on_sync_response(&success("s1", r#""0xabc""#));
    router.register_request(&"s2".to_string(), 2, Some(200));
    router.register_request(&"q".to_string(), 3, None);
    router.reset_subscriptions();
    assert!(router.subscriber_for(&event("0xabc", "{}")).is_none());
    assert_eq!(router.on_sync_response(&success("s2", r#""0xdef""#)), Some(2));
    assert!(router.subscriber_for(&event("0xdef", "{}")).is_none());
    assert_eq!(router.on_sync_response(&success("q", "1")), Some(3));
}

#[test]
fn socket_events() {
    assert!(matches!(socket_action(SocketEvent::Received(WsMessage::Text("t".to_string()))), SocketAction::HandleText(t) if t == "t"));
    assert!(matches!(socket_action(SocketEvent::Received(WsMessage::Ping(vec![1, 2]))), SocketAction::SendPong(p) if p == vec![1, 2]));
    assert!(matches!(socket_action(SocketEvent::Received(WsMessage::Pong(vec![]))), SocketAction::Ignore));
    assert!(matches!(socket_action(SocketEvent::Closed), SocketAction::Reconnect));
    assert!(matches!(socket_action(SocketEvent::Failed), SocketAction::Unhandled));
    assert!(matches!(socket_action(SocketEvent::Received(WsMessage::Close)), SocketAction::Unhandled));
    assert!(matches!(socket_action(SocketEvent::Received(WsMessage::Binary(vec![0]))), SocketAction::Unhandled));
}

#[test]
fn placeholder_cache_is_not_trusted() {
    let info = BlockNumberInfo::new_placeholder().ok().unwrap();
    assert_eq!(info.block_number, 1);
    assert!(!info.is_cache_valid());
    assert!(info.is_cache_valid_at(BLOCK_NUMBER_INTERVAL_NANOS as u128));
    assert!(!info.is_cache_valid_at(BLOCK_NUMBER_INTERVAL_NANOS as u128 + 1));
    assert!(matches!(info.next_block_source(), NextBlockSource::Node));
}

#[test]
fn newer_blocks_update_the_cache() {
    let mut info = BlockNumberInfo::new_placeholder().ok().unwrap();
    info.update(5);
    assert_eq!(info.block_number, 5);
    assert!(info.is_cache_valid());
    assert!(matches!(info.next_block_source(), NextBlockSource::Cache(Some(6))));
    info.update(3);
    assert_eq!(info.block_number, 5);
}

#[test]
fn cache_timing() {
    let mut info = BlockNumberInfo::new_placeholder().ok().unwrap();
    let t = 50_000_000_000u128;
    info.update_at(7, t);
    assert!(info.is_cache_valid_at(t));
    assert!(info.is_cache_valid_at(t + BLOCK_NUMBER_INTERVAL_NANOS as u128));
    assert!(!info.is_cache_valid_at(t + BLOCK_NUMBER_INTERVAL_NANOS as u128 + 1));
    assert!(matches!(info.next_block_source_at(t + 1), NextBlockSource::Cache(Some(8))));
    assert!(matches!(info.next_block_source_at(t + 20_000_000_000), NextBlockSource::Node));
    // an older block does not refresh the time
    info.update_at(6, t + 20_000_000_000);
    assert_eq!(info.block_number, 7);
    assert!(!info.is_cache_valid_at(t + 20_000_000_000));
}

#[test]
fn new_heads_events_update_the_cache() {
    let mut info = BlockNumberInfo::new_placeholder().ok().unwrap();
    handle_new_heads_message_at(&mut info, &event("0x1", r#"{"number":"0x64"}"#), 3);
    assert_eq!(info.block_number, 100);
    assert!(info.is_cache_valid_at(3));
    handle_new_heads_message_at(&mut info, &event("0x1", r#"{"number":100}"#), 4);
    assert_eq!(info.block_number, 100);
    handle_new_heads_message(&mut info, &event("0x1", r#"{"number":"0x65"}"#));
    assert_eq!(info.block_number, 101);
}

#[test]
fn logs_events_become_confirmations() {
    let text = format!(r#"{{"transactionHash":"0x{}","logIndex":"0x2","removed":false,"data":""}}"#, "aa".repeat(32));
    let c = handle_logs_message(&event("0x9", &text)).unwrap();
    assert_eq!(c.hash, H256([0xaa; 32]));
    assert_eq!(c.log_index, 2);
    assert!(handle_logs_message(&event("0x9", r#"{"logIndex":"0x2"}"#)).is_none());
}

#[test]
fn confirmations_match_by_hash() {
    let c = TransactionConfirmation { hash: H256([3; 32]), log_index: 9 };
    assert_eq!(confirmation_log_index(&H256([3; 32]), &c), Some(9));
    assert_eq!(confirmation_log_index(&H256([4; 32]), &c), None);
}

#[test]
fn transactions_wait_for_their_nonce() {
    assert_eq!(send_transaction_step(5, 4), SendStep::AwaitNextNonce);
    assert_eq!(send_transaction_step(5, 5), SendStep::Submit);
    assert_eq!(send_transaction_step(5, 6), SendStep::Submit);
}

#[test]
fn subscribe_outcomes() {
    match subscribe_outcome(success("s", r#""0xid""#), 1u8) {
        Ok(r) => {
            assert_eq!(r.id, "0xid");
            assert_eq!(r.rx_subscription, 1);
        }
        Err(_) => panic!(),
    }
    assert!(matches!(subscribe_outcome(failure("s"), 1u8), Err(SubscribeRejection::Refused(e)) if e.id == "s"));
    assert!(matches!(subscribe_outcome(success("s", "1"), 1u8), Err(SubscribeRejection::Parsing(RpcError::Parsing(_)))));
}

#[test]
fn answers_are_decoded_for_the_caller() {
    let r: Result<BlockNumberResponse, Error> = decode_sync_response(success("b", r#""0xa""#), ());
    assert_eq!(r.ok().map(|x| x.block_number), Some(10));
    let r: Result<BlockNumberResponse, Error> = decode_sync_response(success("b", "true"), ());
    assert!(matches!(r, Err(Error::RpcResponse(RpcError::Parsing(_)))));
    let r: Result<BlockNumberResponse, Error> = decode_sync_response(failure("b"), ());
    match r {
        Err(Error::RpcResponse(RpcError::SyncResponse(e))) => {
            assert_eq!(e.code, -1);
            assert_eq!(e.message, "no");
        }
        _ => panic!(),
    }
}

#[test]
fn logs_subscription_operation() {
    let op = transactions_subscribe_operation(&H160([5; 20]), vec![JsonValue::Null]);
    assert_eq!(op.contract, H160([5; 20]));
    assert_eq!(op.topics.len(), 1);
}

#[test]
fn dispatched_requests_are_answered_by_their_id() {
    let mut router: RequestRouter<u32, u32> = RequestRouter::new();
    let op: Box<dyn ToRpcRequest> = Box::new(BlockNumberRequest);
    let rpc = router.dispatch_request(op.as_ref(), 1, None);
    let sub = router.dispatch_request(&SubscribeNewHeadsRequest, 2, Some(20));
    assert!(rpc.id.starts_with("BlockNumber__"));
    assert_eq!(router.on_sync_response(&success(&sub.id, r#""0x77""#)), Some(2));
    assert_eq!(router.on_sync_response(&success(&rpc.id, r#""0x1""#)), Some(1));
    assert_eq!(router.subscriber_for(&event("0x77", "{}")), Some(&20));
}

#[test]
fn next_block_numbers() {
    assert_eq!(next_block_number(0), Some(1));
    assert_eq!(next_block_number(41), Some(42));
    assert_eq!(next_block_number(-1), Some(0));
    assert_eq!(next_block_number(i64::MAX - 1), Some(i64::MAX));
    assert_eq!(next_block_number(i64::MAX), None);
}

#[test]
fn placeholder_needs_an_instant_ten_seconds_back() {
    let info = BlockNumberInfo::placeholder_from(Some(std::time::Instant::now())).ok().unwrap();
    assert_eq!(info.block_number(), 1);
    assert!(info.is_cache_valid_at(0));
    assert!(!info.is_cache_valid_at(BLOCK_NUMBER_INTERVAL_NANOS as u128 + 1));
    assert!(matches!(BlockNumberInfo::placeholder_from(None), Err(Error::BlockNumber)));
}

#[test]
fn block_number_is_the_largest_seen_in_any_order() {
    let seen = [(5i64, 10u128), (3, 20), (9, 30), (7, 40)];
    let mut forward = BlockNumberInfo::placeholder_from(Some(std::time::Instant::now())).ok().unwrap();
    let mut previous = forward.block_number();
    for (n, t) in seen {
        forward.update_at(n, t);
        assert!(forward.block_number() >= previous);
        previous = forward.block_number();
    }
    let mut backward = BlockNumberInfo::placeholder_from(Some(std::time::Instant::now())).ok().unwrap();
    for (n, t) in seen.iter().rev() {
        backward.update_at(*n, *t);
    }
    assert_eq!(forward.block_number(), 9);
    assert_eq!(backward.block_number(), 9);
}

#[test]
fn repeating_an_update_changes_nothing() {
    let mut info = BlockNumberInfo::placeholder_from(Some(std::time::Instant::now())).ok().unwrap();
    let t = 1_000u128;
    info.update_at(12, t);
    info.update_at(12, t + 2 * BLOCK_NUMBER_INTERVAL_NANOS as u128);
    assert_eq!(info.block_number(), 12);
    // the time of the first update is kept
    assert!(!info.is_cache_valid_at(t + BLOCK_NUMBER_INTERVAL_NANOS as u128 + 1));
    assert!(info.is_cache_valid_at(t + BLOCK_NUMBER_INTERVAL_NANOS as u128));
}

#[test]
fn updates_now_keep_the_largest_block_number() {
    let orders: [[i64; 4]; 3] = [[4, 8, 2, 8], [8, 8, 4, 2], [2, 4, 8, 8]];
    for order in orders {
        let mut info = BlockNumberInfo::new_placeholder().ok().unwrap();
        let mut previous = info.block_number();
        for n in order {
            info.update(n);
            assert!(info.block_number() >= previous);
            previous = info.block_number();
        }
        assert_eq!(info.block_number(), 8);
        assert!(info.is_cache_valid());
    }
}

#[test]
fn the_largest_block_cannot_be_followed() {
    let mut info = BlockNumberInfo::placeholder_from(Some(std::time::Instant::now())).ok().unwrap();
    info.update_at(i64::MAX, 5);
    assert!(matches!(info.next_block_source_at(6), NextBlockSource::Cache(None)));
    assert!(matches!(info.next_block_source_at(6 + 2 * BLOCK_NUMBER_INTERVAL_NANOS as u128), NextBlockSource::Node));
}

#[test]
fn placeholder_keeps_its_time_origin_and_is_untrusted() {
    let info = BlockNumberInfo::new_placeholder().ok().unwrap();
    assert!(!info.is_cache_valid());
    assert!(matches!(info.next_block_source(), NextBlockSource::Node));
}

fn permutations(items: &[i64]) -> Vec<Vec<i64>> {
    if items.is_empty() {
        return vec![vec![]];
    }
    let mut all = Vec::new();
    for i in 0..items.len() {
        let mut rest = items.to_vec();
        let first = rest.remove(i);
        for mut tail in permutations(&rest) {
            tail.insert(0, first);
            all.push(tail);
        }
    }
    all
}

#[test]
fn every_order_of_updates_keeps_the_maximum() {
    for order in permutations(&[3, 9, 1, 9, 5, -2]) {
        let mut info = BlockNumberInfo::placeholder_from(Some(std::time::Instant::now())).ok().unwrap();
        let mut previous = info.block_number();
        for (k, n) in order.iter().enumerate() {
            info.update_at(*n, 100 * k as u128);
            assert!(info.block_number() >= previous);
            let before = info.block_number();
            info.update_at(*n, 100 * k as u128 + 50);
            assert_eq!(info.block_number(), before);
            previous = info.block_number();
        }
        assert_eq!(info.block_number(), 9);
    }
}
