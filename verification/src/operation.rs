//! The operations of the client: the request for each node method and the
//! reading of its answer, and the events of the two subscriptions.
use vstd::prelude::*;

use crate::json::{
    is_struct, lemma_view_items, member, struct_field, view_items, Json, JsonValue,
};
use crate::request::{request_is, RpcRequest, RpcRequestContractCall, ToRpcRequest};
use crate::response::{opt_view, read_string, take_string, Error, RpcSyncSuccessResponse};
use crate::text::{
    all_hex, hex_digit_value, hex_prefix, hex_value, is_hex_digit, lower_hex_bytes, parse_radix16_i64, parse_radix16_u64, radix16_i64, radix16_u64,
    trim_0x, trim_0x_prefix,
};
use crate::types::{
    h160_from_json_str, h256_from_json_str, h256_from_str, hash_from_json, hash_from_str,
    lemma_hash_from_json_digits,
    u128_from_json_str, u128_from_str, uint_from_json, uint_from_str, BlockNumber, ChainId,
    ContractAddress, EthHexFormat, Nonce, SignedData, TransactionHash, WalletAddress, H160, H256,
};
use crate::utils::{bytes_from_hex, hex_decode_spec, i64_from_hex, u64_from_hex};

verus! {

/// Converts a successful answer of the node into a value. `rx_subscription`
/// is the receiver of the events of the subscription that the request opened,
/// if it opened one.
pub trait FromRpcSyncSuccessResponse<R>: Sized + core::fmt::Debug {
    fn from_rpc_response(rpc: RpcSyncSuccessResponse, rx_subscription: R) -> Result<Self, Error>;
}

/// The model of a parsing error with the given message.
pub open spec fn is_parsing_error<T>(r: Result<T, Error>, message: Seq<char>) -> bool {
    r matches Err(Error::Parsing(m)) && m@ == message
}

// ---------------------------------------------------------------------------
// Parameters
// ---------------------------------------------------------------------------

fn string_param(s: String) -> (v: JsonValue)
    ensures
        v@ == Json::Str(s@),
{
    JsonValue::String(s)
}

/// The `0x`-prefixed hexadecimal text of an address.
pub open spec fn h160_text(h: H160) -> Seq<char> {
    hex_prefix() + lower_hex_bytes(h.0@)
}

/// The `0x`-prefixed hexadecimal text of a hash.
pub open spec fn h256_text(h: H256) -> Seq<char> {
    hex_prefix() + lower_hex_bytes(h.0@)
}

// ---------------------------------------------------------------------------
// eth_blockNumber
// ---------------------------------------------------------------------------

#[derive(Debug)]
pub struct BlockNumberRequest;

impl ToRpcRequest for BlockNumberRequest {
    fn to_rpc_request(&self) -> (r: RpcRequest)
        ensures
            request_is(r, "BlockNumber"@, "eth_blockNumber"@, Seq::empty()),
    {
        let params: Vec<JsonValue> = Vec::new();
        proof {
            lemma_view_items(params@);
            assert(view_items(params@) =~= Seq::<Json>::empty());
        }
        RpcRequest::new("BlockNumber", "eth_blockNumber", params)
    }

    fn is_subscription(&self) -> (r: bool)
        ensures
            !r,
    {
        false
    }
}

#[derive(Debug)]
pub struct BlockNumberResponse {
    pub block_number: BlockNumber,
}

/// What an answer to `eth_blockNumber` reads as: a string holding a
/// hexadecimal `i64`, with any number of leading `0x`.
pub open spec fn read_block_number(result: Json) -> Result<i64, Seq<char>> {
    match result {
        Json::Str(s) => match radix16_i64(trim_0x(s)) {
            Some(n) => Ok(n),
            None => Err("Failed to parse blockchain RPC block number result | rpc="@ + trim_0x(s)),
        },
        _ => Err("Failed to convert blockchain RPC result field as string"@),
    }
}

impl<R> FromRpcSyncSuccessResponse<R> for BlockNumberResponse {
    fn from_rpc_response(rpc: RpcSyncSuccessResponse, rx_subscription: R) -> (r: Result<
        Self,
        Error,
    >)
        ensures
            match read_block_number(rpc.result@) {
                Ok(n) => r matches Ok(x) && x.block_number == n,
                Err(m) => is_parsing_error(r, m),
            },
    {
        let result = rpc.result_as_string()?;
        let result = trim_0x_prefix(result.as_str());
        match parse_radix16_i64(result.as_str()) {
            Some(block_number) => Ok(BlockNumberResponse { block_number }),
            None => {
                let mut m = "Failed to parse blockchain RPC block number result | rpc=".to_owned();
                m.append(result.as_str());
                Err(Error::Parsing(m))
            },
        }
    }
}

// ---------------------------------------------------------------------------
// eth_chainId
// ---------------------------------------------------------------------------

#[derive(Debug)]
pub struct ChainIdRequest;

impl ToRpcRequest for ChainIdRequest {
    fn to_rpc_request(&self) -> (r: RpcRequest)
        ensures
            request_is(r, "ChainId"@, "eth_chainId"@, Seq::empty()),
    {
        let params: Vec<JsonValue> = Vec::new();
        proof {
            lemma_view_items(params@);
            assert(view_items(params@) =~= Seq::<Json>::empty());
        }
        RpcRequest::new("ChainId", "eth_chainId", params)
    }

    fn is_subscription(&self) -> (r: bool)
        ensures
            !r,
    {
        false
    }
}

#[derive(Debug)]
pub struct ChainIdResponse {
    pub chain_id: ChainId,
}

/// What an answer to `eth_chainId` reads as: a string holding a hexadecimal
/// `u64`, with any number of leading `0x`.
pub open spec fn read_chain_id(result: Json) -> Result<u64, Seq<char>> {
    match result {
        Json::Str(s) => match radix16_u64(trim_0x(s)) {
            Some(n) => Ok(n),
            None => Err("Failed to parse blockchain RPC chain id result | rpc="@ + trim_0x(s)),
        },
        _ => Err("Failed to convert blockchain RPC result field as string"@),
    }
}

impl<R> FromRpcSyncSuccessResponse<R> for ChainIdResponse {
    fn from_rpc_response(rpc: RpcSyncSuccessResponse, rx_subscription: R) -> (r: Result<
        Self,
        Error,
    >)
        ensures
            match read_chain_id(rpc.result@) {
                Ok(n) => r matches Ok(x) && x.chain_id == n,
                Err(m) => is_parsing_error(r, m),
            },
    {
        let result = rpc.result_as_string()?;
        let result = trim_0x_prefix(result.as_str());
        match parse_radix16_u64(result.as_str()) {
            Some(chain_id) => Ok(ChainIdResponse { chain_id }),
            None => {
                let mut m = "Failed to parse blockchain RPC chain id result | rpc=".to_owned();
                m.append(result.as_str());
                Err(Error::Parsing(m))
            },
        }
    }
}

// ---------------------------------------------------------------------------
// net_listening
// ---------------------------------------------------------------------------

#[derive(Debug)]
pub struct NetListeningRequest;

impl ToRpcRequest for NetListeningRequest {
    fn to_rpc_request(&self) -> (r: RpcRequest)
        ensures
            request_is(r, "NetListening"@, "net_listening"@, Seq::empty()),
    {
        let params: Vec<JsonValue> = Vec::new();
        proof {
            lemma_view_items(params@);
            assert(view_items(params@) =~= Seq::<Json>::empty());
        }
        RpcRequest::new("NetListening", "net_listening", params)
    }

    fn is_subscription(&self) -> (r: bool)
        ensures
            !r,
    {
        false
    }
}

#[derive(Debug)]
pub struct NetListeningResponse {
    pub is_listening: bool,
}

impl<R> FromRpcSyncSuccessResponse<R> for NetListeningResponse {
    fn from_rpc_response(rpc: RpcSyncSuccessResponse, rx_subscription: R) -> (r: Result<
        Self,
        Error,
    >)
        ensures
            match rpc.result@ {
                Json::Bool(b) => r matches Ok(x) && x.is_listening == b,
                _ => is_parsing_error(r, "Failed to convert blockchain RPC result field as bool"@),
            },
    {
        Ok(NetListeningResponse { is_listening: rpc.result_as_bool()? })
    }
}

// ---------------------------------------------------------------------------
// eth_getTransactionCount
// ---------------------------------------------------------------------------

#[derive(Debug)]
pub struct NonceRequest {
    pub wallet: WalletAddress,
}

impl ToRpcRequest for NonceRequest {
    fn to_rpc_request(&self) -> (r: RpcRequest)
        ensures
            request_is(
                r,
                "Nonce"@,
                "eth_getTransactionCount"@,
                seq![Json::Str(h160_text(self.wallet)), Json::Str("pending"@)],
            ),
    {
        let mut params: Vec<JsonValue> = Vec::new();
        params.push(string_param(self.wallet.formatted_hex()));
        params.push(string_param("pending".to_owned()));
        proof {
            lemma_view_items(params@);
            assert(view_items(params@) =~= seq![
                Json::Str(h160_text(self.wallet)),
                Json::Str("pending"@),
            ]);
        }
        RpcRequest::new("Nonce", "eth_getTransactionCount", params)
    }

    fn is_subscription(&self) -> (r: bool)
        ensures
            !r,
    {
        false
    }
}

#[derive(Debug)]
pub struct NonceResponse {
    pub nonce: Nonce,
}

/// What an answer to `eth_getTransactionCount` reads as: a string that
/// `U128::from_str` reads.
pub open spec fn read_nonce(result: Json) -> Result<u128, Seq<char>> {
    match result {
        Json::Str(s) => match uint_from_str(s, 16) {
            Some(n) => Ok(n as u128),
            None => Err("Failed to parse blockchain RPC nonce result | payload="@ + s),
        },
        _ => Err("Failed to convert blockchain RPC result field as string"@),
    }
}

impl<R> FromRpcSyncSuccessResponse<R> for NonceResponse {
    fn from_rpc_response(rpc: RpcSyncSuccessResponse, rx_subscription: R) -> (r: Result<
        Self,
        Error,
    >)
        ensures
            match read_nonce(rpc.result@) {
                Ok(n) => r matches Ok(x) && x.nonce == n,
                Err(m) => is_parsing_error(r, m),
            },
    {
        let result = rpc.result_as_string()?;
        match u128_from_str(result.as_str()) {
            Some(nonce) => Ok(Self { nonce }),
            None => {
                let mut m = "Failed to parse blockchain RPC nonce result | payload=".to_owned();
                m.append(result.as_str());
                Err(Error::Parsing(m))
            },
        }
    }
}

// ---------------------------------------------------------------------------
// eth_sendRawTransaction
// ---------------------------------------------------------------------------

#[derive(Debug)]
pub struct SendTransactionRequest {
    pub signed_data: SignedData,
}

impl ToRpcRequest for SendTransactionRequest {
    fn to_rpc_request(&self) -> (r: RpcRequest)
        ensures
            request_is(
                r,
                "SendTransaction"@,
                "eth_sendRawTransaction"@,
                seq![Json::Str(self.signed_data@)],
            ),
    {
        let mut params: Vec<JsonValue> = Vec::new();
        params.push(string_param(self.signed_data.clone()));
        proof {
            lemma_view_items(params@);
            assert(view_items(params@) =~= seq![Json::Str(self.signed_data@)]);
        }
        RpcRequest::new("SendTransaction", "eth_sendRawTransaction", params)
    }

    fn is_subscription(&self) -> (r: bool)
        ensures
            !r,
    {
        false
    }
}

#[derive(Debug)]
pub struct SendTransactionResponse {
    pub hash: TransactionHash,
}

/// What an answer to `eth_sendRawTransaction` reads as: a string that
/// `H256::from_str` reads.
pub open spec fn read_transaction_hash(result: Json) -> Result<Seq<u8>, Seq<char>> {
    match result {
        Json::Str(s) => match hash_from_str(s, 32) {
            Some(b) => Ok(b),
            None => Err("Failed to parse blockchain RPC transaction hash result | rpc="@ + s),
        },
        _ => Err("Failed to convert blockchain RPC result field as string"@),
    }
}

impl<R> FromRpcSyncSuccessResponse<R> for SendTransactionResponse {
    fn from_rpc_response(rpc: RpcSyncSuccessResponse, rx_subscription: R) -> (r: Result<
        Self,
        Error,
    >)
        ensures
            match read_transaction_hash(rpc.result@) {
                Ok(b) => r matches Ok(x) && x.hash.0@ == b,
                Err(m) => is_parsing_error(r, m),
            },
    {
        let result = rpc.result_as_string()?;
        match h256_from_str(result.as_str()) {
            Some(hash) => Ok(SendTransactionResponse { hash }),
            None => {
                let mut m = "Failed to parse blockchain RPC transaction hash result | rpc=".to_owned();
                m.append(result.as_str());
                Err(Error::Parsing(m))
            },
        }
    }
}

// ---------------------------------------------------------------------------
// Reading fields of the node's objects
// ---------------------------------------------------------------------------

/// A required string field holding a hexadecimal `u64`.
pub open spec fn read_hex_u64(f: Option<Json>) -> Option<u64> {
    match f {
        Some(Json::Str(s)) => radix16_u64(trim_0x(s)),
        _ => None,
    }
}

/// A required string field holding a hexadecimal `i64`.
pub open spec fn read_hex_i64(f: Option<Json>) -> Option<i64> {
    match f {
        Some(Json::Str(s)) => radix16_i64(trim_0x(s)),
        _ => None,
    }
}

/// A required string field holding hexadecimal bytes.
pub open spec fn read_hex_bytes(f: Option<Json>) -> Option<Seq<u8>> {
    match f {
        Some(Json::Str(s)) => hex_decode_spec(trim_0x(s)),
        _ => None,
    }
}

/// A required boolean field.
pub open spec fn read_bool(f: Option<Json>) -> Option<bool> {
    match f {
        Some(Json::Bool(b)) => Some(b),
        _ => None,
    }
}

/// A required field holding an `n`-byte hash.
pub open spec fn read_hash(f: Option<Json>, n: nat) -> Option<Seq<u8>> {
    match f {
        Some(Json::Str(s)) => hash_from_json(s, n),
        _ => None,
    }
}

/// A required field holding a 128-bit unsigned integer.
pub open spec fn read_u128(f: Option<Json>) -> Option<u128> {
    match f {
        Some(Json::Str(s)) => match uint_from_json(s, 16) {
            Some(v) => Some(v as u128),
            None => None,
        },
        _ => None,
    }
}

fn take_hex_u64(f: Option<&JsonValue>) -> (r: Option<u64>)
    ensures
        r == read_hex_u64(opt_view(f)),
{
    match f {
        Some(JsonValue::String(s)) => u64_from_hex(s.as_str()),
        _ => None,
    }
}

fn take_hex_i64(f: Option<&JsonValue>) -> (r: Option<i64>)
    ensures
        r == read_hex_i64(opt_view(f)),
{
    match f {
        Some(JsonValue::String(s)) => i64_from_hex(s.as_str()),
        _ => None,
    }
}

fn take_hex_bytes(f: Option<&JsonValue>) -> (r: Option<Vec<u8>>)
    ensures
        match read_hex_bytes(opt_view(f)) {
            Some(b) => r matches Some(v) && v@ == b,
            None => r is None,
        },
{
    match f {
        Some(JsonValue::String(s)) => bytes_from_hex(s.as_str()),
        _ => None,
    }
}

fn take_bool(f: Option<&JsonValue>) -> (r: Option<bool>)
    ensures
        r == read_bool(opt_view(f)),
{
    match f {
        Some(JsonValue::Bool(b)) => Some(*b),
        _ => None,
    }
}

fn take_h160(f: Option<&JsonValue>) -> (r: Option<H160>)
    ensures
        match read_hash(opt_view(f), 20) {
            Some(b) => r matches Some(h) && h.0@ == b,
            None => r is None,
        },
{
    match f {
        Some(JsonValue::String(s)) => h160_from_json_str(s.as_str()),
        _ => None,
    }
}

fn take_h256(f: Option<&JsonValue>) -> (r: Option<H256>)
    ensures
        match read_hash(opt_view(f), 32) {
            Some(b) => r matches Some(h) && h.0@ == b,
            None => r is None,
        },
{
    match f {
        Some(JsonValue::String(s)) => h256_from_json_str(s.as_str()),
        _ => None,
    }
}

fn take_u128(f: Option<&JsonValue>) -> (r: Option<u128>)
    ensures
        r == read_u128(opt_view(f)),
{
    match f {
        Some(JsonValue::String(s)) => u128_from_json_str(s.as_str()),
        _ => None,
    }
}

// ---------------------------------------------------------------------------
// eth_getTransactionReceipt
// ---------------------------------------------------------------------------

#[derive(Debug)]
pub struct ReceiptRequest {
    pub hash: TransactionHash,
}

impl ToRpcRequest for ReceiptRequest {
    fn to_rpc_request(&self) -> (r: RpcRequest)
        ensures
            request_is(
                r,
                "Receipt"@,
                "eth_getTransactionReceipt"@,
                seq![Json::Str(h256_text(self.hash))],
            ),
    {
        let mut params: Vec<JsonValue> = Vec::new();
        params.push(string_param(self.hash.formatted_hex()));
        proof {
            lemma_view_items(params@);
            assert(view_items(params@) =~= seq![Json::Str(h256_text(self.hash))]);
        }
        RpcRequest::new("Receipt", "eth_getTransactionReceipt", params)
    }

    fn is_subscription(&self) -> (r: bool)
        ensures
            !r,
    {
        false
    }
}

#[derive(Debug)]
pub struct ReceiptResponse {
    pub receipt: Option<BlockchainReceipt>,
}

/// The receipt of a transaction.
#[derive(Debug)]
pub struct BlockchainReceipt {
    pub status: u64,
}

/// What a receipt reads as: a struct of `status`, a hexadecimal string.
pub open spec fn read_receipt(v: Json) -> Option<u64> {
    if is_struct(v, 1) {
        read_hex_u64(struct_field(v, 1, 0, "status"@))
    } else {
        None
    }
}

impl BlockchainReceipt {
    /// Whether the transaction succeeded (status one).
    pub fn is_confirmed(&self) -> (r: bool)
        ensures
            r == (self.status == 1),
    {
        self.status == 1
    }

    /// Reads a receipt from a JSON document.
    pub fn from_json(v: &JsonValue) -> (r: Option<BlockchainReceipt>)
        ensures
            match read_receipt(v@) {
                Some(status) => r matches Some(x) && x.status == status,
                None => r is None,
            },
    {
        if !v.is_struct(1) {
            return None;
        }
        match take_hex_u64(v.struct_field(1, 0, "status")) {
            Some(status) => Some(BlockchainReceipt { status }),
            None => None,
        }
    }
}

/// What an answer to `eth_getTransactionReceipt` reads as: an object is a
/// receipt, null is no receipt.
pub open spec fn read_receipt_response(result: Json) -> Result<Option<u64>, Seq<char>> {
    match result {
        Json::Object(_) => match read_receipt(result) {
            Some(status) => Ok(Some(status)),
            None => Err("Failed to parse eth_getTransactionReceipt response"@),
        },
        Json::Null => Ok(None),
        _ => Err(
            "Unexpected response format for eth_getTransactionReceipt because result is not an object or null"@,
        ),
    }
}

impl<R> FromRpcSyncSuccessResponse<R> for ReceiptResponse {
    fn from_rpc_response(rpc: RpcSyncSuccessResponse, rx_subscription: R) -> (r: Result<
        Self,
        Error,
    >)
        ensures
            match read_receipt_response(rpc.result@) {
                Ok(Some(status)) => r matches Ok(x) && x.receipt matches Some(t) && t.status
                    == status,
                Ok(None) => r matches Ok(x) && x.receipt is None,
                Err(m) => is_parsing_error(r, m),
            },
    {
        match &rpc.result {
            JsonValue::Object(_) => match BlockchainReceipt::from_json(&rpc.result) {
                Some(receipt) => Ok(ReceiptResponse { receipt: Some(receipt) }),
                None => Err(
                    Error::Parsing("Failed to parse eth_getTransactionReceipt response".to_owned()),
                ),
            },
            JsonValue::Null => Ok(ReceiptResponse { receipt: None }),
            _ => Err(
                Error::Parsing(
                    "Unexpected response format for eth_getTransactionReceipt because result is not an object or null".to_owned(),
                ),
            ),
        }
    }
}

// ---------------------------------------------------------------------------
// eth_getTransactionByHash
// ---------------------------------------------------------------------------

#[derive(Debug)]
pub struct TransactionRequest {
    pub hash: TransactionHash,
}

impl ToRpcRequest for TransactionRequest {
    fn to_rpc_request(&self) -> (r: RpcRequest)
        ensures
            request_is(
                r,
                "Transaction"@,
                "eth_getTransactionByHash"@,
                seq![Json::Str(h256_text(self.hash))],
            ),
    {
        let mut params: Vec<JsonValue> = Vec::new();
        params.push(string_param(self.hash.formatted_hex()));
        proof {
            lemma_view_items(params@);
            assert(view_items(params@) =~= seq![Json::Str(h256_text(self.hash))]);
        }
        RpcRequest::new("Transaction", "eth_getTransactionByHash", params)
    }

    fn is_subscription(&self) -> (r: bool)
        ensures
            !r,
    {
        false
    }
}

#[derive(Debug)]
pub struct TransactionResponse {
    pub transaction: Option<BlockchainTransaction>,
}

/// A transaction as the node describes it.
#[derive(Debug)]
pub struct BlockchainTransaction {
    pub chain_id: ChainId,
    pub nonce: Nonce,
    pub from: WalletAddress,
    pub to: ContractAddress,
    pub input: Vec<u8>,
}

/// The model of a transaction.
pub struct TransactionModel {
    pub chain_id: u64,
    pub nonce: u128,
    pub from: Seq<u8>,
    pub to: Seq<u8>,
    pub input: Seq<u8>,
}

impl BlockchainTransaction {
    pub open spec fn view(&self) -> TransactionModel {
        TransactionModel {
            chain_id: self.chain_id,
            nonce: self.nonce,
            from: self.from.0@,
            to: self.to.0@,
            input: self.input@,
        }
    }
}

/// What a transaction reads as: a struct of `chainId` (hexadecimal string),
/// `nonce` (128-bit integer), `from` and `to` (addresses) and `input`
/// (hexadecimal bytes).
pub open spec fn read_transaction(v: Json) -> Option<TransactionModel> {
    if is_struct(v, 5) {
        match (
            read_hex_u64(struct_field(v, 5, 0, "chainId"@)),
            read_u128(struct_field(v, 5, 1, "nonce"@)),
            read_hash(struct_field(v, 5, 2, "from"@), 20),
            read_hash(struct_field(v, 5, 3, "to"@), 20),
            read_hex_bytes(struct_field(v, 5, 4, "input"@)),
        ) {
            (Some(chain_id), Some(nonce), Some(from), Some(to), Some(input)) => Some(
                TransactionModel { chain_id, nonce, from, to, input },
            ),
            _ => None,
        }
    } else {
        None
    }
}

impl BlockchainTransaction {
    /// Reads a transaction from a JSON document.
    pub fn from_json(v: &JsonValue) -> (r: Option<BlockchainTransaction>)
        ensures
            match read_transaction(v@) {
                Some(t) => r matches Some(x) && x@ == t,
                None => r is None,
            },
    {
        if !v.is_struct(5) {
            return None;
        }
        let chain_id = take_hex_u64(v.struct_field(5, 0, "chainId"));
        let nonce = take_u128(v.struct_field(5, 1, "nonce"));
        let from = take_h160(v.struct_field(5, 2, "from"));
        let to = take_h160(v.struct_field(5, 3, "to"));
        let input = take_hex_bytes(v.struct_field(5, 4, "input"));
        match (chain_id, nonce, from, to, input) {
            (Some(chain_id), Some(nonce), Some(from), Some(to), Some(input)) => Some(
                BlockchainTransaction { chain_id, nonce, from, to, input },
            ),
            _ => None,
        }
    }
}

/// What an answer to `eth_getTransactionByHash` reads as: an object is a
/// transaction, null is no transaction.
pub open spec fn read_transaction_response(result: Json) -> Result<
    Option<TransactionModel>,
    Seq<char>,
> {
    match result {
        Json::Object(_) => match read_transaction(result) {
            Some(t) => Ok(Some(t)),
            None => Err("Failed to parse eth_getTransactionByHash response"@),
        },
        Json::Null => Ok(None),
        _ => Err(
            "Unexpected response format for eth_getTransactionByHash because result is not an object or null"@,
        ),
    }
}

impl<R> FromRpcSyncSuccessResponse<R> for TransactionResponse {
    fn from_rpc_response(rpc: RpcSyncSuccessResponse, rx_subscription: R) -> (r: Result<
        Self,
        Error,
    >)
        ensures
            match read_transaction_response(rpc.result@) {
                Ok(Some(t)) => r matches Ok(x) && x.transaction matches Some(y) && y@ == t,
                Ok(None) => r matches Ok(x) && x.transaction is None,
                Err(m) => is_parsing_error(r, m),
            },
    {
        match &rpc.result {
            JsonValue::Object(_) => match BlockchainTransaction::from_json(&rpc.result) {
                Some(transaction) => Ok(TransactionResponse { transaction: Some(transaction) }),
                None => Err(
                    Error::Parsing("Failed to parse eth_getTransactionByHash response".to_owned()),
                ),
            },
            JsonValue::Null => Ok(TransactionResponse { transaction: None }),
            _ => Err(
                Error::Parsing(
                    "Unexpected response format for eth_getTransactionByHash because result is not an object or null".to_owned(),
                ),
            ),
        }
    }
}

// ---------------------------------------------------------------------------
// eth_call
// ---------------------------------------------------------------------------

#[derive(Debug)]
pub struct EthCallRequest {
    pub id_prefix: String,
    pub payload: RpcRequestContractCall,
}

impl ToRpcRequest for EthCallRequest {
    fn to_rpc_request(&self) -> (r: RpcRequest)
        ensures
            request_is(r, self.id_prefix@, "eth_call"@, seq![self.payload.to_json_model()]),
    {
        let body = self.payload.to_json();
        let mut params: Vec<JsonValue> = Vec::new();
        params.push(body);
        proof {
            lemma_view_items(params@);
            assert(view_items(params@) =~= seq![params@[0]@]);
        }
        RpcRequest::new(self.id_prefix.as_str(), "eth_call", params)
    }

    fn is_subscription(&self) -> (r: bool)
        ensures
            !r,
    {
        false
    }
}

// ---------------------------------------------------------------------------
// eth_subscribe
// ---------------------------------------------------------------------------

/// The answer to a subscription request: the id of the subscription and the
/// receiver of its events.
#[derive(Debug)]
pub struct SubscribeResponse<R> {
    pub id: String,
    pub rx_subscription: R,
}

impl<R: core::fmt::Debug> FromRpcSyncSuccessResponse<R> for SubscribeResponse<R> {
    fn from_rpc_response(rpc: RpcSyncSuccessResponse, rx_subscription: R) -> (r: Result<
        Self,
        Error,
    >)
        ensures
            match rpc.result@ {
                Json::Str(s) => r matches Ok(x) && x.id@ == s && x.rx_subscription
                    == rx_subscription,
                _ => is_parsing_error(r, "Failed to convert blockchain RPC result field as string"@),
            },
    {
        Ok(SubscribeResponse { id: rpc.result_as_string()?, rx_subscription })
    }
}

#[derive(Debug)]
pub struct SubscribeLogsRequest {
    pub contract: ContractAddress,
    pub topics: Vec<JsonValue>,
}

impl ToRpcRequest for SubscribeLogsRequest {
    fn to_rpc_request(&self) -> (r: RpcRequest)
        ensures
            request_is(
                r,
                "SubscribeLogs"@,
                "eth_subscribe"@,
                seq![
                    Json::Str("logs"@),
                    Json::Object(
                        seq![
                            ("address"@, Json::Str(h160_text(self.contract))),
                            ("topics"@, Json::Array(view_items(self.topics@))),
                        ],
                    ),
                ],
            ),
    {
        let mut topics: Vec<JsonValue> = Vec::new();
        let mut i: usize = 0;
        while i < self.topics.len()
            invariant
                i <= self.topics@.len(),
                topics@.len() == i,
                forall|j: int| 0 <= j < i ==> #[trigger] topics@[j]@ == self.topics@[j]@,
            decreases self.topics@.len() - i,
        {
            topics.push(self.topics[i].duplicate());
            i = i + 1;
        }
        proof {
            lemma_view_items(topics@);
            lemma_view_items(self.topics@);
            assert(view_items(topics@) =~= view_items(self.topics@));
        }
        let mut filter: Vec<(String, JsonValue)> = Vec::new();
        filter.push(("address".to_owned(), JsonValue::String(self.contract.formatted_hex())));
        filter.push(("topics".to_owned(), JsonValue::Array(topics)));
        proof {
            crate::json::lemma_view_members(filter@);
            assert(crate::json::view_members(filter@) =~= seq![
                ("address"@, Json::Str(h160_text(self.contract))),
                ("topics"@, Json::Array(view_items(self.topics@))),
            ]);
        }
        let mut params: Vec<JsonValue> = Vec::new();
        params.push(string_param("logs".to_owned()));
        params.push(JsonValue::Object(filter));
        proof {
            lemma_view_items(params@);
            assert(view_items(params@) =~= seq![
                Json::Str("logs"@),
                Json::Object(
                    seq![
                        ("address"@, Json::Str(h160_text(self.contract))),
                        ("topics"@, Json::Array(view_items(self.topics@))),
                    ],
                ),
            ]);
        }
        RpcRequest::new("SubscribeLogs", "eth_subscribe", params)
    }

    fn is_subscription(&self) -> (r: bool)
        ensures
            r,
    {
        true
    }
}

/// An event of the `logs` subscription.
#[derive(Debug)]
pub struct SubscribeLogsEvent {
    pub transaction_hash: TransactionHash,
    pub log_index: u64,
    pub removed: bool,
    pub data: String,
}

/// The model of a `logs` event.
pub struct LogsEventModel {
    pub transaction_hash: Seq<u8>,
    pub log_index: u64,
    pub removed: bool,
    pub data: Seq<char>,
}

impl SubscribeLogsEvent {
    pub open spec fn view(&self) -> LogsEventModel {
        LogsEventModel {
            transaction_hash: self.transaction_hash.0@,
            log_index: self.log_index,
            removed: self.removed,
            data: self.data@,
        }
    }
}

/// What a `logs` event reads as: a struct of `transactionHash` (a hash),
/// `logIndex` (hexadecimal string), `removed` (boolean) and `data` (string).
pub open spec fn read_logs_event(v: Json) -> Option<LogsEventModel> {
    if is_struct(v, 4) {
        match (
            read_hash(struct_field(v, 4, 0, "transactionHash"@), 32),
            read_hex_u64(struct_field(v, 4, 1, "logIndex"@)),
            read_bool(struct_field(v, 4, 2, "removed"@)),
            read_string(struct_field(v, 4, 3, "data"@)),
        ) {
            (Some(transaction_hash), Some(log_index), Some(removed), Some(data)) => Some(
                LogsEventModel { transaction_hash, log_index, removed, data },
            ),
            _ => None,
        }
    } else {
        None
    }
}

impl SubscribeLogsEvent {
    /// Reads a `logs` event from a JSON document.
    pub fn from_json(v: &JsonValue) -> (r: Option<SubscribeLogsEvent>)
        ensures
            match read_logs_event(v@) {
                Some(e) => r matches Some(x) && x@ == e,
                None => r is None,
            },
    {
        if !v.is_struct(4) {
            return None;
        }
        let transaction_hash = take_h256(v.struct_field(4, 0, "transactionHash"));
        let log_index = take_hex_u64(v.struct_field(4, 1, "logIndex"));
        let removed = take_bool(v.struct_field(4, 2, "removed"));
        let data = take_string(v.struct_field(4, 3, "data"));
        match (transaction_hash, log_index, removed, data) {
            (Some(transaction_hash), Some(log_index), Some(removed), Some(data)) => Some(
                SubscribeLogsEvent { transaction_hash, log_index, removed, data },
            ),
            _ => None,
        }
    }
}

#[derive(Debug)]
pub struct SubscribeNewHeadsRequest;

impl ToRpcRequest for SubscribeNewHeadsRequest {
    fn to_rpc_request(&self) -> (r: RpcRequest)
        ensures
            request_is(r, "SubscribeNewHeads"@, "eth_subscribe"@, seq![Json::Str("newHeads"@)]),
    {
        let mut params: Vec<JsonValue> = Vec::new();
        params.push(string_param("newHeads".to_owned()));
        proof {
            lemma_view_items(params@);
            assert(view_items(params@) =~= seq![Json::Str("newHeads"@)]);
        }
        RpcRequest::new("SubscribeNewHeads", "eth_subscribe", params)
    }

    fn is_subscription(&self) -> (r: bool)
        ensures
            r,
    {
        true
    }
}

/// An event of the `newHeads` subscription.
#[derive(Debug)]
pub struct SubscribeNewHeadsEvent {
    pub block_number: BlockNumber,
}

/// What a `newHeads` event reads as: a struct of `number`, a hexadecimal
/// string.
pub open spec fn read_new_heads_event(v: Json) -> Option<i64> {
    if is_struct(v, 1) {
        read_hex_i64(struct_field(v, 1, 0, "number"@))
    } else {
        None
    }
}

impl SubscribeNewHeadsEvent {
    /// Reads a `newHeads` event from a JSON document.
    pub fn from_json(v: &JsonValue) -> (r: Option<SubscribeNewHeadsEvent>)
        ensures
            match read_new_heads_event(v@) {
                Some(n) => r matches Some(x) && x.block_number == n,
                None => r is None,
            },
    {
        if !v.is_struct(1) {
            return None;
        }
        match take_hex_i64(v.struct_field(1, 0, "number")) {
            Some(block_number) => Some(SubscribeNewHeadsEvent { block_number }),
            None => None,
        }
    }
}


// ---------------------------------------------------------------------------
// Laws
// ---------------------------------------------------------------------------

/// The transaction hash of a `logs` event holds the bytes its
/// `transactionHash` text writes, first byte first: for `0x` and sixty-four
/// hexadecimal digits, byte `i` is the value of digits `2i` and `2i + 1`.
pub proof fn law_logs_event_hash_is_the_written_bytes(
    members: Seq<(Seq<char>, Json)>,
    digits: Seq<char>,
)
    requires
        member(members, "transactionHash"@) == Some(Json::Str(hex_prefix() + digits)),
        digits.len() == 64,
        all_hex(digits),
    ensures
        read_logs_event(Json::Object(members)) matches Some(e) ==> e.transaction_hash.len() == 32
            && forall|i: int|
            0 <= i < 32 ==> #[trigger] e.transaction_hash[i] as nat == hex_digit_value(digits[2 * i])
                * 16 + hex_digit_value(digits[2 * i + 1]),
{
    lemma_hash_from_json_digits(digits, 32);
}

/// `0x` followed by hexadecimal digits reads as the number they write.
pub proof fn lemma_read_hex_u64_digits(digits: Seq<char>)
    requires
        0 < digits.len(),
        all_hex(digits),
        hex_value(digits) <= u64::MAX,
    ensures
        read_hex_u64(Some(Json::Str(hex_prefix() + digits))) == Some(hex_value(digits) as u64),
{
    let s = hex_prefix() + digits;
    assert(s.subrange(2, s.len() as int) =~= digits);
    assert(trim_0x(s) == trim_0x(digits));
    if digits.len() >= 2 {
        assert(is_hex_digit(digits[1]));
    }
    assert(trim_0x(digits) == digits);
    assert(is_hex_digit(digits[0]));
}

/// A receipt's status is the number its `status` text writes in hexadecimal,
/// and so the transaction is confirmed exactly when that number is one.
pub proof fn law_receipt_status_is_the_written_number(
    members: Seq<(Seq<char>, Json)>,
    digits: Seq<char>,
)
    requires
        member(members, "status"@) == Some(Json::Str(hex_prefix() + digits)),
        0 < digits.len(),
        all_hex(digits),
        hex_value(digits) <= u64::MAX,
    ensures
        read_receipt(Json::Object(members)) == Some(hex_value(digits) as u64),
        read_receipt_response(Json::Object(members)) == Ok::<Option<u64>, Seq<char>>(
            Some(hex_value(digits) as u64),
        ),
{
    lemma_read_hex_u64_digits(digits);
}

} // verus!
