//! Requests to the node: the JSON-RPC envelope and the body of a contract
//! call.
use vstd::prelude::*;

use crate::abi::{abi_encode, abi_encoding, abi_models, AbiToken};
use crate::json::{view_items, view_members, Json, JsonValue};
use crate::response::RequestId;
use crate::text::{hex_prefix, hex_string_min, lower_hex_bytes};
use crate::types::{u256_value, Amount, ContractAddress, EthHexFormat, WalletAddress};

verus! {

/// A character of the random part of a request id (the URL-safe alphabet of
/// `nanoid`).
pub open spec fn is_id_char(c: char) -> bool {
    c == '_' || c == '-' || ('0' <= c && c <= '9') || ('a' <= c && c <= 'z') || ('A' <= c
        && c <= 'Z')
}

/// `id` is `prefix`, two underscores, and twenty-one random id characters.
pub open spec fn is_request_id(id: Seq<char>, prefix: Seq<char>) -> bool {
    &&& id.len() == prefix.len() + 23
    &&& id.subrange(0, prefix.len() as int) == prefix
    &&& id[prefix.len() as int] == '_'
    &&& id[prefix.len() + 1int] == '_'
    &&& forall|i: int| prefix.len() + 2 <= i < id.len() ==> is_id_char(#[trigger] id[i])
}

/// `nanoid::format` with the default generator, the URL-safe alphabet and
/// twenty-one characters (what `nanoid!()` expands to). The characters are
/// random: only their number and alphabet are stated.
#[verifier::external_body]
fn random_id() -> (s: String)
    ensures
        s@.len() == 21,
        forall|i: int| 0 <= i < 21 ==> is_id_char(#[trigger] s@[i]),
{
    nanoid::format(nanoid::rngs::default, &nanoid::alphabet::SAFE, 21)
}

/// A JSON-RPC request.
#[derive(Debug)]
pub struct RpcRequest {
    pub jsonrpc: &'static str,
    pub id: RequestId,
    pub method: String,
    pub params: JsonValue,
}

/// `req` is a version 2.0 request of `method` with the positional
/// parameters `params`, whose id starts with `prefix`.
pub open spec fn request_is(
    req: RpcRequest,
    prefix: Seq<char>,
    method: Seq<char>,
    params: Seq<Json>,
) -> bool {
    &&& req.jsonrpc@ == "2.0"@
    &&& is_request_id(req.id@, prefix)
    &&& req.method@ == method
    &&& req.params@ == Json::Array(params)
}

/// Converts a value into a request to the node.
pub trait ToRpcRequest: Send + Sync + core::fmt::Debug {
    /// The request for the node.
    fn to_rpc_request(&self) -> RpcRequest;

    /// Whether the request opens a subscription.
    fn is_subscription(&self) -> bool;
}

impl RpcRequest {
    /// A request of `method` with the positional parameters `params`, and an
    /// id made of `id_prefix`, `__` and a random part.
    pub fn new(id_prefix: &str, method: &str, params: Vec<JsonValue>) -> (r: RpcRequest)
        ensures
            request_is(r, id_prefix@, method@, view_items(params@)),
    {
        let mut id = id_prefix.to_owned();
        id.append("__");
        let suffix = random_id();
        id.append(suffix.as_str());
        proof {
            reveal_strlit("__");
            let p = id_prefix@;
            assert(id@ == p + "__"@ + suffix@);
            assert(id@.subrange(0, p.len() as int) =~= p);
            assert forall|i: int| p.len() + 2 <= i < id@.len() implies is_id_char(#[trigger] id@[i]) by {
                assert(id@[i] == suffix@[i - p.len() - 2]);
            }
        }
        RpcRequest { jsonrpc: "2.0", id, method: method.to_owned(), params: JsonValue::Array(params) }
    }
}

// ---------------------------------------------------------------------------
// Contract calls
// ---------------------------------------------------------------------------

/// `hex::encode`: two lower-case digits for every byte.
#[verifier::external_body]
fn hex_encode(bytes: &Vec<u8>) -> (s: String)
    ensures
        s@ == lower_hex_bytes(bytes@),
{
    hex::encode(bytes)
}

/// The body of an `eth_call`.
#[derive(Debug)]
pub struct RpcRequestContractCall {
    pub from: WalletAddress,
    pub to: ContractAddress,
    pub data: String,
    pub gas: Amount,
    pub gas_price: Amount,
}

/// The `data` of a call: `0x` and the hexadecimal digits of the function
/// selector followed by the encoded parameters.
pub open spec fn call_data(function_hash: Seq<u8>, encoded_params: Seq<u8>) -> Seq<char> {
    hex_prefix() + lower_hex_bytes(function_hash + encoded_params)
}

impl RpcRequestContractCall {
    /// The body of a call of the function with selector `function_hash` on
    /// `contract_address`, whose parameters are ABI-encoded from the tokens by
    /// `ethabi`.
    pub fn new(
        from: WalletAddress,
        contract_address: ContractAddress,
        function_hash: [u8; 4],
        function_params: Vec<AbiToken>,
        gas: Amount,
        gas_price: Amount,
    ) -> (r: RpcRequestContractCall)
        ensures
            r.from == from,
            r.to == contract_address,
            r.gas == gas,
            r.gas_price == gas_price,
            r.data@ == call_data(function_hash@, abi_encoding(abi_models(function_params@))),
    {
        let encoded = abi_encode(function_params);
        let r = Self::from_encoded_params(from, contract_address, function_hash, encoded, gas, gas_price);
        r
    }

    /// The body of a call whose parameters are already ABI-encoded.
    pub fn from_encoded_params(
        from: WalletAddress,
        contract_address: ContractAddress,
        function_hash: [u8; 4],
        encoded_params: Vec<u8>,
        gas: Amount,
        gas_price: Amount,
    ) -> (r: RpcRequestContractCall)
        ensures
            r.from == from,
            r.to == contract_address,
            r.gas == gas,
            r.gas_price == gas_price,
            r.data@ == call_data(function_hash@, encoded_params@),
    {
        let mut bytes: Vec<u8> = Vec::new();
        let mut i: usize = 0;
        while i < 4
            invariant
                i <= 4,
                bytes@ == function_hash@.take(i as int),
            decreases 4 - i,
        {
            bytes.push(function_hash[i]);
            i = i + 1;
            assert(bytes@ =~= function_hash@.take(i as int));
        }
        let mut j: usize = 0;
        while j < encoded_params.len()
            invariant
                j <= encoded_params@.len(),
                bytes@ == function_hash@ + encoded_params@.take(j as int),
            decreases encoded_params@.len() - j,
        {
            bytes.push(encoded_params[j]);
            j = j + 1;
            assert(bytes@ =~= function_hash@ + encoded_params@.take(j as int));
        }
        assert(encoded_params@.take(j as int) =~= encoded_params@);
        let mut data = "0x".to_owned();
        let digits = hex_encode(&bytes);
        data.append(digits.as_str());
        proof {
            reveal_strlit("0x");
            assert(data@ =~= call_data(function_hash@, encoded_params@));
        }
        RpcRequestContractCall { from, to: contract_address, data, gas, gas_price }
    }

    /// The model of the JSON object of the body.
    pub open spec fn to_json_model(&self) -> Json {
        Json::Object(
            seq![
                ("from"@, Json::Str(hex_prefix() + lower_hex_bytes(self.from.0@))),
                ("to"@, Json::Str(hex_prefix() + lower_hex_bytes(self.to.0@))),
                ("data"@, Json::Str(self.data@)),
                ("gas"@, Json::Str(hex_prefix() + hex_string_min(u256_value(self.gas)))),
                ("gasPrice"@, Json::Str(hex_prefix() + hex_string_min(u256_value(self.gas_price)))),
            ],
        )
    }

    /// The JSON object that `serde` writes for the body: `from`, `to`,
    /// `data`, `gas` and `gasPrice`, the addresses as `0x` and two digits per
    /// byte and the amounts as `0x` and their digits without leading zeros.
    pub fn to_json(&self) -> (r: JsonValue)
        ensures
            r@ == self.to_json_model(),
    {
        let mut members: Vec<(String, JsonValue)> = Vec::new();
        members.push(("from".to_owned(), JsonValue::String(self.from.formatted_hex())));
        members.push(("to".to_owned(), JsonValue::String(self.to.formatted_hex())));
        members.push(("data".to_owned(), JsonValue::String(self.data.clone())));
        members.push(("gas".to_owned(), JsonValue::String(self.gas.formatted_hex())));
        members.push(("gasPrice".to_owned(), JsonValue::String(self.gas_price.formatted_hex())));
        proof {
            crate::json::lemma_view_members(members@);
        }
        assert(view_members(members@) =~= seq![
            ("from"@, Json::Str(hex_prefix() + lower_hex_bytes(self.from.0@))),
            ("to"@, Json::Str(hex_prefix() + lower_hex_bytes(self.to.0@))),
            ("data"@, Json::Str(self.data@)),
            ("gas"@, Json::Str(hex_prefix() + hex_string_min(u256_value(self.gas)))),
            ("gasPrice"@, Json::Str(hex_prefix() + hex_string_min(u256_value(self.gas_price)))),
        ]);
        let r = JsonValue::Object(members);
        r
    }
}

} // verus!
