//! The parameters of a contract call, as plain values, and their ABI
//! encoding by `ethabi`.
use ethabi::Token;
use ethereum_types::{H160 as EthH160, U256 as EthU256};
use vstd::prelude::*;

use crate::types::{u256_value, H160, U256};

verus! {

/// A parameter of a contract call, as `ethabi::Token` describes one: the
/// integers are 256-bit words (`Int` in two's complement).
#[derive(Debug)]
pub enum AbiToken {
    Address(H160),
    FixedBytes(Vec<u8>),
    Bytes(Vec<u8>),
    Int(U256),
    Uint(U256),
    Bool(bool),
    String(String),
    FixedArray(Vec<AbiToken>),
    Array(Vec<AbiToken>),
    Tuple(Vec<AbiToken>),
}

/// The model of a parameter of a contract call.
pub enum AbiTokenModel {
    Address(Seq<u8>),
    FixedBytes(Seq<u8>),
    Bytes(Seq<u8>),
    Int(nat),
    Uint(nat),
    Bool(bool),
    String(Seq<char>),
    FixedArray(Seq<AbiTokenModel>),
    Array(Seq<AbiTokenModel>),
    Tuple(Seq<AbiTokenModel>),
}

/// The models of a list of parameters.
pub open spec fn abi_models(tokens: Seq<AbiToken>) -> Seq<AbiTokenModel>
    decreases tokens,
{
    if tokens.len() == 0 {
        Seq::empty()
    } else {
        seq![tokens[0].view()] + abi_models(tokens.drop_first())
    }
}

impl AbiToken {
    pub open spec fn view(&self) -> AbiTokenModel
        decreases self,
    {
        match self {
            AbiToken::Address(a) => AbiTokenModel::Address(a.0@),
            AbiToken::FixedBytes(b) => AbiTokenModel::FixedBytes(b@),
            AbiToken::Bytes(b) => AbiTokenModel::Bytes(b@),
            AbiToken::Int(x) => AbiTokenModel::Int(u256_value(*x)),
            AbiToken::Uint(x) => AbiTokenModel::Uint(u256_value(*x)),
            AbiToken::Bool(b) => AbiTokenModel::Bool(*b),
            AbiToken::String(s) => AbiTokenModel::String(s@),
            AbiToken::FixedArray(v) => AbiTokenModel::FixedArray(abi_models(v@)),
            AbiToken::Array(v) => AbiTokenModel::Array(abi_models(v@)),
            AbiToken::Tuple(v) => AbiTokenModel::Tuple(abi_models(v@)),
        }
    }
}

#[verifier::external_type_specification]
#[verifier::external_body]
pub struct ExToken(ethabi::Token);

/// The bytes that `ethabi::encode` gives for a list of parameters.
pub uninterp spec fn abi_encoding(tokens: Seq<AbiTokenModel>) -> Seq<u8>;

/// Builds the `ethabi::Token` that a parameter stands for, variant for
/// variant; the elements of arrays and tuples are built the same way. It only
/// converts the argument of `abi_encode`, and nothing is stated of the opaque
/// token.
#[verifier::external_body]
fn to_ethabi_token(t: AbiToken) -> (r: Token) {
    match t {
        AbiToken::Address(a) => Token::Address(EthH160(a.0)),
        AbiToken::FixedBytes(b) => Token::FixedBytes(b),
        AbiToken::Bytes(b) => Token::Bytes(b),
        AbiToken::Int(x) => Token::Int(EthU256(x.0)),
        AbiToken::Uint(x) => Token::Uint(EthU256(x.0)),
        AbiToken::Bool(b) => Token::Bool(b),
        AbiToken::String(s) => Token::String(s),
        AbiToken::FixedArray(v) => Token::FixedArray(v.into_iter().map(to_ethabi_token).collect()),
        AbiToken::Array(v) => Token::Array(v.into_iter().map(to_ethabi_token).collect()),
        AbiToken::Tuple(v) => Token::Tuple(v.into_iter().map(to_ethabi_token).collect()),
    }
}

/// `ethabi::encode` of the tokens that the parameters stand for: its result
/// is named `abi_encoding` of their models, a function of them alone.
#[verifier::external_body]
pub(crate) fn abi_encode(tokens: Vec<AbiToken>) -> (r: Vec<u8>)
    ensures
        r@ == abi_encoding(abi_models(tokens@)),
{
    ethabi::encode(&tokens.into_iter().map(to_ethabi_token).collect::<Vec<Token>>())
}

} // verus!
