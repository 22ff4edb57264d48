//! The decisions of the client between its calls to the request manager:
//! what an answer becomes, when a transaction may be sent, and which
//! confirmation belongs to a transaction.
use vstd::prelude::*;

use crate::client::errors::Error;
use crate::client::subscription::TransactionConfirmation;
use crate::operation::FromRpcSyncSuccessResponse;
use crate::response::{Error as RpcResponseError, RpcSyncResponse};
use crate::types::{BlockNumber, Nonce, TransactionHash};

verus! {

/// What an answer of the node becomes for a caller that asked for a `T`: a
/// successful answer is handed, with the subscription receiver, to `T`'s
/// reader, whose outcome is returned (an error of that reading wrapped as an
/// `RpcResponse` error); an error answer is an `RpcResponse` error carrying
/// the node's error.
pub fn decode_sync_response<T: FromRpcSyncSuccessResponse<R>, R>(
    response: RpcSyncResponse,
    rx_subscription: R,
) -> (r: Result<T, Error>)
    ensures
        response matches RpcSyncResponse::Error(e) ==> r matches Err(
            Error::RpcResponse(RpcResponseError::SyncResponse(b)),
        ) && b == e.error,
        r matches Err(e) ==> e is RpcResponse,
        response matches RpcSyncResponse::Success(s) ==> exists|out: Result<T, RpcResponseError>|
            call_ensures(T::from_rpc_response, (s, rx_subscription), out) && r == (match out {
                Ok(v) => Ok::<T, Error>(v),
                Err(e) => Err::<T, Error>(Error::RpcResponse(e)),
            }),
{
    match response {
        RpcSyncResponse::Success(rpc_response) => {
            match T::from_rpc_response(rpc_response, rx_subscription) {
                Ok(parsed) => Ok(parsed),
                Err(e) => Err(Error::RpcResponse(e)),
            }
        },
        RpcSyncResponse::Error(rpc) => Err(Error::RpcResponse(RpcResponseError::SyncResponse(rpc.error))),
    }
}

/// The block number after `block_number`: none past the largest one.
pub open spec fn next_block(block_number: i64) -> Option<i64> {
    if block_number < i64::MAX {
        Some((block_number + 1) as i64)
    } else {
        None
    }
}

/// The block number after `block_number`: none past the largest one.
pub fn next_block_number(block_number: BlockNumber) -> (r: Option<BlockNumber>)
    ensures
        r == next_block(block_number),
{
    if block_number < i64::MAX {
        Some(block_number + 1)
    } else {
        None
    }
}

/// What the sender of a transaction does next.
#[derive(Debug, Clone, Copy, PartialEq, Eq, Structural)]
pub enum SendStep {
    /// The chain has reached the nonce of the transaction: submit it.
    Submit,
    /// The chain is behind: wait for the next nonce.
    AwaitNextNonce,
}

/// A transaction signed with nonce `nonce` is submitted once the nonce of the
/// wallet on the chain has reached it.
pub fn send_transaction_step(nonce: u128, chain_nonce: Nonce) -> (r: SendStep)
    ensures
        r == (if chain_nonce >= nonce {
            SendStep::Submit
        } else {
            SendStep::AwaitNextNonce
        }),
{
    if chain_nonce >= nonce {
        SendStep::Submit
    } else {
        SendStep::AwaitNextNonce
    }
}

/// The log index of a confirmation, when it confirms the transaction `hash`.
pub fn confirmation_log_index(hash: &TransactionHash, confirmation: &TransactionConfirmation) -> (r:
    Option<u64>)
    ensures
        r == (if hash.0@ == confirmation.hash.0@ {
            Some(confirmation.log_index)
        } else {
            None::<u64>
        }),
{
    if hash.same_as(&confirmation.hash) {
        Some(confirmation.log_index)
    } else {
        None
    }
}

} // verus!
