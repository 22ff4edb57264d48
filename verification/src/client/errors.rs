use vstd::prelude::*;

use crate::response::Error as RpcResponseError;

verus! {

/// Why a call of the client failed.
#[derive(Debug)]
pub enum Error {
    Connection(String),
    RequestManagerSend,
    RequestManagerReceive,
    Subscription(String),
    Timeout,
    RpcResponse(RpcResponseError),
    BlockNumber,
}

} // verus!
