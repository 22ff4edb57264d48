//! The state and the decisions of the two subscription listeners: the
//! `newHeads` listener keeps a cache of the last block number, the `logs`
//! listener turns events into transaction confirmations.
use vstd::prelude::*;

use crate::client::blockchain::{next_block, next_block_number};
use crate::client::errors::Error;
use crate::json::{Json, JsonValue};
use crate::operation::{
    read_logs_event, read_new_heads_event, SubscribeLogsEvent, SubscribeLogsRequest,
    SubscribeNewHeadsEvent, SubscribeResponse, FromRpcSyncSuccessResponse,
};
use crate::response::{Error as RpcResponseError, RpcSubscriptionResponse, RpcSyncErrorResponse, RpcSyncResponse};
use crate::types::{BlockNumber, ContractAddress, TransactionHash};

verus! {

// ---------------------------------------------------------------------------
// The clock
// ---------------------------------------------------------------------------

#[verifier::external_type_specification]
#[verifier::external_body]
pub struct ExInstant(std::time::Instant);

/// `Instant::now`: the current instant of the monotonic clock.
#[verifier::external_body]
fn instant_now() -> (r: std::time::Instant) {
    std::time::Instant::now()
}

/// The instant `nanos` nanoseconds before `i`, when the platform can
/// represent it, as `Instant::checked_sub` gives it: a function of the
/// instant and the length alone.
pub uninterp spec fn instant_minus(i: std::time::Instant, nanos: u128) -> Option<std::time::Instant>;

/// `Instant::checked_sub`: the instant `d` earlier, when the platform can
/// represent it. Which instants it can represent is left to the platform:
/// the result is named `instant_minus` of the instant and the length of `d`.
#[verifier::external_body]
fn instant_checked_sub(i: &std::time::Instant, d: std::time::Duration) -> (r: Option<
    std::time::Instant,
>)
    ensures
        r == instant_minus(*i, duration_nanos(d)),
{
    i.checked_sub(d)
}

/// `Instant::elapsed`: the time since `i`. It depends on the clock: nothing
/// is stated.
#[verifier::external_body]
fn instant_elapsed(i: &std::time::Instant) -> (r: std::time::Duration) {
    i.elapsed()
}

/// The length of a duration in whole nanoseconds, as `Duration::as_nanos`
/// gives it.
pub uninterp spec fn duration_nanos(d: std::time::Duration) -> u128;

/// `Duration::as_nanos`: the whole nanoseconds of the duration.
#[verifier::external_body]
fn duration_as_nanos(d: &std::time::Duration) -> (r: u128)
    ensures
        r == duration_nanos(*d),
{
    d.as_nanos()
}

/// `Duration::from_nanos`: the duration of `nanos` nanoseconds, whose whole
/// nanoseconds are `nanos` again.
#[verifier::external_body]
fn duration_from_nanos(nanos: u64) -> (r: std::time::Duration)
    ensures
        duration_nanos(r) == nanos,
{
    std::time::Duration::from_nanos(nanos)
}

/// How long a cached block number is trusted: ten seconds, in nanoseconds.
pub const BLOCK_NUMBER_INTERVAL_NANOS: u64 = 10_000_000_000;

/// How long a cached block number is trusted, as a duration.
pub fn block_number_interval() -> (d: std::time::Duration)
    ensures
        duration_nanos(d) == BLOCK_NUMBER_INTERVAL_NANOS,
{
    duration_from_nanos(BLOCK_NUMBER_INTERVAL_NANOS)
}

// ---------------------------------------------------------------------------
// newHeads
// ---------------------------------------------------------------------------

/// The last block number seen, and when it was seen. Times are read on the
/// monotonic clock, as nanoseconds since an origin instant.
#[derive(Debug)]
pub struct BlockNumberInfo {
    pub block_number: BlockNumber,
    origin: std::time::Instant,
    updated_at: u128,
}

/// The model of the cache: the block number and the time of its update.
pub struct BlockNumberModel {
    pub block_number: i64,
    pub updated_at: u128,
}

/// The cache after a block number is seen at time `now`: a newer number
/// replaces the cached one and its time; an older or equal one changes nothing.
pub open spec fn update_model(m: BlockNumberModel, block_number: i64, now: u128) -> BlockNumberModel {
    if block_number > m.block_number {
        BlockNumberModel { block_number, updated_at: now }
    } else {
        m
    }
}

/// The cache is trusted at time `now` when it was updated at most ten seconds
/// before.
pub open spec fn cache_valid(m: BlockNumberModel, now: u128) -> bool {
    m.updated_at + BLOCK_NUMBER_INTERVAL_NANOS >= now
}

impl BlockNumberInfo {
    pub closed spec fn view(&self) -> BlockNumberModel {
        BlockNumberModel { block_number: self.block_number, updated_at: self.updated_at }
    }

    /// The instant from which the cache measures its times.
    pub closed spec fn time_origin(&self) -> std::time::Instant {
        self.origin
    }

    /// A cache that holds block one and is not trusted: its time origin,
    /// and its update time, is the instant ten seconds before now. Fails with
    /// `Error::BlockNumber` when the clock cannot go back ten seconds.
    pub fn new_placeholder() -> (r: Result<Self, Error>)
        ensures
            match r {
                Ok(info) => info@.block_number == 1 && info@.updated_at == 0,
                Err(e) => e is BlockNumber,
            },
            exists|now: std::time::Instant|
                match #[trigger] instant_minus(now, BLOCK_NUMBER_INTERVAL_NANOS as u128) {
                    Some(t) => r matches Ok(info) && info.time_origin() == t,
                    None => r is Err,
                },
    {
        let now = instant_now();
        let interval = block_number_interval();
        let ten_seconds_ago = instant_checked_sub(&now, interval);
        let r = Self::placeholder_from(ten_seconds_ago);
        assert(instant_minus(now, BLOCK_NUMBER_INTERVAL_NANOS as u128) == ten_seconds_ago);
        r
    }

    /// The placeholder cache whose time origin is `ten_seconds_ago`, the
    /// instant ten seconds before now when the clock can represent it: block
    /// one at time zero, or `Error::BlockNumber` when there is no such instant.
    pub fn placeholder_from(ten_seconds_ago: Option<std::time::Instant>) -> (r: Result<Self, Error>)
        ensures
            match ten_seconds_ago {
                Some(t) => r matches Ok(info) && info@.block_number == 1 && info@.updated_at == 0
                    && info.time_origin() == t,
                None => r matches Err(e) && e is BlockNumber,
            },
    {
        match ten_seconds_ago {
            Some(origin) => Ok(Self { block_number: 1, origin, updated_at: 0 }),
            None => Err(Error::BlockNumber),
        }
    }

    /// The cached block number.
    pub fn block_number(&self) -> (r: BlockNumber)
        ensures
            r == self@.block_number,
    {
        self.block_number
    }

    /// The time on the cache's clock.
    fn now_nanos(&self) -> u128 {
        duration_as_nanos(&instant_elapsed(&self.origin))
    }

    /// Records the block number `block_number`, seen at time `now`.
    pub fn update_at(&mut self, block_number: BlockNumber, now: u128)
        ensures
            final(self)@ == update_model(old(self)@, block_number, now),
            final(self).time_origin() == old(self).time_origin(),
    {
        if block_number > self.block_number {
            self.block_number = block_number;
            self.updated_at = now;
        }
    }

    /// Records the block number `block_number`, seen now: a newer number
    /// replaces the cached one, an older or equal one changes nothing.
    pub fn update(&mut self, block_number: BlockNumber)
        ensures
            exists|now: u128| final(self)@ == update_model(old(self)@, block_number, now),
            final(self).time_origin() == old(self).time_origin(),
    {
        if block_number > self.block_number {
            let now = self.now_nanos();
            self.update_at(block_number, now);
        }
        assert(self@ == update_model(old(self)@, block_number, self@.updated_at));
    }

    /// Whether the cache is trusted at time `now`.
    pub fn is_cache_valid_at(&self, now: u128) -> (r: bool)
        ensures
            r == cache_valid(self@, now),
    {
        if now <= self.updated_at {
            true
        } else {
            now - self.updated_at <= BLOCK_NUMBER_INTERVAL_NANOS as u128
        }
    }

    /// Whether the cache is trusted now. It depends on the clock: only that
    /// the answer is the one for some time is stated.
    pub fn is_cache_valid(&self) -> (r: bool)
        ensures
            exists|now: u128| r == cache_valid(self@, now),
    {
        let now = self.now_nanos();
        self.is_cache_valid_at(now)
    }

    /// Where the next block number comes from at time `now`: from the cache
    /// when it is trusted, one past the cached number (none past the largest
    /// one), else from the node.
    pub fn next_block_source_at(&self, now: u128) -> (r: NextBlockSource)
        ensures
            r == (if cache_valid(self@, now) {
                NextBlockSource::Cache(next_block(self@.block_number))
            } else {
                NextBlockSource::Node
            }),
    {
        if self.is_cache_valid_at(now) {
            NextBlockSource::Cache(next_block_number(self.block_number))
        } else {
            NextBlockSource::Node
        }
    }

    /// Where the next block number comes from now. It depends on the clock:
    /// only that the answer is the one for some time is stated.
    pub fn next_block_source(&self) -> (r: NextBlockSource)
        ensures
            exists|now: u128|
                r == (if cache_valid(self@, now) {
                    NextBlockSource::Cache(next_block(self@.block_number))
                } else {
                    NextBlockSource::Node
                }),
    {
        let now = self.now_nanos();
        self.next_block_source_at(now)
    }
}

/// Where the next block number comes from.
#[derive(Debug, Clone, Copy)]
pub enum NextBlockSource {
    /// The cache is trusted: the number after the cached one, none past the
    /// largest block number.
    Cache(Option<BlockNumber>),
    /// The cache is not trusted: the node is asked.
    Node,
}

/// The cache after a `newHeads` event with result `result` arrives at time
/// `now`: a well-formed event updates it, any other changes nothing.
pub open spec fn new_heads_step(m: BlockNumberModel, result: Json, now: u128) -> BlockNumberModel {
    match read_new_heads_event(result) {
        Some(n) => update_model(m, n, now),
        None => m,
    }
}

/// The block number of a `newHeads` event.
pub fn new_heads_block_number(payload: &RpcSubscriptionResponse) -> (r: Option<BlockNumber>)
    ensures
        r == read_new_heads_event(payload.params.result@),
{
    match SubscribeNewHeadsEvent::from_json(&payload.params.result) {
        Some(event) => Some(event.block_number),
        None => None,
    }
}

/// Handles an event of the `newHeads` subscription seen at time `now`: a
/// well-formed event updates the cache, any other changes nothing.
pub fn handle_new_heads_message_at(
    info: &mut BlockNumberInfo,
    payload: &RpcSubscriptionResponse,
    now: u128,
)
    ensures
        final(info)@ == new_heads_step(old(info)@, payload.params.result@, now),
        final(info).time_origin() == old(info).time_origin(),
{
    match new_heads_block_number(payload) {
        Some(n) => info.update_at(n, now),
        None => {},
    }
}

/// Handles an event of the `newHeads` subscription: a well-formed event
/// updates the cache, any other changes nothing.
pub fn handle_new_heads_message(info: &mut BlockNumberInfo, payload: &RpcSubscriptionResponse)
    ensures
        exists|now: u128| final(info)@ == new_heads_step(old(info)@, payload.params.result@, now),
        final(info).time_origin() == old(info).time_origin(),
{
    let ghost m0 = info@;
    match new_heads_block_number(payload) {
        Some(n) => {
            info.update(n);
            proof {
                let t = choose|t: u128| info@ == update_model(m0, n, t);
                assert(info@ == new_heads_step(m0, payload.params.result@, t));
            }
        },
        None => {
            assert(info@ == new_heads_step(old(info)@, payload.params.result@, 0));
        },
    }
}

// ---------------------------------------------------------------------------
// logs
// ---------------------------------------------------------------------------

/// A transaction seen in the logs of the contract.
#[derive(Debug, Clone, Copy)]
pub struct TransactionConfirmation {
    pub hash: TransactionHash,
    pub log_index: u64,
}

/// The subscription to the logs of `contract` with the given topics.
pub fn transactions_subscribe_operation(contract: &ContractAddress, topics: Vec<JsonValue>) -> (r:
    SubscribeLogsRequest)
    ensures
        r.contract == *contract,
        r.topics@ == topics@,
{
    SubscribeLogsRequest { contract: *contract, topics }
}

/// Handles an event of the `logs` subscription: a well-formed event is the
/// confirmation of its transaction, any other is dropped.
pub fn handle_logs_message(payload: &RpcSubscriptionResponse) -> (r: Option<TransactionConfirmation>)
    ensures
        match read_logs_event(payload.params.result@) {
            Some(e) => r matches Some(c) && c.hash.0@ == e.transaction_hash && c.log_index
                == e.log_index,
            None => r is None,
        },
{
    match SubscribeLogsEvent::from_json(&payload.params.result) {
        Some(logs) => Some(TransactionConfirmation { hash: logs.transaction_hash, log_index: logs.log_index }),
        None => None,
    }
}

// ---------------------------------------------------------------------------
// Subscribing
// ---------------------------------------------------------------------------

/// Why a subscription request did not open a subscription.
#[derive(Debug)]
pub enum SubscribeRejection {
    /// The node answered with an error.
    Refused(RpcSyncErrorResponse),
    /// The node answered with something that is not a subscription id.
    Parsing(RpcResponseError),
}

/// Reads the answer to a subscription request: a string result is the id of
/// the new subscription, whose events come through `rx_subscription`.
pub fn subscribe_outcome<R: core::fmt::Debug>(response: RpcSyncResponse, rx_subscription: R) -> (r: Result<
    SubscribeResponse<R>,
    SubscribeRejection,
>)
    ensures
        match response {
            RpcSyncResponse::Error(e) => r matches Err(SubscribeRejection::Refused(x)) && x == e,
            RpcSyncResponse::Success(s) => match s.result@ {
                Json::Str(id) => r matches Ok(x) && x.id@ == id && x.rx_subscription
                    == rx_subscription,
                _ => r matches Err(SubscribeRejection::Parsing(RpcResponseError::Parsing(m))) && m@
                    == "Failed to convert blockchain RPC result field as string"@,
            },
        },
{
    match response {
        RpcSyncResponse::Success(rpc) => match SubscribeResponse::from_rpc_response(rpc, rx_subscription) {
            Ok(parsed) => Ok(parsed),
            Err(e) => Err(SubscribeRejection::Parsing(e)),
        },
        RpcSyncResponse::Error(rpc) => Err(SubscribeRejection::Refused(rpc)),
    }
}

// ---------------------------------------------------------------------------
// Laws
// ---------------------------------------------------------------------------

/// The cache after the updates `updates`, each a block number and the time it
/// was seen, applied in their order.
pub open spec fn update_all(m: BlockNumberModel, updates: Seq<(i64, u128)>) -> BlockNumberModel
    decreases updates.len(),
{
    if updates.len() == 0 {
        m
    } else {
        update_model(update_all(m, updates.drop_last()), updates.last().0, updates.last().1)
    }
}

/// After any sequence of updates the cached block number is the largest of
/// the first one and of those seen: at least each of them, and one of them.
pub proof fn law_block_number_is_the_maximum(m: BlockNumberModel, updates: Seq<(i64, u128)>)
    ensures
        update_all(m, updates).block_number >= m.block_number,
        forall|i: int|
            0 <= i < updates.len() ==> update_all(m, updates).block_number >= #[trigger] updates[i].0,
        update_all(m, updates).block_number == m.block_number || exists|i: int|
            0 <= i < updates.len() && update_all(m, updates).block_number == #[trigger] updates[i].0,
    decreases updates.len(),
{
    if updates.len() > 0 {
        let init = updates.drop_last();
        law_block_number_is_the_maximum(m, init);
        let n = update_all(m, updates).block_number;
        assert forall|i: int| 0 <= i < updates.len() implies n >= #[trigger] updates[i].0 by {
            if i < init.len() {
                assert(init[i] == updates[i]);
            }
        }
        if n != m.block_number {
            if n == updates.last().0 {
                assert(updates[updates.len() - 1].0 == n);
            } else {
                let j = choose|j: int| 0 <= j < init.len() && update_all(m, init).block_number == #[trigger] init[j].0;
                assert(init[j] == updates[j]);
            }
        }
    }
}

/// The order of the updates does not matter: two sequences that see the same
/// block numbers leave the same cached block number.
pub proof fn law_block_number_ignores_order(
    m: BlockNumberModel,
    updates: Seq<(i64, u128)>,
    others: Seq<(i64, u128)>,
)
    requires
        forall|i: int| 0 <= i < updates.len() ==> exists|j: int|
            0 <= j < others.len() && #[trigger] updates[i].0 == #[trigger] others[j].0,
        forall|j: int| 0 <= j < others.len() ==> exists|i: int|
            0 <= i < updates.len() && #[trigger] updates[i].0 == #[trigger] others[j].0,
    ensures
        update_all(m, updates).block_number == update_all(m, others).block_number,
{
    law_block_number_is_the_maximum(m, updates);
    law_block_number_is_the_maximum(m, others);
    let a = update_all(m, updates).block_number;
    let b = update_all(m, others).block_number;
    if a != m.block_number {
        let i = choose|i: int| 0 <= i < updates.len() && a == #[trigger] updates[i].0;
        let j = choose|j: int| 0 <= j < others.len() && #[trigger] updates[i].0 == #[trigger] others[j].0;
        assert(b >= others[j].0);
    }
    if b != m.block_number {
        let j = choose|j: int| 0 <= j < others.len() && b == #[trigger] others[j].0;
        let i = choose|i: int| 0 <= i < updates.len() && #[trigger] updates[i].0 == #[trigger] others[j].0;
        assert(a >= updates[i].0);
    }
}

/// At every step of a sequence of updates the cached block number stays or
/// grows.
pub proof fn law_block_number_grows_at_each_step(
    m: BlockNumberModel,
    updates: Seq<(i64, u128)>,
    k: int,
)
    requires
        0 <= k < updates.len(),
    ensures
        update_all(m, updates.take(k + 1)).block_number >= update_all(m, updates.take(k)).block_number,
{
    assert(updates.take(k + 1).drop_last() =~= updates.take(k));
}

/// Seeing the same block number twice in a row leaves the cache as seeing it
/// once did.
pub proof fn law_repeated_update_changes_nothing(
    m: BlockNumberModel,
    block_number: i64,
    now: u128,
    later: u128,
)
    ensures
        update_model(update_model(m, block_number, now), block_number, later) == update_model(
            m,
            block_number,
            now,
        ),
{
}

/// The cached block number never goes back.
pub proof fn law_block_number_never_decreases(m: BlockNumberModel, block_number: i64, now: u128)
    ensures
        update_model(m, block_number, now).block_number >= m.block_number,
        update_model(m, block_number, now).block_number >= block_number,
{
}

/// A newer block number makes the cache trusted for the ten seconds that
/// follow.
pub proof fn law_fresh_update_is_trusted(
    m: BlockNumberModel,
    block_number: i64,
    now: u128,
    later: u128,
)
    requires
        block_number > m.block_number,
        now <= later <= now + BLOCK_NUMBER_INTERVAL_NANOS,
    ensures
        cache_valid(update_model(m, block_number, now), later),
{
}

/// The placeholder cache is not trusted once any time has passed since it
/// was made.
pub proof fn law_placeholder_untrusted(m: BlockNumberModel, later: u128)
    requires
        m.updated_at == 0,
        later > BLOCK_NUMBER_INTERVAL_NANOS,
    ensures
        !cache_valid(m, later),
{
}


/// The cache is trusted exactly up to ten seconds after its update: at a
/// clock reading later than that it is not, and the next block number is
/// asked of the node.
pub proof fn law_cache_trusted_for_ten_seconds(m: BlockNumberModel, now: u128)
    ensures
        cache_valid(m, now) <==> now <= m.updated_at + 10_000_000_000,
{
}

} // verus!
