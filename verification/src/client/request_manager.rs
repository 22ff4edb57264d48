//! The routing tables of the request manager: which requester waits for the
//! answer to which request, which subscriber waits for a subscription to be
//! opened, and which subscriber receives the events of an open subscription.
//!
//! The senders are opaque here (`Resp` and `Sub`); the manager's loop sends
//! through them.
use vstd::prelude::*;

use crate::json::Json;
use crate::request::{RpcRequest, ToRpcRequest};
use crate::response::{RpcSubscriptionResponse, RpcSyncResponse, SyncModel};
use crate::table::KeyedTable;

verus! {

/// The model of the routing tables.
pub struct RouterModel<Resp, Sub> {
    /// Requesters waiting for the answer to a request, by request id.
    pub pending_reqs: Map<Seq<char>, Resp>,
    /// Subscribers waiting for a subscription request to be answered, by
    /// request id.
    pub pending_subs: Map<Seq<char>, Sub>,
    /// Subscribers of open subscriptions, by subscription id.
    pub active_subs: Map<Seq<char>, Sub>,
}

/// The request id that an answer carries.
pub open spec fn answer_id(answer: SyncModel) -> Seq<char> {
    match answer {
        SyncModel::Success { id, .. } => id,
        SyncModel::Error { id, .. } => id,
    }
}

/// A request is sent: its requester waits for the answer, and, when it opens
/// a subscription, its subscriber waits for the subscription.
pub open spec fn register_step<Resp, Sub>(
    m: RouterModel<Resp, Sub>,
    id: Seq<char>,
    resp: Resp,
    sub: Option<Sub>,
) -> RouterModel<Resp, Sub> {
    RouterModel {
        pending_reqs: m.pending_reqs.insert(id, resp),
        pending_subs: match sub {
            Some(s) => m.pending_subs.insert(id, s),
            None => m.pending_subs,
        },
        active_subs: m.active_subs,
    }
}

/// An answer arrives for a request whose subscriber waits: the subscriber
/// stops waiting, and when the answer is a success whose result is a string,
/// the subscriber receives the events of the subscription of that id.
pub open spec fn activation_step<Resp, Sub>(
    m: RouterModel<Resp, Sub>,
    answer: SyncModel,
) -> RouterModel<Resp, Sub> {
    let id = answer_id(answer);
    if m.pending_subs.dom().contains(id) {
        RouterModel {
            pending_reqs: m.pending_reqs,
            pending_subs: m.pending_subs.remove(id),
            active_subs: match answer {
                SyncModel::Success { result: Json::Str(s), .. } => m.active_subs.insert(
                    s,
                    m.pending_subs[id],
                ),
                _ => m.active_subs,
            },
        }
    } else {
        m
    }
}

/// An answer arrives: the subscription is activated if needed, then the
/// requester of that id is taken out of the table and handed over.
pub open spec fn answer_step<Resp, Sub>(m: RouterModel<Resp, Sub>, answer: SyncModel) -> (
    RouterModel<Resp, Sub>,
    Option<Resp>,
) {
    let m1 = activation_step(m, answer);
    let id = answer_id(answer);
    (
        RouterModel {
            pending_reqs: m1.pending_reqs.remove(id),
            pending_subs: m1.pending_subs,
            active_subs: m1.active_subs,
        },
        if m1.pending_reqs.dom().contains(id) {
            Some(m1.pending_reqs[id])
        } else {
            None
        },
    )
}

/// The subscriber that receives the events of the subscription `id`.
pub open spec fn event_target<Resp, Sub>(m: RouterModel<Resp, Sub>, id: Seq<char>) -> Option<
    Sub,
> {
    if m.active_subs.dom().contains(id) {
        Some(m.active_subs[id])
    } else {
        None
    }
}

/// The connection is opened again: all subscriptions are forgotten, so that
/// the subscribers see their channel close and subscribe again.
pub open spec fn reconnect_step<Resp, Sub>(m: RouterModel<Resp, Sub>) -> RouterModel<Resp, Sub> {
    RouterModel {
        pending_reqs: m.pending_reqs,
        pending_subs: Map::empty(),
        active_subs: Map::empty(),
    }
}

/// The routing tables of the request manager.
pub struct RequestRouter<Resp, Sub> {
    pending_reqs: KeyedTable<Resp>,
    pending_subs: KeyedTable<Sub>,
    active_subs: KeyedTable<Sub>,
}

impl<Resp, Sub> RequestRouter<Resp, Sub> {
    pub closed spec fn view(&self) -> RouterModel<Resp, Sub> {
        RouterModel {
            pending_reqs: self.pending_reqs@,
            pending_subs: self.pending_subs@,
            active_subs: self.active_subs@,
        }
    }

    /// Empty tables.
    pub fn new() -> (r: Self)
        ensures
            r@.pending_reqs == Map::<Seq<char>, Resp>::empty(),
            r@.pending_subs == Map::<Seq<char>, Sub>::empty(),
            r@.active_subs == Map::<Seq<char>, Sub>::empty(),
    {
        RequestRouter {
            pending_reqs: KeyedTable::new(),
            pending_subs: KeyedTable::new(),
            active_subs: KeyedTable::new(),
        }
    }

    /// Keeps track of a request that is being sent: its answer goes to
    /// `tx_response`, and the events of the subscription it opens, if any,
    /// to `tx_subscription`.
    pub fn register_request(&mut self, id: &String, tx_response: Resp, tx_subscription: Option<Sub>)
        ensures
            final(self)@ == register_step(old(self)@, id@, tx_response, tx_subscription),
    {
        let _ = self.pending_reqs.insert(id.clone(), tx_response);
        match tx_subscription {
            Some(tx) => {
                let _ = self.pending_subs.insert(id.clone(), tx);
            },
            None => {},
        }
    }

    /// Turns an operation into the request to send, the one that the
    /// operation's `to_rpc_request` builds, and keeps track of it under the id
    /// that the request carries.
    pub fn dispatch_request<Op: ToRpcRequest + ?Sized>(
        &mut self,
        operation: &Op,
        tx_response: Resp,
        tx_subscription: Option<Sub>,
    ) -> (rpc: RpcRequest)
        ensures
            call_ensures(Op::to_rpc_request, (operation,), rpc),
            final(self)@ == register_step(old(self)@, rpc.id@, tx_response, tx_subscription),
    {
        let rpc = operation.to_rpc_request();
        self.register_request(&rpc.id, tx_response, tx_subscription);
        rpc
    }

    /// When an answer is for a request that opens a subscription, the
    /// subscriber stops waiting; when the answer is a success whose result is
    /// a string, the subscriber receives the events of that subscription id.
    pub fn activate_subscription_if_necessary(&mut self, resp: &RpcSyncResponse)
        ensures
            final(self)@ == activation_step(old(self)@, resp.view()),
    {
        let ghost m = self@;
        if let Some(pending_sub) = self.pending_subs.remove(resp.id()) {
            if let RpcSyncResponse::Success(success) = resp {
                if let crate::json::JsonValue::String(result_str) = &success.result {
                    let _ = self.active_subs.insert(result_str.clone(), pending_sub);
                }
            }
        }
        proof {
            assert(self@.pending_subs =~= activation_step(m, resp.view()).pending_subs);
            assert(self@.active_subs =~= activation_step(m, resp.view()).active_subs);
        }
    }

    /// Takes out the requester that waits for the answer `resp`.
    pub fn take_response_sender(&mut self, resp: &RpcSyncResponse) -> (r: Option<Resp>)
        ensures
            final(self)@ == (RouterModel {
                pending_reqs: old(self)@.pending_reqs.remove(resp.spec_id()),
                ..old(self)@
            }),
            r == (if old(self)@.pending_reqs.dom().contains(resp.spec_id()) {
                Some(old(self)@.pending_reqs[resp.spec_id()])
            } else {
                None
            }),
    {
        self.pending_reqs.remove(resp.id())
    }

    /// An answer arrived: activates its subscription if needed and hands
    /// over the requester that waits for it.
    pub fn on_sync_response(&mut self, resp: &RpcSyncResponse) -> (r: Option<Resp>)
        ensures
            (final(self)@, r) == answer_step(old(self)@, resp.view()),
    {
        self.activate_subscription_if_necessary(resp);
        self.take_response_sender(resp)
    }

    /// The subscriber that receives the event `sub`.
    pub fn subscriber_for(&self, sub: &RpcSubscriptionResponse) -> (r: Option<&Sub>)
        ensures
            match event_target(self@, sub.params.subscription@) {
                Some(s) => r matches Some(x) && *x == s,
                None => r is None,
            },
    {
        self.active_subs.get(&sub.params.subscription)
    }

    /// The connection was opened again: all subscriptions are forgotten.
    pub fn reset_subscriptions(&mut self)
        ensures
            final(self)@ == reconnect_step(old(self)@),
    {
        self.pending_subs.clear();
        self.active_subs.clear();
    }
}

// ---------------------------------------------------------------------------
// The socket
// ---------------------------------------------------------------------------

/// A message of the websocket.
#[derive(Debug)]
pub enum WsMessage {
    Text(String),
    Binary(Vec<u8>),
    Ping(Vec<u8>),
    Pong(Vec<u8>),
    Close,
    Frame,
}

/// What reading the websocket gave.
#[derive(Debug)]
pub enum SocketEvent {
    /// A message arrived.
    Received(WsMessage),
    /// Reading failed.
    Failed,
    /// The connection is closed.
    Closed,
}

/// What the request manager does about a socket event.
#[derive(Debug)]
pub enum SocketAction {
    /// Read the text as a message of the node.
    HandleText(String),
    /// Answer a ping with a pong carrying the same payload.
    SendPong(Vec<u8>),
    /// Nothing to do.
    Ignore,
    /// Open the connection again.
    Reconnect,
    /// A message that the manager does not handle: report it.
    Unhandled,
}

/// Texts are read, pings answered, pongs ignored, a closed connection opened
/// again, and anything else reported.
pub fn socket_action(event: SocketEvent) -> (r: SocketAction)
    ensures
        match event {
            SocketEvent::Received(WsMessage::Text(t)) => r matches SocketAction::HandleText(x) && x
                == t,
            SocketEvent::Received(WsMessage::Ping(p)) => r matches SocketAction::SendPong(x) && x
                == p,
            SocketEvent::Received(WsMessage::Pong(_)) => r is Ignore,
            SocketEvent::Closed => r is Reconnect,
            _ => r is Unhandled,
        },
{
    match event {
        SocketEvent::Received(WsMessage::Text(content)) => SocketAction::HandleText(content),
        SocketEvent::Received(WsMessage::Ping(payload)) => SocketAction::SendPong(payload),
        SocketEvent::Received(WsMessage::Pong(_)) => SocketAction::Ignore,
        SocketEvent::Closed => SocketAction::Reconnect,
        _ => SocketAction::Unhandled,
    }
}

// ---------------------------------------------------------------------------
// Laws
// ---------------------------------------------------------------------------

/// The answer to a request goes to the requester that sent it.
pub proof fn law_answer_reaches_requester<Resp, Sub>(
    m: RouterModel<Resp, Sub>,
    id: Seq<char>,
    resp: Resp,
    sub: Option<Sub>,
    answer: SyncModel,
)
    requires
        answer_id(answer) == id,
    ensures
        answer_step(register_step(m, id, resp, sub), answer).1 == Some(resp),
        !answer_step(register_step(m, id, resp, sub), answer).0.pending_reqs.dom().contains(id),
{
}

/// An answer is handed over once: the same answer a second time finds no
/// requester.
pub proof fn law_answer_delivered_once<Resp, Sub>(m: RouterModel<Resp, Sub>, answer: SyncModel)
    ensures
        answer_step(answer_step(m, answer).0, answer).1 == None::<Resp>,
{
    let m1 = answer_step(m, answer).0;
    let id = answer_id(answer);
    assert(!m1.pending_reqs.dom().contains(id));
    assert(!activation_step(m1, answer).pending_reqs.dom().contains(id));
}

/// A subscription request answered with a subscription id opens the
/// subscription: its events go to the subscriber, which no longer waits.
pub proof fn law_subscription_opened<Resp, Sub>(
    m: RouterModel<Resp, Sub>,
    id: Seq<char>,
    resp: Resp,
    sub: Sub,
    subscription_id: Seq<char>,
)
    ensures
        ({
            let m1 = register_step(m, id, resp, Some(sub));
            let m2 = answer_step(
                m1,
                SyncModel::Success { id, result: Json::Str(subscription_id) },
            ).0;
            &&& event_target(m2, subscription_id) == Some(sub)
            &&& !m2.pending_subs.dom().contains(id)
        }),
{
}

/// A subscription request answered with an error, or with a result that is
/// not a string, opens nothing: the subscriber no longer waits and the open
/// subscriptions stay as they were.
pub proof fn law_failed_subscription_opens_nothing<Resp, Sub>(
    m: RouterModel<Resp, Sub>,
    id: Seq<char>,
    resp: Resp,
    sub: Sub,
    answer: SyncModel,
)
    requires
        answer_id(answer) == id,
        !(answer matches SyncModel::Success { result: Json::Str(_), .. }),
    ensures
        ({
            let m2 = answer_step(register_step(m, id, resp, Some(sub)), answer).0;
            &&& m2.active_subs == m.active_subs
            &&& !m2.pending_subs.dom().contains(id)
        }),
{
}

/// A request that opens no subscription leaves the subscriptions alone, and
/// so does its answer.
pub proof fn law_plain_request_leaves_subscriptions<Resp, Sub>(
    m: RouterModel<Resp, Sub>,
    id: Seq<char>,
    resp: Resp,
    answer: SyncModel,
)
    requires
        answer_id(answer) == id,
        !m.pending_subs.dom().contains(id),
    ensures
        ({
            let m2 = answer_step(register_step(m, id, resp, None), answer).0;
            &&& m2.pending_subs == m.pending_subs
            &&& m2.active_subs == m.active_subs
        }),
{
}

/// A reconnection keeps every requester waiting and forgets every
/// subscription, so that no event is routed until subscribers subscribe
/// again.
pub proof fn law_reconnect_forgets_subscriptions<Resp, Sub>(
    m: RouterModel<Resp, Sub>,
    subscription_id: Seq<char>,
)
    ensures
        reconnect_step(m).pending_reqs == m.pending_reqs,
        reconnect_step(m).pending_subs.dom().is_empty(),
        event_target(reconnect_step(m), subscription_id) == None::<Sub>,
{
}


/// An answer changes the route of no subscription but the one it opens:
/// every subscription id other than the answer's string result keeps the
/// subscriber it had.
pub proof fn law_answer_keeps_other_subscriptions<Resp, Sub>(
    m: RouterModel<Resp, Sub>,
    answer: SyncModel,
    subscription_id: Seq<char>,
)
    requires
        !(answer matches SyncModel::Success { result: Json::Str(s), .. } && s == subscription_id),
    ensures
        event_target(answer_step(m, answer).0, subscription_id) == event_target(m, subscription_id),
{
}

/// Two subscriptions opened one after the other both stay open: the events
/// of each go to its own subscriber.
pub proof fn law_subscriptions_opened_in_turn_stay_open<Resp, Sub>(
    m: RouterModel<Resp, Sub>,
    first_id: Seq<char>,
    first_resp: Resp,
    first_sub: Sub,
    first_subscription: Seq<char>,
    second_id: Seq<char>,
    second_resp: Resp,
    second_sub: Sub,
    second_subscription: Seq<char>,
)
    requires
        first_subscription != second_subscription,
    ensures
        ({
            let m1 = answer_step(
                register_step(m, first_id, first_resp, Some(first_sub)),
                SyncModel::Success { id: first_id, result: Json::Str(first_subscription) },
            ).0;
            let m2 = answer_step(
                register_step(m1, second_id, second_resp, Some(second_sub)),
                SyncModel::Success { id: second_id, result: Json::Str(second_subscription) },
            ).0;
            &&& event_target(m2, first_subscription) == Some(first_sub)
            &&& event_target(m2, second_subscription) == Some(second_sub)
        }),
{
    let m1 = answer_step(
        register_step(m, first_id, first_resp, Some(first_sub)),
        SyncModel::Success { id: first_id, result: Json::Str(first_subscription) },
    ).0;
    law_subscription_opened(m, first_id, first_resp, first_sub, first_subscription);
    law_subscription_opened(m1, second_id, second_resp, second_sub, second_subscription);
    let m1r = register_step(m1, second_id, second_resp, Some(second_sub));
    assert(event_target(m1r, first_subscription) == event_target(m1, first_subscription));
    law_answer_keeps_other_subscriptions(
        m1r,
        SyncModel::Success { id: second_id, result: Json::Str(second_subscription) },
        first_subscription,
    );
}

} // verus!
