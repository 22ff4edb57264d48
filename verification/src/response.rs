//! The messages that the node sends back: answers to requests, error
//! answers, and subscription events, and how a JSON document is sorted into
//! one of them.
use vstd::prelude::*;

use crate::json::{
    is_struct, json_document, member, read_json_text, struct_field, Json, JsonNumber, JsonValue,
};
use crate::text::{dec_string_signed, i64_to_decimal};

verus! {

pub type RequestId = String;

pub type SubscriptionId = String;

/// Why the answer of the node could not be turned into what was asked for.
#[derive(Debug)]
pub enum Error {
    Parsing(String),
    SyncResponse(RpcSyncErrorResponseError),
}

/// The `error` member of an error answer.
#[derive(Debug)]
pub struct RpcSyncErrorResponseError {
    pub code: i64,
    pub message: String,
}

/// An error answer to a request.
#[derive(Debug)]
pub struct RpcSyncErrorResponse {
    pub id: RequestId,
    pub jsonrpc: String,
    pub error: RpcSyncErrorResponseError,
}

/// A successful answer to a request.
#[derive(Debug)]
pub struct RpcSyncSuccessResponse {
    pub id: RequestId,
    pub result: JsonValue,
}

/// The `params` member of a subscription event.
#[derive(Debug)]
pub struct RpcSubscriptionResponseParams {
    pub subscription: String,
    pub result: JsonValue,
}

/// An event of a subscription.
#[derive(Debug)]
pub struct RpcSubscriptionResponse {
    pub params: RpcSubscriptionResponseParams,
}

/// An answer to a request.
#[derive(Debug)]
pub enum RpcSyncResponse {
    Success(RpcSyncSuccessResponse),
    Error(RpcSyncErrorResponse),
}

/// Any message of the node.
#[derive(Debug)]
pub enum RpcResponse {
    Sync(RpcSyncResponse),
    Subscription(RpcSubscriptionResponse),
}

/// Which reading of a message failed.
#[derive(Debug, Clone, Copy, PartialEq, Eq, Structural)]
pub enum ResponseFormatError {
    /// The document is not a JSON-RPC message: not a struct, or its `error`
    /// or `method` member has the wrong shape.
    Message,
    /// The message carries an error but is not a well-formed error answer.
    ErrorResponse,
    /// The message is a subscription event but not a well-formed one.
    Subscription,
    /// The message is neither, and not a well-formed successful answer.
    SuccessResponse,
}

// ---------------------------------------------------------------------------
// Models
// ---------------------------------------------------------------------------

/// The model of an answer to a request.
pub enum SyncModel {
    Success { id: Seq<char>, result: Json },
    Error { id: Seq<char>, jsonrpc: Seq<char>, code: i64, message: Seq<char> },
}

/// The model of any message of the node.
pub enum ResponseModel {
    Sync(SyncModel),
    Subscription { subscription: Seq<char>, result: Json },
}

impl RpcSyncSuccessResponse {
    pub open spec fn view(&self) -> SyncModel {
        SyncModel::Success { id: self.id@, result: self.result@ }
    }
}

impl RpcSyncErrorResponse {
    pub open spec fn view(&self) -> SyncModel {
        SyncModel::Error {
            id: self.id@,
            jsonrpc: self.jsonrpc@,
            code: self.error.code,
            message: self.error.message@,
        }
    }
}

impl RpcSyncResponse {
    pub open spec fn view(&self) -> SyncModel {
        match self {
            RpcSyncResponse::Success(s) => s.view(),
            RpcSyncResponse::Error(e) => e.view(),
        }
    }

    /// The id of the request that this answers.
    pub open spec fn spec_id(&self) -> Seq<char> {
        match self {
            RpcSyncResponse::Success(s) => s.id@,
            RpcSyncResponse::Error(e) => e.id@,
        }
    }
}

impl RpcSubscriptionResponse {
    pub open spec fn view(&self) -> ResponseModel {
        ResponseModel::Subscription {
            subscription: self.params.subscription@,
            result: self.params.result@,
        }
    }
}

impl RpcResponse {
    pub open spec fn view(&self) -> ResponseModel {
        match self {
            RpcResponse::Sync(s) => ResponseModel::Sync(s.view()),
            RpcResponse::Subscription(s) => s.view(),
        }
    }
}

// ---------------------------------------------------------------------------
// Reading members the way derived readers do
// ---------------------------------------------------------------------------

pub open spec fn opt_view(f: Option<&JsonValue>) -> Option<Json> {
    match f {
        Some(v) => Some(v@),
        None => None,
    }
}

/// A required string member.
pub open spec fn read_string(f: Option<Json>) -> Option<Seq<char>> {
    match f {
        Some(Json::Str(s)) => Some(s),
        _ => None,
    }
}

/// An optional string member: absent or null reads as nothing.
pub open spec fn read_opt_string(f: Option<Json>) -> Option<Option<Seq<char>>> {
    match f {
        None => Some(None),
        Some(Json::Null) => Some(None),
        Some(Json::Str(s)) => Some(Some(s)),
        _ => None,
    }
}

/// A required `i64` member: an integer number in range.
pub open spec fn read_i64(f: Option<Json>) -> Option<i64> {
    match f {
        Some(Json::Number(crate::json::JsonNum::PosInt(u))) => if u <= i64::MAX {
            Some(u as i64)
        } else {
            None
        },
        Some(Json::Number(crate::json::JsonNum::NegInt(i))) => Some(i),
        _ => None,
    }
}

/// The `error` member of an error answer: a struct of `code` and `message`.
pub open spec fn read_error_body(v: Json) -> Option<(i64, Seq<char>)> {
    if is_struct(v, 2) {
        match (
            read_i64(struct_field(v, 2, 0, "code"@)),
            read_string(struct_field(v, 2, 1, "message"@)),
        ) {
            (Some(c), Some(m)) => Some((c, m)),
            _ => None,
        }
    } else {
        None
    }
}

/// An optional `error` member: absent or null reads as nothing.
pub open spec fn read_opt_error_body(f: Option<Json>) -> Option<Option<(i64, Seq<char>)>> {
    match f {
        None => Some(None),
        Some(Json::Null) => Some(None),
        Some(v) => match read_error_body(v) {
            Some(b) => Some(Some(b)),
            None => None,
        },
    }
}

/// The first look at a message: a struct of an optional `result`, an
/// optional `error` and an optional `method`. Gives whether there is an error
/// and the method.
pub open spec fn read_header(v: Json) -> Option<(bool, Option<Seq<char>>)> {
    if is_struct(v, 3) {
        match (
            read_opt_error_body(struct_field(v, 3, 1, "error"@)),
            read_opt_string(struct_field(v, 3, 2, "method"@)),
        ) {
            (Some(e), Some(m)) => Some((e is Some, m)),
            _ => None,
        }
    } else {
        None
    }
}

/// An error answer: a struct of `id`, `jsonrpc` and `error`.
pub open spec fn read_error_response(v: Json) -> Option<SyncModel> {
    if is_struct(v, 3) {
        match (
            read_string(struct_field(v, 3, 0, "id"@)),
            read_string(struct_field(v, 3, 1, "jsonrpc"@)),
            struct_field(v, 3, 2, "error"@),
        ) {
            (Some(id), Some(jsonrpc), Some(e)) => match read_error_body(e) {
                Some((code, message)) => Some(SyncModel::Error { id, jsonrpc, code, message }),
                None => None,
            },
            _ => None,
        }
    } else {
        None
    }
}

/// A successful answer: a struct of `id` and `result`.
pub open spec fn read_success_response(v: Json) -> Option<SyncModel> {
    if is_struct(v, 2) {
        match (read_string(struct_field(v, 2, 0, "id"@)), struct_field(v, 2, 1, "result"@)) {
            (Some(id), Some(result)) => Some(SyncModel::Success { id, result }),
            _ => None,
        }
    } else {
        None
    }
}

/// A subscription event: a struct of `params`, itself a struct of
/// `subscription` and `result`.
pub open spec fn read_subscription(v: Json) -> Option<ResponseModel> {
    if is_struct(v, 1) {
        match struct_field(v, 1, 0, "params"@) {
            Some(p) => if is_struct(p, 2) {
                match (
                    read_string(struct_field(p, 2, 0, "subscription"@)),
                    struct_field(p, 2, 1, "result"@),
                ) {
                    (Some(subscription), Some(result)) => Some(
                        ResponseModel::Subscription { subscription, result },
                    ),
                    _ => None,
                }
            } else {
                None
            },
            None => None,
        }
    } else {
        None
    }
}

/// How a message is sorted: one with an error is an error answer; else one
/// whose method is `eth_subscription` is an event; else it is a successful
/// answer.
pub open spec fn parse_response(v: Json) -> Result<ResponseModel, ResponseFormatError> {
    match read_header(v) {
        None => Err(ResponseFormatError::Message),
        Some((has_error, method)) => if has_error {
            match read_error_response(v) {
                Some(m) => Ok(ResponseModel::Sync(m)),
                None => Err(ResponseFormatError::ErrorResponse),
            }
        } else if method == Some("eth_subscription"@) {
            match read_subscription(v) {
                Some(m) => Ok(m),
                None => Err(ResponseFormatError::Subscription),
            }
        } else {
            match read_success_response(v) {
                Some(m) => Ok(ResponseModel::Sync(m)),
                None => Err(ResponseFormatError::SuccessResponse),
            }
        },
    }
}

// ---------------------------------------------------------------------------
// Readers
// ---------------------------------------------------------------------------

pub(crate) fn take_string(f: Option<&JsonValue>) -> (r: Option<String>)
    ensures
        match read_string(opt_view(f)) {
            Some(s) => r matches Some(x) && x@ == s,
            None => r is None,
        },
{
    match f {
        Some(JsonValue::String(s)) => Some(s.clone()),
        _ => None,
    }
}

fn take_opt_string(f: Option<&JsonValue>) -> (r: Option<Option<String>>)
    ensures
        match read_opt_string(opt_view(f)) {
            Some(Some(s)) => r matches Some(Some(x)) && x@ == s,
            Some(None) => r == Some(None::<String>),
            None => r is None,
        },
{
    match f {
        None => Some(None),
        Some(JsonValue::Null) => Some(None),
        Some(JsonValue::String(s)) => Some(Some(s.clone())),
        _ => None,
    }
}

fn take_i64(f: Option<&JsonValue>) -> (r: Option<i64>)
    ensures
        r == read_i64(opt_view(f)),
{
    match f {
        Some(JsonValue::Number(JsonNumber::PosInt(u))) => {
            if *u <= (i64::MAX as u64) {
                Some(*u as i64)
            } else {
                None
            }
        },
        Some(JsonValue::Number(JsonNumber::NegInt(i))) => Some(*i),
        _ => None,
    }
}

fn take_error_body(v: &JsonValue) -> (r: Option<RpcSyncErrorResponseError>)
    ensures
        match read_error_body(v@) {
            Some((c, m)) => r matches Some(e) && e.code == c && e.message@ == m,
            None => r is None,
        },
{
    if !v.is_struct(2) {
        return None;
    }
    let code = take_i64(v.struct_field(2, 0, "code"));
    let message = take_string(v.struct_field(2, 1, "message"));
    match (code, message) {
        (Some(code), Some(message)) => Some(RpcSyncErrorResponseError { code, message }),
        _ => None,
    }
}

fn check_opt_error_body(f: Option<&JsonValue>) -> (r: Option<bool>)
    ensures
        match read_opt_error_body(opt_view(f)) {
            Some(e) => r == Some(e is Some),
            None => r is None,
        },
{
    match f {
        None => Some(false),
        Some(JsonValue::Null) => Some(false),
        Some(v) => match take_error_body(v) {
            Some(_) => Some(true),
            None => None,
        },
    }
}

impl RpcSyncErrorResponseError {
    /// The text of the error: its code and its message, as its `Display`
    /// writes them.
    pub fn display(&self) -> (s: String)
        ensures
            s@ == dec_string_signed(self.code as int) + " "@ + self.message@,
    {
        let mut s = i64_to_decimal(self.code);
        s.append(" ");
        s.append(self.message.as_str());
        s
    }
}

impl RpcSyncResponse {
    /// The id of the request that this answers.
    pub fn id(&self) -> (r: &RequestId)
        ensures
            r@ == self.spec_id(),
    {
        match self {
            RpcSyncResponse::Success(res) => &res.id,
            RpcSyncResponse::Error(res) => &res.id,
        }
    }
}

impl RpcSubscriptionResponse {
    /// The id of the subscription that sent this event.
    pub fn id(&self) -> (r: &str)
        ensures
            r@ == self.params.subscription@,
    {
        self.params.subscription.as_str()
    }
}

impl RpcSyncSuccessResponse {
    /// The result, when it is a string.
    pub fn result_as_string(&self) -> (r: Result<String, Error>)
        ensures
            match self.result@ {
                Json::Str(s) => r matches Ok(x) && x@ == s,
                _ => r matches Err(Error::Parsing(m)) && m@
                    == "Failed to convert blockchain RPC result field as string"@,
            },
    {
        match &self.result {
            JsonValue::String(s) => Ok(s.clone()),
            _ => Err(
                Error::Parsing("Failed to convert blockchain RPC result field as string".to_owned()),
            ),
        }
    }

    /// The result, when it is a boolean.
    pub fn result_as_bool(&self) -> (r: Result<bool, Error>)
        ensures
            match self.result@ {
                Json::Bool(b) => r matches Ok(x) && x == b,
                _ => r matches Err(Error::Parsing(m)) && m@
                    == "Failed to convert blockchain RPC result field as bool"@,
            },
    {
        match &self.result {
            JsonValue::Bool(b) => Ok(*b),
            _ => Err(
                Error::Parsing("Failed to convert blockchain RPC result field as bool".to_owned()),
            ),
        }
    }
}

impl RpcResponse {
    /// Reads the text of a message of the node: text that is not JSON is a
    /// `Message` error; a JSON document is sorted as `from_json` sorts it.
    pub fn parse(payload: String) -> (r: Result<RpcResponse, ResponseFormatError>)
        ensures
            match json_document(payload@) {
                None => r matches Err(e) && e == ResponseFormatError::Message,
                Some(j) => match r {
                    Ok(m) => parse_response(j) == Ok::<ResponseModel, ResponseFormatError>(m@),
                    Err(e) => parse_response(j) == Err::<ResponseModel, ResponseFormatError>(e),
                },
            },
    {
        match read_json_text(payload.as_str()) {
            Some(document) => RpcResponse::from_json(&document),
            None => Err(ResponseFormatError::Message),
        }
    }

    /// Sorts a message of the node: an error answer when it carries an
    /// error, a subscription event when its method is `eth_subscription`,
    /// and a successful answer otherwise.
    pub fn from_json(json: &JsonValue) -> (r: Result<RpcResponse, ResponseFormatError>)
        ensures
            match r {
                Ok(m) => parse_response(json@) == Ok::<ResponseModel, ResponseFormatError>(m@),
                Err(e) => parse_response(json@) == Err::<ResponseModel, ResponseFormatError>(e),
            },
    {
        // first look: a struct of result, error and method
        if !json.is_struct(3) {
            return Err(ResponseFormatError::Message);
        }
        let has_error = check_opt_error_body(json.struct_field(3, 1, "error"));
        let method = take_opt_string(json.struct_field(3, 2, "method"));
        let (has_error, method) = match (has_error, method) {
            (Some(e), Some(m)) => (e, m),
            _ => return Err(ResponseFormatError::Message),
        };
        if has_error {
            // error answer
            let id = take_string(json.struct_field(3, 0, "id"));
            let jsonrpc = take_string(json.struct_field(3, 1, "jsonrpc"));
            let body = match json.struct_field(3, 2, "error") {
                Some(e) => take_error_body(e),
                None => None,
            };
            match (id, jsonrpc, body) {
                (Some(id), Some(jsonrpc), Some(error)) => Ok(
                    RpcResponse::Sync(RpcSyncResponse::Error(RpcSyncErrorResponse { id, jsonrpc, error })),
                ),
                _ => Err(ResponseFormatError::ErrorResponse),
            }
        } else if match &method {
            Some(m) => *m == "eth_subscription".to_owned(),
            None => false,
        } {
            // subscription event
            if !json.is_struct(1) {
                return Err(ResponseFormatError::Subscription);
            }
            let params = match json.struct_field(1, 0, "params") {
                Some(p) => p,
                None => return Err(ResponseFormatError::Subscription),
            };
            if !params.is_struct(2) {
                return Err(ResponseFormatError::Subscription);
            }
            let subscription = take_string(params.struct_field(2, 0, "subscription"));
            let result = params.struct_field(2, 1, "result");
            match (subscription, result) {
                (Some(subscription), Some(result)) => Ok(
                    RpcResponse::Subscription(
                        RpcSubscriptionResponse {
                            params: RpcSubscriptionResponseParams {
                                subscription,
                                result: result.duplicate(),
                            },
                        },
                    ),
                ),
                _ => Err(ResponseFormatError::Subscription),
            }
        } else {
            // successful answer
            if !json.is_struct(2) {
                return Err(ResponseFormatError::SuccessResponse);
            }
            let id = take_string(json.struct_field(2, 0, "id"));
            let result = json.struct_field(2, 1, "result");
            match (id, result) {
                (Some(id), Some(result)) => Ok(
                    RpcResponse::Sync(
                        RpcSyncResponse::Success(
                            RpcSyncSuccessResponse { id, result: result.duplicate() },
                        ),
                    ),
                ),
                _ => Err(ResponseFormatError::SuccessResponse),
            }
        }
    }
}

// ---------------------------------------------------------------------------
// Laws
// ---------------------------------------------------------------------------

/// The order of the readings matters: a message that carries an error is
/// read as an error answer (or refused) even when its method is
/// `eth_subscription`, and is never taken for an event or a success.
pub proof fn law_error_takes_precedence(v: Json)
    requires
        read_header(v) matches Some((has_error, _)) && has_error,
    ensures
        match parse_response(v) {
            Ok(ResponseModel::Sync(SyncModel::Error { .. })) => true,
            Err(ResponseFormatError::ErrorResponse) => true,
            _ => false,
        },
{
}

/// A message without an error whose method is `eth_subscription` is an event
/// (or refused as one), never an answer to a request.
pub proof fn law_subscription_events_are_not_answers(v: Json)
    requires
        read_header(v) == Some((false, Some("eth_subscription"@))),
    ensures
        match parse_response(v) {
            Ok(ResponseModel::Subscription { .. }) => true,
            Err(ResponseFormatError::Subscription) => true,
            _ => false,
        },
{
}


/// A message without an error whose method is not `eth_subscription` is a
/// successful answer: with a string `id` and a `result` member it reads as
/// the answer to that id carrying exactly that result, whatever kind of JSON
/// value the result is.
pub proof fn law_success_answer_carries_its_result(
    members: Seq<(Seq<char>, Json)>,
    id: Seq<char>,
    result: Json,
)
    requires
        member(members, "error"@) is None || member(members, "error"@) == Some(Json::Null),
        member(members, "method"@) is None || member(members, "method"@) == Some(Json::Null)
            || (member(members, "method"@) matches Some(Json::Str(m)) && m != "eth_subscription"@),
        member(members, "id"@) == Some(Json::Str(id)),
        member(members, "result"@) == Some(result),
    ensures
        parse_response(Json::Object(members)) == Ok::<ResponseModel, ResponseFormatError>(
            ResponseModel::Sync(SyncModel::Success { id, result }),
        ),
{
}

} // verus!
