//! The wire envelope: requests a client sends, and responses, events and
//! publications that come back. Requests are shaped like JSON-RPC 2.0
//! without the `jsonrpc` member.

use vstd::prelude::*;
use std::collections::HashMap;
use bigdecimal::BigDecimal;
use crate::account::AccountId;
use crate::events::{Event, TradeEvent};
use crate::liquidity_pool::LiquidityPoolId;
use crate::order::Order;
use crate::pair::{Pair, PairStateSnapshot};
use crate::requests::{
    CancelOrderRequest, ClearSystemParamRequest, DepositRequest, GrantAccountUserRoleRequest,
    LpTransactRequest, OpenAccountRequest, ReplaceOrderRequest, RevokeAccountUserRoleRequest,
    SetLpParamRequest, SetLpParamsRequest, SetSystemParamRequest, WithdrawRequest,
};

verus! {

pub const PRICE_DECIMALS: i64 = 8;

pub const AMOUNT_DECIMALS: i64 = 18;

/// Relates a request to its response: a request id chosen by the client, or
/// a subscription id chosen by the server.
pub type MessageId = String;

#[derive(Debug)]
pub struct Request {
    /// When set, the response carries the same id.
    pub id: Option<MessageId>,
    pub content: RequestContent,
}

#[derive(Clone, Debug)]
pub enum RequestContent {
    Subscribe(SubscriptionTopic),
    Unsubscribe(MessageId),
    PlaceOrder(Order),
    CancelOrder(CancelOrderRequest),
    ReplaceOrder(ReplaceOrderRequest),
    Deposit(DepositRequest),
    Withdraw(WithdrawRequest),
    BuyLpToken(LpTransactRequest),
    SellLpToken(LpTransactRequest),
    OpenAccount(OpenAccountRequest),
    SetLpParam(SetLpParamRequest),
    SetLpParams(SetLpParamsRequest),
    SetSystemParam(SetSystemParamRequest),
    ClearSystemParam(ClearSystemParamRequest),
    GrantAccountUserRole(GrantAccountUserRoleRequest),
    RevokeAccountUserRole(RevokeAccountUserRoleRequest),
    GetLpConfig,
}

/// A stream of publications that a client may subscribe to.
#[derive(Clone, Debug, PartialEq, Eq, Hash)]
pub enum SubscriptionTopic {
    TradeAccount(AccountId),
    /// Pair state and tradeability in a pool.
    LiquidityPool(LiquidityPoolId),
    /// Every trade in a pool.
    LiquidityPoolTrade(LiquidityPoolId),
}

#[derive(Debug)]
pub struct Response {
    /// The subscription id for a subscription; otherwise the request's id.
    pub id: Option<MessageId>,
    pub content: ResponseResult<ResponseContent, String>,
}

#[derive(Clone, Debug)]
pub enum ResponseContent {
    /// A new publication in a subscribed topic.
    Publication(Publication),
    /// Acknowledges a subscription with its id.
    Subscription(MessageId),
    /// The request emitted an event.
    Event(Event),
    /// The request emitted several events.
    Events(Vec<Event>),
}

#[derive(Clone, Debug)]
pub enum Publication {
    TradeAccount(AccountSnapshot),
    Order(Order),
    LpPairTradeability(LpPairPublication<bool>),
    LpPairState(PairStateSnapshot),
    LpTrade(TradeEvent),
}

#[derive(Clone, Debug)]
pub struct LpPairPublication<T> {
    pub lp_pair: LpPair,
    pub content: T,
}

/// A result or an error; a well-formed response holds exactly one.
#[derive(Clone, Debug)]
pub struct ResponseResult<T, E> {
    pub result: Option<T>,
    pub error: Option<E>,
}

impl<T, E> ResponseResult<T, E> {
    pub fn from(value: Result<T, E>) -> (r: Self)
        ensures
            value matches Ok(t) ==> r.result == Some(t) && r.error is None,
            value matches Err(e) ==> r.result is None && r.error == Some(e),
    {
        match value {
            Ok(result) => ResponseResult { result: Some(result), error: None },
            Err(error) => ResponseResult { result: None, error: Some(error) },
        }
    }
}

/// Relies on the error type's Debug impl, in its alternate form, for the
/// text of an error.
#[verifier::external_body]
pub(crate) fn debug_text<T: std::fmt::Debug>(value: &T) -> (r: String) {
    format!("{:#?}", value)
}

impl Response {
    /// A response with a result, or with the text of an error.
    pub fn from<T: std::fmt::Debug>(response: Result<ResponseContent, T>, id: Option<MessageId>) -> (r: Self)
        ensures
            r.id == id,
            response matches Ok(c) ==> r.content.result == Some(c) && r.content.error is None,
            response is Err ==> r.content.result is None && r.content.error is Some,
    {
        let result: Result<ResponseContent, String> = match response {
            Ok(result) => Ok(result),
            Err(error) => Err(debug_text(&error)),
        };
        Response { id, content: ResponseResult::from(result) }
    }

    /// A response holds exactly one of a result and an error; one that holds
    /// neither or both is not a valid message.
    pub fn is_well_formed(&self) -> (r: bool)
        ensures
            r == (self.content.result is Some != self.content.error is Some),
    {
        self.content.result.is_some() != self.content.error.is_some()
    }

    /// The result, else the error, and the id; a response with neither is an
    /// `invalid response` error.
    pub fn take(self) -> (r: (Result<ResponseContent, String>, Option<String>))
        ensures
            r.1 == self.id,
            self.content.result matches Some(c) ==> r.0 == Ok::<ResponseContent, String>(c),
            self.content.result is None && self.content.error is Some ==> r.0
                == Err::<ResponseContent, String>(self.content.error->Some_0),
            self.content.result is None && self.content.error is None ==> (r.0 matches Err(m)
                && m@ == "invalid response"@),
    {
        if let Some(result) = self.content.result {
            (Ok(result), self.id)
        } else if let Some(error) = self.content.error {
            (Err(error), self.id)
        } else {
            (Err("invalid response".to_owned()), self.id)
        }
    }

    /// The error, else the result; a response with neither is an error too.
    pub fn content(self) -> (r: Result<ResponseContent, String>)
        ensures
            self.content.error matches Some(e) ==> r == Err::<ResponseContent, String>(e),
            self.content.error is None && self.content.result is Some ==> r
                == Ok::<ResponseContent, String>(self.content.result->Some_0),
            self.content.error is None && self.content.result is None ==> (r matches Err(m)
                && m@ == "no response content or error received"@),
    {
        if let Some(error) = self.content.error {
            return Err(error);
        }
        match self.content.result {
            Some(content) => Ok(content),
            None => Err("no response content or error received".to_owned()),
        }
    }
}

impl Request {
    pub fn from(content: RequestContent, id: Option<MessageId>) -> (r: Self)
        ensures
            r.content == content,
            r.id == id,
    {
        Request { id, content }
    }

    pub fn id(&self) -> (r: Option<&String>)
        ensures
            r is Some <==> self.id is Some,
            r matches Some(i) ==> *i == self.id->Some_0,
    {
        self.id.as_ref()
    }

    pub fn content(&self) -> (r: &RequestContent)
        ensures
            *r == self.content,
    {
        &self.content
    }

    pub fn take(self) -> (r: (RequestContent, Option<String>))
        ensures
            r.0 == self.content,
            r.1 == self.id,
    {
        (self.content, self.id)
    }
}

impl<T> LpPairPublication<T> {
    pub fn new(lp_pair: LpPair, content: T) -> (r: Self)
        ensures
            r.lp_pair == lp_pair,
            r.content == content,
    {
        LpPairPublication { lp_pair, content }
    }
}

/// A pair in a pool.
#[derive(Clone, Copy, Debug, PartialEq, Eq, Hash)]
pub struct LpPair {
    pub lp_id: LiquidityPoolId,
    pub pair: Pair,
}

impl LpPair {
    pub fn from(value: (LiquidityPoolId, Pair)) -> (r: Self)
        ensures
            r.lp_id == value.0,
            r.pair == value.1,
    {
        LpPair { lp_id: value.0, pair: value.1 }
    }
}

#[derive(Clone, Debug, Default)]
pub struct AccountSnapshot {
    pub id: AccountId,
    pub realized_equity: BigDecimal,
    pub realized_equities_lp: HashMap<LiquidityPoolId, BigDecimal>,
    pub positions: Vec<PositionSnapshot>,
    pub open_orders: Vec<Order>,
    pub lp_profits_withdrawn: LpProfitsWithdrawnSnapshot,
}

#[derive(Clone, Debug, PartialEq, Eq)]
pub struct PositionSnapshot {
    pub lp_id: LiquidityPoolId,
    pub pair: Pair,
    pub entry_price: BigDecimal,
    pub size: BigDecimal,
    pub snapshot_sum_fraction_funding: BigDecimal,
    pub snapshot_sum_fraction_borrow: BigDecimal,
}

#[derive(Clone, Debug, Default)]
pub struct LpProfitsWithdrawnSnapshot(pub LpIdMap<BigDecimal>);

pub type LpIdMap<T> = HashMap<LiquidityPoolId, T>;

} // verus!
