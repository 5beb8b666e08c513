//! Orders and the state machines of their status and settlement.

use vstd::prelude::*;
use vstd::string::StringExecFns;
use bigdecimal::BigDecimal;
use crate::account::AccountId;
use crate::liquidity_pool::LiquidityPoolId;
use crate::pair::Pair;
use crate::requests::TradeSize;
use crate::text::str_eq;
use crate::values::{Address, Signature, Uuid, Word};

verus! {

/// Three months of 31 days, in milliseconds.
pub const DEFAULT_EXPIRY_MILLIS: i64 = 8_035_200_000;

/// An order placed by a trade account in a liquidity pool.
#[derive(Clone, Debug, PartialEq, Eq)]
pub struct Order {
    /// Time-ordered unique id; set by the server, not by users.
    pub id: Uuid,
    pub account_id: AccountId,
    pub lp_id: LiquidityPoolId,
    pub size: TradeSize,
    pub pair: Pair,
    pub kind: OrderKind,
    pub status: OrderStatus,
    /// The address that signed the trade request.
    pub account_user: Address,
    /// The order signature, which covers the user's order nonce.
    pub signature: Vec<u8>,
    /// A value that the signer has not used before.
    pub nonce: Uuid,
    pub created_timestamp_unix_millis: i64,
    pub expiry_timestamp_unix_millis: i64,
}

#[derive(Clone, Debug, PartialEq, Eq)]
pub enum OrderKind {
    Market,
    Limit(LimitOrderArgs),
    StopMarket(StopMarketOrderArgs),
    StopLimit(StopLimitOrderArgs),
    LimitTrigger(LimitTriggerOrderArgs),
}

#[derive(Clone, Debug, PartialEq, Eq)]
pub struct LimitOrderArgs {
    pub limit_price: BigDecimal,
}

#[derive(Clone, Debug, PartialEq, Eq)]
pub struct StopMarketOrderArgs {
    pub trigger_price: BigDecimal,
    pub stop_loss: Option<LinkedOrderKind>,
}

/// What a stop-loss or take-profit order is linked to.
#[derive(Clone, Copy, Debug, PartialEq, Eq)]
pub enum LinkedOrderKind {
    Position,
    Order(Uuid),
}

#[derive(Clone, Debug, PartialEq, Eq)]
pub struct StopLimitOrderArgs {
    pub limit_price: BigDecimal,
    pub trigger_price: BigDecimal,
}

#[derive(Clone, Debug, PartialEq, Eq)]
pub struct LimitTriggerOrderArgs {
    pub trigger_price: BigDecimal,
    pub take_profit: Option<LinkedOrderKind>,
}

#[derive(Clone, Debug, PartialEq, Eq)]
pub enum OrderStatus {
    Open(OrderOpenState),
    Filled(OrderFill),
    Cancelled(OrderCancellation),
}

#[derive(Clone, Copy, Debug, PartialEq, Eq)]
pub enum OrderStatusKind {
    Open,
    Filled,
    Cancelled,
}

#[derive(Clone, Debug, PartialEq, Eq)]
pub enum OrderOpenState {
    Placed,
    Triggered(OrderTrigger),
}

#[derive(Clone, Debug, PartialEq, Eq)]
pub struct OrderTrigger {
    pub timestamp_unix_millis: i64,
    pub trigger_price: BigDecimal,
}

#[derive(Clone, Debug, PartialEq, Eq)]
pub struct OrderFill {
    pub price: BigDecimal,
    pub timestamp_unix_millis: i64,
    pub settlement_status: SettlementStatus,
}

#[derive(Clone, Copy, Debug, PartialEq, Eq)]
pub enum SettlementStatus {
    Queued,
    BeforeTx,
    Indexing,
    Settled(OrderSettlement),
}

#[derive(Clone, Copy, Debug, PartialEq, Eq)]
pub struct OrderSettlement {
    pub tx_hash: Word,
}

#[derive(Clone, Copy, Debug, PartialEq, Eq)]
pub struct OrderCancellation {
    pub timestamp_unix_millis: i64,
    pub reason: OrderCancellationReason,
    /// Present when a user cancelled the order.
    pub user_cancellation: Option<UserOrderCancellation>,
}

#[derive(Clone, Copy, Debug, PartialEq, Eq)]
pub struct UserOrderCancellation {
    pub nonce: Uuid,
    pub signature: Signature,
    pub address: Address,
}

#[derive(Clone, Copy, Debug, PartialEq, Eq)]
pub enum OrderCancellationReason {
    User,
    Expiry,
    FillError,
    ReduceOnlyOrder,
    LinkedOrder,
}

/// The legal steps of an order's status: a placed order may be triggered,
/// an open order may be filled or cancelled, and a filled or cancelled order
/// goes nowhere.
pub open spec fn status_step(from: OrderStatus, to: OrderStatus) -> bool {
    match from {
        OrderStatus::Open(OrderOpenState::Placed) => match to {
            OrderStatus::Open(OrderOpenState::Placed) => false,
            _ => true,
        },
        OrderStatus::Open(OrderOpenState::Triggered(_)) => !(to is Open),
        OrderStatus::Filled(_) => false,
        OrderStatus::Cancelled(_) => false,
    }
}

/// A filled or cancelled order's status is final.
pub open spec fn is_terminal(s: OrderStatus) -> bool {
    s is Filled || s is Cancelled
}

impl OrderStatus {
    pub fn is_filled(&self) -> (r: bool)
        ensures
            r == self is Filled,
    {
        match self {
            OrderStatus::Filled(_) => true,
            _ => false,
        }
    }

    pub fn is_open(&self) -> (r: bool)
        ensures
            r == self is Open,
    {
        match self {
            OrderStatus::Open(_) => true,
            _ => false,
        }
    }

    /// Whether the status may step to `next`.
    pub fn can_transition_to(&self, next: &OrderStatus) -> (r: bool)
        ensures
            r == status_step(*self, *next),
    {
        match self {
            OrderStatus::Open(OrderOpenState::Placed) => match next {
                OrderStatus::Open(OrderOpenState::Placed) => false,
                _ => true,
            },
            OrderStatus::Open(OrderOpenState::Triggered(_)) => !next.is_open(),
            OrderStatus::Filled(_) => false,
            OrderStatus::Cancelled(_) => false,
        }
    }

    /// Steps to `next` when that is legal; otherwise leaves the status as it
    /// is and hands `next` back.
    pub fn transition(&mut self, next: OrderStatus) -> (r: Result<(), OrderStatus>)
        ensures
            status_step(*old(self), next) ==> r is Ok && *final(self) == next,
            !status_step(*old(self), next) ==> r == Err::<(), OrderStatus>(next)
                && *final(self) == *old(self),
    {
        if self.can_transition_to(&next) {
            *self = next;
            Ok(())
        } else {
            Err(next)
        }
    }

    /// The status's three-letter code.
    pub fn to_string(&self) -> (r: String)
        ensures
            r@ == OrderStatusKind::of(*self).code(),
    {
        OrderStatusKind::from(self).to_string()
    }
}

/// An order placed and not yet triggered may be triggered.
pub proof fn lemma_placed_may_trigger(trigger: OrderTrigger)
    ensures
        status_step(
            OrderStatus::Open(OrderOpenState::Placed),
            OrderStatus::Open(OrderOpenState::Triggered(trigger)),
        ),
{
}

/// No status follows a filled or a cancelled one.
pub proof fn lemma_terminal_is_final(s: OrderStatus, t: OrderStatus)
    requires
        is_terminal(s),
    ensures
        !status_step(s, t),
{
}

/// The position of a settlement status along
/// `Queued → BeforeTx → Indexing → Settled`.
pub open spec fn settlement_rank(s: SettlementStatus) -> int {
    match s {
        SettlementStatus::Queued => 0,
        SettlementStatus::BeforeTx => 1,
        SettlementStatus::Indexing => 2,
        SettlementStatus::Settled(_) => 3,
    }
}

impl SettlementStatus {
    fn rank(&self) -> (r: u8)
        ensures
            r as int == settlement_rank(*self),
    {
        match self {
            SettlementStatus::Queued => 0,
            SettlementStatus::BeforeTx => 1,
            SettlementStatus::Indexing => 2,
            SettlementStatus::Settled(_) => 3,
        }
    }

    /// Settlement only moves forward.
    pub fn can_advance_to(&self, next: &SettlementStatus) -> (r: bool)
        ensures
            r == (settlement_rank(*self) < settlement_rank(*next)),
    {
        self.rank() < next.rank()
    }

    pub open spec fn code(self) -> Seq<char> {
        match self {
            SettlementStatus::Queued => "qud"@,
            SettlementStatus::BeforeTx => "btx"@,
            SettlementStatus::Indexing => "idx"@,
            SettlementStatus::Settled(_) => "set"@,
        }
    }

    /// The status's three-letter code.
    pub fn to_string(&self) -> (r: String)
        ensures
            r@ == self.code(),
    {
        match self {
            SettlementStatus::Queued => String::from_str("qud"),
            SettlementStatus::BeforeTx => String::from_str("btx"),
            SettlementStatus::Indexing => String::from_str("idx"),
            SettlementStatus::Settled(_) => String::from_str("set"),
        }
    }
}

impl OrderStatusKind {
    pub open spec fn of(s: OrderStatus) -> OrderStatusKind {
        match s {
            OrderStatus::Open(_) => OrderStatusKind::Open,
            OrderStatus::Filled(_) => OrderStatusKind::Filled,
            OrderStatus::Cancelled(_) => OrderStatusKind::Cancelled,
        }
    }

    pub fn from(value: &OrderStatus) -> (r: OrderStatusKind)
        ensures
            r == OrderStatusKind::of(*value),
    {
        match value {
            OrderStatus::Open(_) => OrderStatusKind::Open,
            OrderStatus::Filled(_) => OrderStatusKind::Filled,
            OrderStatus::Cancelled(_) => OrderStatusKind::Cancelled,
        }
    }

    pub open spec fn code(self) -> Seq<char> {
        match self {
            OrderStatusKind::Open => "opn"@,
            OrderStatusKind::Filled => "fil"@,
            OrderStatusKind::Cancelled => "cxl"@,
        }
    }

    /// The kind's three-letter code.
    pub fn to_string(&self) -> (r: String)
        ensures
            r@ == self.code(),
    {
        match self {
            OrderStatusKind::Open => String::from_str("opn"),
            OrderStatusKind::Filled => String::from_str("fil"),
            OrderStatusKind::Cancelled => String::from_str("cxl"),
        }
    }

    /// Reads a kind from its three-letter code.
    pub fn try_from(value: &str) -> (r: Result<OrderStatusKind, String>)
        ensures
            r matches Ok(k) ==> k.code() == value@,
            r is Err ==> forall|k: OrderStatusKind| k.code() != value@,
            r matches Err(m) ==> m@ == "invalid status variant: "@ + value@,
    {
        proof {
            reveal_strlit("opn");
            reveal_strlit("fil");
            reveal_strlit("cxl");
        }
        if str_eq(value, "opn") {
            Ok(OrderStatusKind::Open)
        } else if str_eq(value, "fil") {
            Ok(OrderStatusKind::Filled)
        } else if str_eq(value, "cxl") {
            Ok(OrderStatusKind::Cancelled)
        } else {
            let mut message = String::from_str("invalid status variant: ");
            message.append(value);
            Err(message)
        }
    }
}

impl OrderCancellationReason {
    pub open spec fn code(self) -> Seq<char> {
        match self {
            OrderCancellationReason::User => "usr"@,
            OrderCancellationReason::Expiry => "exp"@,
            OrderCancellationReason::FillError => "err"@,
            OrderCancellationReason::ReduceOnlyOrder => "red"@,
            OrderCancellationReason::LinkedOrder => "lnk"@,
        }
    }

    /// The reason's three-letter code.
    pub fn to_string(&self) -> (r: String)
        ensures
            r@ == self.code(),
    {
        match self {
            OrderCancellationReason::User => String::from_str("usr"),
            OrderCancellationReason::Expiry => String::from_str("exp"),
            OrderCancellationReason::FillError => String::from_str("err"),
            OrderCancellationReason::ReduceOnlyOrder => String::from_str("red"),
            OrderCancellationReason::LinkedOrder => String::from_str("lnk"),
        }
    }

    /// Reads a reason from its three-letter code.
    pub fn try_from(value: &str) -> (r: Result<OrderCancellationReason, String>)
        ensures
            r matches Ok(k) ==> k.code() == value@,
            r is Err ==> forall|k: OrderCancellationReason| k.code() != value@,
            r matches Err(m) ==> m@ == "invalid cancellation reason variant: "@ + value@,
    {
        proof {
            reveal_strlit("usr");
            reveal_strlit("exp");
            reveal_strlit("err");
            reveal_strlit("red");
            reveal_strlit("lnk");
        }
        if str_eq(value, "usr") {
            Ok(OrderCancellationReason::User)
        } else if str_eq(value, "exp") {
            Ok(OrderCancellationReason::Expiry)
        } else if str_eq(value, "err") {
            Ok(OrderCancellationReason::FillError)
        } else if str_eq(value, "red") {
            Ok(OrderCancellationReason::ReduceOnlyOrder)
        } else if str_eq(value, "lnk") {
            Ok(OrderCancellationReason::LinkedOrder)
        } else {
            let mut message = String::from_str("invalid cancellation reason variant: ");
            message.append(value);
            Err(message)
        }
    }
}

impl StopMarketOrderArgs {
    pub fn is_stop_loss(&self) -> (r: bool)
        ensures
            r == self.stop_loss is Some,
    {
        self.stop_loss.is_some()
    }

    pub fn linked_stop_loss_order_id(&self) -> (r: Option<Uuid>)
        ensures
            r == linked_id(self.stop_loss),
    {
        match self.stop_loss {
            Some(link) => link.linked_order_id(),
            None => None,
        }
    }
}

impl LimitTriggerOrderArgs {
    pub fn is_take_profit(&self) -> (r: bool)
        ensures
            r == self.take_profit is Some,
    {
        self.take_profit.is_some()
    }

    pub fn linked_take_profit_order_id(&self) -> (r: Option<Uuid>)
        ensures
            r == linked_id(self.take_profit),
    {
        match self.take_profit {
            Some(link) => link.linked_order_id(),
            None => None,
        }
    }
}

/// The order that an optional link points to, if it points to an order.
pub open spec fn linked_id(link: Option<LinkedOrderKind>) -> Option<Uuid> {
    match link {
        Some(LinkedOrderKind::Order(id)) => Some(id),
        _ => None,
    }
}

impl LinkedOrderKind {
    pub fn linked_order_id(&self) -> (r: Option<Uuid>)
        ensures
            r == linked_id(Some(*self)),
    {
        match self {
            LinkedOrderKind::Order(id) => Some(*id),
            _ => None,
        }
    }
}

/// Relies on SystemTime::elapsed, here of the Unix epoch: the time since
/// then, or nothing when the clock reads earlier.
#[verifier::external_body]
fn time_since_epoch() -> (r: Option<std::time::Duration>) {
    std::time::UNIX_EPOCH.elapsed().ok()
}

/// Relies on Duration::as_millis: the whole milliseconds of a duration.
#[verifier::external_body]
fn duration_millis(d: &std::time::Duration) -> (r: u128) {
    d.as_millis()
}

/// Unix milliseconds as a timestamp: nothing (a clock set before 1970)
/// reads as 0, and a count past the largest timestamp as that timestamp.
pub fn unix_millis_of(ms: Option<u128>) -> (r: i64)
    ensures
        r == match ms {
            Some(m) => if m > i64::MAX as u128 {
                i64::MAX as int
            } else {
                m as int
            },
            None => 0,
        },
{
    match ms {
        Some(m) => {
            if m > i64::MAX as u128 {
                i64::MAX
            } else {
                m as i64
            }
        },
        None => 0,
    }
}

/// The time now in Unix milliseconds; a clock set before 1970 reads as 0.
pub fn now_unix_millis() -> (r: i64)
    ensures
        r >= 0,
{
    let ms = match time_since_epoch() {
        Some(d) => Some(duration_millis(&d)),
        None => None,
    };
    unix_millis_of(ms)
}

/// Three months after `created`, or the latest representable time.
pub open spec fn expiry_after_spec(created: int) -> int {
    if created + DEFAULT_EXPIRY_MILLIS <= i64::MAX {
        created + DEFAULT_EXPIRY_MILLIS
    } else {
        i64::MAX as int
    }
}

/// The expiry of an order created at `created`: three months later, or the
/// latest representable time.
pub fn expiry_after(created: i64) -> (r: i64)
    ensures
        r == expiry_after_spec(created as int),
{
    if created <= i64::MAX - DEFAULT_EXPIRY_MILLIS {
        created + DEFAULT_EXPIRY_MILLIS
    } else {
        i64::MAX
    }
}

/// An order's expiry: the one it states, or else three months after its
/// creation.
pub fn expiry_or_default(created: i64, expiry: Option<i64>) -> (r: i64)
    ensures
        r == match expiry {
            Some(e) => e as int,
            None => expiry_after_spec(created as int),
        },
{
    match expiry {
        Some(e) => e,
        None => expiry_after(created),
    }
}

/// The expiry of an order created now.
pub fn default_expiry_unix_millis() -> (r: i64)
    ensures
        r >= DEFAULT_EXPIRY_MILLIS,
{
    expiry_after(now_unix_millis())
}

} // verus!
