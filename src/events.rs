//! The events that the server emits for effectful requests.

use vstd::prelude::*;
use bigdecimal::BigDecimal;
use crate::account::AccountId;
use crate::envelope::LpProfitsWithdrawnSnapshot;
use crate::liquidity_pool::{LiquidityPoolId, LpTradeEffect, MarketSide};
use crate::order::Order;
use crate::pair::{Pair, PairConfig};
use crate::requests::{
    ClearSystemParamRequest, GrantAccountUserRoleRequest, RevokeAccountUserRoleRequest,
    SetSystemParamRequest,
};
use crate::values::Address;

verus! {

#[derive(Clone, Debug)]
pub enum Event {
    Withdraw(WithdrawEvent),
    Deposit(DepositEvent),
    BuyLpToken(LpTokenBuyEvent),
    SellLpToken(LpTokenSellEvent),
    OpenAccount(OpenAccountEvent),
    SetLpParam(SetLpParamEvent),
    SetLpParams(Vec<SetLpParamEvent>),
    LpConfigUpdate(Vec<LpConfigUpdateEvent>),
    Liquidation(LiquidationEvent),
    LpsFeeWithdraw(LpsFeeWithdrawEvent),
    SetSystemParam(SetSystemParamEvent),
    ClearSystemParam(ClearSystemParamEvent),
    SystemFeeWithdraw(SystemFeeWithdrawEvent),
    GrantAccountUserRole(GrantAccountUserRoleEvent),
    RevokeAccountUserRole(RevokeAccountUserRoleEvent),
    PlaceOrder(Order),
    TriggerOrder(Order),
    FillOrder(FillOrderEvent),
    CancelOrder(Order),
    SettleTrade(TradeEvent),
    ReplaceOrder(ReplaceOrderEvent),
}

#[derive(Clone, Debug)]
pub struct ReplaceOrderEvent {
    pub cancelled_order: Order,
    pub new_order: Order,
}

#[derive(Clone, Debug)]
pub struct FillOrderEvent {
    pub trade: TradeEvent,
    pub lp_trade_effect: LpTradeEffect,
}

#[derive(Clone, Debug)]
pub struct LpsFeeWithdrawEvent {
    pub recipient: Address,
    pub ids_and_amounts: Vec<(LiquidityPoolId, BigDecimal)>,
}

#[derive(Clone, Debug)]
pub struct SystemFeeWithdrawEvent {
    pub token: Address,
    pub recipient: Address,
    pub amount: BigDecimal,
}

#[derive(Clone, Debug, PartialEq, Eq)]
pub struct TradeEvent {
    pub order: Order,
    /// The fill price.
    pub price: BigDecimal,
    /// The trade size, in lots.
    pub size: BigDecimal,
    /// The change of the account's realized equity.
    pub realized_pnl: BigDecimal,
    pub margin_fee: BigDecimal,
    pub sum_fraction_funding: MarketSide<BigDecimal>,
    pub sum_fraction_borrow: MarketSide<BigDecimal>,
    pub lp_funding_rate_notional: BigDecimal,
    pub timestamp_unix_millis: i64,
}

#[derive(Clone, Debug)]
pub struct LiquidationEvent {
    pub trades: Vec<TradeEvent>,
}

#[derive(Clone, Debug)]
pub struct WithdrawEvent {
    pub account_id: AccountId,
    pub amount: BigDecimal,
    pub timestamp_unix_millis: i64,
    pub account_user: Address,
    pub token: Address,
    pub recipient: Address,
    pub signature: Vec<u8>,
    /// The LP profits withdrawn beyond the whole initial deposit.
    pub lp_profits_withdrawn: LpProfitsWithdrawnSnapshot,
    pub psm_token: Option<Address>,
}

#[derive(Clone, Debug)]
pub struct DepositEvent {
    pub account_id: AccountId,
    pub amount: BigDecimal,
    pub timestamp_unix_millis: i64,
    pub depositor: Address,
    pub token: Address,
    pub signature: Vec<u8>,
    pub use_gasless: Option<bool>,
    pub psm_token: Option<Address>,
}

#[derive(Clone, Debug)]
pub struct OpenAccountEvent {
    pub account_id: AccountId,
    pub amount: BigDecimal,
    pub timestamp_unix_millis: i64,
    pub owner: Address,
    pub token: Address,
    pub signature: Vec<u8>,
    pub referral_code: Option<String>,
    pub use_gasless: Option<bool>,
    pub psm_token: Option<Address>,
}

#[derive(Clone, Debug)]
pub struct LpTokenBuyEvent {
    pub address: Address,
    pub lp_id: LiquidityPoolId,
    pub pay_amount: BigDecimal,
    pub buy_amount: BigDecimal,
    pub timestamp_unix_millis: i64,
    pub signature: Vec<u8>,
}

#[derive(Clone, Debug)]
pub struct LpTokenSellEvent {
    pub address: Address,
    pub lp_id: LiquidityPoolId,
    pub pay_amount: BigDecimal,
    pub buy_amount: BigDecimal,
    pub timestamp_unix_millis: i64,
    pub signature: Vec<u8>,
}

#[derive(Clone, Debug)]
pub struct SetLpParamEvent {
    pub id: LiquidityPoolId,
    pub param_id: String,
    pub value: Vec<u8>,
    pub pool_user: Address,
    pub signature: Vec<u8>,
    pub effect: LpParamEffect,
}

/// What has to happen after an LP parameter changed, e.g. charging the fees
/// accrued so far when a fee parameter changes.
#[derive(Clone, Debug)]
pub enum LpParamEffect {
    NoEffect,
    Borrow(LpParamEffectBorrow),
    Funding(LpParamEffectFunding),
}

#[derive(Clone, Debug)]
pub struct LpParamEffectBorrow {
    pub sum_fraction_borrow: MarketSide<BigDecimal>,
    pub timestamp_unix_millis: i64,
}

#[derive(Clone, Debug)]
pub struct LpParamEffectFunding {
    pub sum_fraction_funding: MarketSide<BigDecimal>,
    pub lp_funding_rate_notional: BigDecimal,
    pub timestamp_unix_millis: i64,
}

pub type SetSystemParamEvent = SetSystemParamRequest;

pub type ClearSystemParamEvent = ClearSystemParamRequest;

#[derive(Clone, Debug)]
pub struct LpConfigUpdateEvent {
    pub lp_id: LiquidityPoolId,
    pub pair: Pair,
    pub config: PairConfig,
}

pub type GrantAccountUserRoleEvent = GrantAccountUserRoleRequest;

pub type RevokeAccountUserRoleEvent = RevokeAccountUserRoleRequest;

} // verus!
