//! The bodies of the requests that a client sends.

use vstd::prelude::*;
use bigdecimal::BigDecimal;
use crate::account::{AccountId, AccountRole};
use crate::liquidity_pool::LiquidityPoolId;
use crate::order::Order;
use crate::values::{Address, Uuid};

verus! {

/// A trade size, in lots or in the pool's currency.
#[derive(Clone, Debug, PartialEq, Eq)]
pub enum TradeSize {
    /// Size in lots.
    Lot(BigDecimal),
    /// Size in the LP currency, e.g. USD.
    Lpc(BigDecimal),
}

#[derive(Clone, Debug)]
pub struct CancelOrderRequest {
    pub account_id: AccountId,
    pub account_user: Address,
    pub order_id: Uuid,
    pub nonce: Uuid,
    pub signature: Vec<u8>,
}

#[derive(Clone, Debug)]
pub struct ReplaceOrderRequest {
    pub account_id: AccountId,
    pub account_user: Address,
    pub order_id: Uuid,
    pub nonce: Uuid,
    pub cancel_signature: Vec<u8>,
    pub new_order: Order,
}

#[derive(Clone, Debug)]
pub struct DepositRequest {
    pub amount: BigDecimal,
    pub account_id: AccountId,
    pub depositor: Address,
    pub token: Address,
    pub signature: Vec<u8>,
    pub use_gasless: Option<bool>,
    /// The token of the deposit's first leg, swapped into `token` when present.
    pub psm_token: Option<Address>,
}

#[derive(Clone, Debug)]
pub struct OpenAccountRequest {
    pub amount: BigDecimal,
    pub owner: Address,
    pub token: Address,
    pub signature: Vec<u8>,
    pub referral_code: Option<String>,
    pub use_gasless: Option<bool>,
    pub psm_token: Option<Address>,
}

#[derive(Clone, Debug)]
pub struct WithdrawRequest {
    pub amount: BigDecimal,
    pub account_id: AccountId,
    /// The address that signed the withdrawal.
    pub account_user: Address,
    pub token: Address,
    pub recipient: Address,
    pub signature: Vec<u8>,
    pub psm_token: Option<Address>,
}

/// Buying or selling liquidity tokens.
#[derive(Clone, Debug)]
pub struct LpTransactRequest {
    pub lp_id: LiquidityPoolId,
    pub amount: BigDecimal,
    pub address: Address,
    pub signature: Vec<u8>,
}

#[derive(Clone, Debug)]
pub struct SetLpParamRequest {
    pub id: LiquidityPoolId,
    /// The parameter's name as text.
    pub param_id: String,
    /// The raw value to set.
    pub value: Vec<u8>,
    pub pool_user: Address,
    pub signature: Vec<u8>,
}

#[derive(Clone, Debug)]
pub struct SetLpParamsRequest {
    pub id: LiquidityPoolId,
    pub pool_user: Address,
    pub params: Vec<LpParamRequest>,
}

#[derive(Clone, Debug)]
pub struct LpParamRequest {
    pub param_id: String,
    pub value: Vec<u8>,
    pub signature: Vec<u8>,
}

#[derive(Clone, Debug)]
pub struct SetSystemParamRequest {
    pub param_id: String,
    pub param_value: Vec<u8>,
    pub admin_request: AdminRequest,
}

#[derive(Clone, Debug)]
pub struct ClearSystemParamRequest {
    pub param_id: String,
    pub admin_request: AdminRequest,
}

#[derive(Clone, Debug)]
pub struct GrantAccountUserRoleRequest {
    pub account_id: AccountId,
    pub user: Address,
    pub role: AccountRole,
    pub account_owner: Address,
    pub owner_signature: Vec<u8>,
}

#[derive(Clone, Debug)]
pub struct RevokeAccountUserRoleRequest {
    pub account_id: AccountId,
    pub user: Address,
    pub role: AccountRole,
    pub account_owner: Address,
    pub owner_signature: Vec<u8>,
}

#[derive(Clone, Debug)]
pub struct AdminRequest {
    pub trade_account_id: AccountId,
    pub admin: Address,
    pub signature: Vec<u8>,
}

} // verus!
