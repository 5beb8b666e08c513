//! Trade accounts and the roles that users hold on them.

use vstd::prelude::*;

verus! {

/// Identifies a trade account.
pub type AccountId = u64;

/// A capability on a trade account; one signed grant gives one role to one
/// user of one account.
#[derive(Clone, Copy, Debug, PartialEq, Eq)]
pub enum AccountRole {
    _None,
    Owner,
    Trader,
    Withdraw,
    Deposit,
    Open,
    ProtocolAdmin,
}

/// The integer that stands for a role in signed messages.
pub open spec fn role_code(role: AccountRole) -> u8 {
    match role {
        AccountRole::_None => 0,
        AccountRole::Owner => 1,
        AccountRole::Trader => 2,
        AccountRole::Withdraw => 3,
        AccountRole::Deposit => 4,
        AccountRole::Open => 5,
        AccountRole::ProtocolAdmin => 6,
    }
}

impl AccountRole {
    /// The role's integer code.
    pub fn code(&self) -> (r: u8)
        ensures
            r == role_code(*self),
    {
        match self {
            AccountRole::_None => 0,
            AccountRole::Owner => 1,
            AccountRole::Trader => 2,
            AccountRole::Withdraw => 3,
            AccountRole::Deposit => 4,
            AccountRole::Open => 5,
            AccountRole::ProtocolAdmin => 6,
        }
    }
}

/// Different roles have different codes.
pub proof fn lemma_role_code_injective(a: AccountRole, b: AccountRole)
    requires
        a != b,
    ensures
        role_code(a) != role_code(b),
{
}

} // verus!
