//! A client of one trade account: the signed requests it sends and how it
//! reads the responses. Reading the nonce, approving tokens and talking to the
//! venue are left to the caller, which hands in the nonce and the response.

use vstd::prelude::*;
use bigdecimal::BigDecimal;
use crate::account::{AccountId, AccountRole};
use crate::envelope::{RequestContent, Response, ResponseContent, debug_text};
use crate::events::{DepositEvent, Event, GrantAccountUserRoleEvent};
use crate::requests::{DepositRequest, GrantAccountUserRoleRequest, OpenAccountRequest};
use crate::signing::role_signature;
use crate::user::User;
use crate::values::{Address, Signature, Word, be_value, word_lt};

verus! {

pub struct TradeAccountClient {
    pub id: AccountId,
    pub user: User,
}

/// `Some(true)` for a gasless deposit, otherwise absent.
pub open spec fn gasless_flag(use_gasless: bool) -> Option<bool> {
    if use_gasless {
        Some(true)
    } else {
        None
    }
}

fn signature_vec(s: &Signature) -> (r: Vec<u8>)
    ensures
        r@ == s@,
{
    vstd::slice::slice_to_vec(s.as_slice())
}

/// The request that opens an account for `user` with a first deposit,
/// signed for the `Open` role on account 0; nothing when signing fails.
pub fn get_open_account_request(
    user: &User,
    scope: &Word,
    nonce: &Word,
    amount: BigDecimal,
    token: Address,
    use_gasless: bool,
    referral_code: Option<String>,
) -> (r: Option<RequestContent>)
    ensures
        role_signature(user.signer@, scope@, nonce@, 0, AccountRole::Open) is None ==> r is None,
        role_signature(user.signer@, scope@, nonce@, 0, AccountRole::Open) matches Some(sig) ==> (
        r matches Some(RequestContent::OpenAccount(o)) && o.amount == amount && o.owner
            == user.address && o.token == token && o.signature@ == sig && o.referral_code
            == referral_code && o.use_gasless == gasless_flag(use_gasless) && o.psm_token is None),
{
    let signature = user.sign_role_message(scope, 0, nonce, AccountRole::Open)?;
    Some(
        RequestContent::OpenAccount(
            OpenAccountRequest {
                amount,
                owner: user.address,
                token,
                signature: signature_vec(&signature),
                referral_code,
                use_gasless: if use_gasless {
                    Some(true)
                } else {
                    None
                },
                psm_token: None,
            },
        ),
    )
}

/// The account id that an open-account response carries.
pub open spec fn opened_id_of(c: ResponseContent) -> Option<AccountId> {
    match c {
        ResponseContent::Event(Event::OpenAccount(info)) => Some(info.account_id),
        _ => None,
    }
}

/// The deposit event that a deposit response carries.
pub open spec fn deposit_of(c: ResponseContent) -> Option<DepositEvent> {
    match c {
        ResponseContent::Event(Event::Deposit(e)) => Some(e),
        _ => None,
    }
}

/// The role grant that a grant response carries.
pub open spec fn grant_of(c: ResponseContent) -> Option<GrantAccountUserRoleEvent> {
    match c {
        ResponseContent::Event(Event::GrantAccountUserRole(e)) => Some(e),
        _ => None,
    }
}

impl TradeAccountClient {
    pub fn from_existing(account_id: AccountId, user: User) -> (r: Self)
        ensures
            r.id == account_id,
            r.user == user,
    {
        TradeAccountClient { id: account_id, user }
    }

    /// The account opened by a response: the server's error, or the id of
    /// the account in its open-account event.
    pub fn opened(user: User, response: Response) -> (r: Result<Self, String>)
        ensures
            r is Ok <==> response.content.error is None && (response.content.result matches Some(
                c,
            ) && opened_id_of(c) is Some),
            r matches Ok(client) ==> Some(client.id) == opened_id_of(
                response.content.result->Some_0,
            ) && client.user == user,
            response.content.error matches Some(e) ==> r matches Err(m) && m == e,
            response.content.error is None && response.content.result is None ==> (r matches Err(m)
                && m@ == "no response content or error received"@),
            response.content.error is None && (response.content.result matches Some(c)
                && opened_id_of(c) is None) ==> (r matches Err(m) && m@ == "no account received"@),
    {
        let content = response.content()?;
        match content {
            ResponseContent::Event(Event::OpenAccount(info)) => Ok(
                TradeAccountClient { id: info.account_id, user },
            ),
            _ => Err("no account received".to_owned()),
        }
    }

    /// The deposit request for this account, signed for the `Deposit` role;
    /// nothing when signing fails.
    pub fn get_deposit_ws_request(
        &self,
        scope: &Word,
        nonce: &Word,
        amount: BigDecimal,
        token: Address,
        use_gasless: bool,
    ) -> (r: Option<RequestContent>)
        ensures
            role_signature(self.user.signer@, scope@, nonce@, self.id, AccountRole::Deposit) is None
                ==> r is None,
            role_signature(self.user.signer@, scope@, nonce@, self.id, AccountRole::Deposit) matches Some(
                sig,
            ) ==> (r matches Some(RequestContent::Deposit(d)) && d.amount == amount && d.account_id
                == self.id && d.depositor == self.user.address && d.token == token && d.signature@
                == sig && d.use_gasless == gasless_flag(use_gasless) && d.psm_token is None),
    {
        let signature = self.user.sign_role_message(scope, self.id, nonce, AccountRole::Deposit)?;
        Some(
            RequestContent::Deposit(
                DepositRequest {
                    amount,
                    account_id: self.id,
                    depositor: self.user.address,
                    token,
                    signature: signature_vec(&signature),
                    use_gasless: if use_gasless {
                        Some(true)
                    } else {
                        None
                    },
                    psm_token: None,
                },
            ),
        )
    }

    /// The deposit a response confirms: the server's error, or its deposit
    /// event.
    pub fn deposit_result(response: Response) -> (r: Result<DepositEvent, String>)
        ensures
            r is Ok <==> response.content.error is None && (response.content.result matches Some(
                c,
            ) && deposit_of(c) is Some),
            r matches Ok(e) ==> deposit_of(response.content.result->Some_0) == Some(e),
            response.content.error matches Some(e) ==> r matches Err(m) && m == e,
            response.content.error is None && response.content.result is None ==> (r matches Err(m)
                && m@ == "no response content or error received"@),
            response.content.error is None && (response.content.result matches Some(c)
                && deposit_of(c) is None) ==> (r matches Err(m)
                && "did not receive deposit event; "@.is_prefix_of(m@)),
    {
        let content = response.content()?;
        match content {
            ResponseContent::Event(Event::Deposit(e)) => Ok(e),
            other => Err(unexpected("did not receive deposit event; ", &other)),
        }
    }

    /// The request that grants `role` on this account to `user`, signed by
    /// the account's owner for the `Owner` role; nothing when signing fails.
    pub fn get_grant_role_request(
        &self,
        scope: &Word,
        nonce: &Word,
        user: Address,
        role: AccountRole,
    ) -> (r: Option<RequestContent>)
        ensures
            role_signature(self.user.signer@, scope@, nonce@, self.id, AccountRole::Owner) is None
                ==> r is None,
            role_signature(self.user.signer@, scope@, nonce@, self.id, AccountRole::Owner) matches Some(
                sig,
            ) ==> (r matches Some(RequestContent::GrantAccountUserRole(g)) && g.account_id == self.id
                && g.user == user && g.role == role && g.account_owner == self.user.address
                && g.owner_signature@ == sig),
    {
        let signature = self.user.sign_role_message(scope, self.id, nonce, AccountRole::Owner)?;
        Some(
            RequestContent::GrantAccountUserRole(
                GrantAccountUserRoleRequest {
                    account_id: self.id,
                    user,
                    role,
                    account_owner: self.user.address,
                    owner_signature: signature_vec(&signature),
                },
            ),
        )
    }

    /// The grant a response confirms: the server's error, or its role-grant
    /// event.
    pub fn grant_role_result(response: Response) -> (r: Result<GrantAccountUserRoleEvent, String>)
        ensures
            r is Ok <==> response.content.error is None && (response.content.result matches Some(
                c,
            ) && grant_of(c) is Some),
            r matches Ok(e) ==> grant_of(response.content.result->Some_0) == Some(e),
            response.content.error matches Some(e) ==> r matches Err(m) && m == e,
            response.content.error is None && response.content.result is None ==> (r matches Err(m)
                && m@ == "no response content or error received"@),
            response.content.error is None && (response.content.result matches Some(c)
                && grant_of(c) is None) ==> (r matches Err(m)
                && "did not receive grant role event; "@.is_prefix_of(m@)),
    {
        let content = response.content()?;
        match content {
            ResponseContent::Event(Event::GrantAccountUserRole(e)) => Ok(e),
            other => Err(unexpected("did not receive grant role event; ", &other)),
        }
    }
}

/// Whether a token allowance must be raised before `amount` can be moved:
/// only when the current allowance is below it.
pub fn needs_token_approval(current_allowance: &Word, amount: &Word) -> (r: bool)
    ensures
        r == (be_value(current_allowance@) < be_value(amount@)),
{
    word_lt(current_allowance, amount)
}

/// An error that names what came instead of the expected event.
fn unexpected(what: &str, content: &ResponseContent) -> (r: String)
    ensures
        what@.is_prefix_of(r@),
{
    let mut message = what.to_owned();
    let shown = debug_text(content);
    message.append(shown.as_str());
    assert(message@.subrange(0, what@.len() as int) =~= what@);
    message
}

} // verus!
