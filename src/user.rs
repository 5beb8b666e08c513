//! A user of the venue: a signing key and the address it controls.

use vstd::prelude::*;
use crate::account::AccountRole;
use crate::signing::{role_signature, sign_user_role_message, signature_bytes};
use crate::values::{Address, Signature, Word};

verus! {

#[derive(Clone)]
pub struct User {
    /// The 32 bytes of the user's secp256k1 secret key.
    pub signer: Word,
    /// The address of that key.
    pub address: Address,
}

impl User {
    /// Signs a role message with the user's key; nothing when signing fails.
    pub fn sign_role_message(
        &self,
        scope: &Word,
        account_id: u64,
        user_nonce: &Word,
        role: AccountRole,
    ) -> (r: Option<Signature>)
        ensures
            signature_bytes(r) == role_signature(self.signer@, scope@, user_nonce@, account_id, role),
    {
        sign_user_role_message(&self.signer, scope, account_id, user_nonce, role)
    }
}

} // verus!
