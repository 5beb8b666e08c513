//! The hash-and-sign scheme that authenticates privileged requests.
//!
//! The signed message is the ABI encoding of the tuple
//! `(bytes32 scope, uint256 nonce, uint256 account_id, uint256 role)`; its
//! Keccak-256 hash is wrapped as an Ethereum personal message, hashed again,
//! and signed with the user's secp256k1 key.

use vstd::prelude::*;
use ethers::abi::Token;
use ethers::types::U256;
use vstd::string::StringSliceAdditionalSpecFns;
use vstd::utf8::encode_utf8;
use crate::account::{AccountRole, role_code};
use crate::values::{Signature, Word, word_of, be_bytes, lemma_be_bytes_len, lemma_be_bytes_injective};

verus! {

/// The text whose hash separates account messages from every other kind of
/// signed message.
pub const ACCOUNT_MESSAGE_TAG: &'static str = "HANDLE_SYNTH_ACCOUNT_MESSAGE";

/// The Keccak-256 hash of some bytes, as ethers computes it.
pub uninterp spec fn keccak_of(data: Seq<u8>) -> Seq<u8>;

/// A 32-byte hash wrapped as an Ethereum personal message: the prefix
/// `"\x19Ethereum Signed Message:\n"`, the length `32` in decimal, then the
/// hash.
pub open spec fn personal_message(hash: Seq<u8>) -> Seq<u8> {
    encode_utf8("\x19Ethereum Signed Message:\n32"@) + hash
}

/// The `r ‖ s ‖ v` signature that ethers' wallet makes of a digest with a
/// secret key (deterministic, RFC 6979), or nothing when the key is not a
/// valid secp256k1 secret or signing fails.
pub uninterp spec fn signature_of(key: Seq<u8>, digest: Seq<u8>) -> Option<Seq<u8>>;

/// Relies on ethers' keccak256.
#[verifier::external_body]
fn keccak256(data: &[u8]) -> (r: Word)
    ensures
        r@ == keccak_of(data@),
{
    ethers::utils::keccak256(data)
}

/// Relies on ethers' hash_message, given the 32 bytes of a hash: the
/// Keccak-256 hash of the prefix, the message's length in decimal, and the
/// message.
#[verifier::external_body]
fn hash_message(hash: &Word) -> (r: Word)
    ensures
        r@ == keccak_of(personal_message(hash@)),
{
    ethers::utils::hash_message(hash).0
}

/// Relies on ethers' LocalWallet::from_bytes and Wallet::sign_hash, and on
/// the conversion of a signature into its 65 bytes.
#[verifier::external_body]
fn sign_digest(key: &Word, digest: &Word) -> (r: Option<Signature>)
    ensures
        r is Some <==> signature_of(key@, digest@) is Some,
        r matches Some(s) ==> signature_of(key@, digest@) == Some(s@),
{
    let wallet = ethers::signers::LocalWallet::from_bytes(key).ok()?;
    let signature = wallet.sign_hash(ethers::types::H256(*digest)).ok()?;
    Some(signature.into())
}

/// The ABI encoding of `(bytes32, uint256, uint256, uint256)`: four 32-byte
/// words, the integers big-endian.
pub open spec fn role_message(scope: Seq<u8>, nonce: Seq<u8>, account_id: nat, role: nat) -> Seq<u8> {
    scope + nonce + word_of(account_id) + word_of(role)
}

/// Relies on ethers' abi::encode of a fixed-bytes token and three uint
/// tokens, which lays them out as consecutive 32-byte words.
#[verifier::external_body]
fn abi_encode_role_message(scope: &Word, nonce: &Word, account_id: u64, role: u8) -> (r: Vec<u8>)
    ensures
        r@ == role_message(scope@, nonce@, account_id as nat, role as nat),
{
    ethers::abi::encode(&[
        Token::FixedBytes(scope.to_vec()),
        Token::Uint(U256::from_big_endian(nonce)),
        Token::Uint(U256::from(account_id)),
        Token::Uint(U256::from(role)),
    ])
}

/// The domain-separation constant: the hash of the tag's bytes.
pub open spec fn account_message_scope_spec() -> Seq<u8> {
    keccak_of(encode_utf8(ACCOUNT_MESSAGE_TAG@))
}

/// Computes the domain-separation constant.
pub fn account_message_scope() -> (r: Word)
    ensures
        r@ == account_message_scope_spec(),
{
    keccak256(ACCOUNT_MESSAGE_TAG.as_bytes())
}

/// The signature over a role message, or nothing when signing fails.
pub open spec fn role_signature(
    key: Seq<u8>,
    scope: Seq<u8>,
    nonce: Seq<u8>,
    account_id: u64,
    role: AccountRole,
) -> Option<Seq<u8>> {
    signature_of(
        key,
        keccak_of(
            personal_message(
                keccak_of(role_message(scope, nonce, account_id as nat, role_code(role) as nat)),
            ),
        ),
    )
}

/// The bytes of an optional signature.
pub open spec fn signature_bytes(s: Option<Signature>) -> Option<Seq<u8>> {
    match s {
        Some(b) => Some(b@),
        None => None,
    }
}

/// Signs that the holder of `signer` acts in `role` on account `account_id`
/// with the user nonce `user_nonce` (32 big-endian bytes).
pub fn sign_user_role_message(
    signer: &Word,
    scope: &Word,
    account_id: u64,
    user_nonce: &Word,
    role: AccountRole,
) -> (r: Option<Signature>)
    ensures
        signature_bytes(r) == role_signature(signer@, scope@, user_nonce@, account_id, role),
{
    let message = abi_encode_role_message(scope, user_nonce, account_id, role.code());
    let hash = keccak256(message.as_slice());
    let digest = hash_message(&hash);
    sign_digest(signer, &digest)
}

/// A user that signs account messages.
pub struct TradeAccountUser;

/// Signing is deterministic: the same key and inputs give the same signature.
pub proof fn lemma_sign_deterministic(
    signer: Word,
    scope: Word,
    account_id: u64,
    user_nonce: Word,
    role: AccountRole,
    first: Option<Signature>,
    second: Option<Signature>,
)
    requires
        signature_bytes(first) == role_signature(signer@, scope@, user_nonce@, account_id, role),
        signature_bytes(second) == role_signature(signer@, scope@, user_nonce@, account_id, role),
    ensures
        signature_bytes(first) == signature_bytes(second),
{
}

proof fn lemma_u64_below_word(n: u64)
    ensures
        (n as nat) < vstd::arithmetic::power::pow(256, 32),
{
    reveal_with_fuel(vstd::arithmetic::power::pow, 9);
    vstd::arithmetic::power::lemma_pow_adds(256, 8, 24);
    vstd::arithmetic::power::lemma_pow_positive(256, 24);
    let a = vstd::arithmetic::power::pow(256, 8);
    let b = vstd::arithmetic::power::pow(256, 24);
    assert(a == 18446744073709551616);
    assert(a <= a * b) by (nonlinear_arith)
        requires
            a > 0,
            b >= 1,
    ;
}

/// Changing the nonce, the account id or the role changes the message that
/// is hashed and signed.
pub proof fn lemma_role_message_distinct(
    scope: Word,
    nonce1: Word,
    account_id1: u64,
    role1: AccountRole,
    nonce2: Word,
    account_id2: u64,
    role2: AccountRole,
)
    requires
        nonce1 != nonce2 || account_id1 != account_id2 || role1 != role2,
    ensures
        role_message(scope@, nonce1@, account_id1 as nat, role_code(role1) as nat) != role_message(
            scope@,
            nonce2@,
            account_id2 as nat,
            role_code(role2) as nat,
        ),
{
    let m1 = role_message(scope@, nonce1@, account_id1 as nat, role_code(role1) as nat);
    let m2 = role_message(scope@, nonce2@, account_id2 as nat, role_code(role2) as nat);
    lemma_be_bytes_len(account_id1 as nat, 32);
    lemma_be_bytes_len(account_id2 as nat, 32);
    lemma_be_bytes_len(role_code(role1) as nat, 32);
    lemma_be_bytes_len(role_code(role2) as nat, 32);
    if m1 == m2 {
        assert(m1.subrange(32, 64) == nonce1@);
        assert(m2.subrange(32, 64) == nonce2@);
        assert(nonce1@ =~= nonce2@);
        assert(nonce1 == nonce2);
        assert(m1.subrange(64, 96) == word_of(account_id1 as nat));
        assert(m2.subrange(64, 96) == word_of(account_id2 as nat));
        lemma_u64_below_word(account_id1);
        lemma_u64_below_word(account_id2);
        lemma_be_bytes_injective(account_id1 as nat, account_id2 as nat, 32);
        assert(m1.subrange(96, 128) == word_of(role_code(role1) as nat));
        assert(m2.subrange(96, 128) == word_of(role_code(role2) as nat));
        lemma_u64_below_word(role_code(role1) as u64);
        lemma_u64_below_word(role_code(role2) as u64);
        lemma_be_bytes_injective(role_code(role1) as nat, role_code(role2) as nat, 32);
        crate::account::lemma_role_code_injective(role1, role2);
    }
}

} // verus!
