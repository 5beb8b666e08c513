use ethers::abi::Token;
use ethers::signers::{LocalWallet, Signer};
use ethers::types::{Signature, U256};
use ethers::utils::{hash_message, keccak256};
use trade_client::account::AccountRole;
use trade_client::signing::{account_message_scope, sign_user_role_message, ACCOUNT_MESSAGE_TAG};
use trade_client::user::User;

const KEY: [u8; 32] = [7u8; 32];

fn nonce(n: u64) -> [u8; 32] {
    let mut w = [0u8; 32];
    w[24..].copy_from_slice(&n.to_be_bytes());
    w
}

#[test]
fn scope_is_hash_of_tag() {
    let scope = account_message_scope();
    assert_eq!(scope, keccak256(ACCOUNT_MESSAGE_TAG.as_bytes()));
    assert_ne!(&scope[..], &ACCOUNT_MESSAGE_TAG.as_bytes()[..32.min(ACCOUNT_MESSAGE_TAG.len())]);
}

#[test]
fn signing_is_deterministic_and_input_sensitive() {
    let scope = account_message_scope();
    let a = sign_user_role_message(&KEY, &scope, 42, &nonce(5), AccountRole::Deposit).unwrap();
    let b = sign_user_role_message(&KEY, &scope, 42, &nonce(5), AccountRole::Deposit).unwrap();
    assert_eq!(a, b);
    let other_nonce = sign_user_role_message(&KEY, &scope, 42, &nonce(6), AccountRole::Deposit).unwrap();
    let other_account = sign_user_role_message(&KEY, &scope, 43, &nonce(5), AccountRole::Deposit).unwrap();
    let other_role = sign_user_role_message(&KEY, &scope, 42, &nonce(5), AccountRole::Owner).unwrap();
    assert_ne!(a, other_nonce);
    assert_ne!(a, other_account);
    assert_ne!(a, other_role);
}

#[test]
fn signature_recovers_the_signer_over_the_two_stage_hash() {
    let scope = account_message_scope();
    let sig = sign_user_role_message(&KEY, &scope, 42, &nonce(5), AccountRole::Deposit).unwrap();
    let encoded = ethers::abi::encode(&[
        Token::FixedBytes(scope.to_vec()),
        Token::Uint(U256::from(5u64)),
        Token::Uint(U256::from(42u64)),
        Token::Uint(U256::from(4u8)),
    ]);
    assert_eq!(encoded.len(), 128);
    let digest = hash_message(keccak256(&encoded));
    let signature = Signature::try_from(&sig[..]).unwrap();
    let wallet = LocalWallet::from_bytes(&KEY).unwrap();
    assert_eq!(signature.recover(digest).unwrap(), wallet.address());
    assert!(sig[64] == 27 || sig[64] == 28);
}

#[test]
fn invalid_key_does_not_sign() {
    let scope = account_message_scope();
    assert!(sign_user_role_message(&[0u8; 32], &scope, 1, &nonce(1), AccountRole::Open).is_none());
}

#[test]
fn user_signs_with_its_key() {
    let user = User { signer: KEY, address: [0u8; 20] };
    let scope = account_message_scope();
    assert_eq!(
        user.sign_role_message(&scope, 42, &nonce(5), AccountRole::Trader),
        sign_user_role_message(&KEY, &scope, 42, &nonce(5), AccountRole::Trader)
    );
}

#[test]
fn role_codes() {
    assert_eq!(AccountRole::_None.code(), 0);
    assert_eq!(AccountRole::Deposit.code(), 4);
    assert_eq!(AccountRole::ProtocolAdmin.code(), 6);
}

#[test]
fn personal_digest_matches_prefixed_hash() {
    let h = keccak256(b"x");
    let mut msg = b"\x19Ethereum Signed Message:\n32".to_vec();
    msg.extend_from_slice(&h);
    assert_eq!(hash_message(h).0, keccak256(&msg));
}
