use trade_client::trade_account::needs_token_approval;
use trade_client::values::word_lt;

fn word(n: u64) -> [u8; 32] {
    let mut w = [0u8; 32];
    w[24..].copy_from_slice(&n.to_be_bytes());
    w
}

#[test]
fn approval_needed_only_below_amount() {
    assert!(needs_token_approval(&word(5), &word(6)));
    assert!(!needs_token_approval(&word(6), &word(6)));
    assert!(!needs_token_approval(&word(7), &word(6)));
}

#[test]
fn comparison_is_by_most_significant_byte_first() {
    let mut high = [0u8; 32];
    high[0] = 1;
    let mut low = [0u8; 32];
    low[1] = 255;
    low[31] = 255;
    assert!(word_lt(&low, &high));
    assert!(!word_lt(&high, &low));
    assert!(word_lt(&word(255), &word(256)));
}
