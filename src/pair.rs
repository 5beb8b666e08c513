//! Trading pairs: a base and a quote symbol, each held in a fixed-width,
//! zero-padded field.

use vstd::prelude::*;
use vstd::string::StringSliceAdditionalSpecFns;
use vstd::utf8::{decode_utf8, encode_utf8, valid_utf8};
use vstd::string::StringExecFns;
use crate::text::{padded_text, text_len, zero_padded, string_from_utf8, lemma_padded_text_valid, lemma_padded_text_of_zero_free};

verus! {

pub const MAX_SYMBOL_LEN: usize = 16;

/// A trading pair such as `ETH/USD`.
#[derive(Clone, Copy, Debug, PartialEq, Eq, Hash)]
pub struct Pair {
    base_symbol: [u8; MAX_SYMBOL_LEN],
    quote_symbol: [u8; MAX_SYMBOL_LEN],
}

/// Why a pair could not be made.
#[derive(Clone, Debug)]
pub struct PairCreationError(pub String);

impl Pair {
    #[verifier::type_invariant]
    spec fn well_formed(self) -> bool {
        &&& valid_utf8(padded_text(self.base_symbol@))
        &&& valid_utf8(padded_text(self.quote_symbol@))
    }

    /// The stored base field, zero-padded.
    pub closed spec fn base_field(self) -> Seq<u8> {
        self.base_symbol@
    }

    /// The stored quote field, zero-padded.
    pub closed spec fn quote_field(self) -> Seq<u8> {
        self.quote_symbol@
    }

    /// A pair is its two fields: pairs with equal fields are equal.
    pub proof fn lemma_fields_determine_pair(a: Pair, b: Pair)
        requires
            a.base_field() == b.base_field(),
            a.quote_field() == b.quote_field(),
        ensures
            a == b,
    {
        assert(a.base_symbol =~= b.base_symbol);
        assert(a.quote_symbol =~= b.quote_symbol);
    }

    pub open spec fn base_text(self) -> Seq<u8> {
        padded_text(self.base_field())
    }

    pub open spec fn quote_text(self) -> Seq<u8> {
        padded_text(self.quote_field())
    }

    /// Makes a pair; fails when a symbol is longer than `MAX_SYMBOL_LEN` bytes.
    pub fn new(base_symbol: &str, quote_symbol: &str) -> (r: Result<Pair, PairCreationError>)
        ensures
            r is Ok <==> (base_symbol.spec_bytes().len() <= MAX_SYMBOL_LEN
                && quote_symbol.spec_bytes().len() <= MAX_SYMBOL_LEN),
            r matches Ok(p) ==> p.base_field() == zero_padded(base_symbol.spec_bytes(), 16)
                && p.quote_field() == zero_padded(quote_symbol.spec_bytes(), 16),
            r matches Ok(p) ==> (zero_free(base_symbol.spec_bytes()) ==> p.base_text()
                == base_symbol.spec_bytes()),
            r matches Ok(p) ==> (zero_free(quote_symbol.spec_bytes()) ==> p.quote_text()
                == quote_symbol.spec_bytes()),
    {
        let b = base_symbol.as_bytes();
        let q = quote_symbol.as_bytes();
        if b.len() > MAX_SYMBOL_LEN || q.len() > MAX_SYMBOL_LEN {
            return Err(PairCreationError("symbol too long".to_owned()));
        }
        proof {
            vstd::utf8::encode_utf8_valid_utf8(base_symbol@);
            vstd::utf8::encode_utf8_valid_utf8(quote_symbol@);
        }
        let p = Self::from_symbol_bytes(b, q);
        proof {
            if zero_free(b@) {
                lemma_padded_text_of_zero_free(b@, 16);
            }
            if zero_free(q@) {
                lemma_padded_text_of_zero_free(q@, 16);
            }
        }
        Ok(p)
    }

    /// Parses `BASE/QUOTE`: the text must hold exactly one `/`, and each
    /// symbol at most `MAX_SYMBOL_LEN` bytes.
    pub fn from_str(s: &str) -> (r: Result<Pair, PairCreationError>)
        ensures
            r is Ok <==> exists|k: int| pair_split(s.spec_bytes(), k),
            forall|k: int| #[trigger] pair_split(s.spec_bytes(), k) ==> (r matches Ok(p)
                && p.base_field() == zero_padded(s.spec_bytes().subrange(0, k), 16)
                && p.quote_field() == zero_padded(
                s.spec_bytes().subrange(k + 1, s.spec_bytes().len() as int),
                16,
            )),
    {
        let b = s.as_bytes();
        let mut slashes: usize = 0;
        let mut at: usize = 0;
        let mut i: usize = 0;
        while i < b.len()
            invariant
                i <= b@.len(),
                slashes <= i,
                slashes == 0 ==> forall|j: int| 0 <= j < i ==> b@[j] != SLASH,
                slashes >= 1 ==> at < i && b@[at as int] == SLASH,
                slashes == 1 ==> forall|j: int| 0 <= j < i && j != at ==> b@[j] != SLASH,
                slashes >= 2 ==> exists|j: int| 0 <= j < i && j != at && b@[j] == SLASH,
            decreases b@.len() - i,
        {
            if b[i] == SLASH {
                if slashes == 0 {
                    at = i;
                }
                if slashes < 2 {
                    slashes = slashes + 1;
                }
            }
            i = i + 1;
        }
        if slashes != 1 {
            proof {
                assert forall|k: int| !pair_split(b@, k) by {
                    if slashes >= 2 && pair_split(b@, k) {
                        let j = choose|j: int| 0 <= j < i && j != at && b@[j] == SLASH;
                        assert(j == k);
                    }
                }
            }
            return Err(PairCreationError("invalid pair string".to_owned()));
        }
        let n = b.len();
        if at > MAX_SYMBOL_LEN || n - at - 1 > MAX_SYMBOL_LEN {
            proof {
                assert forall|k: int| !pair_split(b@, k) by {
                    if pair_split(b@, k) {
                        assert(k == at);
                    }
                }
            }
            return Err(PairCreationError("symbol too long".to_owned()));
        }
        let base = vstd::slice::slice_subrange(b, 0, at);
        let quote = vstd::slice::slice_subrange(b, at + 1, n);
        proof {
            vstd::utf8::encode_utf8_valid_utf8(s@);
            lemma_split_valid(b@, at as int);
        }
        let p = Self::from_symbol_bytes(base, quote);
        proof {
            assert forall|k: int| #[trigger] pair_split(b@, k) implies k == at by {}
            assert(pair_split(b@, at as int));
        }
        Ok(p)
    }

    /// The text that names the pair: `BASE/QUOTE`.
    pub open spec fn display_text(self) -> Seq<char> {
        decode_utf8(self.base_text()) + seq!['/'] + decode_utf8(self.quote_text())
    }

    /// Renders the pair as `BASE/QUOTE`.
    pub fn to_string(&self) -> (r: String)
        ensures
            r@ == self.display_text(),
    {
        let mut text = self.get_base_symbol();
        let slash = "/";
        proof {
            reveal_strlit("/");
        }
        text.append(slash);
        let quote = self.get_quote_symbol();
        text.append(quote.as_str());
        text
    }

    /// The pair's text, zero-padded to 32 bytes.
    pub fn as_bytes32(&self) -> (r: [u8; 32])
        requires
            encode_utf8(self.display_text()).len() <= 32,
        ensures
            r@ == zero_padded(encode_utf8(self.display_text()), 32),
    {
        let text = self.to_string();
        format_bytes32(text.as_str()).unwrap()
    }

    /// Makes a pair from the UTF-8 bytes of its two symbols.
    fn from_symbol_bytes(b: &[u8], q: &[u8]) -> (p: Pair)
        requires
            b@.len() <= 16,
            q@.len() <= 16,
            valid_utf8(b@),
            valid_utf8(q@),
        ensures
            p.base_field() == zero_padded(b@, 16),
            p.quote_field() == zero_padded(q@, 16),
    {
        let base_symbol = pad_symbol(b);
        let quote_symbol = pad_symbol(q);
        proof {
            lemma_padded_text_valid(b@, 16);
            lemma_padded_text_valid(q@, 16);
        }
        Pair { base_symbol, quote_symbol }
    }

    /// The base symbol: the stored text up to its first zero byte.
    pub fn get_base_symbol(&self) -> (r: String)
        ensures
            r@ == decode_utf8(self.base_text()),
    {
        proof {
            use_type_invariant(self);
        }
        symbol_string(&self.base_symbol)
    }

    /// The quote symbol: the stored text up to its first zero byte.
    pub fn get_quote_symbol(&self) -> (r: String)
        ensures
            r@ == decode_utf8(self.quote_text()),
    {
        proof {
            use_type_invariant(self);
        }
        symbol_string(&self.quote_symbol)
    }
}

/// The byte of `/`, which separates the two symbols.
pub const SLASH: u8 = 0x2f;

/// Every byte of `b` is nonzero.
pub open spec fn zero_free(b: Seq<u8>) -> bool {
    forall|j: int| 0 <= j < b.len() ==> b[j] != 0
}

/// `k` is the only `/` in `b`, and the symbols on either side of it fit.
pub open spec fn pair_split(b: Seq<u8>, k: int) -> bool {
    &&& 0 <= k < b.len()
    &&& b[k] == SLASH
    &&& forall|j: int| 0 <= j < b.len() && j != k ==> b[j] != SLASH
    &&& k <= MAX_SYMBOL_LEN
    &&& b.len() - k - 1 <= MAX_SYMBOL_LEN
}

/// Both sides of a `/` in valid UTF-8 are valid UTF-8.
proof fn lemma_split_valid(b: Seq<u8>, k: int)
    requires
        valid_utf8(b),
        0 <= k < b.len(),
        b[k] == SLASH,
    ensures
        valid_utf8(b.subrange(0, k)),
        valid_utf8(b.subrange(k + 1, b.len() as int)),
{
    vstd::utf8::is_char_boundary_iff_not_is_continuation_byte(b, k);
    vstd::utf8::valid_utf8_split(b, k);
    let tail = b.subrange(k, b.len() as int);
    assert(tail[0] == SLASH);
    assert(vstd::utf8::pop_first_scalar(tail) =~= b.subrange(k + 1, b.len() as int));
}

/// Relies on ethers' format_bytes32_string: the UTF-8 bytes of the text
/// followed by zero bytes up to 32, or an error when there are more than 32.
#[verifier::external_body]
fn format_bytes32(text: &str) -> (r: Option<[u8; 32]>)
    ensures
        r is Some <==> text.spec_bytes().len() <= 32,
        r matches Some(b) ==> b@ == zero_padded(text.spec_bytes(), 32),
{
    ethers::utils::format_bytes32_string(text).ok()
}

/// Copies a symbol's bytes into a zero-padded field.
fn pad_symbol(b: &[u8]) -> (r: [u8; MAX_SYMBOL_LEN])
    requires
        b@.len() <= 16,
    ensures
        r@ == zero_padded(b@, 16),
{
    let mut field = [0u8; MAX_SYMBOL_LEN];
    let mut i: usize = 0;
    while i < b.len()
        invariant
            b@.len() <= 16,
            i <= b@.len(),
            field@.len() == 16,
            forall|j: int| 0 <= j < i ==> field@[j] == b@[j],
            forall|j: int| i <= j < 16 ==> field@[j] == 0,
        decreases b@.len() - i,
    {
        field[i] = b[i];
        i = i + 1;
    }
    assert(field@ =~= zero_padded(b@, 16));
    field
}

/// The text of a zero-padded symbol field, as a string.
fn symbol_string(field: &[u8; MAX_SYMBOL_LEN]) -> (r: String)
    requires
        valid_utf8(padded_text(field@)),
    ensures
        r@ == decode_utf8(padded_text(field@)),
{
    let n = text_len(field.as_slice());
    let mut text: Vec<u8> = Vec::new();
    let mut i: usize = 0;
    while i < n
        invariant
            n <= field@.len(),
            i <= n,
            text@ == field@.subrange(0, i as int),
        decreases n - i,
    {
        text.push(field[i]);
        i = i + 1;
        assert(text@ =~= field@.subrange(0, i as int));
    }
    string_from_utf8(text.as_slice())
}

} // verus!

verus! {

/// The state of a pair in a pool: accrued fee fractions and open interest.
#[derive(Clone, Debug)]
pub struct PairStateSnapshot {
    pub lp_pair: crate::envelope::LpPair,
    pub sum_fraction_funding: crate::liquidity_pool::TimestampedBigDecimalMarketSide,
    pub sum_fraction_borrow: crate::liquidity_pool::TimestampedBigDecimalMarketSide,
    pub open_interest: crate::liquidity_pool::OpenInterest,
}

/// The trading parameters of a pair in a pool.
#[derive(Clone, Default, Debug)]
pub struct PairConfig {
    pub initial_margin_fraction: bigdecimal::BigDecimal,
    pub maintenance_margin_fraction: bigdecimal::BigDecimal,
    pub incremental_initial_margin_fraction: bigdecimal::BigDecimal,
    pub baseline_position_size: bigdecimal::BigDecimal,
    pub incremental_position_size: bigdecimal::BigDecimal,
    pub margin_fee_fraction: bigdecimal::BigDecimal,
    pub symmetrical_spread_fraction: bigdecimal::BigDecimal,
    pub is_active: bool,
    /// Whether positions may only be closed or reduced.
    pub is_reduce_only: bool,
    /// The largest allowed difference between longs and shorts.
    pub max_open_interest_diff: Option<bigdecimal::BigDecimal>,
    pub max_open_interest_long: Option<bigdecimal::BigDecimal>,
    pub max_open_interest_short: Option<bigdecimal::BigDecimal>,
    pub borrow_fee_factor: bigdecimal::BigDecimal,
    pub funding_factor: bigdecimal::BigDecimal,
    pub funding_exponent: bigdecimal::BigDecimal,
    /// How many seconds a received price may be traded at.
    pub trade_price_expiration: Option<u64>,
    pub use_price_impact: bool,
    pub price_impact_fraction: Option<bigdecimal::BigDecimal>,
    pub skew_scale: Option<bigdecimal::BigDecimal>,
}

} // verus!
