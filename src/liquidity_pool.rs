//! Liquidity pools: their identifiers and the per-side, timestamped values
//! that pool state is reported in.

use vstd::prelude::*;
use vstd::string::StringExecFns;
use bigdecimal::BigDecimal;
use crate::pair::Pair;
use crate::values::{Address, Word, word_of};

verus! {

/// Declares the error of ethers' hexadecimal integer parsing.
#[verifier::external_type_specification]
#[verifier::external_body]
pub struct ExFromStrRadixErr(ethers::abi::ethereum_types::FromStrRadixErr);

/// The value of a hexadecimal digit, in either case.
pub open spec fn hex_digit_value(c: char) -> Option<nat> {
    let u = c as u32;
    if 0x30 <= u <= 0x39 {
        Some((u - 0x30) as nat)
    } else if 0x61 <= u <= 0x66 {
        Some((u - 0x61 + 10) as nat)
    } else if 0x41 <= u <= 0x46 {
        Some((u - 0x41 + 10) as nat)
    } else {
        None
    }
}

/// The value of hexadecimal digits, most significant first; the empty text
/// is 0.
pub open spec fn hex_digits_value(d: Seq<char>) -> Option<nat>
    decreases d.len(),
{
    if d.len() == 0 {
        Some(0)
    } else {
        match (hex_digits_value(d.drop_last()), hex_digit_value(d.last())) {
            (Some(v), Some(x)) => Some(v * 16 + x),
            _ => None,
        }
    }
}

/// What a text reads as in hexadecimal: an optional `0x`, then at most 64
/// digits, as the 32 big-endian bytes of their value.
pub open spec fn hex_word_of(s: Seq<char>) -> Option<Seq<u8>> {
    let t = if s.len() >= 2 && s[0] == '0' && s[1] == 'x' {
        s.subrange(2, s.len() as int)
    } else {
        s
    };
    if t.len() > 64 {
        None
    } else {
        match hex_digits_value(t) {
            Some(v) => Some(word_of(v)),
            None => None,
        }
    }
}

/// Relies on U256::from_str_radix with radix 16, that is U256's FromStr: it
/// drops a leading `0x`, refuses more than 64 digits or a character that is
/// not a hexadecimal digit of either case, and reads the digits (an odd
/// count padded with a leading 0) as a big-endian number; the number is
/// handed back as big-endian bytes.
#[verifier::external_body]
fn parse_hex_word(s: &str) -> (r: Result<Word, ethers::abi::ethereum_types::FromStrRadixErr>)
    ensures
        r is Ok <==> hex_word_of(s@) is Some,
        r matches Ok(w) ==> hex_word_of(s@) == Some(w@),
{
    ethers::types::U256::from_str_radix(s, 16).map(<[u8; 32]>::from)
}

/// The lowercase hexadecimal digit of a value below 16.
pub open spec fn hex_digit(v: u8) -> char {
    if v < 10 {
        (('0' as u8) + v) as char
    } else {
        (('a' as u8) + (v - 10)) as char
    }
}

/// Two lowercase hexadecimal digits for each byte.
pub open spec fn hex_text(b: Seq<u8>) -> Seq<char>
    decreases b.len(),
{
    if b.len() == 0 {
        Seq::empty()
    } else {
        hex_text(b.drop_last()) + seq![hex_digit(b.last() / 16), hex_digit(b.last() % 16)]
    }
}

/// Relies on ethers' hex::encode: two lowercase hexadecimal digits per byte.
#[verifier::external_body]
fn hex_encode(b: &[u8]) -> (r: String)
    ensures
        r@ == hex_text(b@),
{
    ethers::utils::hex::encode(b)
}

/// Identifies a liquidity pool by a 256-bit number; its last 20 bytes are
/// the pool's contract address.
#[derive(Clone, Copy, PartialEq, Eq, Hash, Default, Debug)]
pub struct LiquidityPoolId(pub Word);

impl LiquidityPoolId {
    pub fn new(id: Word) -> (r: Self)
        ensures
            r.0 == id,
    {
        LiquidityPoolId(id)
    }

    pub fn as_u256(&self) -> (r: Word)
        ensures
            r == self.0,
    {
        self.0
    }

    /// The pool's address: the last 20 of the id's 32 bytes.
    pub fn to_address(&self) -> (r: Address)
        ensures
            r@ == self.0@.subrange(12, 32),
    {
        let mut address = [0u8; 20];
        let mut i: usize = 0;
        while i < 20
            invariant
                i <= 20,
                forall|j: int| 0 <= j < i ==> address@[j] == self.0@[j + 12],
            decreases 20 - i,
        {
            address[i] = self.0[i + 12];
            i = i + 1;
        }
        assert(address@ =~= self.0@.subrange(12, 32));
        address
    }

    /// Parses the id from hexadecimal text.
    pub fn from_hex_str(s: &str) -> (r: Result<Self, ethers::abi::ethereum_types::FromStrRadixErr>)
        ensures
            r is Ok <==> hex_word_of(s@) is Some,
            r matches Ok(id) ==> hex_word_of(s@) == Some(id.0@),
    {
        match parse_hex_word(s) {
            Ok(w) => Ok(LiquidityPoolId(w)),
            Err(e) => Err(e),
        }
    }

    /// The id of big-endian bytes, of which there are at most 32.
    pub fn from_bytes(bytes: &[u8]) -> (r: Self)
        requires
            bytes@.len() <= 32,
        ensures
            r.0@ == Seq::new((32 - bytes@.len()) as nat, |i: int| 0u8) + bytes@,
    {
        let mut id = [0u8; 32];
        let offset = 32 - bytes.len();
        let mut i: usize = 0;
        while i < bytes.len()
            invariant
                offset + bytes@.len() == 32,
                i <= bytes@.len(),
                forall|j: int| 0 <= j < offset ==> id@[j] == 0,
                forall|j: int| 0 <= j < i ==> id@[offset + j] == bytes@[j],
                forall|j: int| offset + i <= j < 32 ==> id@[j] == 0,
            decreases bytes@.len() - i,
        {
            id[offset + i] = bytes[i];
            i = i + 1;
        }
        assert(id@ =~= Seq::new((32 - bytes@.len()) as nat, |i: int| 0u8) + bytes@);
        LiquidityPoolId(id)
    }

    /// The id's 32 big-endian bytes.
    pub fn as_bytes(&self) -> (r: Vec<u8>)
        ensures
            r@ == self.0@,
    {
        let mut out: Vec<u8> = Vec::new();
        let mut i: usize = 0;
        while i < 32
            invariant
                i <= 32,
                out@ == self.0@.subrange(0, i as int),
            decreases 32 - i,
        {
            out.push(self.0[i]);
            i = i + 1;
            assert(out@ =~= self.0@.subrange(0, i as int));
        }
        out
    }

    /// The pool's address as `0x` and forty hexadecimal digits.
    pub fn to_address_string(&self) -> (r: String)
        ensures
            r@ == seq!['0', 'x'] + hex_text(self.0@.subrange(12, 32)),
    {
        let address = self.to_address();
        let mut text = String::from_str("0x");
        proof {
            reveal_strlit("0x");
        }
        let digits = hex_encode(address.as_slice());
        text.append(digits.as_str());
        text
    }
}

/// The request that subscribes to every trade in the pool whose id is given
/// in hexadecimal; nothing when the id does not parse.
pub fn subscribe_trades_request(lp_id_hex: &str) -> (r: Option<crate::envelope::Request>)
    ensures
        r is Some <==> hex_word_of(lp_id_hex@) is Some,
        r matches Some(req) ==> req.id is None && (req.content matches
            crate::envelope::RequestContent::Subscribe(
            crate::envelope::SubscriptionTopic::LiquidityPoolTrade(id),
        ) && hex_word_of(lp_id_hex@) == Some(id.0@)),
{
    match LiquidityPoolId::from_hex_str(lp_id_hex) {
        Ok(id) => Some(
            crate::envelope::Request::from(
                crate::envelope::RequestContent::Subscribe(
                    crate::envelope::SubscriptionTopic::LiquidityPoolTrade(id),
                ),
                None,
            ),
        ),
        Err(_) => None,
    }
}

/// The effect of a trade on a liquidity pool.
#[derive(Clone, Debug, PartialEq, Eq)]
pub struct LpTradeEffect {
    pub lp_id: LiquidityPoolId,
    pub pair: Pair,
    pub realized_equity: BigDecimal,
    pub old_size: BigDecimal,
    pub next_size: BigDecimal,
    /// The funding fee fraction at the time the trade was placed.
    pub sum_fraction_funding: MarketSide<BigDecimal>,
    /// The borrow fee fraction at the time the trade was placed.
    pub sum_fraction_borrow: MarketSide<BigDecimal>,
    /// The notional funding rate for LP credit.
    pub lp_funding_rate_notional: BigDecimal,
    pub timestamp_unix_millis: i64,
}

/// A value for each side of the market.
#[derive(Clone, Default, PartialEq, Eq, Debug)]
pub struct MarketSide<T: Default> {
    pub long: T,
    pub short: T,
}

pub type OpenInterest = MarketSide<BigDecimal>;

pub type TimestampedBigDecimalMarketSide = TimestampedValue<MarketSide<BigDecimal>>;

pub type TimestampedBigDecimal = TimestampedValue<BigDecimal>;

/// A value with the time, in Unix milliseconds, that it held at.
#[derive(Clone, Debug, Default)]
pub struct TimestampedValue<T> {
    pub value: T,
    pub timestamp: i64,
}

impl<T> TimestampedValue<T> {
    pub fn new(value: T, timestamp: i64) -> (r: Self)
        ensures
            r.value == value,
            r.timestamp == timestamp,
    {
        TimestampedValue { value, timestamp }
    }
}

impl TimestampedValue<MarketSide<BigDecimal>> {
    /// The long side, with the same timestamp.
    pub fn long(&self) -> (r: TimestampedBigDecimal)
        ensures
            r.value == self.value.long,
            r.timestamp == self.timestamp,
    {
        TimestampedValue::new(self.value.long.clone(), self.timestamp)
    }

    /// The short side, with the same timestamp.
    pub fn short(&self) -> (r: TimestampedBigDecimal)
        ensures
            r.value == self.value.short,
            r.timestamp == self.timestamp,
    {
        TimestampedValue::new(self.value.short.clone(), self.timestamp)
    }
}

} // verus!
