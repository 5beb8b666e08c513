//! Plain-value forms of the venue's primitive types, and the decimal type
//! that amounts and prices are carried in.

use vstd::prelude::*;
use vstd::arithmetic::power::pow;

verus! {

/// Arbitrary-precision decimals; the library only carries them.
#[verifier::external_type_specification]
#[verifier::external_body]
pub struct ExBigDecimal(bigdecimal::BigDecimal);

/// Relies on BigDecimal's derived Clone, which copies the digits and the
/// scale: the copy is the same number.
pub assume_specification[ <bigdecimal::BigDecimal as Clone>::clone ](b: &bigdecimal::BigDecimal) -> (r: bigdecimal::BigDecimal)
    ensures
        r == *b,
;

/// A 20-byte account address.
pub type Address = [u8; 20];

/// A 256-bit unsigned integer or hash, as 32 big-endian bytes.
pub type Word = [u8; 32];

/// A UUID, as its 128-bit value.
pub type Uuid = u128;

/// A recoverable signature: `r`, `s` (32 big-endian bytes each) and `v`.
pub type Signature = [u8; 65];

/// The value of big-endian bytes.
pub open spec fn be_value(b: Seq<u8>) -> nat
    decreases b.len(),
{
    if b.len() == 0 {
        0
    } else {
        be_value(b.drop_last()) * 256 + b.last() as nat
    }
}

/// The 32-byte big-endian word of `n`, for `n < 2^256`.
pub open spec fn word_of(n: nat) -> Seq<u8> {
    be_bytes(n, 32)
}

/// The last `k` bytes of the big-endian form of `n`.
pub open spec fn be_bytes(n: nat, k: nat) -> Seq<u8>
    decreases k,
{
    if k == 0 {
        Seq::empty()
    } else {
        be_bytes(n / 256, (k - 1) as nat).push((n % 256) as u8)
    }
}

pub proof fn lemma_be_bytes_len(n: nat, k: nat)
    ensures
        be_bytes(n, k).len() == k,
    decreases k,
{
    if k > 0 {
        lemma_be_bytes_len(n / 256, (k - 1) as nat);
    }
}

/// Below `256^k`, the last `k` big-endian bytes tell numbers apart.
pub proof fn lemma_be_bytes_injective(a: nat, b: nat, k: nat)
    requires
        a < vstd::arithmetic::power::pow(256, k),
        b < vstd::arithmetic::power::pow(256, k),
        be_bytes(a, k) == be_bytes(b, k),
    ensures
        a == b,
    decreases k,
{
    if k == 0 {
        vstd::arithmetic::power::lemma_pow0(256);
    } else {
        let (pa, pb) = (be_bytes(a / 256, (k - 1) as nat), be_bytes(b / 256, (k - 1) as nat));
        assert(be_bytes(a, k).last() == (a % 256) as u8);
        assert(be_bytes(b, k).last() == (b % 256) as u8);
        assert(be_bytes(a, k).drop_last() == pa);
        assert(be_bytes(b, k).drop_last() == pb);
        vstd::arithmetic::power::lemma_pow_adds(256, 1, (k - 1) as nat);
        vstd::arithmetic::power::lemma_pow1(256);
        let p = vstd::arithmetic::power::pow(256, (k - 1) as nat);
        vstd::arithmetic::div_mod::lemma_multiply_divide_lt(a as int, 256, p as int);
        vstd::arithmetic::div_mod::lemma_multiply_divide_lt(b as int, 256, p as int);
        lemma_be_bytes_injective(a / 256, b / 256, (k - 1) as nat);
        vstd::arithmetic::div_mod::lemma_fundamental_div_mod(a as int, 256);
        vstd::arithmetic::div_mod::lemma_fundamental_div_mod(b as int, 256);
    }
}

/// Big-endian values of concatenated bytes.
pub proof fn lemma_be_value_append(a: Seq<u8>, b: Seq<u8>)
    ensures
        be_value(a + b) == be_value(a) * pow(256, b.len()) + be_value(b),
    decreases b.len(),
{
    if b.len() == 0 {
        assert(a + b =~= a);
        vstd::arithmetic::power::lemma_pow0(256);
    } else {
        let b1 = b.drop_last();
        assert((a + b).drop_last() =~= a + b1);
        assert((a + b).last() == b.last());
        lemma_be_value_append(a, b1);
        vstd::arithmetic::power::lemma_pow_adds(256, 1, b1.len());
        vstd::arithmetic::power::lemma_pow1(256);
        let (va, vb1, p) = (be_value(a) as int, be_value(b1) as int, pow(256, b1.len()));
        assert((va * p + vb1) * 256 + b.last() as int == va * (256 * p) + (vb1 * 256 + b.last() as int))
            by (nonlinear_arith);
        assert(256 * p == pow(256, b.len()));
    }
}

/// Big-endian bytes stay below `256^len`.
pub proof fn lemma_be_value_bound(b: Seq<u8>)
    ensures
        be_value(b) < pow(256, b.len()),
    decreases b.len(),
{
    if b.len() == 0 {
        vstd::arithmetic::power::lemma_pow0(256);
    } else {
        let b1 = b.drop_last();
        lemma_be_value_bound(b1);
        vstd::arithmetic::power::lemma_pow_adds(256, 1, b1.len());
        vstd::arithmetic::power::lemma_pow1(256);
        let (v, p) = (be_value(b1) as int, pow(256, b1.len()));
        assert(v * 256 + 255 < 256 * p) by (nonlinear_arith)
            requires
                v < p,
        ;
    }
}

/// Where two big-endian numbers of the same length first differ decides
/// which is smaller.
proof fn lemma_first_difference(a: Seq<u8>, b: Seq<u8>, i: int)
    requires
        a.len() == b.len(),
        0 <= i < a.len(),
        a.subrange(0, i) == b.subrange(0, i),
        a[i] < b[i],
    ensures
        be_value(a) < be_value(b),
{
    let n = a.len() as int;
    let p = a.subrange(0, i);
    let (ra, rb) = (a.subrange(i + 1, n), b.subrange(i + 1, n));
    let (ha, hb) = (p.push(a[i]), p.push(b[i]));
    assert(a =~= ha + ra);
    assert(b =~= hb + rb);
    lemma_be_value_append(ha, ra);
    lemma_be_value_append(hb, rb);
    assert(ha.drop_last() =~= p);
    assert(hb.drop_last() =~= p);
    lemma_be_value_bound(ra);
    let m = pow(256, ra.len());
    let x = be_value(p) as int * 256;
    let (ai, bi) = (a[i] as int, b[i] as int);
    let (va, vb) = (be_value(ra) as int, be_value(rb) as int);
    assert((x + ai + 1) * m <= (x + bi) * m) by (nonlinear_arith)
        requires
            0 <= va < m,
            ai + 1 <= bi,
    ;
    assert((x + ai + 1) * m == (x + ai) * m + m) by (nonlinear_arith);
    assert((x + ai) * m + va < (x + bi) * m + vb);
}

/// Compares two 256-bit numbers given as big-endian words.
pub fn word_lt(a: &Word, b: &Word) -> (r: bool)
    ensures
        r == (be_value(a@) < be_value(b@)),
{
    let mut i: usize = 0;
    while i < 32
        invariant
            i <= 32,
            a@.subrange(0, i as int) == b@.subrange(0, i as int),
        decreases 32 - i,
    {
        if a[i] != b[i] {
            proof {
                if a@[i as int] < b@[i as int] {
                    lemma_first_difference(a@, b@, i as int);
                } else {
                    lemma_first_difference(b@, a@, i as int);
                }
            }
            return a[i] < b[i];
        }
        assert(a@.subrange(0, i as int + 1) =~= a@.subrange(0, i as int).push(a@[i as int]));
        assert(b@.subrange(0, i as int + 1) =~= b@.subrange(0, i as int).push(b@[i as int]));
        i = i + 1;
    }
    assert(a@ =~= a@.subrange(0, 32));
    assert(b@ =~= b@.subrange(0, 32));
    false
}

} // verus!
