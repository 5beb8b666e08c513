//! Byte and string helpers shared by the parsers and the data model.

use vstd::prelude::*;
use vstd::string::StringSliceAdditionalSpecFns;

verus! {

/// Compares two byte sequences element by element.
pub fn bytes_eq(a: &[u8], b: &[u8]) -> (r: bool)
    ensures
        r == (a@ == b@),
{
    if a.len() != b.len() {
        return false;
    }
    let mut i: usize = 0;
    while i < a.len()
        invariant
            a@.len() == b@.len(),
            i <= a@.len(),
            a@.subrange(0, i as int) == b@.subrange(0, i as int),
        decreases a@.len() - i,
    {
        if a[i] != b[i] {
            assert(a@.subrange(0, i as int + 1).last() != b@.subrange(0, i as int + 1).last());
            return false;
        }
        assert(a@.subrange(0, i as int + 1) =~= a@.subrange(0, i as int).push(a@[i as int]));
        assert(b@.subrange(0, i as int + 1) =~= b@.subrange(0, i as int).push(b@[i as int]));
        i = i + 1;
    }
    assert(a@ =~= a@.subrange(0, i as int));
    assert(b@ =~= b@.subrange(0, i as int));
    true
}

/// Compares two strings by their characters.
pub fn str_eq(a: &str, b: &str) -> (r: bool)
    ensures
        r == (a@ == b@),
{
    proof {
        vstd::utf8::encode_utf8_decode_utf8(a@);
        vstd::utf8::encode_utf8_decode_utf8(b@);
    }
    bytes_eq(a.as_bytes(), b.as_bytes())
}

} // verus!

verus! {

/// `n` is where the text stored in a zero-padded field ends: no zero byte
/// comes before it, and it is the end of the field or a zero byte.
pub open spec fn text_end(a: Seq<u8>, n: int) -> bool {
    &&& 0 <= n <= a.len()
    &&& forall|j: int| 0 <= j < n ==> a[j] != 0
    &&& (n == a.len() || a[n] == 0)
}

pub proof fn lemma_text_end_exists(a: Seq<u8>)
    ensures
        exists|n: int| text_end(a, n),
    decreases a.len(),
{
    if a.len() == 0 {
        assert(text_end(a, 0));
    } else if a[0] == 0 {
        assert(text_end(a, 0));
    } else {
        lemma_text_end_exists(a.drop_first());
        let m = choose|m: int| text_end(a.drop_first(), m);
        assert forall|j: int| 0 <= j < m + 1 implies a[j] != 0 by {
            if j > 0 {
                assert(a[j] == a.drop_first()[j - 1]);
            }
        }
        if m + 1 < a.len() {
            assert(a[m + 1] == a.drop_first()[m]);
        }
        assert(text_end(a, m + 1));
    }
}

pub proof fn lemma_text_end_unique(a: Seq<u8>, n: int, m: int)
    requires
        text_end(a, n),
        text_end(a, m),
    ensures
        n == m,
{
    if n < m {
        assert(a[n] != 0);
    } else if m < n {
        assert(a[m] != 0);
    }
}

/// The bytes of a zero-padded text field, up to its first zero byte.
pub open spec fn padded_text(a: Seq<u8>) -> Seq<u8> {
    a.subrange(0, choose|n: int| text_end(a, n))
}

/// `b` followed by zero bytes up to `width` bytes.
pub open spec fn zero_padded(b: Seq<u8>, width: nat) -> Seq<u8> {
    b + Seq::new((width - b.len()) as nat, |i: int| 0u8)
}

/// Finds where the text of a zero-padded field ends.
pub fn text_len(a: &[u8]) -> (r: usize)
    ensures
        text_end(a@, r as int),
        a@.subrange(0, r as int) == padded_text(a@),
{
    let mut i: usize = 0;
    while i < a.len() && a[i] != 0
        invariant
            i <= a@.len(),
            forall|j: int| 0 <= j < i ==> a@[j] != 0,
        decreases a@.len() - i,
    {
        i = i + 1;
    }
    proof {
        lemma_text_end_exists(a@);
        let n = choose|n: int| text_end(a@, n);
        lemma_text_end_unique(a@, i as int, n);
    }
    i
}

/// The text of a zero-padded field is valid UTF-8 when the field was made
/// by padding valid UTF-8.
pub proof fn lemma_padded_text_valid(b: Seq<u8>, width: nat)
    requires
        vstd::utf8::valid_utf8(b),
        b.len() <= width,
    ensures
        vstd::utf8::valid_utf8(padded_text(zero_padded(b, width))),
{
    let a = zero_padded(b, width);
    lemma_text_end_exists(a);
    let n = choose|n: int| text_end(a, n);
    if n < b.len() {
        assert(a[n] == b[n]);
        vstd::utf8::is_char_boundary_iff_not_is_continuation_byte(b, n);
        vstd::utf8::valid_utf8_split(b, n);
        assert(a.subrange(0, n) =~= b.subrange(0, n));
    } else {
        if n > b.len() {
            assert(a[b.len() as int] == 0);
        }
        assert(a.subrange(0, n) =~= b);
    }
}

/// The text of a zero-padded field is the padded bytes themselves when they
/// hold no zero byte.
pub proof fn lemma_padded_text_of_zero_free(b: Seq<u8>, width: nat)
    requires
        b.len() <= width,
        forall|j: int| 0 <= j < b.len() ==> b[j] != 0,
    ensures
        padded_text(zero_padded(b, width)) == b,
{
    let a = zero_padded(b, width);
    assert(text_end(a, b.len() as int));
    lemma_text_end_exists(a);
    let n = choose|n: int| text_end(a, n);
    lemma_text_end_unique(a, n, b.len() as int);
    assert(a.subrange(0, n) =~= b);
}

/// Relies on std::str::from_utf8: it accepts exactly the valid UTF-8 byte
/// sequences, and the string it returns is made of those bytes.
#[verifier::external_body]
fn utf8_str(v: &[u8]) -> (r: Option<&str>)
    ensures
        r is Some <==> vstd::utf8::valid_utf8(v@),
        r matches Some(s) ==> s.spec_bytes() == v@,
{
    std::str::from_utf8(v).ok()
}

/// Decodes valid UTF-8 bytes into a string.
pub fn string_from_utf8(v: &[u8]) -> (r: String)
    requires
        vstd::utf8::valid_utf8(v@),
    ensures
        r@ == vstd::utf8::decode_utf8(v@),
{
    let s = utf8_str(v).unwrap();
    proof {
        vstd::utf8::encode_utf8_decode_utf8(s@);
    }
    s.to_owned()
}

} // verus!
