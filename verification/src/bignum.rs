//! Unsigned integers written as byte strings, and the big-integer arithmetic
//! that the protocol performs on them through `num_bigint`.

use num_bigint::BigUint;
use vstd::prelude::*;

verus! {

/// The number that a little-endian byte string denotes (the empty string is 0).
pub open spec fn le_value(s: Seq<u8>) -> nat
    decreases s.len(),
{
    if s.len() == 0 {
        0
    } else {
        s[0] as nat + 256 * le_value(s.drop_first())
    }
}

/// The number that a big-endian byte string denotes.
pub open spec fn be_value(s: Seq<u8>) -> nat {
    le_value(s.reverse())
}

/// The little-endian digits of `n` in base 256, with no trailing zero digit.
pub open spec fn le_digits(n: nat) -> Seq<u8>
    decreases n,
{
    if n == 0 {
        seq![]
    } else {
        seq![(n % 256) as u8] + le_digits(n / 256)
    }
}

/// The shortest little-endian byte string of `n`; zero is written as one zero byte.
pub open spec fn le_bytes_of(n: nat) -> Seq<u8> {
    if n == 0 {
        seq![0u8]
    } else {
        le_digits(n)
    }
}

/// The shortest big-endian byte string of `n`; zero is written as one zero byte.
pub open spec fn be_bytes_of(n: nat) -> Seq<u8> {
    le_bytes_of(n).reverse()
}

/// `256` to the power `k`.
pub open spec fn pow256(k: nat) -> nat
    decreases k,
{
    if k == 0 {
        1
    } else {
        256 * pow256((k - 1) as nat)
    }
}

/// Reading back the digits of `n` gives `n`.
pub proof fn lemma_le_digits_value(n: nat)
    ensures
        le_value(le_digits(n)) == n,
    decreases n,
{
    if n > 0 {
        lemma_le_digits_value(n / 256);
        let d = le_digits(n);
        assert(d.drop_first() =~= le_digits(n / 256));
    }
}

/// Reading back the shortest little-endian string of `n` gives `n`.
pub proof fn lemma_le_bytes_value(n: nat)
    ensures
        le_value(le_bytes_of(n)) == n,
{
    lemma_le_digits_value(n);
    if n == 0 {
        assert(le_bytes_of(0).drop_first() =~= Seq::<u8>::empty());
    }
}

/// Reading back the shortest big-endian string of `n` gives `n`.
pub proof fn lemma_be_bytes_value(n: nat)
    ensures
        be_value(be_bytes_of(n)) == n,
{
    lemma_le_bytes_value(n);
    assert(be_bytes_of(n).reverse() =~= le_bytes_of(n));
}

/// A little-endian string of `k` bytes denotes less than `256^k`.
pub proof fn lemma_le_value_bound(s: Seq<u8>)
    ensures
        le_value(s) < pow256(s.len()),
    decreases s.len(),
{
    if s.len() > 0 {
        lemma_le_value_bound(s.drop_first());
    }
}

/// The digits of a number below `256^k` are at most `k` bytes long.
pub proof fn lemma_le_digits_len(n: nat, k: nat)
    requires
        n < pow256(k),
    ensures
        le_digits(n).len() <= k,
    decreases n,
{
    if n > 0 {
        assert(k > 0);
        assert(n / 256 < pow256((k - 1) as nat));
        lemma_le_digits_len(n / 256, (k - 1) as nat);
    }
}

/// `pow256` grows with its exponent.
pub proof fn lemma_pow256_mono(a: nat, b: nat)
    requires
        a <= b,
    ensures
        pow256(a) <= pow256(b),
    decreases b,
{
    if a < b {
        lemma_pow256_mono(a, (b - 1) as nat);
    }
}

/// The shortest string of a sum of two numbers written in at most `k`
/// bytes each is at most `k + 1` bytes long.
pub proof fn lemma_sum_bytes_len(x: Seq<u8>, y: Seq<u8>, k: nat)
    requires
        x.len() <= k,
        y.len() <= k,
    ensures
        le_bytes_of(le_value(x) + le_value(y)).len() <= k + 1,
        be_bytes_of(le_value(x) + le_value(y)).len() <= k + 1,
{
    lemma_le_value_bound(x);
    lemma_le_value_bound(y);
    lemma_pow256_mono(x.len(), k);
    lemma_pow256_mono(y.len(), k);
    lemma_le_digits_len(le_value(x) + le_value(y), k + 1);
}

/// The sum of the numbers that `a` and `b` denote, little-endian, written
/// as its shortest big-endian string.
pub open spec fn le_add_be(a: Seq<u8>, b: Seq<u8>) -> Seq<u8> {
    be_bytes_of(le_value(a) + le_value(b))
}

/// The difference of the numbers that `a` and `b` denote, little-endian,
/// written as its shortest big-endian string (meant for `le_value(a) >= le_value(b)`).
pub open spec fn le_sub_be(a: Seq<u8>, b: Seq<u8>) -> Seq<u8> {
    be_bytes_of((le_value(a) - le_value(b)) as nat)
}

/// Adds two little-endian numbers with `num_bigint::BigUint` and writes
/// the sum big-endian: `BigUint::from_bytes_le`, `+` and `to_bytes_be`.
/// Claimed: the result is the shortest big-endian string of the sum, as
/// `to_bytes_be` documents (a single zero byte for zero).
#[verifier::external_body]
pub(crate) fn biguint_le_add_be(a: &[u8], b: &[u8]) -> (r: Vec<u8>)
    ensures
        r@ == le_add_be(a@, b@),
{
    (BigUint::from_bytes_le(a) + BigUint::from_bytes_le(b)).to_bytes_be()
}

/// Subtracts two little-endian numbers with `num_bigint::BigUint`
/// (`from_bytes_le`, `-=`, `to_bytes_be`). `-=` panics when `b` is the
/// larger, which `requires` rules out. Claimed: the result is the shortest
/// big-endian string of the difference.
#[verifier::external_body]
pub(crate) fn biguint_le_sub_be(a: &[u8], b: &[u8]) -> (r: Vec<u8>)
    requires
        le_value(a@) >= le_value(b@),
    ensures
        r@ == le_sub_be(a@, b@),
{
    let mut x = BigUint::from_bytes_le(a);
    x -= BigUint::from_bytes_le(b);
    x.to_bytes_be()
}

/// Adds two little-endian numbers with `num_bigint::BigUint`
/// (`from_bytes_le`, `+`, `to_bytes_le`). Claimed: the result is the
/// shortest little-endian string of the sum.
#[verifier::external_body]
pub(crate) fn biguint_le_add_le(a: &[u8], b: &[u8]) -> (r: Vec<u8>)
    ensures
        r@ == le_bytes_of(le_value(a@) + le_value(b@)),
{
    (BigUint::from_bytes_le(a) + BigUint::from_bytes_le(b)).to_bytes_le()
}

/// Subtracts two little-endian numbers with `num_bigint::BigUint`
/// (`from_bytes_le`, `-`, `to_bytes_le`); panics when `b` is the larger,
/// which `requires` rules out. Claimed: the result is the shortest
/// little-endian string of the difference.
#[verifier::external_body]
pub(crate) fn biguint_le_sub_le(a: &[u8], b: &[u8]) -> (r: Vec<u8>)
    requires
        le_value(a@) >= le_value(b@),
    ensures
        r@ == le_bytes_of((le_value(a@) - le_value(b@)) as nat),
{
    (BigUint::from_bytes_le(a) - BigUint::from_bytes_le(b)).to_bytes_le()
}

/// Compares two little-endian numbers with `num_bigint::BigUint`
/// (`from_bytes_le` and `>=`). Claimed: the result says whether the first
/// number is at least the second.
#[verifier::external_body]
pub(crate) fn biguint_le_ge(a: &[u8], b: &[u8]) -> (r: bool)
    ensures
        r == (le_value(a@) >= le_value(b@)),
{
    BigUint::from_bytes_le(a) >= BigUint::from_bytes_le(b)
}

} // verus!
