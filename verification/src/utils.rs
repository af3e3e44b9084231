//! Arithmetic on identifiers held as byte strings.

use crate::bignum::{
    be_value, biguint_le_add_be, biguint_le_sub_be, le_add_be, le_sub_be, le_value, lemma_be_bytes_value,
};
use vstd::prelude::*;

verus! {

/// Adds the number that `rhs` denotes to the one that `lhs` denotes, both
/// read little-endian, and stores the sum in `lhs` written big-endian (its
/// shortest form).
pub fn bytes_add(lhs: &mut Vec<u8>, rhs: &Vec<u8>)
    ensures
        final(lhs)@ == le_add_be(old(lhs)@, rhs@),
{
    let r = biguint_le_add_be(lhs.as_slice(), rhs.as_slice());
    *lhs = r;
}

/// Subtracts the number that `rhs` denotes from the one that `lhs`
/// denotes, both read little-endian, and stores the difference in `lhs`
/// written big-endian (its shortest form). The difference must not be
/// negative.
pub fn bytes_minus(lhs: &mut Vec<u8>, rhs: &Vec<u8>)
    requires
        le_value(old(lhs)@) >= le_value(rhs@),
    ensures
        final(lhs)@ == le_sub_be(old(lhs)@, rhs@),
{
    let r = biguint_le_sub_be(lhs.as_slice(), rhs.as_slice());
    *lhs = r;
}

/// What `bytes_add` stores, read big-endian, is the sum of the two
/// numbers read little-endian; what `bytes_minus` stores is their difference.
pub proof fn lemma_bytes_arith_value(a: Seq<u8>, b: Seq<u8>)
    ensures
        be_value(le_add_be(a, b)) == le_value(a) + le_value(b),
        le_value(a) >= le_value(b) ==> be_value(le_sub_be(a, b)) == le_value(a) - le_value(b),
{
    lemma_be_bytes_value(le_value(a) + le_value(b));
    if le_value(a) >= le_value(b) {
        lemma_be_bytes_value((le_value(a) - le_value(b)) as nat);
    }
}

} // verus!
