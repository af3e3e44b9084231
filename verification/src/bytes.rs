//! Moving bytes between fixed-size arrays and vectors.

use vstd::prelude::*;

verus! {

/// The bytes of an array, as a vector.
pub fn array_to_vec<const N: usize>(a: &[u8; N]) -> (r: Vec<u8>)
    ensures
        r@ == a@,
{
    let mut r: Vec<u8> = Vec::with_capacity(N);
    let mut i: usize = 0;
    while i < N
        invariant
            i <= N,
            a@.len() == N,
            r@ == a@.subrange(0, i as int),
        decreases N - i,
    {
        r.push(a[i]);
        assert(a@.subrange(0, i + 1) =~= a@.subrange(0, i as int).push(a@[i as int]));
        i = i + 1;
    }
    assert(a@.subrange(0, N as int) =~= a@);
    r
}

/// The bytes of a slice of length `N`, as an array.
pub fn slice_to_array<const N: usize>(s: &[u8]) -> (r: [u8; N])
    requires
        s@.len() == N,
    ensures
        r@ == s@,
{
    let mut r: [u8; N] = vstd::array::array_fill_for_copy_types::<u8, N>(0u8);
    let mut i: usize = 0;
    while i < N
        invariant
            i <= N,
            s@.len() == N,
            r@.len() == N,
            forall|j: int| 0 <= j < i ==> r@[j] == s@[j],
        decreases N - i,
    {
        r[i] = s[i];
        i = i + 1;
    }
    assert(r@ =~= s@);
    r
}

} // verus!
