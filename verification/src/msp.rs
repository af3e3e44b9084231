//! The message service providers' side of the identifier shuffle.

use crate::bignum::{be_value, le_add_be, le_sub_be, le_value};
use crate::crypto::{aes128gcm_encrypt, max_plaintext_len, sym_enc, sym_enc_spec, SymK};
use crate::utils::{bytes_add, bytes_minus, lemma_bytes_arith_value};
use vstd::prelude::*;

verus! {

/// The byte strings that a vector of byte vectors holds.
pub open spec fn rows(v: Seq<Vec<u8>>) -> Seq<Seq<u8>> {
    v.map_values(|x: Vec<u8>| x@)
}

/// Copies a byte vector.
pub fn copy_bytes(v: &Vec<u8>) -> (r: Vec<u8>)
    ensures
        r@ == v@,
{
    let mut r: Vec<u8> = Vec::with_capacity(v.len());
    let mut i: usize = 0;
    while i < v.len()
        invariant
            i <= v@.len(),
            r@ == v@.subrange(0, i as int),
        decreases v@.len() - i,
    {
        r.push(v[i]);
        assert(v@.subrange(0, i + 1) =~= v@.subrange(0, i as int).push(v@[i as int]));
        i = i + 1;
    }
    assert(v@.subrange(0, v@.len() as int) =~= v@);
    r
}

/// Copies a vector of byte vectors.
pub fn copy_rows(v: &Vec<Vec<u8>>) -> (r: Vec<Vec<u8>>)
    ensures
        rows(r@) == rows(v@),
        r@.len() == v@.len(),
        forall|j: int| 0 <= j < v@.len() ==> #[trigger] r@[j]@ == v@[j]@,
{
    let mut r: Vec<Vec<u8>> = Vec::with_capacity(v.len());
    let mut i: usize = 0;
    while i < v.len()
        invariant
            i <= v@.len(),
            r@.len() == i,
            forall|j: int| 0 <= j < i ==> #[trigger] r@[j]@ == v@[j]@,
        decreases v@.len() - i,
    {
        let row = copy_bytes(&v[i]);
        r.push(row);
        i = i + 1;
    }
    assert(rows(r@) =~= rows(v@));
    r
}

/// The vectors that the exchange server hands a message service provider
/// for the shuffle: `a1` for the first party; `a2`, `a3` and `delta` for
/// the second.
#[derive(Clone, Debug)]
pub enum EemsVec {
    OneVec(Vec<Vec<u8>>),
    ThreeVec(Vec<Vec<u8>>, Vec<Vec<u8>>, Vec<Vec<u8>>),
}

/// A keyed permutation of items.
pub trait Perm: Clone {
    /// What `perm` makes of `item`.
    spec fn perm_spec(&self, item: Seq<u8>) -> Seq<u8>;

    /// Whether `perm` accepts `item`.
    spec fn perm_accepts(&self, item: Seq<u8>) -> bool;

    /// Replaces `item` by its image.
    fn perm(&self, item: &mut Vec<u8>)
        requires
            self.perm_accepts(old(item)@),
        ensures
            final(item)@ == self.perm_spec(old(item)@),
    ;
}

/// The permutation that encrypts an item under a symmetric key.
#[derive(Clone, Debug)]
pub struct SymEncPerm {
    pub key: SymK,
}

impl SymEncPerm {
    /// The permutation keyed by `key`.
    pub fn new(key: SymK) -> (r: Self)
        ensures
            r.key == key,
    {
        Self { key }
    }
}

impl Perm for SymEncPerm {
    open spec fn perm_spec(&self, item: Seq<u8>) -> Seq<u8> {
        sym_enc_spec(self.key@, item)
    }

    open spec fn perm_accepts(&self, item: Seq<u8>) -> bool {
        item.len() <= max_plaintext_len()
    }

    fn perm(&self, item: &mut Vec<u8>)
        ensures
            final(item)@ == sym_enc_spec(self.key@, old(item)@),
            final(item)@.len() == old(item)@.len() + 16,
    {
        let ct = sym_enc(&self.key, item.as_slice());
        *item = ct;
    }
}

/// The share that the first party computes: its share plus the other
/// party's masked share, permuted, less the mask `a1`.
pub open spec fn one_vec_share<P: Perm>(
    p: P,
    share: Seq<Seq<u8>>,
    z2: Seq<Seq<u8>>,
    a1: Seq<Seq<u8>>,
) -> Seq<Seq<u8>> {
    Seq::new(share.len(), |i: int| le_sub_be(p.perm_spec(le_add_be(share[i], z2[i])), a1[i]))
}

/// The share that the second party computes from the first party's share
/// `z1`: permuted, plus `delta`, plus `a2`.
pub open spec fn three_vec_final_share<P: Perm>(
    p: P,
    z1: Seq<Seq<u8>>,
    a2: Seq<Seq<u8>>,
    delta: Seq<Seq<u8>>,
) -> Seq<Seq<u8>> {
    Seq::new(z1.len(), |i: int| le_add_be(le_add_be(p.perm_spec(z1[i]), delta[i]), a2[i]))
}

/// The masked share that the second party first sends: its share less `a3`.
pub open spec fn three_vec_masked_share(share: Seq<Seq<u8>>, a3: Seq<Seq<u8>>) -> Seq<Seq<u8>> {
    Seq::new(share.len(), |i: int| le_sub_be(share[i], a3[i]))
}

/// A message service provider's state in the identifier shuffle.
#[derive(Clone)]
pub struct MspIdShuffle<P: Perm> {
    share: Vec<Vec<u8>>,
    msp_perm: P,
    eems_perm: P,
    eems_vec: EemsVec,
}

impl<P: Perm> MspIdShuffle<P> {
    /// The provider's current share of the identifiers.
    pub closed spec fn share_view(&self) -> Seq<Seq<u8>> {
        rows(self.share@)
    }

    /// The permutation shared by the providers.
    pub closed spec fn msp_perm_view(&self) -> P {
        self.msp_perm
    }

    /// The permutation shared with the exchange server.
    pub closed spec fn eems_perm_view(&self) -> P {
        self.eems_perm
    }

    /// The vectors the exchange server handed out.
    pub closed spec fn eems_vec_view(&self) -> EemsVec {
        self.eems_vec
    }

    /// Whether `gen_shared_share` accepts `z`: it is there where the first
    /// party needs it, the vectors it reads are long enough, every
    /// permutation accepts its item and no difference is negative.
    pub open spec fn gen_shared_share_ok(&self, z: Option<Seq<Seq<u8>>>) -> bool {
        let share = self.share_view();
        let p = self.eems_perm_view();
        match self.eems_vec_view() {
            EemsVec::OneVec(a1) => {
                &&& z is Some
                &&& z.unwrap().len() >= share.len()
                &&& a1@.len() >= share.len()
                &&& forall|i: int|
                    0 <= i < share.len() ==> {
                        let x = #[trigger] le_add_be(share[i], z.unwrap()[i]);
                        &&& p.perm_accepts(x)
                        &&& le_value(p.perm_spec(x)) >= le_value(a1@[i]@)
                    }
            },
            EemsVec::ThreeVec(a2, a3, delta) => match z {
                Some(z1) => {
                    &&& delta@.len() >= z1.len()
                    &&& a2@.len() >= z1.len()
                    &&& forall|i: int| 0 <= i < z1.len() ==> p.perm_accepts(#[trigger] z1[i])
                },
                None => {
                    &&& a3@.len() >= share.len()
                    &&& forall|i: int|
                        0 <= i < share.len() ==> le_value(#[trigger] share[i]) >= le_value(a3@[i]@)
                },
            },
        }
    }

    /// What `gen_shared_share` gives for `z`.
    pub open spec fn gen_shared_share_spec(&self, z: Option<Seq<Seq<u8>>>) -> Seq<Seq<u8>> {
        let share = self.share_view();
        let p = self.eems_perm_view();
        match self.eems_vec_view() {
            EemsVec::OneVec(a1) => one_vec_share(p, share, z.unwrap(), rows(a1@)),
            EemsVec::ThreeVec(a2, a3, delta) => match z {
                Some(z1) => three_vec_final_share(p, z1, rows(a2@), rows(delta@)),
                None => three_vec_masked_share(share, rows(a3@)),
            },
        }
    }

    /// A provider's state from its share, the two permutations and the
    /// vectors from the exchange server.
    pub fn new(share: Vec<Vec<u8>>, msp_perm: P, eems_perm: P, eems_vec: EemsVec) -> (r: Self)
        ensures
            r.share_view() == rows(share@),
            r.msp_perm_view() == msp_perm,
            r.eems_perm_view() == eems_perm,
            r.eems_vec_view() == eems_vec,
    {
        Self { share, msp_perm, eems_perm, eems_vec }
    }

    /// Applies the providers' shared permutation to every item of the share.
    pub fn run_msp_perm(&mut self)
        requires
            forall|i: int|
                0 <= i < old(self).share_view().len() ==> old(self).msp_perm_view().perm_accepts(
                    #[trigger] old(self).share_view()[i],
                ),
        ensures
            final(self).share_view() == old(self).share_view().map_values(
                |x: Seq<u8>| old(self).msp_perm_view().perm_spec(x),
            ),
            final(self).msp_perm_view() == old(self).msp_perm_view(),
            final(self).eems_perm_view() == old(self).eems_perm_view(),
            final(self).eems_vec_view() == old(self).eems_vec_view(),
    {
        let ghost start = rows(self.share@);
        let n = self.share.len();
        assert forall|j: int| 0 <= j < n implies self.msp_perm.perm_accepts(#[trigger] start[j]) by {
            assert(start[j] == old(self).share_view()[j]);
        }
        let mut i: usize = 0;
        while i < n
            invariant
                n == self.share@.len(),
                start.len() == n,
                i <= n,
                self.msp_perm == old(self).msp_perm,
                self.eems_perm == old(self).eems_perm,
                self.eems_vec == old(self).eems_vec,
                start == rows(old(self).share@),
                forall|j: int| 0 <= j < i ==> #[trigger] self.share@[j]@ == self.msp_perm.perm_spec(start[j]),
                forall|j: int| i <= j < n ==> #[trigger] self.share@[j]@ == start[j],
                forall|j: int| 0 <= j < n ==> self.msp_perm.perm_accepts(#[trigger] start[j]),
            decreases n - i,
        {
            assert(self.msp_perm.perm_accepts(start[i as int]));
            self.msp_perm.perm(&mut self.share[i]);
            i = i + 1;
        }
        assert(rows(self.share@) =~= start.map_values(|x: Seq<u8>| self.msp_perm.perm_spec(x)));
    }

    /// Computes this provider's next share in the shuffle.
    ///
    /// - The first party (holding `a1`) takes the other party's masked
    ///   share `z`, adds it to its share item by item, permutes each item
    ///   with the exchange server's permutation and subtracts `a1`.
    /// - The second party (holding `a2`, `a3`, `delta`) without `z` masks
    ///   its share by subtracting `a3`; with the first party's share `z` it
    ///   permutes each item of `z` and adds `delta` and `a2`.
    pub fn gen_shared_share(&self, z: Option<&Vec<Vec<u8>>>) -> (r: Vec<Vec<u8>>)
        requires
            self.gen_shared_share_ok(
                match z {
                    Some(v) => Some(rows(v@)),
                    None => None,
                },
            ),
        ensures
            rows(r@) == self.gen_shared_share_spec(
                match z {
                    Some(v) => Some(rows(v@)),
                    None => None,
                },
            ),
            self.eems_vec_view() matches EemsVec::OneVec(a1) ==> {
                &&& r@.len() == self.share_view().len()
                &&& forall|i: int|
                    0 <= i < r@.len() ==> be_value(#[trigger] r@[i]@) + le_value(a1@[i]@) == le_value(
                        self.eems_perm_view().perm_spec(le_add_be(self.share_view()[i], z.unwrap()@[i]@)),
                    )
            },
            z is None ==> (self.eems_vec_view() matches EemsVec::ThreeVec(a2, a3, delta) ==> {
                &&& r@.len() == self.share_view().len()
                &&& forall|i: int|
                    0 <= i < r@.len() ==> be_value(#[trigger] r@[i]@) + le_value(a3@[i]@) == le_value(
                        self.share_view()[i],
                    )
            }),
            z is Some ==> (self.eems_vec_view() matches EemsVec::ThreeVec(a2, a3, delta) ==> {
                &&& r@.len() == z.unwrap()@.len()
                &&& forall|i: int|
                    0 <= i < r@.len() ==> #[trigger] r@[i]@ == le_add_be(
                        le_add_be(self.eems_perm_view().perm_spec(z.unwrap()@[i]@), delta@[i]@),
                        a2@[i]@,
                    )
            }),
    {
        let ghost share = rows(self.share@);
        let p = &self.eems_perm;
        match &self.eems_vec {
            EemsVec::OneVec(a1) => {
                let z2 = z.unwrap();
                let ghost zs = rows(z2@);
                let mut result = copy_rows(&self.share);
                let n = result.len();
                let mut i: usize = 0;
                while i < n
                    invariant
                        n == share.len(),
                        n == result@.len(),
                        i <= n,
                        zs.len() >= n,
                        a1@.len() >= n,
                        zs == rows(z2@),
                        share == rows(self.share@),
                        forall|j: int|
                            0 <= j < n ==> {
                                let x = #[trigger] le_add_be(share[j], zs[j]);
                                &&& p.perm_accepts(x)
                                &&& le_value(p.perm_spec(x)) >= le_value(a1@[j]@)
                            },
                        forall|j: int|
                            0 <= j < i ==> #[trigger] result@[j]@ == le_sub_be(
                                p.perm_spec(le_add_be(share[j], zs[j])),
                                a1@[j]@,
                            ),
                        forall|j: int| i <= j < n ==> #[trigger] result@[j]@ == share[j],
                    decreases n - i,
                {
                    let ghost x = le_add_be(share[i as int], zs[i as int]);
                    assert(p.perm_accepts(x));
                    bytes_add(&mut result[i], &z2[i]);
                    p.perm(&mut result[i]);
                    bytes_minus(&mut result[i], &a1[i]);
                    i = i + 1;
                }
                assert(rows(result@) =~= one_vec_share(*p, share, zs, rows(a1@)));
                assert forall|j: int| 0 <= j < result@.len() implies be_value(#[trigger] result@[j]@) + le_value(
                    a1@[j]@,
                ) == le_value(p.perm_spec(le_add_be(share[j], z2@[j]@))) by {
                    assert(zs[j] == z2@[j]@);
                    lemma_bytes_arith_value(p.perm_spec(le_add_be(share[j], zs[j])), a1@[j]@);
                }
                result
            },
            EemsVec::ThreeVec(a2, a3, delta) => match z {
                Some(z1) => {
                    let ghost zs = rows(z1@);
                    let mut result = copy_rows(z1);
                    let n = result.len();
                    let mut i: usize = 0;
                    while i < n
                        invariant
                            n == zs.len(),
                            n == result@.len(),
                            i <= n,
                            zs == rows(z1@),
                            delta@.len() >= n,
                            a2@.len() >= n,
                            forall|j: int| 0 <= j < n ==> p.perm_accepts(#[trigger] zs[j]),
                            forall|j: int|
                                0 <= j < i ==> #[trigger] result@[j]@ == le_add_be(
                                    le_add_be(p.perm_spec(zs[j]), delta@[j]@),
                                    a2@[j]@,
                                ),
                            forall|j: int| i <= j < n ==> #[trigger] result@[j]@ == zs[j],
                        decreases n - i,
                    {
                        assert(p.perm_accepts(zs[i as int]));
                        p.perm(&mut result[i]);
                        bytes_add(&mut result[i], &delta[i]);
                        bytes_add(&mut result[i], &a2[i]);
                        i = i + 1;
                    }
                    assert(rows(result@) =~= three_vec_final_share(*p, zs, rows(a2@), rows(delta@)));
                    assert forall|j: int| 0 <= j < result@.len() implies #[trigger] result@[j]@ == le_add_be(
                        le_add_be(p.perm_spec(z1@[j]@), delta@[j]@),
                        a2@[j]@,
                    ) by {
                        assert(zs[j] == z1@[j]@);
                    }
                    result
                },
                None => {
                    let mut result = copy_rows(&self.share);
                    let n = result.len();
                    let mut i: usize = 0;
                    while i < n
                        invariant
                            n == share.len(),
                            n == result@.len(),
                            i <= n,
                            share == rows(self.share@),
                            a3@.len() >= n,
                            forall|j: int|
                                0 <= j < n ==> le_value(#[trigger] share[j]) >= le_value(a3@[j]@),
                            forall|j: int|
                                0 <= j < i ==> #[trigger] result@[j]@ == le_sub_be(share[j], a3@[j]@),
                            forall|j: int| i <= j < n ==> #[trigger] result@[j]@ == share[j],
                        decreases n - i,
                    {
                        assert(le_value(share[i as int]) >= le_value(a3@[i as int]@));
                        bytes_minus(&mut result[i], &a3[i]);
                        i = i + 1;
                    }
                    assert(rows(result@) =~= three_vec_masked_share(share, rows(a3@)));
                    assert forall|j: int| 0 <= j < result@.len() implies be_value(#[trigger] result@[j]@)
                        + le_value(a3@[j]@) == le_value(share[j]) by {
                        lemma_bytes_arith_value(share[j], a3@[j]@);
                    }
                    result
                },
            },
        }
    }
}

/// The image of an item under the encryption permutation is its
/// AES-128-GCM encryption under the permutation's key (key bytes 0..16,
/// nonce bytes 16..28).
pub proof fn lemma_sym_enc_perm_image(p: SymEncPerm, item: Seq<u8>)
    ensures
        p.perm_spec(item) == aes128gcm_encrypt(p.key@.subrange(0, 16), p.key@.subrange(16, 28), item),
{
}

/// The second party's final share does not depend on its own share: two
/// providers with the same permutation and vectors from the exchange
/// server give the same final share for the same first-party share `z1`;
/// item `i` is `z1[i]` permuted, plus `delta[i]`, plus `a2[i]`, wherever
/// `gen_shared_share` accepts `z1`.
pub proof fn lemma_final_share_ignores_own_share<P: Perm>(
    s1: MspIdShuffle<P>,
    s2: MspIdShuffle<P>,
    z1: Seq<Seq<u8>>,
)
    requires
        s1.eems_perm_view() == s2.eems_perm_view(),
        s1.eems_vec_view() == s2.eems_vec_view(),
        s1.eems_vec_view() is ThreeVec,
        s1.gen_shared_share_ok(Some(z1)),
    ensures
        s1.gen_shared_share_spec(Some(z1)) == s2.gen_shared_share_spec(Some(z1)),
        s1.gen_shared_share_spec(Some(z1)).len() == z1.len(),
        forall|i: int|
            0 <= i < z1.len() ==> #[trigger] s1.gen_shared_share_spec(Some(z1))[i] == (match s1.eems_vec_view() {
                EemsVec::ThreeVec(a2, _, delta) => le_add_be(
                    le_add_be(s1.eems_perm_view().perm_spec(z1[i]), delta@[i]@),
                    a2@[i]@,
                ),
                EemsVec::OneVec(_) => z1[i],
            }),
{
}

/// The second party's masked share, read big-endian, plus `a3`, read
/// little-endian, is its share: item by item, for every share and `a3` with
/// no negative difference.
pub proof fn lemma_masked_share_value<P: Perm>(s: MspIdShuffle<P>, i: int)
    requires
        s.eems_vec_view() is ThreeVec,
        s.gen_shared_share_ok(None),
        0 <= i < s.share_view().len(),
    ensures
        s.gen_shared_share_spec(None).len() == s.share_view().len(),
        be_value(s.gen_shared_share_spec(None)[i]) + le_value(
            (match s.eems_vec_view() {
                EemsVec::ThreeVec(_, a3, _) => a3@[i]@,
                EemsVec::OneVec(a1) => a1@[i]@,
            }),
        ) == le_value(s.share_view()[i]),
{
    match s.eems_vec_view() {
        EemsVec::ThreeVec(_, a3, _) => {
            assert(le_value(s.share_view()[i]) >= le_value(a3@[i]@));
            lemma_bytes_arith_value(s.share_view()[i], a3@[i]@);
        },
        EemsVec::OneVec(_) => {},
    }
}

/// The first party's share, read big-endian, plus `a1`, read
/// little-endian, is the permuted sum of its share and the second party's
/// masked share `z2`: item by item, wherever `gen_shared_share` accepts `z2`.
pub proof fn lemma_first_party_share_value<P: Perm>(s: MspIdShuffle<P>, z2: Seq<Seq<u8>>, i: int)
    requires
        s.eems_vec_view() is OneVec,
        s.gen_shared_share_ok(Some(z2)),
        0 <= i < s.share_view().len(),
    ensures
        s.gen_shared_share_spec(Some(z2)).len() == s.share_view().len(),
        be_value(s.gen_shared_share_spec(Some(z2))[i]) + le_value(
            (match s.eems_vec_view() {
                EemsVec::OneVec(a1) => a1@[i]@,
                EemsVec::ThreeVec(a2, _, _) => a2@[i]@,
            }),
        ) == le_value(s.eems_perm_view().perm_spec(le_add_be(s.share_view()[i], z2[i]))),
{
    match s.eems_vec_view() {
        EemsVec::OneVec(a1) => {
            let x = le_add_be(s.share_view()[i], z2[i]);
            assert(le_value(s.eems_perm_view().perm_spec(x)) >= le_value(a1@[i]@));
            lemma_bytes_arith_value(s.eems_perm_view().perm_spec(x), a1@[i]@);
        },
        EemsVec::ThreeVec(_, _, _) => {},
    }
}

/// The smaller of two lengths.
pub open spec fn min_len(a: int, b: int) -> int {
    if a < b {
        a
    } else {
        b
    }
}

/// Adds each threshold share `gamma_shares[i]` to `values[i]`, modulo
/// `2^128`, for the indices that both slices have.
pub fn add_gamma_shares(gamma_shares: &[u128], values: &mut [u128])
    ensures
        final(values)@.len() == old(values)@.len(),
        forall|i: int|
            0 <= i < old(values)@.len() ==> #[trigger] final(values)@[i] == if i < gamma_shares@.len() {
                (old(values)@[i] + gamma_shares@[i]) % (u128::MAX + 1)
            } else {
                old(values)@[i] as int
            },
{
    let n = if gamma_shares.len() < values.len() {
        gamma_shares.len()
    } else {
        values.len()
    };
    let mut i: usize = 0;
    while i < n
        invariant
            n == min_len(gamma_shares@.len() as int, old(values)@.len() as int),
            i <= n,
            values@.len() == old(values)@.len(),
            forall|j: int|
                0 <= j < i ==> #[trigger] values@[j] == (old(values)@[j] + gamma_shares@[j])
                    % (u128::MAX + 1),
            forall|j: int| i <= j < values@.len() ==> #[trigger] values@[j] == old(values)@[j],
        decreases n - i,
    {
        let v = values[i].wrapping_add(gamma_shares[i]);
        values[i] = v;
        i = i + 1;
    }
}

/// Adds one report's evaluations `buf[i]` to the running sums `values[i]`,
/// modulo `2^128` (the group of the point function's outputs), for the
/// indices that both slices have.
pub fn accumulate_report(values: &mut [u128], buf: &[u128])
    ensures
        final(values)@.len() == old(values)@.len(),
        forall|i: int|
            0 <= i < old(values)@.len() ==> #[trigger] final(values)@[i] == if i < buf@.len() {
                (old(values)@[i] + buf@[i]) % (u128::MAX + 1)
            } else {
                old(values)@[i] as int
            },
{
    let n = if buf.len() < values.len() {
        buf.len()
    } else {
        values.len()
    };
    let mut i: usize = 0;
    while i < n
        invariant
            n == min_len(old(values)@.len() as int, buf@.len() as int),
            i <= n,
            values@.len() == old(values)@.len(),
            forall|j: int|
                0 <= j < i ==> #[trigger] values@[j] == (old(values)@[j] + buf@[j]) % (u128::MAX + 1),
            forall|j: int| i <= j < values@.len() ==> #[trigger] values@[j] == old(values)@[j],
        decreases n - i,
    {
        let v = values[i].wrapping_add(buf[i]);
        values[i] = v;
        i = i + 1;
    }
}

} // verus!
