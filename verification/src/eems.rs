//! The exchange server: it issues message identifiers to authenticated
//! senders and prepares the vectors of the identifier shuffle.

use crate::bignum::{be_value, biguint_le_ge, le_add_be, le_sub_be, le_value, lemma_sum_bytes_len};
use crate::bytes::{array_to_vec, slice_to_array};
use crate::crypto::{
    aes128gcm_encrypt, ed25519_sign, ed25519_verify, max_plaintext_len, pk_sign, pk_verify, sym_enc, sym_enc_spec, Digest,
    Sign, SymK, PK, SK,
};
use crate::db::IdArchive;
use crate::msp::{copy_bytes, copy_rows, rows, EemsVec, Perm, SymEncPerm};
use crate::proto::{signed_pack_bytes, Auth, GenIdReq, GenIdRes, GenIdSignedPack};
use crate::rng::{random_array28, random_bytes};
use crate::utils::{bytes_add, bytes_minus, lemma_bytes_arith_value};
use vstd::prelude::*;

verus! {

/// The byte size of an identifier item in the shuffle.
pub const ID_SIZE: usize = 164;

/// The public information of an entity.
pub struct PubInfo {
    pub pk: PK,
}

/// Why the exchange server refuses a request.
#[derive(Debug, Clone, Copy, PartialEq, Eq)]
pub enum GenIdError {
    /// The sender's signature of its identifier does not verify.
    Unauthenticated,
}

/// The exchange server's part in issuing message identifiers.
pub struct EemsForSendImpl {
    sk: SK,
}

/// The encrypted source that the exchange server issues for sender
/// `user_id` with identifier key `id_key`.
pub open spec fn issued_src_ct(id_key: Seq<u8>, user_id: Seq<u8>) -> Seq<u8> {
    sym_enc_spec(id_key, user_id)
}

impl EemsForSendImpl {
    /// The server's secret key.
    pub closed spec fn sk_view(&self) -> Seq<u8> {
        self.sk@
    }

    /// The server with secret key `sk`.
    pub fn new(sk: SK) -> (r: Self)
        ensures
            r.sk_view() == sk@,
    {
        Self { sk }
    }

    /// Issues the identifier parts for `user_id` with identifier key
    /// `id_key`: the source encrypted under `id_key`, and the server's
    /// signature of the packed (source ciphertext, ciphertext hash,
    /// encrypted ciphertext hash).
    pub fn gen_id_by_eems_with_key(
        &self,
        user_id: &[u8; 16],
        ct_hash: &Vec<u8>,
        ct_hash_ct: Vec<u8>,
        id_key: SymK,
    ) -> (r: (Vec<u8>, Sign, SymK))
        ensures
            r.0@ == issued_src_ct(id_key@, user_id@),
            r.0@.len() == 32,
            r.1@ == ed25519_sign(self.sk_view(), signed_pack_bytes(r.0@, ct_hash@, ct_hash_ct@)),
            r.2 == id_key,
    {
        let src_ct = sym_enc(&id_key, user_id);
        let pack = GenIdSignedPack { src_ct: copy_bytes(&src_ct), ct_hash: copy_bytes(ct_hash), ct_hash_ct };
        let signed_buf = pack.encode_to_vec();
        let sign = pk_sign(&self.sk, signed_buf.as_slice());
        (src_ct, sign, id_key)
    }

    /// Issues the identifier parts for `user_id` with a fresh random
    /// identifier key, which it returns too.
    pub fn gen_id_by_eems(&self, user_id: &[u8; 16], ct_hash: &Vec<u8>, ct_hash_ct: Vec<u8>) -> (r: (
        Vec<u8>,
        Sign,
        SymK,
    ))
        ensures
            r.0@ == issued_src_ct(r.2@, user_id@),
            r.0@.len() == 32,
            r.1@ == ed25519_sign(self.sk_view(), signed_pack_bytes(r.0@, ct_hash@, ct_hash_ct@)),
    {
        let id_key = random_array28();
        self.gen_id_by_eems_with_key(user_id, ct_hash, ct_hash_ct, id_key)
    }

    /// Whether `r` is how the server answers `req` from the sender `user_id`
    /// with identity signature `user_id_sign` and public key `user_pk`:
    /// refused exactly where the signature does not verify; else the reply
    /// carries the source encrypted under the archived identifier key and the
    /// server's signature of the pack, and the archive holds the request's
    /// ciphertext under its hash.
    pub open spec fn gen_id_handled(
        &self,
        req: GenIdReq,
        user_id: Seq<u8>,
        user_id_sign: Seq<u8>,
        user_pk: Seq<u8>,
        r: Result<(GenIdRes, Digest, IdArchive), GenIdError>,
    ) -> bool {
        &&& r is Err <==> !ed25519_verify(user_pk, user_id, user_id_sign)
        &&& r matches Err(e) ==> e == GenIdError::Unauthenticated
        &&& r matches Ok((res, h, ar)) ==> {
            &&& res.src_ct@ == issued_src_ct(ar.id_key@, user_id)
            &&& res.src_ct@.len() == 32
            &&& res.sign@.len() == 64
            &&& res.sign@ == ed25519_sign(self.sk_view(), signed_pack_bytes(res.src_ct@, req.ct_hash@, req.ct_hash_ct@))
            &&& h@ == req.ct_hash@
            &&& ar.ct@ == req.ct@
        }
    }

    /// Handles a request for a message identifier as `handle_gen_id` does,
    /// where the request is well formed: `None` for a request from an
    /// authenticated sender whose ciphertext hash is not 32 bytes long.
    pub fn try_handle_gen_id(
        &self,
        req: GenIdReq,
        user_id: &[u8; 16],
        user_id_sign: &Sign,
        user_pk: &PK,
    ) -> (r: Option<Result<(GenIdRes, Digest, IdArchive), GenIdError>>)
        ensures
            r is None <==> (req.ct_hash@.len() != 32 && ed25519_verify(user_pk@, user_id@, user_id_sign@)),
            r matches Some(x) ==> self.gen_id_handled(req, user_id@, user_id_sign@, user_pk@, x),
    {
        if req.ct_hash.len() != 32 && pk_verify(user_pk, user_id, user_id_sign).is_ok() {
            return None;
        }
        Some(self.handle_gen_id(req, user_id, user_id_sign, user_pk))
    }

    /// Handles a request for a message identifier from the sender
    /// `user_id`, whose public key is `user_pk`, with a fresh random
    /// identifier key: refuses it where the sender's signature of its
    /// identifier does not verify, whatever the request holds; else gives
    /// the reply, the ciphertext hash under which to archive, and the
    /// archive. A request from an authenticated sender whose ciphertext hash
    /// is not 32 bytes long is malformed, which `requires` rules out.
    pub fn handle_gen_id(
        &self,
        req: GenIdReq,
        user_id: &[u8; 16],
        user_id_sign: &Sign,
        user_pk: &PK,
    ) -> (r: Result<(GenIdRes, Digest, IdArchive), GenIdError>)
        requires
            ed25519_verify(user_pk@, user_id@, user_id_sign@) ==> req.ct_hash@.len() == 32,
        ensures
            self.gen_id_handled(req, user_id@, user_id_sign@, user_pk@, r),
    {
        if pk_verify(user_pk, user_id, user_id_sign).is_err() {
            return Err(GenIdError::Unauthenticated);
        }
        let GenIdReq { ct, ct_hash, ct_hash_ct, auth: _ } = req;
        let (src_ct, sign, id_key) = self.gen_id_by_eems(user_id, &ct_hash, ct_hash_ct);
        let h: Digest = slice_to_array::<32>(ct_hash.as_slice());
        let res = GenIdRes { src_ct, sign: array_to_vec(&sign) };
        Ok((res, h, IdArchive { ct, id_key }))
    }
}

/// The sender identifier and its signature that a request carries. A
/// request without them, or with them of the wrong length, is malformed,
/// which `requires` rules out.
pub fn auth_identity(auth: &Option<Auth>) -> (r: ([u8; 16], Sign))
    requires
        auth is Some,
        auth.unwrap().id@.len() == 16,
        auth.unwrap().id_sign@.len() == 64,
    ensures
        r.0@ == auth.unwrap().id@,
        r.1@ == auth.unwrap().id_sign@,
{
    match auth {
        Some(a) => (slice_to_array::<16>(a.id.as_slice()), slice_to_array::<64>(a.id_sign.as_slice())),
        None => (vstd::array::array_fill_for_copy_types::<u8, 16>(0u8), vstd::array::array_fill_for_copy_types::<u8, 64>(0u8)),
    }
}

/// `item_num` random identifier items of `ID_SIZE` bytes each.
pub fn gen_rand_id_vec(item_num: usize) -> (r: Vec<Vec<u8>>)
    ensures
        r@.len() == item_num,
        forall|i: int| 0 <= i < item_num ==> #[trigger] r@[i]@.len() == ID_SIZE,
{
    let mut share: Vec<Vec<u8>> = Vec::with_capacity(item_num);
    let mut i: usize = 0;
    while i < item_num
        invariant
            i <= item_num,
            share@.len() == i,
            forall|j: int| 0 <= j < i ==> #[trigger] share@[j]@.len() == ID_SIZE,
        decreases item_num - i,
    {
        share.push(random_bytes(ID_SIZE));
        i = i + 1;
    }
    share
}


/// Whether `a1`, `a2`, `a3` are masks as the shuffle draws them: `n`
/// items each, of `ID_SIZE` bytes.
pub open spec fn shuffle_masks_drawn(a1: Seq<Seq<u8>>, a2: Seq<Seq<u8>>, a3: Seq<Seq<u8>>, n: nat) -> bool {
    &&& a1.len() == n
    &&& a2.len() == n
    &&& a3.len() == n
    &&& forall|i: int| 0 <= i < n ==> (#[trigger] a1[i]).len() == ID_SIZE
    &&& forall|i: int| 0 <= i < n ==> (#[trigger] a2[i]).len() == ID_SIZE
    &&& forall|i: int| 0 <= i < n ==> (#[trigger] a3[i]).len() == ID_SIZE
}

/// Whether masks drawn as the shuffle draws them, with keys `k1` and
/// `k2`, make some `delta` item negative.
pub open spec fn shuffle_draw_underflows(
    k1: Seq<u8>,
    k2: Seq<u8>,
    a1: Seq<Seq<u8>>,
    a2: Seq<Seq<u8>>,
    a3: Seq<Seq<u8>>,
    n: nat,
) -> bool {
    &&& shuffle_masks_drawn(a1, a2, a3, n)
    &&& exists|i: int| 0 <= i < n && delta_underflows(k1, k2, #[trigger] a1[i], a2[i], a3[i])
}

/// The image of an `a3` item under the exchange server's two
/// permutations, with `a1` added between them.
pub open spec fn delta_base(k1: Seq<u8>, k2: Seq<u8>, a1i: Seq<u8>, a3i: Seq<u8>) -> Seq<u8> {
    sym_enc_spec(k2, le_add_be(sym_enc_spec(k1, a3i), a1i))
}

/// Whether the `delta` item for `(a1i, a2i, a3i)` would be negative.
pub open spec fn delta_underflows(k1: Seq<u8>, k2: Seq<u8>, a1i: Seq<u8>, a2i: Seq<u8>, a3i: Seq<u8>) -> bool {
    le_value(delta_base(k1, k2, a1i, a3i)) < le_value(a2i)
}

/// The `delta` vector: each `a3` item permuted, plus `a1`, permuted
/// again, less `a2`.
pub open spec fn delta_spec(k1: Seq<u8>, k2: Seq<u8>, a1: Seq<Seq<u8>>, a2: Seq<Seq<u8>>, a3: Seq<Seq<u8>>) -> Seq<
    Seq<u8>,
> {
    Seq::new(a3.len(), |i: int| le_sub_be(delta_base(k1, k2, a1[i], a3[i]), a2[i]))
}

/// The identifiers under the shared permutation and then the exchange
/// server's two permutations.
pub open spec fn shuffled_ids_spec<P: Perm>(shared: P, k1: Seq<u8>, k2: Seq<u8>, ids: Seq<Seq<u8>>) -> Seq<Seq<u8>> {
    Seq::new(ids.len(), |i: int| sym_enc_spec(k2, sym_enc_spec(k1, shared.perm_spec(ids[i]))))
}

/// Whether the output of the shuffle preparation is the one for masks
/// `a1`, `a2`, `a3`, keys `k1`, `k2` and identifiers `ids`.
pub open spec fn shuffle_output_is<P: Perm>(
    out: ((EemsVec, EemsVec), Vec<Vec<u8>>),
    shared: P,
    k1: Seq<u8>,
    k2: Seq<u8>,
    a1: Seq<Seq<u8>>,
    a2: Seq<Seq<u8>>,
    a3: Seq<Seq<u8>>,
    ids: Seq<Seq<u8>>,
) -> bool {
    &&& out.0.0 matches EemsVec::OneVec(o1) && rows(o1@) == a1
    &&& out.0.1 matches EemsVec::ThreeVec(o2, o3, od) && rows(o2@) == a2 && rows(o3@) == a3 && rows(od@)
        == delta_spec(k1, k2, a1, a2, a3)
    &&& rows(out.1@) == shuffled_ids_spec(shared, k1, k2, ids)
}

/// Each `delta` item, read big-endian, plus the `a2` item, read
/// little-endian, is the `a3` item encrypted under the first key, plus the
/// `a1` item, encrypted under the second key: wherever that item is not
/// negative.
pub proof fn lemma_delta_value(
    k1: Seq<u8>,
    k2: Seq<u8>,
    a1: Seq<Seq<u8>>,
    a2: Seq<Seq<u8>>,
    a3: Seq<Seq<u8>>,
    i: int,
)
    requires
        0 <= i < a3.len(),
        !delta_underflows(k1, k2, a1[i], a2[i], a3[i]),
    ensures
        delta_spec(k1, k2, a1, a2, a3).len() == a3.len(),
        be_value(delta_spec(k1, k2, a1, a2, a3)[i]) + le_value(a2[i]) == le_value(
            sym_enc_spec(k2, le_add_be(sym_enc_spec(k1, a3[i]), a1[i])),
        ),
{
    lemma_bytes_arith_value(delta_base(k1, k2, a1[i], a3[i]), a2[i]);
}

/// Each shuffled identifier is the identifier under the shared permutation,
/// encrypted under the first key and then under the second.
pub proof fn lemma_shuffled_id_value<P: Perm>(shared: P, k1: Seq<u8>, k2: Seq<u8>, ids: Seq<Seq<u8>>, i: int)
    requires
        0 <= i < ids.len(),
    ensures
        shuffled_ids_spec(shared, k1, k2, ids).len() == ids.len(),
        shuffled_ids_spec(shared, k1, k2, ids)[i] == aes128gcm_encrypt(
            k2.subrange(0, 16),
            k2.subrange(16, 28),
            aes128gcm_encrypt(k1.subrange(0, 16), k1.subrange(16, 28), shared.perm_spec(ids[i])),
        ),
{
}

/// The exchange server's preparation of the identifier shuffle.
pub struct EemsIdShuffle<P: Perm> {
    shared_perm: P,
}

impl<P: Perm> EemsIdShuffle<P> {
    /// The permutation shared with the message service providers.
    pub closed spec fn shared_perm_view(&self) -> P {
        self.shared_perm
    }

    /// The preparation with the shared permutation `shared_perm`.
    pub fn new(shared_perm: P) -> (r: Self)
        ensures
            r.shared_perm_view() == shared_perm,
    {
        Self { shared_perm }
    }

    /// Prepares the shuffle from the masks `a1`, `a2`, `a3` and the keys
    /// of the server's two permutations: the first party's vector `a1`,
    /// the second party's vectors `a2`, `a3` and `delta`, and the
    /// identifiers under the shared permutation and the two permutations.
    /// `None` where a `delta` item would be negative. The mask items must be
    /// short enough for every item the permutations see to stay within
    /// what AES-GCM encrypts.
    pub fn gen_shuffle_shares_from(
        &self,
        a1: Vec<Vec<u8>>,
        a2: Vec<Vec<u8>>,
        a3: Vec<Vec<u8>>,
        eems_perm_key1: SymK,
        eems_perm_key2: SymK,
        ids: Vec<Vec<u8>>,
    ) -> (r: Option<((EemsVec, EemsVec), Vec<Vec<u8>>)>)
        requires
            a1@.len() >= a3@.len(),
            a2@.len() >= a3@.len(),
            forall|i: int| 0 <= i < a3@.len() ==> #[trigger] a1@[i]@.len() + 1 <= max_plaintext_len(),
            forall|i: int| 0 <= i < a3@.len() ==> #[trigger] a3@[i]@.len() + 17 <= max_plaintext_len(),
            forall|i: int|
                0 <= i < ids@.len() ==> {
                    &&& self.shared_perm_view().perm_accepts(#[trigger] ids@[i]@)
                    &&& self.shared_perm_view().perm_spec(ids@[i]@).len() + 16 <= max_plaintext_len()
                },
        ensures
            r is None <==> exists|i: int|
                0 <= i < a3@.len() && delta_underflows(
                    eems_perm_key1@,
                    eems_perm_key2@,
                    #[trigger] a1@[i]@,
                    a2@[i]@,
                    a3@[i]@,
                ),
            r matches Some(out) ==> shuffle_output_is(
                out,
                self.shared_perm_view(),
                eems_perm_key1@,
                eems_perm_key2@,
                rows(a1@),
                rows(a2@),
                rows(a3@),
                rows(ids@),
            ),
            r matches Some(out) ==> (out.0.1 matches EemsVec::ThreeVec(o2, o3, od) ==> {
                &&& od@.len() == a3@.len()
                &&& forall|i: int|
                    0 <= i < a3@.len() ==> be_value(#[trigger] od@[i]@) + le_value(a2@[i]@) == le_value(
                        sym_enc_spec(eems_perm_key2@, le_add_be(sym_enc_spec(eems_perm_key1@, a3@[i]@), a1@[i]@)),
                    )
            }),
            r matches Some(out) ==> {
                &&& out.1@.len() == ids@.len()
                &&& forall|i: int|
                    0 <= i < ids@.len() ==> #[trigger] out.1@[i]@ == sym_enc_spec(
                        eems_perm_key2@,
                        sym_enc_spec(eems_perm_key1@, self.shared_perm_view().perm_spec(ids@[i]@)),
                    )
            },
    {
        let ghost k1 = eems_perm_key1@;
        let ghost k2 = eems_perm_key2@;
        let eems_perm1 = SymEncPerm::new(eems_perm_key1);
        let eems_perm2 = SymEncPerm::new(eems_perm_key2);
        let mut delta = copy_rows(&a3);
        let n = delta.len();
        let mut i: usize = 0;
        while i < n
            invariant
                n == a3@.len(),
                n == delta@.len(),
                i <= n,
                a1@.len() >= n,
                a2@.len() >= n,
                eems_perm1.key@ == k1,
                eems_perm2.key@ == k2,
                eems_perm_key1@ == k1,
                eems_perm_key2@ == k2,
                forall|j: int| 0 <= j < n ==> #[trigger] a1@[j]@.len() + 1 <= max_plaintext_len(),
                forall|j: int| 0 <= j < n ==> #[trigger] a3@[j]@.len() + 17 <= max_plaintext_len(),
                forall|j: int|
                    0 <= j < i ==> !delta_underflows(k1, k2, #[trigger] a1@[j]@, a2@[j]@, a3@[j]@),
                forall|j: int|
                    0 <= j < i ==> #[trigger] delta@[j]@ == le_sub_be(
                        delta_base(k1, k2, a1@[j]@, a3@[j]@),
                        a2@[j]@,
                    ),
                forall|j: int| i <= j < n ==> #[trigger] delta@[j]@ == a3@[j]@,
            decreases n - i,
        {
            assert(delta@[i as int]@ == a3@[i as int]@);
            assert(a1@[i as int]@.len() + 1 <= max_plaintext_len());
            eems_perm1.perm(&mut delta[i]);
            proof {
                lemma_sum_bytes_len(delta@[i as int]@, a1@[i as int]@, (max_plaintext_len() - 1) as nat);
            }
            bytes_add(&mut delta[i], &a1[i]);
            eems_perm2.perm(&mut delta[i]);
            if !biguint_le_ge(delta[i].as_slice(), a2[i].as_slice()) {
                assert(delta_underflows(k1, k2, a1@[i as int]@, a2@[i as int]@, a3@[i as int]@));
                assert(exists|t: int|
                    0 <= t < a3@.len() && delta_underflows(
                        eems_perm_key1@,
                        eems_perm_key2@,
                        #[trigger] a1@[t]@,
                        a2@[t]@,
                        a3@[t]@,
                    ));
                return None;
            }
            bytes_minus(&mut delta[i], &a2[i]);
            i = i + 1;
        }
        assert(rows(delta@) =~= delta_spec(k1, k2, rows(a1@), rows(a2@), rows(a3@)));
        assert forall|j: int| 0 <= j < a3@.len() implies be_value(#[trigger] delta@[j]@) + le_value(a2@[j]@)
            == le_value(sym_enc_spec(k2, le_add_be(sym_enc_spec(k1, a3@[j]@), a1@[j]@))) by {
            assert(!delta_underflows(k1, k2, a1@[j]@, a2@[j]@, a3@[j]@));
            lemma_bytes_arith_value(delta_base(k1, k2, a1@[j]@, a3@[j]@), a2@[j]@);
        }
        let mut shuffled = ids;
        let ghost ids0 = rows(shuffled@);
        let m = shuffled.len();
        let mut j: usize = 0;
        while j < m
            invariant
                m == shuffled@.len(),
                m == ids0.len(),
                j <= m,
                eems_perm1.key@ == k1,
                eems_perm2.key@ == k2,
                forall|t: int|
                    0 <= t < m ==> {
                        &&& self.shared_perm_view().perm_accepts(#[trigger] ids0[t])
                        &&& self.shared_perm_view().perm_spec(ids0[t]).len() + 16 <= max_plaintext_len()
                    },
                forall|t: int|
                    0 <= t < j ==> #[trigger] shuffled@[t]@ == sym_enc_spec(
                        k2,
                        sym_enc_spec(k1, self.shared_perm_view().perm_spec(ids0[t])),
                    ),
                forall|t: int| j <= t < m ==> #[trigger] shuffled@[t]@ == ids0[t],
            decreases m - j,
        {
            assert(shuffled@[j as int]@ == ids0[j as int]);
            assert(self.shared_perm_view().perm_accepts(ids0[j as int]));
            self.shared_perm.perm(&mut shuffled[j]);
            eems_perm1.perm(&mut shuffled[j]);
            eems_perm2.perm(&mut shuffled[j]);
            j = j + 1;
        }
        assert(rows(shuffled@) =~= shuffled_ids_spec(self.shared_perm_view(), k1, k2, ids0));
        assert forall|t: int| 0 <= t < m implies #[trigger] shuffled@[t]@ == sym_enc_spec(
            k2,
            sym_enc_spec(k1, self.shared_perm_view().perm_spec(ids@[t]@)),
        ) by {
            assert(ids0[t] == ids@[t]@);
        }
        Some(((EemsVec::OneVec(a1), EemsVec::ThreeVec(a2, a3, delta)), shuffled))
    }

    /// Prepares the shuffle for `item_num` items with fresh random masks of
    /// `ID_SIZE` bytes and fresh random keys (see `gen_shuffle_shares_from`):
    /// `None` where, for the masks and keys drawn, a `delta` item would be
    /// negative.
    pub fn gen_shuffle_shares(&self, item_num: usize, ids: Vec<Vec<u8>>) -> (r: Option<(
        (EemsVec, EemsVec),
        Vec<Vec<u8>>,
    )>)
        requires
            forall|i: int|
                0 <= i < ids@.len() ==> {
                    &&& self.shared_perm_view().perm_accepts(#[trigger] ids@[i]@)
                    &&& self.shared_perm_view().perm_spec(ids@[i]@).len() + 16 <= max_plaintext_len()
                },
        ensures
            r matches Some(out) ==> exists|
                k1: Seq<u8>,
                k2: Seq<u8>,
                a1: Seq<Seq<u8>>,
                a2: Seq<Seq<u8>>,
                a3: Seq<Seq<u8>>,
            |
                {
                    &&& shuffle_masks_drawn(a1, a2, a3, item_num as nat)
                    &&& shuffle_output_is(out, self.shared_perm_view(), k1, k2, a1, a2, a3, rows(ids@))
                },
            r is None ==> exists|
                k1: Seq<u8>,
                k2: Seq<u8>,
                a1: Seq<Seq<u8>>,
                a2: Seq<Seq<u8>>,
                a3: Seq<Seq<u8>>,
            |
                #[trigger] shuffle_draw_underflows(k1, k2, a1, a2, a3, item_num as nat),
    {
        let a1 = gen_rand_id_vec(item_num);
        let a2 = gen_rand_id_vec(item_num);
        let a3 = gen_rand_id_vec(item_num);
        let eems_perm_key1 = random_array28();
        let eems_perm_key2 = random_array28();
        let ghost (ga1, ga2, ga3) = (rows(a1@), rows(a2@), rows(a3@));
        let ghost (a1_view, a2_view, a3_view) = (a1@, a2@, a3@);
        let r = self.gen_shuffle_shares_from(a1, a2, a3, eems_perm_key1, eems_perm_key2, ids);
        proof {
            assert(shuffle_masks_drawn(ga1, ga2, ga3, item_num as nat));
            if r is Some {
                let out = r.unwrap();
                assert(shuffle_output_is(out, self.shared_perm_view(), eems_perm_key1@, eems_perm_key2@, ga1, ga2, ga3, rows(ids@)));
            } else {
                let i = choose|i: int| 0 <= i < item_num && delta_underflows(eems_perm_key1@, eems_perm_key2@, #[trigger] a1_view[i]@, a2_view[i]@, a3_view[i]@);
                assert(delta_underflows(eems_perm_key1@, eems_perm_key2@, ga1[i], ga2[i], ga3[i]));
                assert(shuffle_draw_underflows(eems_perm_key1@, eems_perm_key2@, ga1, ga2, ga3, item_num as nat));
            }
        }
        r
    }
}

} // verus!
