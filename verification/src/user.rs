//! The users' side: senders that obtain message identifiers and seal
//! messages, receivers that check identifiers, and reporters.

use crate::bignum::{
    biguint_le_add_le, biguint_le_sub_le, le_bytes_of, le_value, lemma_le_bytes_value, pow256,
};
use crate::bytes::{array_to_vec, slice_to_array};
use crate::crypto::{
    opt_bytes_view, ed25519_public_key, ed25519_sign, ed25519_verify, hash, max_plaintext_len, pk_verify, sha256,
    sym_enc, sym_enc_spec, Digest, Sign, SymK, PK,
};
use crate::eems::issued_src_ct;
use crate::msp::copy_bytes;
use crate::proto::{
    msg_bytes, msg_id_bytes, signed_pack_bytes, Auth, EeMsg, EeMsgHeader, GenIdReq, GenIdRes,
    GenIdSignedPack, IdShare, IdShareCw, Msg, MsgId,
};
use crate::rng::random_array28;
use vstd::prelude::*;

verus! {

/// Whether a message identifier with message key `key`, ciphertext hash
/// `ct_hash`, encrypted source `src_ct` and signature `sign` was issued for
/// `body` by the exchange server with secret key `sk`: the hash is that of
/// the body's ciphertext under the message key, and the signature is the
/// server's on the packed (source ciphertext, hash, encrypted hash).
pub open spec fn msg_id_issued_for(
    key: Seq<u8>,
    ct_hash: Seq<u8>,
    src_ct: Seq<u8>,
    sign: Seq<u8>,
    body: Seq<u8>,
    sk: Seq<u8>,
) -> bool {
    &&& ct_hash == sha256(sym_enc_spec(key, body))
    &&& sign == ed25519_sign(sk, signed_pack_bytes(src_ct, ct_hash, sym_enc_spec(key, ct_hash)))
}

/// Whether `verify_msg` accepts `body` with a message identifier made of
/// `key`, `ct_hash`, `src_ct` and `sign` under the server's public key `pk`.
pub open spec fn msg_accepted(
    pk: Seq<u8>,
    key: Seq<u8>,
    ct_hash: Seq<u8>,
    src_ct: Seq<u8>,
    sign: Seq<u8>,
    body: Seq<u8>,
) -> bool {
    &&& sha256(sym_enc_spec(key, body)) == ct_hash
    &&& ed25519_verify(pk, signed_pack_bytes(src_ct, ct_hash, sym_enc_spec(key, ct_hash)), sign)
}

/// The identifier that a sender assembles is issued for the body: the
/// hash and encrypted hash it sends (`gen_id_by_user`) and the source
/// ciphertext and signature the server returns (`gen_id_by_eems`) make an
/// identifier issued for that body by that server.
pub proof fn lemma_assembled_id_is_issued(
    body: Seq<u8>,
    key: Seq<u8>,
    user_id: Seq<u8>,
    id_key: Seq<u8>,
    sk: Seq<u8>,
)
    ensures
        ({
            let ct_hash = sha256(sym_enc_spec(key, body));
            let src_ct = issued_src_ct(id_key, user_id);
            let sign = ed25519_sign(sk, signed_pack_bytes(src_ct, ct_hash, sym_enc_spec(key, ct_hash)));
            msg_id_issued_for(key, ct_hash, src_ct, sign, body, sk)
        }),
{
}

/// Whether two byte slices hold the same bytes.
pub fn bytes_eq(a: &[u8], b: &[u8]) -> (r: bool)
    ensures
        r == (a@ == b@),
{
    if a.len() != b.len() {
        return false;
    }
    let mut i: usize = 0;
    while i < a.len()
        invariant
            a@.len() == b@.len(),
            i <= a@.len(),
            forall|j: int| 0 <= j < i ==> a@[j] == b@[j],
        decreases a@.len() - i,
    {
        if a[i] != b[i] {
            return false;
        }
        i = i + 1;
    }
    assert(a@ =~= b@);
    true
}

/// A sender, known to the exchange server by its identifier and the
/// signature of it.
pub struct Sender {
    id: [u8; 16],
    id_sign: Sign,
}

impl Sender {
    /// The sender's identifier.
    pub closed spec fn id_view(&self) -> Seq<u8> {
        self.id@
    }

    /// The signature of the sender's identifier.
    pub closed spec fn id_sign_view(&self) -> Seq<u8> {
        self.id_sign@
    }

    /// The sender with identifier `id` and its signature `id_sign`.
    pub fn new(id: [u8; 16], id_sign: Sign) -> (r: Self)
        ensures
            r.id_view() == id@,
            r.id_sign_view() == id_sign@,
            r.id_view().len() == 16,
            r.id_sign_view().len() == 64,
    {
        Self { id, id_sign }
    }

    /// Prepares the request for an identifier of `body` under the message
    /// key `msg_key`: the body's ciphertext, its hash, the hash encrypted,
    /// and the sender's identity; and the hash.
    pub fn gen_id_by_user(&self, body: &[u8], msg_key: &SymK) -> (r: (GenIdReq, Digest))
        requires
            body@.len() <= max_plaintext_len(),
        ensures
            r.0.ct@ == sym_enc_spec(msg_key@, body@),
            r.1@ == sha256(r.0.ct@),
            r.0.ct_hash@ == r.1@,
            r.0.ct_hash_ct@ == sym_enc_spec(msg_key@, r.1@),
            r.0.auth matches Some(a) && a.id@ == self.id_view() && a.id_sign@ == self.id_sign_view()
                && a.id@.len() == 16 && a.id_sign@.len() == 64,
    {
        let ct = sym_enc(msg_key, body);
        let ct_hash = hash(ct.as_slice());
        let ct_hash_ct = sym_enc(msg_key, &ct_hash);
        (
            GenIdReq {
                ct,
                ct_hash: array_to_vec(&ct_hash),
                ct_hash_ct,
                auth: Some(Auth { id: array_to_vec(&self.id), id_sign: array_to_vec(&self.id_sign) }),
            },
            ct_hash,
        )
    }

    /// The message identifier from the message key, the hash that
    /// `gen_id_by_user` gave, and the exchange server's reply.
    pub fn msg_id_from_reply(msg_key: &SymK, ct_hash: &Digest, res: GenIdRes) -> (r: MsgId)
        ensures
            r.msg_key@ == msg_key@,
            r.ct_hash@ == ct_hash@,
            r.src_ct@ == res.src_ct@,
            r.sign@ == res.sign@,
    {
        let GenIdRes { src_ct, sign } = res;
        MsgId { msg_key: array_to_vec(msg_key), ct_hash: array_to_vec(ct_hash), src_ct, sign }
    }

    /// The plaintext of an end-to-end message: the message with the
    /// original identifier `orig_id` where the message is forwarded, else
    /// with the encoded new identifier `msg_id`, and the body.
    pub fn msg_plaintext(body: Vec<u8>, orig_id: Option<Vec<u8>>, msg_id: &MsgId) -> (r: Vec<u8>)
        ensures
            r@ == msg_bytes(
                match orig_id {
                    Some(o) => o@,
                    None => msg_id_bytes(msg_id.msg_key@, msg_id.ct_hash@, msg_id.src_ct@, msg_id.sign@),
                },
                body@,
            ),
    {
        let id_bs = match orig_id {
            Some(o) => o,
            None => msg_id.encode_to_vec(),
        };
        let msg = Msg { id_bs, body };
        msg.encode_to_vec()
    }

    /// Seals a message for the receiver with public key `bob_pk`, sharing
    /// `shared_secret`, as the first message of a new double ratchet: the
    /// plaintext of `msg_plaintext` encrypted with associated data
    /// `asso_data` under a fresh random ratchet key, and the header's
    /// counters.
    pub fn seal_msg(
        body: Vec<u8>,
        orig_id: Option<Vec<u8>>,
        msg_id: &MsgId,
        shared_secret: [u8; 32],
        bob_pk: [u8; 32],
        asso_data: &[u8],
    ) -> (r: EeMsg)
        ensures
            r.header matches Some(h) && h.n == 0 && h.pn == 0,
            ratchet_first_cts(
                shared_secret@,
                bob_pk@,
                sealed_plaintext(body@, opt_bytes_view(orig_id), *msg_id),
                asso_data@,
            ).contains(r.ct@),
            r.ct@.len() == (sealed_plaintext(body@, opt_bytes_view(orig_id), *msg_id).len() / 16 + 1) * 16 + 8,
            orig_id matches Some(o) ==> {
                &&& ratchet_first_cts(shared_secret@, bob_pk@, msg_bytes(o@, body@), asso_data@).contains(r.ct@)
                &&& r.ct@.len() == (msg_bytes(o@, body@).len() / 16 + 1) * 16 + 8
            },
            orig_id is None ==> {
                &&& ratchet_first_cts(
                    shared_secret@,
                    bob_pk@,
                    msg_bytes(msg_id_bytes(msg_id.msg_key@, msg_id.ct_hash@, msg_id.src_ct@, msg_id.sign@), body@),
                    asso_data@,
                ).contains(r.ct@)
                &&& r.ct@.len() == (msg_bytes(
                    msg_id_bytes(msg_id.msg_key@, msg_id.ct_hash@, msg_id.src_ct@, msg_id.sign@),
                    body@,
                ).len() / 16 + 1) * 16 + 8
            },
    {
        let ghost pt = sealed_plaintext(body@, opt_bytes_view(orig_id), *msg_id);
        let msg_bs = Self::msg_plaintext(body, orig_id, msg_id);
        assert(msg_bs@ == pt);
        let (n, pn, ct) = ratchet_encrypt_first(&shared_secret, &bob_pk, msg_bs.as_slice(), asso_data);
        EeMsg { header: Some(EeMsgHeader { n, pn }), ct }
    }
}

/// The plaintext that `seal_msg` encrypts: the encoded message with the
/// original identifier where there is one, else with the encoded `msg_id`.
pub open spec fn sealed_plaintext(body: Seq<u8>, orig_id: Option<Seq<u8>>, msg_id: MsgId) -> Seq<u8> {
    msg_bytes(
        match orig_id {
            Some(o) => o,
            None => msg_id_bytes(msg_id.msg_key@, msg_id.ct_hash@, msg_id.src_ct@, msg_id.sign@),
        },
        body,
    )
}

/// A forwarded message keeps its original identifier: its plaintext is the
/// message of that identifier and the body, whatever the new identifier;
/// a new message carries the encoded new identifier.
pub proof fn lemma_sealed_plaintext_identifier(body: Seq<u8>, o: Seq<u8>, m1: MsgId, m2: MsgId)
    ensures
        sealed_plaintext(body, Some(o), m1) == msg_bytes(o, body),
        sealed_plaintext(body, Some(o), m1) == sealed_plaintext(body, Some(o), m2),
        sealed_plaintext(body, None, m1) == msg_bytes(
            msg_id_bytes(m1.msg_key@, m1.ct_hash@, m1.src_ct@, m1.sign@),
            body,
        ),
{
}

/// The ciphertexts that the first message of a double ratchet
/// (`double_ratchet` with `double_ratchet_signal::signal::SignalCryptoProvider`)
/// can have when "Alice" starts it with root key `shared_secret` and the
/// receiver's public key `bob_pk`, for `plaintext` and associated data `ad`:
/// one for each 32-byte ratchet secret that Alice may draw.
pub uninterp spec fn ratchet_first_cts(shared_secret: Seq<u8>, bob_pk: Seq<u8>, plaintext: Seq<u8>, ad: Seq<u8>) -> Set<
    Seq<u8>,
>;

/// The first message of a double ratchet started as "Alice": a fresh
/// `double_ratchet::DoubleRatchet::<SignalCryptoProvider>::new_alice` with
/// root key `shared_secret`, the receiver's key `bob_pk` and `rand_os::OsRng`,
/// then `ratchet_encrypt`. Claimed: the header's message counters are both
/// 0, as they are on a fresh sending chain; the ciphertext is one of the
/// first message's encryptions of `plaintext` with `asso_data` (the one for
/// the ratchet secret that `OsRng` drew, which is not returned); and, being
/// AES-256-CBC with PKCS#7 padding followed by an 8-byte tag, it is
/// `(len / 16 + 1) * 16 + 8` bytes long.
#[verifier::external_body]
fn ratchet_encrypt_first(shared_secret: &[u8; 32], bob_pk: &[u8; 32], plaintext: &[u8], asso_data: &[u8]) -> (r: (
    u32,
    u32,
    Vec<u8>,
))
    ensures
        r.0 == 0 && r.1 == 0,
        ratchet_first_cts(shared_secret@, bob_pk@, plaintext@, asso_data@).contains(r.2@),
        r.2@.len() == (plaintext@.len() / 16 + 1) * 16 + 8,
{
    let mut os_rng = rand_os::OsRng::new().unwrap();
    let mut alice = double_ratchet::DoubleRatchet::<double_ratchet_signal::signal::SignalCryptoProvider>::new_alice(
        &(*shared_secret).into(),
        (*bob_pk).into(),
        None,
        &mut os_rng,
    );
    let (header, ct) = alice.ratchet_encrypt(plaintext, asso_data, &mut os_rng);
    (header.n, header.pn, ct)
}

/// A receiver, which checks message identifiers against the exchange
/// server's public key.
pub struct Receiver {
    eems_pk: PK,
}

impl Receiver {
    /// The exchange server's public key.
    pub closed spec fn eems_pk_view(&self) -> Seq<u8> {
        self.eems_pk@
    }

    /// The receiver that trusts the exchange server key `eems_pk`.
    pub fn new(eems_pk: PK) -> (r: Self)
        ensures
            r.eems_pk_view() == eems_pk@,
    {
        Self { eems_pk }
    }

    /// Checks that `msg_id` identifies `body`: the body's ciphertext
    /// under the message key hashes to the identifier's hash, and the
    /// server's signature of the packed (source ciphertext, hash, encrypted
    /// hash) verifies. An identifier issued for the body by the server whose
    /// public key the receiver holds is accepted.
    pub fn verify_msg(&self, body: &[u8], msg_id: &MsgId) -> (r: Result<(), ()>)
        requires
            msg_id.msg_key@.len() == 28,
            msg_id.ct_hash@.len() == 32,
            msg_id.sign@.len() == 64,
            body@.len() <= max_plaintext_len(),
        ensures
            r is Ok <==> msg_accepted(
                self.eems_pk_view(),
                msg_id.msg_key@,
                msg_id.ct_hash@,
                msg_id.src_ct@,
                msg_id.sign@,
                body@,
            ),
            forall|sk: Seq<u8>|
                sk.len() == 32 && self.eems_pk_view() == #[trigger] ed25519_public_key(sk) && msg_id_issued_for(
                    msg_id.msg_key@,
                    msg_id.ct_hash@,
                    msg_id.src_ct@,
                    msg_id.sign@,
                    body@,
                    sk,
                ) ==> r is Ok,
    {
        let msg_key: SymK = slice_to_array::<28>(msg_id.msg_key.as_slice());
        let ct_hash: Digest = slice_to_array::<32>(msg_id.ct_hash.as_slice());
        let sign: Sign = slice_to_array::<64>(msg_id.sign.as_slice());
        let ct = sym_enc(&msg_key, body);
        let h = hash(ct.as_slice());
        if !bytes_eq(&ct_hash, &h) {
            return Err(());
        }
        let ct_hash_ct = sym_enc(&msg_key, &ct_hash);
        let pack = GenIdSignedPack { src_ct: copy_bytes(&msg_id.src_ct), ct_hash: array_to_vec(&ct_hash), ct_hash_ct };
        let signed_buf = pack.encode_to_vec();
        pk_verify(&self.eems_pk, signed_buf.as_slice(), &sign)
    }
}

/// A reporter's generator of MAC shares.
pub struct ReporterGenMac;

impl ReporterGenMac {
    /// The generator.
    pub fn new() -> (r: Self) {
        Self {  }
    }

    /// The MAC shares of the key `mk` for the masks `gamma` and `tao0`:
    /// `gamma`, `tao0` and `tao1`, where `tao1` (little-endian) is `mk`
    /// plus `gamma` plus `tao0`, less `tao0`; so that `tao0 + tao1` is
    /// `mk + gamma + tao0`.
    pub fn gen_with(&self, mk: &SymK, gamma: SymK, tao0: SymK) -> (r: (Vec<u8>, Vec<u8>, Vec<u8>))
        ensures
            r.0@ == gamma@,
            r.1@ == tao0@,
            r.2@ == le_bytes_of(le_value(mk@) + le_value(gamma@)),
            le_value(r.1@) + le_value(r.2@) == le_value(mk@) + le_value(gamma@) + le_value(tao0@),
    {
        let gamma_plus = biguint_le_add_le(&gamma, &tao0);
        let tao = biguint_le_add_le(mk, gamma_plus.as_slice());
        proof {
            lemma_le_bytes_value(le_value(gamma@) + le_value(tao0@));
            lemma_le_bytes_value(le_value(mk@) + le_value(gamma_plus@));
        }
        let tao1 = biguint_le_sub_le(tao.as_slice(), &tao0);
        proof {
            lemma_le_bytes_value(le_value(mk@) + le_value(gamma@));
        }
        (array_to_vec(&gamma), array_to_vec(&tao0), tao1)
    }

    /// The MAC shares of the key `mk` with fresh random masks `gamma` and
    /// `tao0` (see `gen_with`).
    pub fn gen(&self, mk: &SymK) -> (r: (Vec<u8>, Vec<u8>, Vec<u8>))
        ensures
            r.0@.len() == 28,
            r.1@.len() == 28,
            r.2@ == le_bytes_of(le_value(mk@) + le_value(r.0@)),
            le_value(r.1@) + le_value(r.2@) == le_value(mk@) + le_value(r.0@) + le_value(r.1@),
    {
        let gamma = random_array28();
        let tao0 = random_array28();
        self.gen_with(mk, gamma, tao0)
    }
}

/// The little-endian number of a byte string grows by the new byte times
/// the place value when a byte is appended.
pub proof fn lemma_le_value_push(s: Seq<u8>, b: u8)
    ensures
        le_value(s.push(b)) == le_value(s) + b * pow256(s.len()),
    decreases s.len(),
{
    if s.len() == 0 {
        assert(s.push(b).drop_first() =~= Seq::<u8>::empty());
        assert(pow256(0) == 1);
        assert(le_value(Seq::<u8>::empty()) == 0);
        assert(s.push(b)[0] == b);
        assert(le_value(s.push(b)) == b);
    } else {
        assert(s.push(b).drop_first() =~= s.drop_first().push(b));
        assert(s.push(b)[0] == s[0]);
        lemma_le_value_push(s.drop_first(), b);
        assert(pow256(s.len()) == 256 * pow256((s.len() - 1) as nat));
        assert(256 * (b * pow256((s.len() - 1) as nat)) == b * pow256(s.len())) by (nonlinear_arith)
            requires
                pow256(s.len()) == 256 * pow256((s.len() - 1) as nat),
        ;
    }
}

/// The 16 little-endian bytes of `x` (`u128::to_le_bytes`).
pub fn u128_to_le_bytes(x: u128) -> (r: Vec<u8>)
    ensures
        r@.len() == 16,
        le_value(r@) == x,
{
    assert(pow256(16) == 0x1_0000_0000_0000_0000_0000_0000_0000_0000) by {
        reveal_with_fuel(pow256, 17);
    }
    let mut r: Vec<u8> = Vec::with_capacity(16);
    let mut v: u128 = x;
    let mut i: usize = 0;
    assert(le_value(r@) == 0);
    assert(pow256(0) == 1);
    while i < 16
        invariant
            i <= 16,
            r@.len() == i,
            le_value(r@) + pow256(i as nat) * v == x,
            v < pow256((16 - i) as nat),
        decreases 16 - i,
    {
        let b: u8 = (v % 256) as u8;
        proof {
            lemma_le_value_push(r@, b);
            let p = pow256(i as nat);
            assert(pow256((i + 1) as nat) == 256 * p);
            assert(pow256((16 - i) as nat) == 256 * pow256((16 - i - 1) as nat));
            assert(p * v == b * p + (256 * p) * (v / 256)) by (nonlinear_arith)
                requires
                    b == v % 256,
            ;
            assert(v / 256 < pow256((16 - i - 1) as nat)) by (nonlinear_arith)
                requires
                    v < 256 * pow256((16 - i - 1) as nat),
            ;
        }
        r.push(b);
        v = v / 256;
        i = i + 1;
    }
    r
}

/// The parts of a distributed point function key that identifier shares
/// carry: the two parties' seeds, the last correction word and the
/// correction words (seed and the two control bits each).
pub struct DpfKeyParts {
    pub s0s: [[u8; 16]; 2],
    pub cw_np1: u128,
    pub cws: Vec<([u8; 16], bool, bool)>,
}

/// Whether `share` carries party `b`'s seed of `key` and its correction words.
pub open spec fn id_share_of(share: IdShare, key: DpfKeyParts, b: int) -> bool {
    &&& share.s0@ == key.s0s[b]@
    &&& share.cw_np1@.len() == 16
    &&& le_value(share.cw_np1@) == key.cw_np1
    &&& share.cws@.len() == key.cws@.len()
    &&& forall|i: int|
        0 <= i < key.cws@.len() ==> {
            &&& (#[trigger] share.cws@[i]).s@ == key.cws@[i].0@
            &&& share.cws@[i].tl == key.cws@[i].1
            &&& share.cws@[i].tr == key.cws@[i].2
        }
}

/// The correction words of an identifier share.
fn id_share_cws(cws: &Vec<([u8; 16], bool, bool)>) -> (r: Vec<IdShareCw>)
    ensures
        r@.len() == cws@.len(),
        forall|i: int|
            0 <= i < cws@.len() ==> {
                &&& (#[trigger] r@[i]).s@ == cws@[i].0@
                &&& r@[i].tl == cws@[i].1
                &&& r@[i].tr == cws@[i].2
            },
{
    let mut r: Vec<IdShareCw> = Vec::with_capacity(cws.len());
    let mut i: usize = 0;
    while i < cws.len()
        invariant
            i <= cws@.len(),
            r@.len() == i,
            forall|j: int|
                0 <= j < i ==> {
                    &&& (#[trigger] r@[j]).s@ == cws@[j].0@
                    &&& r@[j].tl == cws@[j].1
                    &&& r@[j].tr == cws@[j].2
                },
        decreases cws@.len() - i,
    {
        let (s, tl, tr) = cws[i];
        r.push(IdShareCw { s: array_to_vec(&s), tl, tr });
        i = i + 1;
    }
    r
}

/// The two parties' identifier shares from a distributed point function
/// key: each carries its party's seed, the last correction word in 16
/// little-endian bytes and the correction words.
pub fn id_shares_from_key(key: &DpfKeyParts) -> (r: [IdShare; 2])
    ensures
        id_share_of(r[0], *key, 0),
        id_share_of(r[1], *key, 1),
{
    let share0 = IdShare {
        s0: array_to_vec(&key.s0s[0]),
        cw_np1: u128_to_le_bytes(key.cw_np1),
        cws: id_share_cws(&key.cws),
    };
    let share1 = IdShare {
        s0: array_to_vec(&key.s0s[1]),
        cw_np1: u128_to_le_bytes(key.cw_np1),
        cws: id_share_cws(&key.cws),
    };
    [share0, share1]
}

} // verus!
