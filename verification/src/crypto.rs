//! Cryptographic primitives: SHA-256, AES-128-GCM with a key that carries
//! its own nonce, and Ed25519 signatures.

use aes_gcm::aead::Aead;
use aes_gcm::KeyInit;
use ring_compat::signature::{Signer, Verifier};
use vstd::prelude::*;

verus! {

/// A SHA-256 digest.
pub type Digest = [u8; 32];

/// A symmetric key: 16 bytes of AES-128 key followed by a 12-byte nonce.
pub type SymK = [u8; 28];

/// An Ed25519 secret key (the 32-byte seed).
pub type SK = [u8; 32];

/// An Ed25519 public key.
pub type PK = [u8; 32];

/// An Ed25519 signature.
pub type Sign = [u8; 64];

/// The longest plaintext, in bytes, that AES-GCM encrypts (`aes_gcm::P_MAX`).
pub open spec fn max_plaintext_len() -> nat {
    68719476736
}

/// The SHA-256 digest of `data` (`sha2::Sha256`).
pub uninterp spec fn sha256(data: Seq<u8>) -> Seq<u8>;

/// AES-128-GCM encryption of `pt` under `key` and `nonce`, with no
/// associated data: the ciphertext followed by the tag (`aes_gcm::Aes128Gcm`).
pub uninterp spec fn aes128gcm_encrypt(key: Seq<u8>, nonce: Seq<u8>, pt: Seq<u8>) -> Seq<u8>;

/// AES-128-GCM decryption of `ct` under `key` and `nonce`, with no
/// associated data: `None` where the tag does not authenticate `ct`.
pub uninterp spec fn aes128gcm_decrypt(key: Seq<u8>, nonce: Seq<u8>, ct: Seq<u8>) -> Option<Seq<u8>>;

/// The Ed25519 public key of a 32-byte secret seed (`ring`, through `ring_compat`).
pub uninterp spec fn ed25519_public_key(seed: Seq<u8>) -> Seq<u8>;

/// The Ed25519 signature of `msg` under a 32-byte secret seed.
pub uninterp spec fn ed25519_sign(seed: Seq<u8>, msg: Seq<u8>) -> Seq<u8>;

/// Whether `sig` is a valid Ed25519 signature of `msg` under public key `pk`.
pub uninterp spec fn ed25519_verify(pk: Seq<u8>, msg: Seq<u8>, sig: Seq<u8>) -> bool;

/// The bytes an optional vector holds, if any.
pub open spec fn opt_bytes_view(o: Option<Vec<u8>>) -> Option<Seq<u8>> {
    match o {
        Some(v) => Some(v@),
        None => None,
    }
}

/// The AES key part of a symmetric key.
pub open spec fn sym_key_part(key: Seq<u8>) -> Seq<u8> {
    key.subrange(0, 16)
}

/// The nonce part of a symmetric key.
pub open spec fn sym_nonce_part(key: Seq<u8>) -> Seq<u8> {
    key.subrange(16, 28)
}

/// What `sym_enc` gives for `key` and `pt`.
pub open spec fn sym_enc_spec(key: Seq<u8>, pt: Seq<u8>) -> Seq<u8> {
    aes128gcm_encrypt(sym_key_part(key), sym_nonce_part(key), pt)
}

/// What `sym_dec` gives for `key` and `ct`.
pub open spec fn sym_dec_spec(key: Seq<u8>, ct: Seq<u8>) -> Option<Seq<u8>> {
    aes128gcm_decrypt(sym_key_part(key), sym_nonce_part(key), ct)
}

/// `sha2::Sha256::digest`. Claimed: the result is the SHA-256 digest of
/// `data`, a function of `data` alone.
#[verifier::external_body]
fn sha256_digest(data: &[u8]) -> (res: [u8; 32])
    ensures
        res@ == sha256(data@),
{
    <sha2::Sha256 as sha2::Digest>::digest(data).into()
}

/// `aes_gcm::Aes128Gcm::encrypt` with no associated data. It fails only on
/// a plaintext longer than `P_MAX`, which `requires` rules out. Claimed: the
/// result is the encryption of `pt` under `key` and `nonce`, 16 bytes (the
/// tag) longer than `pt`.
#[verifier::external_body]
fn aes128gcm_encrypt_bytes(key: &[u8], nonce: &[u8], pt: &[u8]) -> (ct: Vec<u8>)
    requires
        key@.len() == 16,
        nonce@.len() == 12,
        pt@.len() <= max_plaintext_len(),
    ensures
        ct@ == aes128gcm_encrypt(key@, nonce@, pt@),
        ct@.len() == pt@.len() + 16,
{
    let cipher = aes_gcm::Aes128Gcm::new(aes_gcm::Key::<aes_gcm::Aes128Gcm>::from_slice(key));
    cipher.encrypt(aes_gcm::Nonce::from_slice(nonce), pt).unwrap()
}

/// `aes_gcm::Aes128Gcm::decrypt` with no associated data, its error turned
/// into `None`. Claimed: the result is the decryption of `ct` under `key`
/// and `nonce`; and, as AES-GCM is an authenticated cipher with a
/// deterministic encryption, decrypting what `encrypt` gave for a
/// plaintext gives that plaintext back; and a successful decryption gives a
/// plaintext 16 bytes (the tag) shorter than `ct`, so at most `C_MAX`
/// (`P_MAX + 16`) bytes, as `decrypt_in_place_detached` bounds the body
/// without the tag by `C_MAX`; where that plaintext is at most `P_MAX`
/// bytes, so that `encrypt` accepts it, its encryption is `ct`.
#[verifier::external_body]
fn aes128gcm_decrypt_bytes(key: &[u8], nonce: &[u8], ct: &[u8]) -> (pt: Option<Vec<u8>>)
    requires
        key@.len() == 16,
        nonce@.len() == 12,
    ensures
        opt_bytes_view(pt) == aes128gcm_decrypt(key@, nonce@, ct@),
        forall|m: Seq<u8>|
            m.len() <= max_plaintext_len() && #[trigger] aes128gcm_encrypt(key@, nonce@, m) == ct@
                ==> opt_bytes_view(pt) == Some(m),
        opt_bytes_view(pt) is Some ==> opt_bytes_view(pt).unwrap().len() + 16 == ct@.len()
            && opt_bytes_view(pt).unwrap().len() <= max_plaintext_len() + 16,
        opt_bytes_view(pt) is Some && opt_bytes_view(pt).unwrap().len() <= max_plaintext_len()
            ==> aes128gcm_encrypt(key@, nonce@, opt_bytes_view(pt).unwrap()) == ct@,
{
    let cipher = aes_gcm::Aes128Gcm::new(aes_gcm::Key::<aes_gcm::Aes128Gcm>::from_slice(key));
    cipher.decrypt(aes_gcm::Nonce::from_slice(nonce), ct).ok()
}

/// `ring_compat` Ed25519: `SigningKey::from_slice(seed)` (never fails on 32
/// bytes) and `verifying_key()`. Claimed: the result is the public key of
/// the seed.
#[verifier::external_body]
fn ed25519_public_key_of(seed: &[u8; 32]) -> (pk: [u8; 32])
    ensures
        pk@ == ed25519_public_key(seed@),
{
    ring_compat::signature::ed25519::SigningKey::from_slice(seed).unwrap().verifying_key().0
}

/// `ring_compat` Ed25519: `SigningKey::from_slice(seed)` and `sign(msg)`
/// (never fails). Claimed: the result is the signature of `msg` under the
/// seed (Ed25519 signing is deterministic).
#[verifier::external_body]
fn ed25519_sign_with(seed: &[u8; 32], msg: &[u8]) -> (sig: [u8; 64])
    ensures
        sig@ == ed25519_sign(seed@, msg@),
{
    let sk = ring_compat::signature::ed25519::SigningKey::from_slice(seed).unwrap();
    let sig: ring_compat::signature::ed25519::Signature = sk.sign(msg);
    sig.into()
}

/// `ring_compat` Ed25519: `VerifyingKey::from_slice`,
/// `Signature::from_slice` (neither fails on 32 and 64 bytes) and
/// `verify`. Claimed: the result is whether the signature is valid; and, as
/// Ed25519 is a correct signature scheme, a signature made with a seed is
/// valid under the public key of that seed.
#[verifier::external_body]
fn ed25519_verify_with(pk: &[u8; 32], msg: &[u8], sig: &[u8; 64]) -> (ok: bool)
    ensures
        ok == ed25519_verify(pk@, msg@, sig@),
        forall|seed: Seq<u8>|
            seed.len() == 32 && pk@ == #[trigger] ed25519_public_key(seed) && sig@ == ed25519_sign(
                seed,
                msg@,
            ) ==> ok,
{
    let pk_obj = ring_compat::signature::ed25519::VerifyingKey::from_slice(pk).unwrap();
    let sig_obj = ring_compat::signature::ed25519::Signature::from_slice(sig).unwrap();
    pk_obj.verify(msg, &sig_obj).is_ok()
}

/// Hashes `data` with SHA-256.
pub fn hash(data: &[u8]) -> (res: Digest)
    ensures
        res@ == sha256(data@),
{
    sha256_digest(data)
}

/// Encryption is deterministic: equal keys and equal plaintexts give equal
/// ciphertexts (the nonce is part of the key).
pub proof fn lemma_sym_enc_deterministic(key1: Seq<u8>, key2: Seq<u8>, pt1: Seq<u8>, pt2: Seq<u8>)
    requires
        key1 == key2,
        pt1 == pt2,
    ensures
        sym_enc_spec(key1, pt1) == sym_enc_spec(key2, pt2),
{
}

/// Encrypts `pt` with AES-128-GCM under the key and nonce that `key` holds.
pub fn sym_enc(key: &SymK, pt: &[u8]) -> (ct: Vec<u8>)
    requires
        pt@.len() <= max_plaintext_len(),
    ensures
        ct@ == sym_enc_spec(key@, pt@),
        ct@.len() == pt@.len() + 16,
{
    let k: &[u8] = &key[0..16];
    let n: &[u8] = &key[16..28];
    aes128gcm_encrypt_bytes(k, n, pt)
}

/// Decrypts `ct` with AES-128-GCM under the key and nonce that `key` holds;
/// `Err(())` where `ct` does not authenticate. It gives back the plaintext
/// of what `sym_enc` gave under the same key; a plaintext it gives is 16
/// bytes shorter than `ct`, and, where `sym_enc` accepts it, encrypts to `ct`.
pub fn sym_dec(key: &SymK, ct: &[u8]) -> (pt: Result<Vec<u8>, ()>)
    ensures
        match pt {
            Ok(p) => sym_dec_spec(key@, ct@) == Some(p@),
            Err(_) => sym_dec_spec(key@, ct@) is None,
        },
        forall|m: Seq<u8>|
            m.len() <= max_plaintext_len() && #[trigger] sym_enc_spec(key@, m) == ct@ ==> (pt matches Ok(p)
                && p@ == m),
        pt matches Ok(p) ==> p@.len() + 16 == ct@.len() && p@.len() <= max_plaintext_len() + 16,
        pt matches Ok(p) ==> (p@.len() <= max_plaintext_len() ==> sym_enc_spec(key@, p@) == ct@),
{
    let k: &[u8] = &key[0..16];
    let n: &[u8] = &key[16..28];
    match aes128gcm_decrypt_bytes(k, n, ct) {
        Some(p) => Ok(p),
        None => Err(()),
    }
}

/// The public key of the secret key `sk`.
pub fn pk_pk(sk: &SK) -> (pk: PK)
    ensures
        pk@ == ed25519_public_key(sk@),
{
    ed25519_public_key_of(sk)
}

/// Signs `data` with the secret key `sk`.
pub fn pk_sign(sk: &SK, data: &[u8]) -> (sign: Sign)
    ensures
        sign@ == ed25519_sign(sk@, data@),
{
    ed25519_sign_with(sk, data)
}

/// Checks the signature `sign` of `data` under the public key `pk`. A
/// signature that `pk_sign` made with a secret key is accepted under the
/// public key that `pk_pk` gives for it.
pub fn pk_verify(pk: &PK, data: &[u8], sign: &Sign) -> (res: Result<(), ()>)
    ensures
        res is Ok <==> ed25519_verify(pk@, data@, sign@),
        forall|sk: Seq<u8>|
            sk.len() == 32 && pk@ == #[trigger] ed25519_public_key(sk) && sign@ == ed25519_sign(sk, data@)
                ==> res is Ok,
{
    if ed25519_verify_with(pk, data, sign) {
        Ok(())
    } else {
        Err(())
    }
}

} // verus!
