use aes_gcm::aead::Aead;
use aes_gcm::KeyInit;
use eemod::crypto::{hash, pk_pk, pk_sign, pk_verify, sym_dec, sym_enc, Sign, SymK, PK, SK};
use rand::Rng;

fn unhex(s: &str) -> Vec<u8> {
    hex::decode(s).unwrap()
}

#[test]
fn test_sym_enc_dec_ok() {
    let key: SymK = rand::thread_rng().gen();
    let pt = b"Hello, world!";
    let ct = sym_enc(&key, pt);
    assert_eq!(sym_dec(&key, &ct).unwrap(), pt);
}

#[test]
fn test_sign_verify_ok() {
    let sk: SK = rand::thread_rng().gen();
    let pk = pk_pk(&sk);
    let data = b"Hello, world!";
    let sign = pk_sign(&sk, data);
    assert!(pk_verify(&pk, data, &sign).is_ok());
}

#[test]
fn hash_of_abc_is_the_sha256_test_vector() {
    let d = hash(b"abc");
    assert_eq!(
        d.to_vec(),
        unhex("ba7816bf8f01cfea414140de5dae2223b00361a396177a9cb410ff61f20015ad")
    );
}

#[test]
fn hash_of_empty_input() {
    assert_eq!(
        hash(b"").to_vec(),
        unhex("e3b0c44298fc1c149afbf4c8996fb92427ae41e4649b934ca495991b7852b855")
    );
}

#[test]
fn sym_enc_uses_first_16_bytes_as_key_and_last_12_as_nonce() {
    let mut key: SymK = [0u8; 28];
    for (i, b) in key.iter_mut().enumerate() {
        *b = i as u8 * 7 + 1;
    }
    let pt = b"a message body";
    let ct = sym_enc(&key, pt);
    let cipher = aes_gcm::Aes128Gcm::new(aes_gcm::Key::<aes_gcm::Aes128Gcm>::from_slice(&key[..16]));
    let expected = cipher.encrypt(aes_gcm::Nonce::from_slice(&key[16..]), &pt[..]).unwrap();
    assert_eq!(ct, expected);
    assert_eq!(ct.len(), pt.len() + 16);
    assert_ne!(&ct[..pt.len()], &pt[..]);
}

#[test]
fn sym_enc_of_empty_plaintext_is_a_tag() {
    let key: SymK = [3u8; 28];
    let ct = sym_enc(&key, b"");
    assert_eq!(ct.len(), 16);
    assert_eq!(sym_dec(&key, &ct).unwrap(), Vec::<u8>::new());
}

#[test]
fn sym_dec_rejects_wrong_key_and_tampered_ciphertext() {
    let key: SymK = [9u8; 28];
    let mut other = key;
    other[0] ^= 1;
    let ct = sym_enc(&key, b"payload");
    assert_eq!(sym_dec(&other, &ct), Err(()));
    let mut bad = ct.clone();
    bad[0] ^= 0x80;
    assert_eq!(sym_dec(&key, &bad), Err(()));
    assert_eq!(sym_dec(&key, &ct[..10]), Err(()));
}

#[test]
fn ed25519_rfc8032_test_vector_one() {
    let sk: SK = unhex("9d61b19deffd5a60ba844af492ec2cc44449c5697b326919703bac031cae7f60")
        .try_into()
        .unwrap();
    let pk = pk_pk(&sk);
    assert_eq!(
        pk.to_vec(),
        unhex("d75a980182b10ab7d54bfed3c964073a0ee172f3daa62325af021a68f707511a")
    );
    let sign = pk_sign(&sk, b"");
    assert_eq!(
        sign.to_vec(),
        unhex(
            "e5564300c360ac729086e2cc806e828a84877f1eb8e5d974d873e065224901555fb8821590a33bacc61e39701cf9b46bd25bf5f0595bbe24655141438e7a100b"
        )
    );
    assert!(pk_verify(&pk, b"", &sign).is_ok());
}

#[test]
fn pk_verify_rejects_other_data_key_or_signature() {
    let sk: SK = [5u8; 32];
    let pk: PK = pk_pk(&sk);
    let sign: Sign = pk_sign(&sk, b"data");
    assert_eq!(pk_verify(&pk, b"date", &sign), Err(()));
    let other_pk = pk_pk(&[6u8; 32]);
    assert_eq!(pk_verify(&other_pk, b"data", &sign), Err(()));
    let mut bad = sign;
    bad[10] ^= 4;
    assert_eq!(pk_verify(&pk, b"data", &bad), Err(()));
}

#[test]
fn sym_dec_success_means_the_ciphertext_is_an_encryption() {
    let key: SymK = [2u8; 28];
    let ct = sym_enc(&key, b"abc");
    let pt = sym_dec(&key, &ct).unwrap();
    assert_eq!(sym_enc(&key, &pt), ct);
}

#[test]
fn sym_enc_is_deterministic_and_sym_dec_drops_the_tag() {
    let key: SymK = [11u8; 28];
    let a = sym_enc(&key, b"same plaintext");
    let b = sym_enc(&key, b"same plaintext");
    assert_eq!(a, b);
    assert_eq!(sym_dec(&key, &a).unwrap().len() + 16, a.len());
}
