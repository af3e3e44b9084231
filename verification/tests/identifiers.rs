use eemod::crypto::{hash, pk_pk, pk_sign, pk_verify, sym_enc, SymK, SK};
use eemod::eems::{auth_identity, EemsForSendImpl, GenIdError};
use eemod::proto::{Auth, GenIdReq, GenIdRes, GenIdSignedPack, MsgId};
use eemod::user::{bytes_eq, Receiver, Sender};

const EEMS_SK: SK = [42u8; 32];
const USER_SK: SK = [7u8; 32];
const USER_ID: [u8; 16] = [0xf7, 0x58, 0x4d, 0x00, 0x69, 0x48, 0x4e, 0x9c, 0xb4, 0x44, 0xff, 0x75, 0x7f, 0x4d, 0xd9, 0xc1];

fn sender() -> Sender {
    Sender::new(USER_ID, pk_sign(&USER_SK, &USER_ID))
}

fn issue(body: &[u8], msg_key: &SymK) -> MsgId {
    let (req, ct_hash) = sender().gen_id_by_user(body, msg_key);
    let eems = EemsForSendImpl::new(EEMS_SK);
    let (src_ct, sign, _id_key) = eems.gen_id_by_eems(&USER_ID, &req.ct_hash, req.ct_hash_ct.clone());
    Sender::msg_id_from_reply(msg_key, &ct_hash, GenIdRes { src_ct, sign: sign.to_vec() })
}

#[test]
fn gen_id_by_user_builds_the_request() {
    let key: SymK = [3u8; 28];
    let body = b"Hello, world!";
    let (req, ct_hash) = sender().gen_id_by_user(body, &key);
    assert_eq!(req.ct, sym_enc(&key, body));
    assert_eq!(ct_hash, hash(&req.ct));
    assert_eq!(req.ct_hash, ct_hash.to_vec());
    assert_eq!(req.ct_hash_ct, sym_enc(&key, &ct_hash));
    let auth = req.auth.unwrap();
    assert_eq!(auth.id, USER_ID.to_vec());
    assert!(pk_verify(&pk_pk(&USER_SK), &auth.id, &auth.id_sign.try_into().unwrap()).is_ok());
}

#[test]
fn gen_id_by_eems_with_key_encrypts_the_source_and_signs_the_pack() {
    let eems = EemsForSendImpl::new(EEMS_SK);
    let id_key: SymK = [8u8; 28];
    let ct_hash = vec![1u8; 32];
    let ct_hash_ct = vec![2u8; 48];
    let (src_ct, sign, k) = eems.gen_id_by_eems_with_key(&USER_ID, &ct_hash, ct_hash_ct.clone(), id_key);
    assert_eq!(k, id_key);
    assert_eq!(src_ct, sym_enc(&id_key, &USER_ID));
    let pack = GenIdSignedPack { src_ct: src_ct.clone(), ct_hash, ct_hash_ct }.encode_to_vec();
    assert_eq!(sign, pk_sign(&EEMS_SK, &pack));
}

#[test]
fn issued_identifier_is_accepted_by_the_receiver() {
    let key: SymK = [5u8; 28];
    let body = b"Hello, world!";
    let msg_id = issue(body, &key);
    let receiver = Receiver::new(pk_pk(&EEMS_SK));
    assert_eq!(receiver.verify_msg(body, &msg_id), Ok(()));
}

#[test]
fn verify_msg_rejects_other_body_key_or_server() {
    let key: SymK = [5u8; 28];
    let msg_id = issue(b"body one", &key);
    let receiver = Receiver::new(pk_pk(&EEMS_SK));
    assert_eq!(receiver.verify_msg(b"body two", &msg_id), Err(()));
    let other = Receiver::new(pk_pk(&[1u8; 32]));
    assert_eq!(other.verify_msg(b"body one", &msg_id), Err(()));
    let mut forged = msg_id.clone();
    forged.src_ct[0] ^= 1;
    assert_eq!(receiver.verify_msg(b"body one", &forged), Err(()));
}

#[test]
fn handle_gen_id_answers_an_authenticated_sender() {
    let key: SymK = [6u8; 28];
    let (req, ct_hash) = sender().gen_id_by_user(b"body", &key);
    let (id, id_sign) = auth_identity(&req.auth);
    assert_eq!(id, USER_ID);
    let eems = EemsForSendImpl::new(EEMS_SK);
    let (res, h, archive) = eems.handle_gen_id(req.clone(), &id, &id_sign, &pk_pk(&USER_SK)).unwrap();
    assert_eq!(h, ct_hash);
    assert_eq!(archive.ct, req.ct);
    assert_eq!(res.src_ct, sym_enc(&archive.id_key, &USER_ID));
    let msg_id = Sender::msg_id_from_reply(&key, &ct_hash, res);
    assert!(Receiver::new(pk_pk(&EEMS_SK)).verify_msg(b"body", &msg_id).is_ok());
}

#[test]
fn handle_gen_id_refuses_a_bad_identity_signature() {
    let key: SymK = [6u8; 28];
    let forged = Sender::new(USER_ID, pk_sign(&[9u8; 32], &USER_ID));
    let (req, _) = forged.gen_id_by_user(b"body", &key);
    let (id, id_sign) = auth_identity(&req.auth);
    let eems = EemsForSendImpl::new(EEMS_SK);
    let r = eems.handle_gen_id(req, &id, &id_sign, &pk_pk(&USER_SK));
    assert_eq!(r.err(), Some(GenIdError::Unauthenticated));
}

#[test]
fn auth_identity_reads_the_request() {
    let auth = Some(Auth { id: vec![1u8; 16], id_sign: vec![2u8; 64] });
    let (id, sign) = auth_identity(&auth);
    assert_eq!(id, [1u8; 16]);
    assert_eq!(sign, [2u8; 64]);
}

#[test]
fn bytes_eq_compares_contents() {
    assert!(bytes_eq(&[1, 2], &[1, 2]));
    assert!(!bytes_eq(&[1, 2], &[1, 3]));
    assert!(!bytes_eq(&[1], &[1, 0]));
    assert!(bytes_eq(&[], &[]));
}

#[test]
fn request_fields_are_fresh_for_each_key() {
    let (r1, _) = sender().gen_id_by_user(b"same", &[1u8; 28]);
    let (r2, _) = sender().gen_id_by_user(b"same", &[2u8; 28]);
    assert_ne!(r1.ct, r2.ct);
    let _ = GenIdReq { ..r1 };
}

#[test]
fn encoded_message_identifier_takes_164_bytes() {
    let msg_id = issue(b"Hello, world!", &[4u8; 28]);
    assert_eq!(msg_id.encode_to_vec().len(), 164);
}

#[test]
fn handle_gen_id_refuses_a_bad_signature_whatever_the_hash_length() {
    let forged = Sender::new(USER_ID, pk_sign(&[9u8; 32], &USER_ID));
    let (mut req, _) = forged.gen_id_by_user(b"body", &[6u8; 28]);
    req.ct_hash = vec![1, 2, 3];
    let (id, id_sign) = auth_identity(&req.auth);
    let r = EemsForSendImpl::new(EEMS_SK).handle_gen_id(req, &id, &id_sign, &pk_pk(&USER_SK));
    assert_eq!(r.err(), Some(GenIdError::Unauthenticated));
}

#[test]
fn try_handle_gen_id_flags_a_short_hash_from_an_authenticated_sender() {
    let (mut req, _) = sender().gen_id_by_user(b"body", &[6u8; 28]);
    req.ct_hash = vec![1, 2, 3];
    let (id, id_sign) = auth_identity(&req.auth);
    let eems = EemsForSendImpl::new(EEMS_SK);
    assert!(eems.try_handle_gen_id(req.clone(), &id, &id_sign, &pk_pk(&USER_SK)).is_none());
    let ok = eems.try_handle_gen_id(req, &id, &id_sign, &pk_pk(&[1u8; 32])).unwrap();
    assert_eq!(ok.err(), Some(GenIdError::Unauthenticated));
}
