use eemod::crypto::{sym_enc, SymK};
use eemod::eems::{gen_rand_id_vec, EemsIdShuffle, ID_SIZE};
use eemod::msp::{EemsVec, MspIdShuffle, Perm, SymEncPerm};
use eemod::utils::{bytes_add, bytes_minus};
use num_bigint::BigUint;

fn le_add_be(a: &[u8], b: &[u8]) -> Vec<u8> {
    (BigUint::from_bytes_le(a) + BigUint::from_bytes_le(b)).to_bytes_be()
}

fn le_sub_be(a: &[u8], b: &[u8]) -> Vec<u8> {
    (BigUint::from_bytes_le(a) - BigUint::from_bytes_le(b)).to_bytes_be()
}

fn rows(n: usize, len: usize, seed: u8) -> Vec<Vec<u8>> {
    (0..n)
        .map(|i| (0..len).map(|j| (i as u8).wrapping_mul(31).wrapping_add(j as u8).wrapping_add(seed)).collect())
        .collect()
}

fn key(b: u8) -> SymK {
    [b; 28]
}

#[test]
fn sym_enc_perm_encrypts_the_item() {
    let p = SymEncPerm::new(key(4));
    let mut item = vec![1u8, 2, 3];
    p.perm(&mut item);
    assert_eq!(item, sym_enc(&key(4), &[1, 2, 3]));
}

#[test]
fn run_msp_perm_permutes_every_item() {
    let share = rows(3, 10, 1);
    let perm = SymEncPerm::new(key(1));
    let mut s = MspIdShuffle::new(share.clone(), perm.clone(), SymEncPerm::new(key(2)), EemsVec::OneVec(vec![]));
    s.run_msp_perm();
    // the masked share of a second party with zero masks is the share itself, big-endian
    let mut t = MspIdShuffle::new(share.clone(), perm, SymEncPerm::new(key(2)), EemsVec::ThreeVec(vec![], vec![vec![]; 3], vec![]));
    t.run_msp_perm();
    let z = t.gen_shared_share(None);
    for i in 0..3 {
        let enc = sym_enc(&key(1), &share[i]);
        assert_eq!(z[i], le_sub_be(&enc, &[]));
    }
}

#[test]
fn second_party_masks_its_share_with_a3() {
    let share = rows(2, 8, 100);
    let a3 = rows(2, 4, 3);
    let s = MspIdShuffle::new(
        share.clone(),
        SymEncPerm::new(key(1)),
        SymEncPerm::new(key(2)),
        EemsVec::ThreeVec(vec![], a3.clone(), vec![]),
    );
    let z = s.gen_shared_share(None);
    assert_eq!(z.len(), 2);
    for i in 0..2 {
        assert_eq!(z[i], le_sub_be(&share[i], &a3[i]));
    }
}

#[test]
fn first_party_adds_permutes_and_unmasks() {
    let share = rows(2, 12, 7);
    let z2 = rows(2, 12, 50);
    let a1 = vec![vec![1u8], vec![0u8]];
    let s = MspIdShuffle::new(share.clone(), SymEncPerm::new(key(1)), SymEncPerm::new(key(2)), EemsVec::OneVec(a1.clone()));
    let z1 = s.gen_shared_share(Some(&z2));
    for i in 0..2 {
        let x = le_add_be(&share[i], &z2[i]);
        let y = sym_enc(&key(2), &x);
        assert_eq!(z1[i], le_sub_be(&y, &a1[i]));
    }
}

#[test]
fn second_party_finishes_with_delta_and_a2() {
    let z1 = rows(2, 9, 3);
    let a2 = rows(2, 5, 8);
    let delta = rows(2, 6, 9);
    let s = MspIdShuffle::new(vec![], SymEncPerm::new(key(1)), SymEncPerm::new(key(3)), EemsVec::ThreeVec(a2.clone(), vec![], delta.clone()));
    let out = s.gen_shared_share(Some(&z1));
    for i in 0..2 {
        let y = sym_enc(&key(3), &z1[i]);
        let mut expected = y.clone();
        bytes_add(&mut expected, &delta[i]);
        bytes_add(&mut expected, &a2[i]);
        assert_eq!(out[i], expected);
        assert_eq!(out[i], le_add_be(&le_add_be(&y, &delta[i]), &a2[i]));
    }
}

#[test]
fn gen_rand_id_vec_shape() {
    let v = gen_rand_id_vec(5);
    assert_eq!(v.len(), 5);
    assert!(v.iter().all(|x| x.len() == ID_SIZE));
    assert!(gen_rand_id_vec(0).is_empty());
}

#[test]
fn gen_shuffle_shares_from_computes_delta_and_shuffled_ids() {
    let shared = SymEncPerm::new(key(6));
    let eems = EemsIdShuffle::new(shared);
    let a1 = rows(3, ID_SIZE, 1);
    let a2 = vec![vec![0u8]; 3];
    let a3 = rows(3, ID_SIZE, 2);
    let ids = rows(4, 20, 3);
    let (k1, k2) = (key(11), key(12));
    let ((s1, s2), out) = eems
        .gen_shuffle_shares_from(a1.clone(), a2.clone(), a3.clone(), k1, k2, ids.clone())
        .unwrap();
    match s1 {
        EemsVec::OneVec(v) => assert_eq!(v, a1),
        _ => panic!("first share must hold one vector"),
    }
    match s2 {
        EemsVec::ThreeVec(b2, b3, delta) => {
            assert_eq!(b2, a2);
            assert_eq!(b3, a3);
            for i in 0..3 {
                let mut d = sym_enc(&k1, &a3[i]);
                bytes_add(&mut d, &a1[i]);
                let mut d = sym_enc(&k2, &d);
                bytes_minus(&mut d, &a2[i]);
                assert_eq!(delta[i], d);
            }
        }
        _ => panic!("second share must hold three vectors"),
    }
    assert_eq!(out.len(), 4);
    for i in 0..4 {
        let x = sym_enc(&key(6), &ids[i]);
        let x = sym_enc(&k1, &x);
        assert_eq!(out[i], sym_enc(&k2, &x));
    }
}

#[test]
fn gen_shuffle_shares_from_refuses_a_negative_delta() {
    let eems = EemsIdShuffle::new(SymEncPerm::new(key(6)));
    let a1 = rows(2, ID_SIZE, 1);
    let a3 = rows(2, ID_SIZE, 2);
    let mut a2 = vec![vec![0u8]; 2];
    a2[1] = vec![0xffu8; 400];
    assert!(eems.gen_shuffle_shares_from(a1, a2, a3, key(1), key(2), vec![]).is_none());
}

#[test]
fn gen_shuffle_shares_random_run() {
    let eems = EemsIdShuffle::new(SymEncPerm::new(key(6)));
    let ids = rows(3, 164, 0);
    if let Some(((EemsVec::OneVec(a1), EemsVec::ThreeVec(a2, a3, delta)), out)) = eems.gen_shuffle_shares(4, ids) {
        assert_eq!((a1.len(), a2.len(), a3.len(), delta.len(), out.len()), (4, 4, 4, 4, 3));
        assert!(out.iter().all(|x| x.len() == 164 + 48));
    }
}

#[test]
fn shuffle_protocol_runs_end_to_end() {
    // Three parties as in the evaluation: the exchange server prepares the
    // vectors, the two providers exchange masked shares.
    let n = 3;
    let share1 = rows(n, ID_SIZE, 10);
    let share2 = rows(n, ID_SIZE, 20);
    let a1 = rows(n, ID_SIZE, 30);
    let a2 = vec![vec![0u8]; n];
    let a3 = vec![vec![0u8]; n];
    let (k1, k2) = (key(1), key(2));
    let shared = SymEncPerm::new(key(9));
    let eems = EemsIdShuffle::new(shared.clone());
    let ((e1, e2), _) = eems
        .gen_shuffle_shares_from(a1.clone(), a2, a3, k1, k2, vec![])
        .unwrap();
    let mut p2 = MspIdShuffle::new(share2, shared.clone(), SymEncPerm::new(k2), e2);
    let mut p1 = MspIdShuffle::new(share1, shared, SymEncPerm::new(k1), e1);
    p2.run_msp_perm();
    let z2 = p2.gen_shared_share(None);
    p1.run_msp_perm();
    let z1 = p1.gen_shared_share(Some(&z2));
    let fin = p2.gen_shared_share(Some(&z1));
    assert_eq!(fin.len(), n);
}
