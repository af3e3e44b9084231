use eemod::msp::{accumulate_report, add_gamma_shares};
use eemod::utils::{bytes_add, bytes_minus};
use num_bigint::BigUint;

#[test]
fn bytes_add_reads_little_endian_and_writes_big_endian() {
    // 257 + 255 = 512
    let mut lhs = vec![1u8, 1];
    bytes_add(&mut lhs, &vec![255u8]);
    assert_eq!(lhs, vec![2u8, 0]);
}

#[test]
fn bytes_add_of_empty_strings_is_one_zero_byte() {
    let mut lhs: Vec<u8> = vec![];
    bytes_add(&mut lhs, &vec![]);
    assert_eq!(lhs, vec![0u8]);
}

#[test]
fn bytes_add_carries_into_a_new_byte() {
    let mut lhs = vec![0xffu8, 0xff];
    bytes_add(&mut lhs, &vec![1u8]);
    assert_eq!(lhs, vec![1u8, 0, 0]);
}

#[test]
fn bytes_minus_reads_little_endian_and_writes_big_endian() {
    // 512 - 1 = 511
    let mut lhs = vec![0u8, 2];
    bytes_minus(&mut lhs, &vec![1u8]);
    assert_eq!(lhs, vec![1u8, 255]);
}

#[test]
fn bytes_minus_to_zero_is_one_zero_byte() {
    let mut lhs = vec![7u8, 0, 0];
    bytes_minus(&mut lhs, &vec![7u8]);
    assert_eq!(lhs, vec![0u8]);
}

#[test]
fn bytes_add_matches_biguint_on_long_strings() {
    let a: Vec<u8> = (0..164u32).map(|i| (i * 31 + 7) as u8).collect();
    let b: Vec<u8> = (0..100u32).map(|i| (i * 17 + 3) as u8).collect();
    let mut lhs = a.clone();
    bytes_add(&mut lhs, &b);
    let expected = (BigUint::from_bytes_le(&a) + BigUint::from_bytes_le(&b)).to_bytes_be();
    assert_eq!(lhs, expected);
    assert_eq!(
        BigUint::from_bytes_be(&lhs),
        BigUint::from_bytes_le(&a) + BigUint::from_bytes_le(&b)
    );
}

#[test]
fn add_gamma_shares_wraps_and_stops_at_the_shorter_slice() {
    let gammas = [1u128, u128::MAX];
    let mut values = [5u128, 2, 9];
    add_gamma_shares(&gammas, &mut values);
    assert_eq!(values, [6u128, 1, 9]);
}

#[test]
fn accumulate_report_wraps_modulo_2_128() {
    let mut values = [u128::MAX, 3];
    accumulate_report(&mut values, &[2u128]);
    assert_eq!(values, [1u128, 3]);
}

#[test]
fn accumulate_report_adds_where_both_have_items() {
    let mut values = [1u128, 2];
    accumulate_report(&mut values, &[10u128, 20, 30]);
    assert_eq!(values, [11u128, 22]);
}
