use gas_cost::wide::Wide;

fn limbs(low: &[u64]) -> [u64; 16] {
    let mut all = [0u64; 16];
    all[..low.len()].copy_from_slice(low);
    all
}

#[test]
fn small_numbers_go_in_and_out() {
    assert_eq!(Wide::from_u64(0).to_u128(), Some(0));
    assert_eq!(Wide::from_u64(u64::MAX).to_u128(), Some(u64::MAX as u128));
    assert_eq!(Wide::from_u128(u128::MAX).to_u128(), Some(u128::MAX));
    assert_eq!(Wide::from_u128(u128::MAX).limbs(), limbs(&[u64::MAX, u64::MAX]));
    assert_eq!(Wide::from_limbs(limbs(&[0, 0, 1])).to_u128(), None);
    let mut top = limbs(&[5]);
    top[15] = 1;
    assert_eq!(Wide::from_limbs(top).to_u128(), None);
    assert_eq!(Wide::from_limbs(top).limbs(), top);
}

#[test]
fn zero_is_told_from_the_rest() {
    assert!(Wide::from_u64(0).is_zero());
    assert!(!Wide::from_u64(1).is_zero());
    let mut top = limbs(&[]);
    top[15] = 1;
    assert!(!Wide::from_limbs(top).is_zero());
    let mut middle = limbs(&[]);
    middle[8] = 1;
    assert!(!Wide::from_limbs(middle).is_zero());
}

#[test]
fn products_are_exact() {
    let a = Wide::from_u128(u128::MAX);
    let b = Wide::from_u128(u128::MAX);
    let p = a.checked_mul(&b).unwrap();
    assert_eq!(p.limbs(), limbs(&[1, 0, u64::MAX - 1, u64::MAX]));
    let seven = Wide::from_u64(7);
    let six = Wide::from_u64(6);
    assert_eq!(seven.checked_mul(&six).unwrap().to_u128(), Some(42));
    assert_eq!(seven.checked_mul(&Wide::from_u64(0)).unwrap().to_u128(), Some(0));
}

#[test]
fn a_product_of_1025_bits_is_none() {
    let mut half = limbs(&[]);
    half[8] = 1;
    let half = Wide::from_limbs(half);
    assert!(half.checked_mul(&half).is_none());
    let mut top = limbs(&[]);
    top[15] = 1 << 63;
    let top_wide = Wide::from_limbs(top);
    assert!(top_wide.checked_mul(&Wide::from_u64(2)).is_none());
    assert_eq!(top_wide.checked_mul(&Wide::from_u64(1)).unwrap().limbs(), top);
    let mut below = limbs(&[]);
    below[7] = 1;
    let below = Wide::from_limbs(below);
    let mut square = limbs(&[]);
    square[14] = 1;
    assert_eq!(below.checked_mul(&below).unwrap().limbs(), square);
}

#[test]
fn quotients_round_down() {
    let n = Wide::from_u64(47);
    assert_eq!(n.checked_div(&Wide::from_u64(6)).unwrap().to_u128(), Some(7));
    assert_eq!(n.checked_div(&Wide::from_u64(48)).unwrap().to_u128(), Some(0));
    assert_eq!(n.checked_div(&Wide::from_u64(47)).unwrap().to_u128(), Some(1));
    let big = Wide::from_limbs(limbs(&[0, 0, 0, 1_000_000_000_000_000_000]));
    let q = big.checked_div(&Wide::from_limbs(limbs(&[0, 0, 1]))).unwrap();
    assert_eq!(q.limbs(), limbs(&[0, 1_000_000_000_000_000_000]));
}

#[test]
fn division_by_zero_is_none() {
    assert!(Wide::from_u64(47).checked_div(&Wide::from_u64(0)).is_none());
    assert!(Wide::from_u64(0).checked_div(&Wide::from_u64(0)).is_none());
}
