use bounded_random::{fold_entropy, rand_u64_with, reduce, RandError, ENTROPY_LEN};

fn buffer_with(bytes: &[(usize, u8)]) -> [u8; ENTROPY_LEN] {
    let mut buffer = [0u8; ENTROPY_LEN];
    for &(index, byte) in bytes {
        buffer[index] = byte;
    }
    buffer
}

fn counting_from(start: u8) -> [u8; ENTROPY_LEN] {
    let mut buffer = [0u8; ENTROPY_LEN];
    for (index, slot) in buffer.iter_mut().enumerate() {
        *slot = start + index as u8;
    }
    buffer
}

#[test]
fn entropy_buffer_has_32_bytes() {
    assert_eq!(ENTROPY_LEN, 32);
}

#[test]
fn fold_of_zeros_is_zero() {
    assert_eq!(fold_entropy(&[0u8; ENTROPY_LEN]), 0);
}

#[test]
fn fold_weighs_bytes_by_powers_of_255() {
    assert_eq!(fold_entropy(&buffer_with(&[(30, 7)])), 7);
    assert_eq!(fold_entropy(&buffer_with(&[(29, 1)])), 255);
    assert_eq!(fold_entropy(&buffer_with(&[(29, 1), (30, 255)])), 510);
    assert_eq!(fold_entropy(&buffer_with(&[(28, 2), (29, 3), (30, 4)])), 130_819);
}

#[test]
fn fold_wraps_modulo_two_to_the_64() {
    // 255^30 mod 2^64
    assert_eq!(fold_entropy(&buffer_with(&[(0, 1)])), 13_061_214_062_819_598_849);
    assert_eq!(fold_entropy(&[255u8; ENTROPY_LEN]), 16_699_416_039_906_086_911);
    assert_eq!(fold_entropy(&counting_from(0)), 969_730_063_963_983_631);
    assert_eq!(fold_entropy(&counting_from(1)), 7_473_493_352_591_654_928);
}

#[test]
fn fold_leaves_the_last_byte_out() {
    assert_eq!(fold_entropy(&buffer_with(&[(31, 200)])), 0);
    let mut buffer = counting_from(1);
    let before = fold_entropy(&buffer);
    buffer[31] = 0;
    assert_eq!(fold_entropy(&buffer), before);
    buffer[30] ^= 1;
    assert_ne!(fold_entropy(&buffer), before);
}

#[test]
fn fold_counts_the_first_byte_once() {
    // The first byte is added to an empty accumulator: its weight is 255^30,
    // the same as if the accumulator had been multiplied before it.
    let one = fold_entropy(&buffer_with(&[(0, 1)]));
    let two = fold_entropy(&buffer_with(&[(0, 2)]));
    assert_eq!(two, one.wrapping_mul(2));
}

#[test]
fn reduce_takes_the_remainder_from_the_lower_bound() {
    assert_eq!(reduce(10, 3, 5), 4);
    assert_eq!(reduce(0, 3, 5), 3);
    assert_eq!(reduce(2, 3, 5), 5);
    assert_eq!(reduce(3, 3, 5), 3);
    assert_eq!(reduce(7_473_493_352_591_654_928, 10, 20), 11);
    assert_eq!(reduce(969_730_063_963_983_631, 100, 1000), 808);
}

#[test]
fn reduce_of_a_single_value_range() {
    assert_eq!(reduce(0, 7, 7), 7);
    assert_eq!(reduce(u64::MAX, 7, 7), 7);
    assert_eq!(reduce(12345, u64::MAX, u64::MAX), u64::MAX);
}

#[test]
fn reduce_over_the_full_range_is_the_identity() {
    assert_eq!(reduce(0, 0, u64::MAX), 0);
    assert_eq!(reduce(77, 0, u64::MAX), 77);
    assert_eq!(reduce(u64::MAX, 0, u64::MAX), u64::MAX);
}

#[test]
fn reduce_next_to_the_full_range() {
    // 2^64 - 1 values: the modulus is u64::MAX.
    assert_eq!(reduce(u64::MAX, 1, u64::MAX), 1);
    assert_eq!(reduce(u64::MAX - 1, 1, u64::MAX), u64::MAX);
    assert_eq!(reduce(16_699_416_039_906_086_911, 1, u64::MAX), 16_699_416_039_906_086_912);
    assert_eq!(reduce(u64::MAX, 0, u64::MAX - 1), 0);
}

#[test]
fn draw_on_given_entropy() {
    let entropy = counting_from(1);
    assert_eq!(rand_u64_with(1, 3, Ok(()), &entropy), Ok(1));
    assert_eq!(rand_u64_with(10, 20, Ok(()), &entropy), Ok(11));
    assert_eq!(rand_u64_with(5, 5, Ok(()), &entropy), Ok(5));
    assert_eq!(rand_u64_with(0, u64::MAX, Ok(()), &entropy), Ok(7_473_493_352_591_654_928));
    assert_eq!(rand_u64_with(100, 1000, Ok(()), &counting_from(0)), Ok(808));
}

#[test]
fn draw_reaches_every_value_of_a_small_range() {
    for offset in 0u8..3 {
        let entropy = buffer_with(&[(30, offset)]);
        assert_eq!(rand_u64_with(0, 2, Ok(()), &entropy), Ok(offset as u64));
        assert_eq!(rand_u64_with(1, 3, Ok(()), &entropy), Ok(1 + offset as u64));
    }
}

#[test]
fn draw_is_a_function_of_its_entropy() {
    let entropy = counting_from(3);
    let first = rand_u64_with(0, 999, Ok(()), &entropy);
    for _ in 0..10 {
        assert_eq!(rand_u64_with(0, 999, Ok(()), &entropy), first);
    }
}

#[test]
fn draw_refuses_an_inverted_range() {
    let entropy = counting_from(1);
    assert_eq!(rand_u64_with(1, 0, Ok(()), &entropy), Err(RandError::InvalidRange));
    assert_eq!(rand_u64_with(u64::MAX, 0, Ok(()), &entropy), Err(RandError::InvalidRange));
    // The range is looked at first: a failed fetch does not hide a bad range.
    assert_eq!(
        rand_u64_with(1, 0, Err(getrandom::Error::UNSUPPORTED), &entropy),
        Err(RandError::InvalidRange)
    );
}

#[test]
fn draw_reports_a_failed_fetch() {
    let entropy = [0u8; ENTROPY_LEN];
    assert_eq!(
        rand_u64_with(0, 10, Err(getrandom::Error::UNSUPPORTED), &entropy),
        Err(RandError::EntropyUnavailable(getrandom::Error::UNSUPPORTED))
    );
    assert_eq!(
        rand_u64_with(7, 7, Err(getrandom::Error::UNEXPECTED), &counting_from(1)),
        Err(RandError::EntropyUnavailable(getrandom::Error::UNEXPECTED))
    );
}
