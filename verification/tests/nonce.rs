use fortuna_miner::nonce::increment_u8_array;

#[test]
fn increment_first_byte() {
    let mut x = [0u8, 0, 0];
    increment_u8_array(&mut x);
    assert_eq!(x, [1, 0, 0]);
}

#[test]
fn increment_carries_into_next_byte() {
    let mut x = [255u8, 7, 9];
    increment_u8_array(&mut x);
    assert_eq!(x, [0, 8, 9]);
    let mut x = [255u8, 255, 9];
    increment_u8_array(&mut x);
    assert_eq!(x, [0, 0, 10]);
}

#[test]
fn increment_wraps_to_zero() {
    let mut x = [255u8; 4];
    increment_u8_array(&mut x);
    assert_eq!(x, [0u8; 4]);
}

#[test]
fn increment_empty_is_noop() {
    let mut x: [u8; 0] = [];
    increment_u8_array(&mut x);
    assert_eq!(x.len(), 0);
}

#[test]
fn increment_is_little_endian_successor() {
    let mut x = [0u8; 2];
    for expected in 1u32..=600 {
        increment_u8_array(&mut x);
        assert_eq!(u32::from(x[0]) + 256 * u32::from(x[1]), expected);
    }
}

#[test]
fn increments_return_to_start_after_full_cycle() {
    let start = [17u8];
    let mut x = start;
    for k in 1..=256u32 {
        increment_u8_array(&mut x);
        assert_eq!(x == start, k % 256 == 0);
    }
}
