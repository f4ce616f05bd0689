use fortuna_miner::difficulty::{first_nonzero_index, get_difficulty, score_digest, DigestScore};

fn hash_with_prefix(prefix: &[u8]) -> [u8; 32] {
    let mut h = [0x77u8; 32];
    h[..prefix.len()].copy_from_slice(prefix);
    h
}

#[test]
fn all_zero_hash_scores_sixty_four_zeroes() {
    assert_eq!(get_difficulty(&[0u8; 32]), (64, 0));
}

#[test]
fn no_leading_zero_reads_first_two_bytes() {
    let h = hash_with_prefix(&[0x12, 0x34, 0x56]);
    assert_eq!(get_difficulty(&h), (0, 0x1234));
}

#[test]
fn odd_zero_digits_read_across_bytes() {
    // "0000 0abc de..." : five zero digits, then the digits a, b, c, d.
    let h = hash_with_prefix(&[0x00, 0x00, 0x0a, 0xbc, 0xde]);
    assert_eq!(get_difficulty(&h), (5, 0xabcd));
}

#[test]
fn even_zero_digits_read_next_two_bytes() {
    let h = hash_with_prefix(&[0x00, 0x00, 0x00, 0xab, 0xcd]);
    assert_eq!(get_difficulty(&h), (6, 0xabcd));
}

#[test]
fn single_zero_digit() {
    let h = hash_with_prefix(&[0x01, 0x02, 0x03]);
    assert_eq!(get_difficulty(&h), (1, 0x1020));
}

#[test]
fn difficulty_at_the_last_readable_byte() {
    let mut h = [0u8; 32];
    h[30] = 0x12;
    h[31] = 0x34;
    assert_eq!(get_difficulty(&h), (60, 0x1234));
    let mut h = [0u8; 32];
    h[29] = 0x01;
    h[30] = 0x23;
    h[31] = 0x45;
    assert_eq!(get_difficulty(&h), (59, 0x1234));
}

#[test]
fn first_nonzero_index_finds_first_byte() {
    assert_eq!(first_nonzero_index(&[0, 0, 3, 0]), 2);
    assert_eq!(first_nonzero_index(&[0, 0]), 2);
    assert_eq!(first_nonzero_index(&[]), 0);
}

#[test]
fn score_digest_unscorable_near_the_end() {
    let mut h = [0u8; 32];
    h[31] = 0x80;
    assert_eq!(score_digest(&h, 5, 10), DigestScore::Unscorable);
    let mut h = [0u8; 32];
    h[30] = 0x0f;
    assert_eq!(score_digest(&h, 5, 10), DigestScore::Unscorable);
}

#[test]
fn score_digest_more_zeroes_is_a_solution() {
    let h = hash_with_prefix(&[0x00, 0x00, 0x00, 0xff]);
    assert_eq!(
        score_digest(&h, 5, 0),
        DigestScore::Scored { zeroes: 6, difficulty: 0xff77, solution: true }
    );
}

#[test]
fn score_digest_equal_zeroes_needs_smaller_difficulty() {
    let h = hash_with_prefix(&[0x00, 0x00, 0x0a, 0xbc, 0xde]);
    assert_eq!(
        score_digest(&h, 5, 255),
        DigestScore::Scored { zeroes: 5, difficulty: 0xabcd, solution: false }
    );
    let h = hash_with_prefix(&[0x00, 0x00, 0x00, 0x00, 0xde]);
    assert_eq!(
        score_digest(&h, 8, 255),
        DigestScore::Scored { zeroes: 8, difficulty: 0xde77, solution: false }
    );
    let h = hash_with_prefix(&[0x00, 0x00, 0x00, 0x00, 0x00, 0x00, 0x00, 0x0f]);
    assert_eq!(
        score_digest(&h, 15, 255),
        DigestScore::Scored { zeroes: 15, difficulty: 0xf777, solution: false }
    );
}

#[test]
fn all_zero_digest_meets_an_equal_target_with_larger_bound() {
    assert_eq!(
        score_digest(&[0u8; 32], 64, 1),
        DigestScore::Scored { zeroes: 64, difficulty: 0, solution: true }
    );
    assert_eq!(
        score_digest(&[0u8; 32], 64, 0),
        DigestScore::Scored { zeroes: 64, difficulty: 0, solution: false }
    );
}

#[test]
fn score_digest_fewer_zeroes_is_no_solution() {
    let h = hash_with_prefix(&[0x00, 0x01]);
    assert_eq!(
        score_digest(&h, 5, 255),
        DigestScore::Scored { zeroes: 3, difficulty: 0x1777, solution: false }
    );
}

#[test]
fn lower_hash_scores_at_least_as_well() {
    // 0x00ab.. is below 0x00ac.., and 0x0001.. is below both.
    let a = hash_with_prefix(&[0x00, 0xab]);
    let b = hash_with_prefix(&[0x00, 0xac]);
    let c = hash_with_prefix(&[0x00, 0x01]);
    let (za, da) = get_difficulty(&a);
    let (zb, db) = get_difficulty(&b);
    let (zc, _) = get_difficulty(&c);
    assert!(za == zb && da <= db);
    assert!(zc > za);
}

#[test]
fn score_counts_zero_hex_characters() {
    let h = hash_with_prefix(&[0x00, 0x00, 0x0a, 0xbc, 0xde]);
    let text = hex::encode(h);
    let zeroes = text.chars().take_while(|c| *c == '0').count();
    assert_eq!(get_difficulty(&h).0 as usize, zeroes);
    assert_eq!(u128::from_str_radix(&text[zeroes..zeroes + 4], 16).unwrap(), get_difficulty(&h).1);
}

#[test]
fn equal_hashes_score_equally_and_stay_unchanged() {
    let h = hash_with_prefix(&[0x00, 0x0a, 0xbc]);
    let copy = h;
    assert_eq!(get_difficulty(&h), get_difficulty(&copy));
    assert_eq!(h, copy);
}
