use proof_of_wasted_work::difficulty::{
    check, count_trailing_zero_bytes, double_sha256, judge, meets_target, Verdict,
    EXPECTED_BITCOIN_VERSION,
};
use proof_of_wasted_work::header::encode;
use sha2::{Digest, Sha256};

fn digest_ending_in(zeros: usize) -> [u8; 32] {
    let mut digest = [0xabu8; 32];
    for byte in digest.iter_mut().skip(32 - zeros) {
        *byte = 0;
    }
    digest
}

fn reference_double_digest(data: &[u8]) -> [u8; 32] {
    Sha256::digest(Sha256::digest(data)).into()
}

#[test]
fn expected_version_is_the_protocol_constant() {
    assert_eq!(EXPECTED_BITCOIN_VERSION, 0x2000_0000);
    assert_eq!(EXPECTED_BITCOIN_VERSION, 536_870_912);
}

#[test]
fn trailing_zero_bytes_are_counted_from_the_end() {
    for zeros in 0..=32usize {
        assert_eq!(count_trailing_zero_bytes(&digest_ending_in(zeros)), zeros);
    }
}

#[test]
fn counting_stops_at_the_first_byte_that_is_not_zero() {
    let mut digest = [0u8; 32];
    digest[29] = 1;
    assert_eq!(count_trailing_zero_bytes(&digest), 2);
    digest[31] = 9;
    assert_eq!(count_trailing_zero_bytes(&digest), 0);
    let mut leading = [5u8; 32];
    leading[0] = 0;
    leading[1] = 0;
    assert_eq!(count_trailing_zero_bytes(&leading), 0);
}

#[test]
fn target_is_met_by_an_exact_count_only() {
    for target in 1..=31u8 {
        let digest = digest_ending_in(target as usize);
        assert!(meets_target(&digest, target));
        assert!(!meets_target(&digest, target + 1));
        assert!(!meets_target(&digest, target - 1));
    }
    assert!(meets_target(&[0u8; 32], 32));
    assert!(!meets_target(&[0u8; 32], 31));
    assert!(!meets_target(&[0u8; 32], 33));
    assert!(!meets_target(&[0u8; 32], 255));
    assert!(meets_target(&[1u8; 32], 0));
}

#[test]
fn double_sha256_of_the_empty_input() {
    let expected: [u8; 32] = [
        0x5d, 0xf6, 0xe0, 0xe2, 0x76, 0x13, 0x59, 0xd3, 0x0a, 0x82, 0x75, 0x05, 0x8e, 0x29, 0x9f,
        0xcc, 0x03, 0x81, 0x53, 0x45, 0x45, 0xf5, 0x5c, 0xf4, 0x3e, 0x41, 0x98, 0x3f, 0x5d, 0x4c,
        0x94, 0x56,
    ];
    assert_eq!(double_sha256(&[]), expected);
}

#[test]
fn double_sha256_hashes_twice() {
    let inputs: [&[u8]; 3] = [b"abc", b"near miss", &[0u8; 88]];
    for input in inputs {
        let digest = double_sha256(input);
        assert_eq!(digest, reference_double_digest(input));
        let once: [u8; 32] = Sha256::digest(input).into();
        assert_ne!(digest, once);
        assert_ne!(&digest[..], input);
    }
}

#[test]
fn check_refuses_another_version_whatever_the_digest() {
    let header = encode(EXPECTED_BITCOIN_VERSION, &[0u8; 32], &[0u8; 32], 0, 0, 0, 0);
    let zeros = count_trailing_zero_bytes(&double_sha256(&header)) as u8;
    assert!(check(EXPECTED_BITCOIN_VERSION, &header, zeros));
    assert!(!check(EXPECTED_BITCOIN_VERSION + 1, &header, zeros));
    assert!(!check(1, &header, zeros));
    assert!(!check(0, &header, zeros));
}

#[test]
fn check_accepts_exactly_the_near_misses() {
    let prev_hash = [3u8; 32];
    let merkle_root = [4u8; 32];
    let mut seen_one_zero = false;
    let mut seen_none = false;
    for nonce in 1..5000u32 {
        let header = encode(
            EXPECTED_BITCOIN_VERSION,
            &prev_hash,
            &merkle_root,
            1_700_000_000,
            0x1d00_ffff,
            nonce,
            0,
        );
        let digest = reference_double_digest(&header);
        let zeros = digest.iter().rev().take_while(|&&byte| byte == 0).count();
        for target in 0..4u8 {
            assert_eq!(
                check(EXPECTED_BITCOIN_VERSION, &header, target),
                zeros == target as usize
            );
        }
        seen_one_zero |= zeros == 1;
        seen_none |= zeros == 0;
    }
    assert!(seen_one_zero && seen_none);
}

#[test]
fn judge_names_the_reason() {
    let header = encode(EXPECTED_BITCOIN_VERSION, &[0u8; 32], &[0u8; 32], 0, 0, 0, 0);
    let zeros = reference_double_digest(&header)
        .iter()
        .rev()
        .take_while(|&&byte| byte == 0)
        .count() as u8;
    assert_eq!(judge(EXPECTED_BITCOIN_VERSION, &header, zeros), Verdict::Valid);
    assert_eq!(
        judge(EXPECTED_BITCOIN_VERSION, &header, zeros + 1),
        Verdict::DifficultyMismatch
    );
    assert_eq!(judge(7, &header, zeros), Verdict::VersionMismatch);
    assert_eq!(judge(7, &header, zeros + 1), Verdict::VersionMismatch);
}
