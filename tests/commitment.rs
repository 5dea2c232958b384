use sha2::{Digest, Sha256};
use zk_sampler::commitment::hash_audio;

fn le_bytes(samples: &[i16]) -> Vec<u8> {
    samples.iter().flat_map(|s| s.to_le_bytes()).collect()
}

fn reference_digest(samples: &[i16]) -> [u8; 32] {
    Sha256::digest(le_bytes(samples)).into()
}

fn ramp(n: usize) -> Vec<i16> {
    (0..n).map(|i| (i as i32 * 977 - 30000) as i16).collect()
}

#[test]
fn fingerprint_of_empty_is_sha256_of_nothing() {
    let expected = hex::decode("e3b0c44298fc1c149afbf4c8996fb92427ae41e4649b934ca495991b7852b855")
        .unwrap();
    assert_eq!(hash_audio(&vec![]).to_vec(), expected);
}

#[test]
fn fingerprint_matches_sha256_across_padding_boundaries() {
    // 54, 55, 56, 62, 64, 66, 118, 128 and 2000 bytes of message
    for n in [27usize, 28, 31, 32, 33, 59, 64, 1000] {
        let s = ramp(n);
        assert_eq!(hash_audio(&s), reference_digest(&s), "length {}", n);
    }
    let odd_tail: Vec<i16> = vec![i16::MIN, i16::MAX, -1, 0, 1];
    assert_eq!(hash_audio(&odd_tail), reference_digest(&odd_tail));
}

#[test]
fn fingerprint_of_reversed_scenario() {
    let expected = Sha256::digest([0x00u8, 0x00, 0xCE, 0xFF, 0xC8, 0x00, 0x64, 0x00]);
    assert_eq!(hash_audio(&vec![0, -50, 200, 100]).to_vec(), expected.to_vec());
}

#[test]
fn distinct_inputs_give_distinct_fingerprints() {
    let inputs: Vec<Vec<i16>> = vec![
        vec![],
        vec![0],
        vec![0, 0],
        vec![1],
        vec![256],
        vec![100, 200, -50, 0],
        vec![0, -50, 200, 100],
        ramp(500),
    ];
    let prints: Vec<[u8; 32]> = inputs.iter().map(|s| hash_audio(s)).collect();
    for i in 0..prints.len() {
        for j in (i + 1)..prints.len() {
            assert_ne!(prints[i], prints[j], "inputs {} and {}", i, j);
        }
    }
}

#[test]
fn fingerprint_is_repeatable() {
    let s = ramp(300);
    assert_eq!(hash_audio(&s), hash_audio(&s.clone()));
}
