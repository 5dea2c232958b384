use k256::ecdsa::SigningKey;
use sha3::{Digest, Keccak256};
use zk_sampler::commitment::hash_audio;
use zk_sampler::record::{commit_record, AudioTransformInput};
use zk_sampler::signature::{
    address_from_public_key, eth_message_hash, verify_ethereum_signature, SignatureData,
};

fn signing_key() -> SigningKey {
    let secret: [u8; 32] = [
        0x4c, 0x08, 0x83, 0xa6, 0x91, 0x02, 0x93, 0x7d, 0x62, 0x31, 0x47, 0x1b, 0x5d, 0xbb, 0x62,
        0x04, 0xfe, 0x51, 0x29, 0x61, 0x70, 0x82, 0x79, 0x2a, 0xe4, 0x68, 0xd0, 0x1a, 0x3f, 0x36,
        0x23, 0x18,
    ];
    SigningKey::from_slice(&secret).unwrap()
}

fn sign(fingerprint: &[u8]) -> Vec<u8> {
    let prehash = eth_message_hash(fingerprint);
    let (sig, recid) = signing_key().sign_prehash_recoverable(&prehash).unwrap();
    let mut out = sig.to_bytes().to_vec();
    out.push(recid.to_byte() + 27);
    out
}

fn expected_address() -> [u8; 20] {
    let point = signing_key().verifying_key().to_encoded_point(false);
    let digest = Keccak256::digest(&point.as_bytes()[1..]);
    let mut a = [0u8; 20];
    a.copy_from_slice(&digest[12..]);
    a
}

fn attestation(signature: Vec<u8>) -> SignatureData {
    let point = signing_key().verifying_key().to_encoded_point(false);
    SignatureData { signature, public_key: point.as_bytes().to_vec() }
}

#[test]
fn message_hash_uses_the_personal_message_prefix() {
    let fingerprint = hash_audio(&vec![1, 2, 3]);
    let mut hasher = Keccak256::new();
    hasher.update(b"\x19Ethereum Signed Message:\n32");
    hasher.update(fingerprint);
    let expected: [u8; 32] = hasher.finalize().into();
    assert_eq!(eth_message_hash(&fingerprint), expected);
}

#[test]
fn address_of_known_key() {
    let point = signing_key().verifying_key().to_encoded_point(false);
    assert_eq!(address_from_public_key(point.as_bytes()), expected_address());
}

#[test]
fn signature_round_trip_recovers_signer() {
    let fingerprint = hash_audio(&vec![100, 200, -50, 0]);
    let data = attestation(sign(&fingerprint));
    assert_eq!(verify_ethereum_signature(&fingerprint, &data), Some(expected_address()));
}

#[test]
fn tampered_fingerprint_does_not_yield_signer() {
    let fingerprint = hash_audio(&vec![100, 200, -50, 0]);
    let data = attestation(sign(&fingerprint));
    for i in 0..32 {
        let mut tampered = fingerprint;
        tampered[i] ^= 0xff;
        let got = verify_ethereum_signature(&tampered, &data);
        assert_ne!(got, Some(expected_address()), "byte {}", i);
    }
}

#[test]
fn short_signature_is_no_attestation() {
    let fingerprint = hash_audio(&vec![5, 6]);
    let mut sig = sign(&fingerprint);
    sig.pop();
    assert_eq!(sig.len(), 64);
    assert_eq!(verify_ethereum_signature(&fingerprint, &attestation(sig)), None);
}

#[test]
fn bad_recovery_indicator_is_no_attestation() {
    let fingerprint = hash_audio(&vec![5, 6]);
    let mut sig = sign(&fingerprint);
    sig[64] = 1;
    assert_eq!(verify_ethereum_signature(&fingerprint, &attestation(sig.clone())), None);
    sig[64] = 31;
    assert_eq!(verify_ethereum_signature(&fingerprint, &attestation(sig)), None);
}

#[test]
fn zero_signature_is_no_attestation() {
    let fingerprint = hash_audio(&vec![5, 6]);
    let mut sig = vec![0u8; 64];
    sig.push(27);
    assert_eq!(verify_ethereum_signature(&fingerprint, &attestation(sig)), None);
}

#[test]
fn malformed_attestation_leaves_record_unsigned() {
    let audio = vec![100, 200, -50, 0];
    let transformed = vec![0, -50, 200, 100];
    let fingerprint = hash_audio(&audio);
    let mut sig = sign(&fingerprint);
    sig.truncate(64);
    let input = AudioTransformInput {
        audio_data: audio.clone(),
        sample_rate: 8000,
        transformations: vec![],
        signature_data: Some(attestation(sig)),
    };
    let record = commit_record(&input, &transformed);
    assert!(!record.has_signature);
    assert_eq!(record.signer_public_key, [0u8; 32]);
    assert_eq!(record.original_audio_hash, fingerprint);
    assert_eq!(record.transformed_audio_hash, hash_audio(&transformed));
}

#[test]
fn signed_record_carries_zero_extended_address() {
    let audio = vec![7, -7, 7, -7];
    let fingerprint = hash_audio(&audio);
    let input = AudioTransformInput {
        audio_data: audio.clone(),
        sample_rate: 44100,
        transformations: vec![],
        signature_data: Some(attestation(sign(&fingerprint))),
    };
    let record = commit_record(&input, &audio);
    assert!(record.has_signature);
    assert_eq!(record.signer_public_key[..12], [0u8; 12]);
    assert_eq!(record.signer_public_key[12..], expected_address());
}
