//! Signer identity: recovery of a secp256k1 public key from a 65-byte
//! recoverable signature over the prefixed fingerprint hash, and the 20-byte
//! account-style address of that key.

use vstd::prelude::*;

verus! {

/// A recoverable signature (r ‖ s ‖ v) and an informational public key.
/// Only the key recovered from the signature is trusted.
pub struct SignatureData {
    pub signature: Vec<u8>,
    pub public_key: Vec<u8>,
}

/// The Keccak-256 digest of a byte string.
pub uninterp spec fn keccak256_of(data: Seq<u8>) -> Seq<u8>;

/// The uncompressed SEC1 encoding of the secp256k1 key recovered from a
/// 32-byte prehash, a 64-byte r ‖ s and a recovery id; `None` where recovery
/// fails.
pub uninterp spec fn recovered_public_key(prehash: Seq<u8>, rs: Seq<u8>, recid: u8) -> Option<
    Seq<u8>,
>;

/// Relies on sha3::Keccak256 through `Digest::digest`: the 32-byte
/// Keccak-256 digest of the input.
#[verifier::external_body]
fn keccak256(data: &[u8]) -> (r: [u8; 32])
    ensures
        r@ == keccak256_of(data@),
{
    <sha3::Keccak256 as sha3::Digest>::digest(data).into()
}

/// Relies on k256's ECDSA key recovery: `Signature::from_slice` parses r ‖ s
/// (it refuses any length but 64), `RecoveryId::from_byte` the recovery id (it
/// refuses any value above 3), `VerifyingKey::recover_from_prehash` recovers the
/// key, and `to_encoded_point(false)` gives its 65-byte uncompressed encoding,
/// which starts with the tag byte 4.
#[verifier::external_body]
fn recover_public_key(prehash: &[u8], rs: &[u8], recid: u8) -> (r: Option<Vec<u8>>)
    requires
        prehash@.len() == 32,
    ensures
        r matches Some(k) ==> recovered_public_key(prehash@, rs@, recid) == Some(k@),
        r is None ==> recovered_public_key(prehash@, rs@, recid) is None,
        rs@.len() != 64 ==> r is None,
        recid > 3 ==> r is None,
        r matches Some(k) ==> k@.len() == 65 && k@[0] == 4u8,
{
    let signature = k256::ecdsa::Signature::from_slice(rs).ok()?;
    let id = k256::ecdsa::RecoveryId::from_byte(recid)?;
    let key = k256::ecdsa::VerifyingKey::recover_from_prehash(prehash, &signature, id).ok()?;
    Some(key.to_encoded_point(false).as_bytes().to_vec())
}

/// The prefix of a personal-message signature over 32 bytes:
/// "\x19Ethereum Signed Message:\n32".
pub open spec fn eth_prefix() -> Seq<u8> {
    seq![
        0x19u8, 0x45u8, 0x74u8, 0x68u8, 0x65u8, 0x72u8, 0x65u8, 0x75u8, 0x6du8, 0x20u8,
        0x53u8, 0x69u8, 0x67u8, 0x6eu8, 0x65u8, 0x64u8, 0x20u8, 0x4du8, 0x65u8, 0x73u8,
        0x73u8, 0x61u8, 0x67u8, 0x65u8, 0x3au8, 0x0au8, 0x33u8, 0x32u8,
    ]
}

/// The hash that a signer signs to attest to `msg`.
pub open spec fn eth_message_hash_of(msg: Seq<u8>) -> Seq<u8> {
    keccak256_of(eth_prefix() + msg)
}

/// The address of an uncompressed public key: the low 20 bytes of the
/// Keccak-256 digest of the key without its tag byte.
pub open spec fn address_of_key(key: Seq<u8>) -> Seq<u8> {
    keccak256_of(key.subrange(1, key.len() as int)).subrange(12, 32)
}

/// The recovery id that an indicator byte of 27 or more stands for.
pub open spec fn normalized_recovery_id(v: u8) -> u8 {
    (v - 27) as u8
}

/// The address of whoever signed `msg` with the 65-byte signature `sig`, or
/// `None` where the signature is malformed or no key can be recovered.
pub open spec fn signer_of(msg: Seq<u8>, sig: Seq<u8>) -> Option<Seq<u8>> {
    if sig.len() != 65 || sig[64] < 27 {
        None
    } else {
        match recovered_public_key(
            eth_message_hash_of(msg),
            sig.subrange(0, 64),
            normalized_recovery_id(sig[64]),
        ) {
            Some(key) => Some(address_of_key(key)),
            None => None,
        }
    }
}

/// The hash that a signer signs to attest to `msg`: Keccak-256 of the
/// personal-message prefix followed by `msg`.
pub fn eth_message_hash(msg: &[u8]) -> (r: [u8; 32])
    requires
        msg@.len() <= usize::MAX - 28,
    ensures
        r@ == eth_message_hash_of(msg@),
{
    let prefix: [u8; 28] = [
        0x19u8, 0x45u8, 0x74u8, 0x68u8, 0x65u8, 0x72u8, 0x65u8, 0x75u8, 0x6du8, 0x20u8,
        0x53u8, 0x69u8, 0x67u8, 0x6eu8, 0x65u8, 0x64u8, 0x20u8, 0x4du8, 0x65u8, 0x73u8,
        0x73u8, 0x61u8, 0x67u8, 0x65u8, 0x3au8, 0x0au8, 0x33u8, 0x32u8,
    ];
    let mut data: Vec<u8> = Vec::new();
    let mut i: usize = 0;
    while i < 28
        invariant
            i <= 28,
            data@ == prefix@.subrange(0, i as int),
        decreases 28 - i,
    {
        data.push(prefix[i]);
        i = i + 1;
        assert(data@ == prefix@.subrange(0, i as int));
    }
    assert(prefix@ == eth_prefix());
    let mut j: usize = 0;
    while j < msg.len()
        invariant
            j <= msg@.len(),
            data@ == eth_prefix() + msg@.subrange(0, j as int),
        decreases msg@.len() - j,
    {
        data.push(msg[j]);
        j = j + 1;
        assert(data@ == eth_prefix() + msg@.subrange(0, j as int));
    }
    assert(msg@.subrange(0, msg@.len() as int) == msg@);
    keccak256(data.as_slice())
}

/// The 20-byte address of an uncompressed public key (tag byte first).
pub fn address_from_public_key(key: &[u8]) -> (r: [u8; 20])
    requires
        key@.len() >= 1,
    ensures
        r@ == address_of_key(key@),
{
    let mut body: Vec<u8> = Vec::new();
    let mut i: usize = 1;
    while i < key.len()
        invariant
            1 <= i <= key@.len(),
            body@ == key@.subrange(1, i as int),
        decreases key@.len() - i,
    {
        body.push(key[i]);
        i = i + 1;
        assert(body@ == key@.subrange(1, i as int));
    }
    let hash = keccak256(body.as_slice());
    let mut out: [u8; 20] = [0u8; 20];
    let mut k: usize = 0;
    while k < 20
        invariant
            k <= 20,
            forall|j: int| 0 <= j < k ==> out@[j] == hash@[12 + j],
        decreases 20 - k,
    {
        out[k] = hash[12 + k];
        k = k + 1;
    }
    assert(out@ =~= hash@.subrange(12, 32));
    out
}

/// Recovers the signer of `msg` from a 65-byte recoverable signature and
/// returns its address. A signature of another length, an indicator byte
/// below 27, and a signature from which no key can be recovered all give
/// `None`.
pub fn verify_ethereum_signature(msg: &[u8], sig_data: &SignatureData) -> (r: Option<[u8; 20]>)
    requires
        msg@.len() <= usize::MAX - 28,
    ensures
        r matches Some(a) ==> signer_of(msg@, sig_data.signature@) == Some(a@),
        r is None ==> signer_of(msg@, sig_data.signature@) is None,
{
    let sig = &sig_data.signature;
    if sig.len() != 65 {
        return None;
    }
    let v = sig[64];
    if v < 27 {
        return None;
    }
    let mut rs: Vec<u8> = Vec::new();
    let mut i: usize = 0;
    while i < 64
        invariant
            i <= 64,
            sig@.len() == 65,
            rs@ == sig@.subrange(0, i as int),
        decreases 64 - i,
    {
        rs.push(sig[i]);
        i = i + 1;
        assert(rs@ == sig@.subrange(0, i as int));
    }
    let prehash = eth_message_hash(msg);
    match recover_public_key(prehash.as_slice(), rs.as_slice(), v - 27) {
        Some(key) => Some(address_from_public_key(key.as_slice())),
        None => None,
    }
}

} // verus!
