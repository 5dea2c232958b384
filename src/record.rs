//! The public record of one request: the two fingerprints, the signer
//! identity and the signature flag, and its fixed-layout ABI encoding as a
//! tuple `(bytes32, bytes32, bytes32, bool)`.

use vstd::prelude::*;
use crate::commitment::{fingerprint_of, hash_audio};
use crate::signature::{SignatureData, signer_of, verify_ethereum_signature};
use crate::transform::AudioTransform;

verus! {

/// What a caller hands in for one request.
pub struct AudioTransformInput {
    pub audio_data: Vec<i16>,
    pub sample_rate: u32,
    pub transformations: Vec<AudioTransform>,
    pub signature_data: Option<SignatureData>,
}

/// The values a proof commits to.
pub struct AudioProofPublicValues {
    pub original_audio_hash: [u8; 32],
    pub transformed_audio_hash: [u8; 32],
    /// The signer's 20-byte address, zero-extended on the left to 32 bytes;
    /// all zero without a valid signature.
    pub signer_public_key: [u8; 32],
    pub has_signature: bool,
}

/// The signer that an optional attestation yields for a fingerprint.
pub open spec fn attested_signer(fingerprint: Seq<u8>, sig: Option<SignatureData>) -> Option<
    Seq<u8>,
> {
    match sig {
        Some(d) => signer_of(fingerprint, d.signature@),
        None => None,
    }
}

/// An optional 20-byte identity as a 32-byte word: twelve zero bytes and the
/// address, or 32 zero bytes.
pub open spec fn identity_word(a: Option<Seq<u8>>) -> Seq<u8> {
    match a {
        Some(addr) => Seq::new(12, |i: int| 0u8) + addr,
        None => Seq::new(32, |i: int| 0u8),
    }
}

/// A boolean as an ABI word: 31 zero bytes and then 0 or 1.
pub open spec fn abi_bool_word(b: bool) -> Seq<u8> {
    Seq::new(31, |i: int| 0u8).push(if b { 1u8 } else { 0u8 })
}

/// The ABI encoding of a record: its four fields as four 32-byte words.
pub open spec fn abi_encoding(r: AudioProofPublicValues) -> Seq<u8> {
    r.original_audio_hash@ + r.transformed_audio_hash@ + r.signer_public_key@ + abi_bool_word(
        r.has_signature,
    )
}

/// An attestation whose signature is not 65 bytes long yields no signer, so
/// the record carries an all-zero identity and a clear flag, whatever the
/// fingerprint.
pub proof fn lemma_malformed_attestation_unsigned(fingerprint: Seq<u8>, sig: SignatureData)
    requires
        sig.signature@.len() != 65,
    ensures
        attested_signer(fingerprint, Some(sig)) is None,
        identity_word(attested_signer(fingerprint, Some(sig))) == Seq::new(32, |i: int| 0u8),
{
}

fn push_word(out: &mut Vec<u8>, w: &[u8; 32])
    ensures
        final(out)@ == old(out)@ + w@,
{
    let ghost before = out@;
    let mut i: usize = 0;
    while i < 32
        invariant
            i <= 32,
            out@ == before + w@.subrange(0, i as int),
        decreases 32 - i,
    {
        out.push(w[i]);
        i = i + 1;
        assert(out@ == before + w@.subrange(0, i as int));
    }
    assert(w@.subrange(0, 32) == w@);
}

impl AudioProofPublicValues {
    /// Encodes the record as the ABI tuple `(bytes32, bytes32, bytes32, bool)`:
    /// 128 bytes.
    pub fn abi_encode(&self) -> (r: Vec<u8>)
        ensures
            r@ == abi_encoding(*self),
            r@.len() == 128,
    {
        let mut out: Vec<u8> = Vec::new();
        push_word(&mut out, &self.original_audio_hash);
        push_word(&mut out, &self.transformed_audio_hash);
        push_word(&mut out, &self.signer_public_key);
        let mut flag: [u8; 32] = [0u8; 32];
        if self.has_signature {
            flag[31] = 1u8;
        }
        assert(flag@ =~= abi_bool_word(self.has_signature));
        push_word(&mut out, &flag);
        out
    }
}

/// Zero-extends an optional 20-byte address to a 32-byte word.
pub fn identity_to_word(addr: Option<[u8; 20]>) -> (r: [u8; 32])
    ensures
        r@ == identity_word(
            match addr {
                Some(a) => Some(a@),
                None => None,
            },
        ),
{
    let mut out: [u8; 32] = [0u8; 32];
    match addr {
        Some(a) => {
            let mut i: usize = 0;
            while i < 20
                invariant
                    i <= 20,
                    forall|j: int| 0 <= j < 12 ==> out@[j] == 0u8,
                    forall|j: int| 0 <= j < i ==> out@[12 + j] == a@[j],
                decreases 20 - i,
            {
                out[12 + i] = a[i];
                i = i + 1;
            }
            assert(out@ =~= Seq::new(12, |i: int| 0u8) + a@);
        },
        None => {
            assert(out@ =~= Seq::new(32, |i: int| 0u8));
        },
    }
    out
}

/// Builds the public record of a request from its input and the transformed
/// samples: the fingerprints of both sample sequences, and the signer of the
/// original fingerprint where the attestation yields one. A malformed or
/// unrecoverable attestation leaves the identity all zero and the flag clear.
pub fn commit_record(input: &AudioTransformInput, transformed: &Vec<i16>) -> (r:
    AudioProofPublicValues)
    requires
        input.audio_data@.len() <= usize::MAX / 4,
        transformed@.len() <= usize::MAX / 4,
    ensures
        r.original_audio_hash@ == fingerprint_of(input.audio_data@),
        r.transformed_audio_hash@ == fingerprint_of(transformed@),
        r.has_signature == attested_signer(
            fingerprint_of(input.audio_data@),
            input.signature_data,
        ) is Some,
        r.signer_public_key@ == identity_word(
            attested_signer(fingerprint_of(input.audio_data@), input.signature_data),
        ),
{
    let original_hash = hash_audio(&input.audio_data);
    let transformed_hash = hash_audio(transformed);
    let signer = match &input.signature_data {
        Some(sig_data) => verify_ethereum_signature(original_hash.as_slice(), sig_data),
        None => None,
    };
    let has_signature = match signer {
        Some(_) => true,
        None => false,
    };
    let signer_public_key = identity_to_word(signer);
    AudioProofPublicValues {
        original_audio_hash: original_hash,
        transformed_audio_hash: transformed_hash,
        signer_public_key,
        has_signature,
    }
}

} // verus!
