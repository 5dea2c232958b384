//! The request and response shapes at the edge of the library: hex-encoded
//! attestation fields and the proof report.

use vstd::prelude::*;
use vstd::utf8::encode_utf8;
use crate::signature::SignatureData;
use crate::record::AudioTransformInput;
use crate::transform::{
    AudioTransform, TransformError, transforms_valid, transform_valid, validate_transforms,
};

verus! {

/// The value of one hexadecimal digit (either case), given as an ASCII byte.
pub open spec fn hex_value(c: u8) -> Option<u8> {
    if 0x30 <= c <= 0x39 {
        Some((c - 0x30) as u8)
    } else if 0x61 <= c <= 0x66 {
        Some((c - 0x61 + 10) as u8)
    } else if 0x41 <= c <= 0x46 {
        Some((c - 0x41 + 10) as u8)
    } else {
        None
    }
}

/// An even number of hexadecimal digits.
pub open spec fn is_hex(d: Seq<u8>) -> bool {
    &&& d.len() % 2 == 0
    &&& forall|i: int| 0 <= i < d.len() ==> (#[trigger] hex_value(d[i])) is Some
}

/// The bytes that a string of hexadecimal digits spells, two digits each,
/// high digit first.
pub open spec fn hex_decoded(d: Seq<u8>) -> Seq<u8> {
    Seq::new(
        d.len() / 2,
        |i: int| (hex_value(d[2 * i])->0 * 16 + hex_value(d[2 * i + 1])->0) as u8,
    )
}

/// The text after a leading "0x", or the whole text where it has none.
pub open spec fn strip_0x(b: Seq<u8>) -> Seq<u8> {
    if b.len() >= 2 && b[0] == 0x30u8 && b[1] == 0x78u8 {
        b.subrange(2, b.len() as int)
    } else {
        b
    }
}

/// What a hex field of a request decodes to.
pub open spec fn hex_field_bytes(s: Seq<u8>) -> Option<Seq<u8>> {
    if is_hex(strip_0x(s)) {
        Some(hex_decoded(strip_0x(s)))
    } else {
        None
    }
}

/// Relies on hex::decode: it accepts an even number of hexadecimal digits of
/// either case and returns the bytes they spell, high digit first; anything
/// else is an error.
#[verifier::external_body]
fn hex_decode(digits: &[u8]) -> (r: Option<Vec<u8>>)
    ensures
        r is Some <==> is_hex(digits@),
        r matches Some(v) ==> v@ == hex_decoded(digits@),
{
    hex::decode(digits).ok()
}

/// Decodes a hex field, with or without a leading "0x".
pub fn decode_hex_field(s: &str) -> (r: Option<Vec<u8>>)
    ensures
        r matches Some(v) ==> hex_field_bytes(encode_utf8(s@)) == Some(v@),
        r is None ==> hex_field_bytes(encode_utf8(s@)) is None,
{
    let b = s.as_bytes();
    assert(b@ == encode_utf8(s@));
    let n = b.len();
    let start: usize = if n >= 2 && b[0] == 0x30u8 && b[1] == 0x78u8 {
        2
    } else {
        0
    };
    let mut digits: Vec<u8> = Vec::new();
    let mut i: usize = start;
    while i < n
        invariant
            start <= i <= n,
            n == b@.len(),
            digits@ == b@.subrange(start as int, i as int),
        decreases n - i,
    {
        digits.push(b[i]);
        i = i + 1;
        assert(digits@ == b@.subrange(start as int, i as int));
    }
    assert(digits@ == strip_0x(b@));
    hex_decode(digits.as_slice())
}

/// An attestation as it arrives: signature and public key as hex text.
pub struct HexSignatureData {
    pub signature: String,
    pub public_key: String,
}

/// Why an attestation could not be decoded.
#[derive(Clone, Copy, Debug, PartialEq, Eq, Structural)]
pub enum AttestationError {
    InvalidSignatureHex,
    InvalidPublicKeyHex,
}

impl HexSignatureData {
    /// Decodes both hex fields; the signature is checked first.
    pub fn decode(&self) -> (r: Result<SignatureData, AttestationError>)
        ensures
            r is Ok <==> hex_field_bytes(encode_utf8(self.signature@)) is Some && hex_field_bytes(
                encode_utf8(self.public_key@),
            ) is Some,
            r matches Ok(d) ==> hex_field_bytes(encode_utf8(self.signature@)) == Some(d.signature@)
                && hex_field_bytes(encode_utf8(self.public_key@)) == Some(d.public_key@),
            r matches Err(AttestationError::InvalidSignatureHex) <==> hex_field_bytes(
                encode_utf8(self.signature@),
            ) is None,
    {
        let signature = match decode_hex_field(self.signature.as_str()) {
            Some(v) => v,
            None => {
                return Err(AttestationError::InvalidSignatureHex);
            },
        };
        let public_key = match decode_hex_field(self.public_key.as_str()) {
            Some(v) => v,
            None => {
                return Err(AttestationError::InvalidPublicKeyHex);
            },
        };
        Ok(SignatureData { signature, public_key })
    }
}

/// The proof and what it commits to, as hex text.
pub struct ProofData {
    pub proof: String,
    pub verification_key: String,
    pub public_values: String,
}

/// The report of one proving request.
pub struct ProofResponse {
    pub success: bool,
    pub message: String,
    pub original_audio_hash: String,
    pub transformed_audio_hash: String,
    pub signer_public_key: String,
    pub has_signature: bool,
    pub proof_data: Option<ProofData>,
}

/// The outcome of a proving run from the command line.
pub struct AudioProofOutput {
    pub original_audio_hash: String,
    pub transformed_audio_hash: String,
    pub signer_public_key: String,
    pub has_signature: bool,
    pub success: bool,
    pub message: String,
    pub proof_data: Option<ProofData>,
}

/// The text "0x".
fn empty_hex() -> (r: String)
    ensures
        r@ == seq!['0', 'x'],
{
    broadcast use vstd::string::to_string_from_display_ensures_for_str;

    let r = "0x".to_string();
    proof {
        reveal_strlit("0x");
    }
    r
}

impl ProofResponse {
    /// A failed request: the message, empty hex fields, no signature and no
    /// proof.
    pub fn error(message: String) -> (r: ProofResponse)
        ensures
            !r.success,
            r.message@ == message@,
            r.original_audio_hash@ == seq!['0', 'x'],
            r.transformed_audio_hash@ == seq!['0', 'x'],
            r.signer_public_key@ == seq!['0', 'x'],
            !r.has_signature,
            r.proof_data is None,
    {
        ProofResponse {
            success: false,
            message,
            original_audio_hash: empty_hex(),
            transformed_audio_hash: empty_hex(),
            signer_public_key: empty_hex(),
            has_signature: false,
            proof_data: None,
        }
    }

    /// A proved request, with the decoded public values as hex text.
    pub fn success(
        original_hash: String,
        transformed_hash: String,
        signer_key: String,
        has_sig: bool,
        proof: Option<ProofData>,
    ) -> (r: ProofResponse)
        ensures
            r.success,
            r.message@ == "Proof generated successfully"@,
            r.original_audio_hash@ == original_hash@,
            r.transformed_audio_hash@ == transformed_hash@,
            r.signer_public_key@ == signer_key@,
            r.has_signature == has_sig,
            r.proof_data == proof,
    {
        broadcast use vstd::string::to_string_from_display_ensures_for_str;

        ProofResponse {
            success: true,
            message: "Proof generated successfully".to_string(),
            original_audio_hash: original_hash,
            transformed_audio_hash: transformed_hash,
            signer_public_key: signer_key,
            has_signature: has_sig,
            proof_data: proof,
        }
    }
}

/// Why a proving request was refused before any work was done.
#[derive(Clone, Copy, Debug, PartialEq, Eq, Structural)]
pub enum RequestError {
    /// The audio or the transform list is absent.
    MissingFields,
    /// The stretch factor at this position of the list is not positive.
    NonPositiveStretch(usize),
    InvalidSignatureHex,
    InvalidPublicKeyHex,
}

/// `i` is the first position of `ts` whose operation is invalid.
pub open spec fn first_invalid_at(ts: Seq<AudioTransform>, i: int) -> bool {
    &&& 0 <= i < ts.len()
    &&& !transform_valid(ts[i])
    &&& forall|k: int| 0 <= k < i ==> transform_valid(#[trigger] ts[k])
}

/// What an optional hex attestation decodes to: the signature and public-key
/// bytes, or the error for the first field that does not decode.
pub open spec fn attestation_outcome(h: Option<HexSignatureData>) -> Result<
    Option<(Seq<u8>, Seq<u8>)>,
    RequestError,
> {
    match h {
        None => Ok(None),
        Some(h) => match (
            hex_field_bytes(encode_utf8(h.signature@)),
            hex_field_bytes(encode_utf8(h.public_key@)),
        ) {
            (None, _) => Err(RequestError::InvalidSignatureHex),
            (Some(_), None) => Err(RequestError::InvalidPublicKeyHex),
            (Some(sig), Some(key)) => Ok(Some((sig, key))),
        },
    }
}

/// The bytes that a decoded attestation holds.
pub open spec fn attestation_bytes(d: Option<SignatureData>) -> Option<(Seq<u8>, Seq<u8>)> {
    match d {
        None => None,
        Some(d) => Some((d.signature@, d.public_key@)),
    }
}

/// Assembles a request from the fields that arrived. Checked in this order:
/// both the audio and the transform list are present, every stretch factor
/// is positive, and the attestation (where there is one) decodes.
pub fn assemble_request(
    audio_data: Option<Vec<i16>>,
    sample_rate: u32,
    transformations: Option<Vec<AudioTransform>>,
    signature: Option<HexSignatureData>,
) -> (r: Result<AudioTransformInput, RequestError>)
    ensures
        audio_data is None || transformations is None ==> r == Err::<
            AudioTransformInput,
            RequestError,
        >(RequestError::MissingFields),
        audio_data is Some && transformations is Some && !transforms_valid(
            transformations->0@,
        ) ==> (r matches Err(RequestError::NonPositiveStretch(i)) && first_invalid_at(
            transformations->0@,
            i as int,
        )),
        audio_data is Some && transformations is Some && transforms_valid(transformations->0@)
            ==> (match attestation_outcome(signature) {
            Err(e) => r == Err::<AudioTransformInput, RequestError>(e),
            Ok(_) => r is Ok,
        }),
        r matches Ok(input) ==> {
            &&& input.audio_data@ == audio_data->0@
            &&& input.sample_rate == sample_rate
            &&& input.transformations@ == transformations->0@
            &&& attestation_outcome(signature) == Ok::<
                Option<(Seq<u8>, Seq<u8>)>,
                RequestError,
            >(attestation_bytes(input.signature_data))
        },
{
    let audio_data = match audio_data {
        Some(a) => a,
        None => {
            return Err(RequestError::MissingFields);
        },
    };
    let transformations = match transformations {
        Some(t) => t,
        None => {
            return Err(RequestError::MissingFields);
        },
    };
    match validate_transforms(&transformations) {
        Ok(()) => {},
        Err(TransformError::NonPositiveStretch(i)) => {
            return Err(RequestError::NonPositiveStretch(i));
        },
    }
    let signature_data = match signature {
        None => None,
        Some(h) => match h.decode() {
            Ok(d) => Some(d),
            Err(AttestationError::InvalidSignatureHex) => {
                return Err(RequestError::InvalidSignatureHex);
            },
            Err(AttestationError::InvalidPublicKeyHex) => {
                return Err(RequestError::InvalidPublicKeyHex);
            },
        },
    };
    Ok(AudioTransformInput { audio_data, sample_rate, transformations, signature_data })
}

} // verus!
