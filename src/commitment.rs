//! Content commitment: the SHA-256 digest of a sample sequence's
//! little-endian bytes, driven block by block through the compression function.

use vstd::prelude::*;

verus! {

/// What the SHA-256 compression function makes of an eight-word running state
/// and one 64-byte block.
pub uninterp spec fn sha256_compress(state: Seq<u32>, block: Seq<u8>) -> Seq<u32>;

/// Relies on sha2::compress256: it runs the SHA-256 compression function
/// (message schedule and 64 rounds) of one 64-byte block into the state.
#[verifier::external_body]
fn compress_block(state: &mut [u32; 8], block: &[u8])
    requires
        block@.len() == 64,
    ensures
        final(state)@ == sha256_compress(old(state)@, block@),
{
    let b = sha2::digest::generic_array::GenericArray::clone_from_slice(block);
    sha2::compress256(state, &[b]);
}

/// The two little-endian bytes of one sample.
pub open spec fn sample_le_bytes(x: i16) -> Seq<u8> {
    seq![(x as u16 & 0xff) as u8, ((x as u16) >> 8u16) as u8]
}

/// The little-endian serialisation of a sample sequence, two bytes per sample.
pub open spec fn le_bytes(s: Seq<i16>) -> Seq<u8>
    decreases s.len(),
{
    if s.len() == 0 {
        seq![]
    } else {
        le_bytes(s.drop_last()) + sample_le_bytes(s.last())
    }
}

/// The zero bytes that follow the 0x80 marker, so that the marker, the zeros
/// and the 8-byte length end on a 64-byte boundary.
pub open spec fn pad_zero_len(n: nat) -> nat {
    ((119 - (n % 64)) % 64) as nat
}

/// The message length in bits, modulo 2^64.
pub open spec fn bit_len(n: nat) -> u64 {
    ((8 * n) % 0x1_0000_0000_0000_0000) as u64
}

/// A 64-bit value as 8 big-endian bytes.
pub open spec fn be_u64_bytes(v: u64) -> Seq<u8> {
    Seq::new(8, |j: int| ((v >> ((56 - 8 * j) as u64)) & 0xff) as u8)
}

/// The message with the standard SHA-256 padding appended.
pub open spec fn padded(m: Seq<u8>) -> Seq<u8> {
    m + seq![0x80u8] + Seq::new(pad_zero_len(m.len()), |j: int| 0u8) + be_u64_bytes(
        bit_len(m.len()),
    )
}

/// The state after compressing the first `k` 64-byte blocks of `m`.
pub open spec fn compress_blocks(state: Seq<u32>, m: Seq<u8>, k: nat) -> Seq<u32>
    decreases k,
{
    if k == 0 {
        state
    } else {
        sha256_compress(
            compress_blocks(state, m, (k - 1) as nat),
            m.subrange(64 * (k - 1), (64 * k) as int),
        )
    }
}

/// The eight initial words of SHA-256.
pub open spec fn sha256_initial_state() -> Seq<u32> {
    seq![
        0x6a09e667u32,
        0xbb67ae85u32,
        0x3c6ef372u32,
        0xa54ff53au32,
        0x510e527fu32,
        0x9b05688cu32,
        0x1f83d9abu32,
        0x5be0cd19u32,
    ]
}

/// Byte `j` of the big-endian serialisation of a state of eight words.
pub open spec fn state_byte(st: Seq<u32>, j: int) -> u8 {
    ((st[j / 4] >> ((24 - 8 * (j % 4)) as u32)) & 0xff) as u8
}

/// The eight words of a state as 32 bytes, big-endian per word.
pub open spec fn state_be_bytes(st: Seq<u32>) -> Seq<u8> {
    Seq::new(32, |j: int| state_byte(st, j))
}

/// The SHA-256 digest of a byte message.
pub open spec fn sha256_digest(m: Seq<u8>) -> Seq<u8> {
    let p = padded(m);
    state_be_bytes(compress_blocks(sha256_initial_state(), p, p.len() / 64))
}

/// The fingerprint of a sample sequence.
pub open spec fn fingerprint_of(s: Seq<i16>) -> Seq<u8> {
    sha256_digest(le_bytes(s))
}

pub proof fn lemma_le_bytes_len(s: Seq<i16>)
    ensures
        le_bytes(s).len() == 2 * s.len(),
    decreases s.len(),
{
    if s.len() > 0 {
        lemma_le_bytes_len(s.drop_last());
    }
}

proof fn lemma_padded_len(n: nat)
    ensures
        (n + 1 + pad_zero_len(n) + 8) % 64 == 0,
{
    assert((n + 1 + pad_zero_len(n) + 8) % 64 == 0) by (nonlinear_arith);
}

/// Serialises samples as little-endian bytes.
fn samples_to_le_bytes(samples: &Vec<i16>) -> (r: Vec<u8>)
    requires
        samples@.len() <= usize::MAX / 4,
    ensures
        r@ == le_bytes(samples@),
{
    let mut out: Vec<u8> = Vec::new();
    let mut i: usize = 0;
    while i < samples.len()
        invariant
            i <= samples@.len(),
            samples@.len() <= usize::MAX / 4,
            out@ == le_bytes(samples@.subrange(0, i as int)),
            out@.len() == 2 * i,
        decreases samples@.len() - i,
    {
        let x = samples[i];
        let u = x as u16;
        out.push((u & 0xff) as u8);
        out.push((u >> 8u16) as u8);
        proof {
            let s1 = samples@.subrange(0, i + 1);
            assert(s1.drop_last() == samples@.subrange(0, i as int));
            assert(s1.last() == x);
        }
        i = i + 1;
    }
    assert(samples@.subrange(0, samples@.len() as int) == samples@);
    out
}

/// Appends the SHA-256 padding to a message.
fn pad_message(msg: &mut Vec<u8>)
    requires
        old(msg)@.len() <= usize::MAX / 2,
    ensures
        final(msg)@ == padded(old(msg)@),
        final(msg)@.len() % 64 == 0,
{
    let ghost m = msg@;
    let n = msg.len();
    msg.push(0x80u8);
    let z: usize = (119 - (n % 64)) % 64;
    let mut j: usize = 0;
    while j < z
        invariant
            j <= z,
            z == pad_zero_len(m.len()),
            msg@ == m + seq![0x80u8] + Seq::new(j as nat, |k: int| 0u8),
        decreases z - j,
    {
        msg.push(0u8);
        j = j + 1;
        assert(msg@ == m + seq![0x80u8] + Seq::new(j as nat, |k: int| 0u8));
    }
    let bits: u64 = (n as u64).wrapping_mul(8);
    assert(bits == bit_len(m.len())) by (nonlinear_arith)
        requires
            bits == ((n as u64) * 8) % 0x1_0000_0000_0000_0000,
            n == m.len(),
    ;
    let ghost before = msg@;
    let mut k: usize = 0;
    while k < 8
        invariant
            k <= 8,
            msg@ == before + be_u64_bytes(bits).subrange(0, k as int),
        decreases 8 - k,
    {
        let b = ((bits >> ((56 - 8 * k) as u64)) & 0xff) as u8;
        msg.push(b);
        k = k + 1;
        assert(msg@ == before + be_u64_bytes(bits).subrange(0, k as int));
    }
    assert(be_u64_bytes(bits).subrange(0, 8) == be_u64_bytes(bits));
    proof {
        lemma_padded_len(m.len());
    }
}

/// The SHA-256 fingerprint of a sample sequence: the digest of its
/// little-endian bytes, two per sample.
pub fn hash_audio(samples: &Vec<i16>) -> (r: [u8; 32])
    requires
        samples@.len() <= usize::MAX / 4,
    ensures
        r@ == fingerprint_of(samples@),
{
    let mut msg = samples_to_le_bytes(samples);
    proof {
        lemma_le_bytes_len(samples@);
    }
    let ghost m = msg@;
    pad_message(&mut msg);
    let mut state: [u32; 8] = [
        0x6a09e667u32,
        0xbb67ae85u32,
        0x3c6ef372u32,
        0xa54ff53au32,
        0x510e527fu32,
        0x9b05688cu32,
        0x1f83d9abu32,
        0x5be0cd19u32,
    ];
    assert(state@ == sha256_initial_state());
    let mlen = msg.len();
    let nblocks = mlen / 64;
    let mut k: usize = 0;
    while k < nblocks
        invariant
            k <= nblocks,
            mlen == msg@.len(),
            nblocks == msg@.len() / 64,
            msg@.len() % 64 == 0,
            msg@ == padded(m),
            state@ == compress_blocks(sha256_initial_state(), msg@, k as nat),
        decreases nblocks - k,
    {
        assert(64 * k + 64 <= msg@.len()) by (nonlinear_arith)
            requires
                k < nblocks,
                nblocks == msg@.len() / 64,
        ;
        let start = 64 * k;
        let mut block: Vec<u8> = Vec::new();
        let mut j: usize = 0;
        while j < 64
            invariant
                j <= 64,
                mlen == msg@.len(),
                start + 64 <= msg@.len(),
                block@ == msg@.subrange(start as int, start + j),
            decreases 64 - j,
        {
            block.push(msg[start + j]);
            j = j + 1;
            assert(block@ == msg@.subrange(start as int, start + j));
        }
        compress_block(&mut state, block.as_slice());
        k = k + 1;
    }
    let mut out: [u8; 32] = [0u8; 32];
    let mut w: usize = 0;
    while w < 8
        invariant
            w <= 8,
            forall|j: int| 0 <= j < 4 * w ==> out@[j] == state_byte(state@, j),
        decreases 8 - w,
    {
        let x = state[w];
        out[4 * w] = ((x >> 24u32) & 0xff) as u8;
        out[4 * w + 1] = ((x >> 16u32) & 0xff) as u8;
        out[4 * w + 2] = ((x >> 8u32) & 0xff) as u8;
        out[4 * w + 3] = (x & 0xff) as u8;
        proof {
            let b = 4 * w as int;
            assert(b / 4 == w && b % 4 == 0);
            assert((b + 1) / 4 == w && (b + 1) % 4 == 1);
            assert((b + 2) / 4 == w && (b + 2) % 4 == 2);
            assert((b + 3) / 4 == w && (b + 3) % 4 == 3);
            assert(out@[b] == state_byte(state@, b));
            assert(out@[b + 1] == state_byte(state@, b + 1));
            assert(out@[b + 2] == state_byte(state@, b + 2));
            assert(x >> 0u32 == x) by (bit_vector);
            assert(out@[b + 3] == state_byte(state@, b + 3));
        }
        w = w + 1;
    }
    assert(out@ =~= state_be_bytes(state@));
    out
}

} // verus!
