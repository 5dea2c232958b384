//! The transform pipeline: an ordered list of operations applied one after
//! another to a mono 16-bit sample sequence.
//!
//! Reversal is done here. Pitch shift and time stretch go through a
//! floating-point resampler that runs outside the library: the pipeline stops
//! at each such operation, hands out the current samples, and resumes with
//! what the resampler produced (or with the samples unchanged where no
//! resampler could be built for the rate pair).

use vstd::prelude::*;

verus! {

/// One operation of a transform list. A stretch factor is carried as the bit
/// pattern of its IEEE-754 single-precision value.
#[derive(Clone, Copy, Debug, PartialEq, Eq, Structural)]
pub enum AudioTransform {
    Reverse,
    Pitch(i32),
    Stretch(u32),
}

/// Why a transform list was rejected.
#[derive(Clone, Copy, Debug, PartialEq, Eq, Structural)]
pub enum TransformError {
    /// The stretch factor at this position of the list is not a positive
    /// number (zero, negative, or NaN).
    NonPositiveStretch(usize),
}

/// A single-precision bit pattern stands for a number greater than zero:
/// sign bit clear, not zero, not NaN.
pub open spec fn positive_f32_bits(bits: u32) -> bool {
    0 < bits <= 0x7f80_0000
}

pub open spec fn transform_valid(t: AudioTransform) -> bool {
    match t {
        AudioTransform::Stretch(bits) => positive_f32_bits(bits),
        _ => true,
    }
}

pub open spec fn transforms_valid(ts: Seq<AudioTransform>) -> bool {
    forall|i: int| 0 <= i < ts.len() ==> transform_valid(#[trigger] ts[i])
}

/// `s` reversed `n` times.
pub open spec fn reverse_n(s: Seq<i16>, n: nat) -> Seq<i16>
    decreases n,
{
    if n == 0 {
        s
    } else {
        reverse_n(s, (n - 1) as nat).reverse()
    }
}

/// The first position at or after `from` that holds an operation other than
/// `Reverse`, or the length of the list where there is none.
pub open spec fn next_resample(ts: Seq<AudioTransform>, from: int) -> int
    decreases ts.len() - from,
{
    if from >= ts.len() {
        ts.len() as int
    } else if ts[from] is Reverse {
        next_resample(ts, from + 1)
    } else {
        from
    }
}

/// Reversing a sequence twice gives the sequence back.
pub proof fn lemma_reverse_reverse(s: Seq<i16>)
    ensures
        s.reverse().reverse() == s,
{
    if s.len() > 0 {
        assert(s.reverse().reverse() =~= s);
    }
}

/// A transform list of two reversals leaves every sample sequence as it was:
/// the pipeline runs through both without a resampling stop, and the result
/// is the input.
pub proof fn lemma_double_reverse_identity(s: Seq<i16>)
    ensures
        next_resample(seq![AudioTransform::Reverse, AudioTransform::Reverse], 0) == 2,
        reverse_n(s, 2) == s,
{
    let ts = seq![AudioTransform::Reverse, AudioTransform::Reverse];
    assert(next_resample(ts, 2) == 2);
    assert(next_resample(ts, 1) == 2);
    assert(reverse_n(s, 2) == reverse_n(s, 1).reverse());
    assert(reverse_n(s, 0) == s);
    assert(reverse_n(s, 1) == s.reverse());
    lemma_reverse_reverse(s);
}

proof fn lemma_next_resample_bounds(ts: Seq<AudioTransform>, from: int)
    requires
        0 <= from <= ts.len(),
    ensures
        from <= next_resample(ts, from) <= ts.len(),
        forall|k: int| from <= k < next_resample(ts, from) ==> ts[k] is Reverse,
        next_resample(ts, from) < ts.len() ==> !(ts[next_resample(ts, from)] is Reverse),
    decreases ts.len() - from,
{
    if from < ts.len() && ts[from] is Reverse {
        lemma_next_resample_bounds(ts, from + 1);
    }
}

/// Reverses the samples in place.
pub fn reverse_audio(samples: &mut Vec<i16>)
    ensures
        final(samples)@ == old(samples)@.reverse(),
{
    let n = samples.len();
    let ghost s = samples@;
    let mut i: usize = 0;
    while i < n / 2
        invariant
            n == s.len(),
            samples@.len() == n,
            i <= n / 2,
            forall|k: int| 0 <= k < i ==> samples@[k] == s[n - 1 - k],
            forall|k: int| 0 <= k < i ==> samples@[n - 1 - k] == s[k],
            forall|k: int| i <= k < n - i ==> samples@[k] == s[k],
        decreases n / 2 - i,
    {
        let a = samples[i];
        let b = samples[n - 1 - i];
        samples.set(i, b);
        samples.set(n - 1 - i, a);
        i = i + 1;
    }
    assert(samples@ =~= s.reverse());
}

/// Checks that a single-precision bit pattern stands for a number greater
/// than zero.
pub fn stretch_factor_is_positive(bits: u32) -> (r: bool)
    ensures
        r == positive_f32_bits(bits),
{
    0 < bits && bits <= 0x7f80_0000
}

/// Accepts a transform list whose stretch factors are all positive; rejects
/// any other, naming the first offending position.
pub fn validate_transforms(ts: &Vec<AudioTransform>) -> (r: Result<(), TransformError>)
    ensures
        r is Ok <==> transforms_valid(ts@),
        r matches Err(TransformError::NonPositiveStretch(i)) ==> i < ts@.len() && !transform_valid(
            ts@[i as int],
        ) && forall|k: int| 0 <= k < i ==> transform_valid(#[trigger] ts@[k]),
{
    let mut i: usize = 0;
    while i < ts.len()
        invariant
            i <= ts@.len(),
            forall|k: int| 0 <= k < i ==> transform_valid(#[trigger] ts@[k]),
        decreases ts@.len() - i,
    {
        match ts[i] {
            AudioTransform::Stretch(bits) => {
                if !stretch_factor_is_positive(bits) {
                    return Err(TransformError::NonPositiveStretch(i));
                }
            },
            _ => {},
        }
        i = i + 1;
    }
    Ok(())
}

/// The chunk of `size` samples that starts at `start`, zero-padded at the end
/// of the input: what a fixed-size resampler is fed.
pub open spec fn padded_chunk_of(s: Seq<i16>, start: int, size: int) -> Seq<i16> {
    Seq::new(size as nat, |j: int| if start + j < s.len() { s[start + j] } else { 0i16 })
}

/// Copies the `size` samples from `start` on, with zeros past the end of the
/// input.
pub fn padded_chunk(samples: &Vec<i16>, start: usize, size: usize) -> (r: Vec<i16>)
    ensures
        r@ == padded_chunk_of(samples@, start as int, size as int),
{
    let mut out: Vec<i16> = Vec::new();
    let mut j: usize = 0;
    while j < size
        invariant
            j <= size,
            out@ == padded_chunk_of(samples@, start as int, j as int),
        decreases size - j,
    {
        if start < samples.len() && j < samples.len() - start {
            out.push(samples[start + j]);
        } else {
            out.push(0i16);
        }
        j = j + 1;
        assert(out@ =~= padded_chunk_of(samples@, start as int, j as int));
    }
    out
}

/// The state of one request's pipeline: the current samples and the position
/// of the next operation to apply.
pub struct TransformPipeline {
    samples: Vec<i16>,
    sample_rate: u32,
    transforms: Vec<AudioTransform>,
    next: usize,
}

impl TransformPipeline {
    pub closed spec fn current(&self) -> Seq<i16> {
        self.samples@
    }

    pub closed spec fn rate(&self) -> u32 {
        self.sample_rate
    }

    pub closed spec fn ops(&self) -> Seq<AudioTransform> {
        self.transforms@
    }

    pub closed spec fn position(&self) -> int {
        self.next as int
    }

    pub open spec fn wf(&self) -> bool {
        &&& 0 <= self.position() <= self.ops().len()
        &&& transforms_valid(self.ops())
    }

    /// The pipeline is stopped at a pitch shift or time stretch, waiting for
    /// the resampler's output.
    pub open spec fn awaiting_resample(&self) -> bool {
        &&& self.position() < self.ops().len()
        &&& !(self.ops()[self.position()] is Reverse)
    }

    pub open spec fn finished(&self) -> bool {
        self.position() == self.ops().len()
    }

    /// Starts a pipeline; a transform list with a non-positive stretch factor
    /// is rejected before any work is done.
    pub fn new(samples: Vec<i16>, sample_rate: u32, transforms: Vec<AudioTransform>) -> (r: Result<
        TransformPipeline,
        TransformError,
    >)
        ensures
            r is Ok <==> transforms_valid(transforms@),
            r matches Ok(p) ==> p.wf() && p.current() == samples@ && p.rate() == sample_rate
                && p.ops() == transforms@ && p.position() == 0,
            r matches Err(TransformError::NonPositiveStretch(i)) ==> i < transforms@.len()
                && !transform_valid(transforms@[i as int]) && forall|k: int|
                0 <= k < i ==> transform_valid(#[trigger] transforms@[k]),
    {
        match validate_transforms(&transforms) {
            Ok(()) => Ok(TransformPipeline { samples, sample_rate, transforms, next: 0 }),
            Err(e) => Err(e),
        }
    }

    /// Applies the reversals from the current position on, and stops at the
    /// next pitch shift or time stretch, which it returns; `None` once every
    /// operation has been applied.
    pub fn advance(&mut self) -> (r: Option<AudioTransform>)
        requires
            old(self).wf(),
            !old(self).awaiting_resample(),
        ensures
            final(self).wf(),
            final(self).ops() == old(self).ops(),
            final(self).rate() == old(self).rate(),
            final(self).position() == next_resample(old(self).ops(), old(self).position()),
            final(self).current() == reverse_n(
                old(self).current(),
                (final(self).position() - old(self).position()) as nat,
            ),
            r is None <==> final(self).finished(),
            r matches Some(t) ==> final(self).awaiting_resample()
                && t == final(self).ops()[final(self).position()],
    {
        let ghost start = self.next as int;
        let ghost s0 = self.samples@;
        let ghost ts = self.transforms@;
        proof {
            lemma_next_resample_bounds(self.transforms@, start);
        }
        while self.next < self.transforms.len() && self.transforms[self.next] == AudioTransform::Reverse
            invariant
                self.transforms@ == ts,
                self.sample_rate == old(self).sample_rate,
                transforms_valid(ts),
                start <= self.next <= self.transforms@.len(),
                next_resample(self.transforms@, self.next as int) == next_resample(
                    self.transforms@,
                    start,
                ),
                self.samples@ == reverse_n(s0, (self.next - start) as nat),
            decreases self.transforms@.len() - self.next,
        {
            reverse_audio(&mut self.samples);
            self.next = self.next + 1;
        }
        if self.next < self.transforms.len() {
            Some(self.transforms[self.next])
        } else {
            None
        }
    }

    /// The samples the pipeline holds now.
    pub fn samples(&self) -> (r: &Vec<i16>)
        ensures
            r@ == self.current(),
    {
        &self.samples
    }

    /// The sample rate of the request; it stays the same through every stage.
    pub fn sample_rate(&self) -> (r: u32)
        ensures
            r == self.rate(),
    {
        self.sample_rate
    }

    /// Takes the resampler's output for the operation the pipeline is
    /// stopped at and moves past it. `None` stands for a resampler that could
    /// not be built for the rate pair: the samples are then kept unchanged.
    pub fn complete_resample(&mut self, output: Option<Vec<i16>>)
        requires
            old(self).wf(),
            old(self).awaiting_resample(),
        ensures
            final(self).wf(),
            final(self).ops() == old(self).ops(),
            final(self).rate() == old(self).rate(),
            final(self).position() == old(self).position() + 1,
            final(self).current() == (match output {
                Some(o) => o@,
                None => old(self).current(),
            }),
    {
        match output {
            Some(o) => {
                self.samples = o;
            },
            None => {},
        }
        let n = self.transforms.len();
        assert(self.next < n);
        self.next = self.next + 1;
    }

    /// The transformed samples of a finished pipeline.
    pub fn into_samples(self) -> (r: Vec<i16>)
        ensures
            r@ == self.current(),
    {
        self.samples
    }
}

} // verus!
