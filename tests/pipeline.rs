use zk_sampler::commitment::hash_audio;
use zk_sampler::transform::{
    padded_chunk, reverse_audio, stretch_factor_is_positive, validate_transforms, AudioTransform,
    TransformError, TransformPipeline,
};

fn run_without_resampler(samples: Vec<i16>, rate: u32, ops: Vec<AudioTransform>) -> Vec<i16> {
    let mut p = TransformPipeline::new(samples, rate, ops).unwrap();
    while p.advance().is_some() {
        p.complete_resample(None);
    }
    p.into_samples()
}

#[test]
fn reverse_audio_reverses() {
    let mut s = vec![1, 2, 3, 4, 5];
    reverse_audio(&mut s);
    assert_eq!(s, vec![5, 4, 3, 2, 1]);
    let mut e: Vec<i16> = vec![];
    reverse_audio(&mut e);
    assert!(e.is_empty());
}

#[test]
fn reverse_scenario() {
    let mut p = TransformPipeline::new(vec![100, 200, -50, 0], 8000, vec![AudioTransform::Reverse])
        .unwrap();
    assert_eq!(p.advance(), None);
    assert_eq!(p.sample_rate(), 8000);
    let out = p.into_samples();
    assert_eq!(out, vec![0, -50, 200, 100]);
    let expected = hash_audio(&vec![0, -50, 200, 100]);
    assert_eq!(hash_audio(&out), expected);
}

#[test]
fn double_reverse_is_identity() {
    for s in [vec![1i16, 2, 3, 4], vec![9, -9], vec![], vec![1, 2, 3]] {
        let out = run_without_resampler(
            s.clone(),
            44100,
            vec![AudioTransform::Reverse, AudioTransform::Reverse],
        );
        assert_eq!(out, s);
    }
}

#[test]
fn pipeline_is_deterministic() {
    let ops = vec![
        AudioTransform::Reverse,
        AudioTransform::Pitch(3),
        AudioTransform::Reverse,
        AudioTransform::Stretch(1.5f32.to_bits()),
    ];
    let s: Vec<i16> = (0..100).map(|i| (i * 37 % 200 - 100) as i16).collect();
    let a = run_without_resampler(s.clone(), 16000, ops.clone());
    let b = run_without_resampler(s.clone(), 16000, ops);
    assert_eq!(a, b);
    assert_eq!(hash_audio(&a), hash_audio(&b));
}

#[test]
fn zero_stretch_is_rejected() {
    let r = TransformPipeline::new(vec![1, 2, 3], 8000, vec![AudioTransform::Stretch(0.0f32.to_bits())]);
    assert!(matches!(r, Err(TransformError::NonPositiveStretch(0))));
}

#[test]
fn negative_and_nan_stretch_are_rejected() {
    let ops = vec![
        AudioTransform::Reverse,
        AudioTransform::Stretch(2.0f32.to_bits()),
        AudioTransform::Stretch((-1.0f32).to_bits()),
    ];
    assert_eq!(validate_transforms(&ops), Err(TransformError::NonPositiveStretch(2)));
    let nan = vec![AudioTransform::Stretch(f32::NAN.to_bits())];
    assert_eq!(validate_transforms(&nan), Err(TransformError::NonPositiveStretch(0)));
    assert_eq!(validate_transforms(&vec![AudioTransform::Stretch((-0.0f32).to_bits())]),
        Err(TransformError::NonPositiveStretch(0)));
}

#[test]
fn positive_stretch_factors_pass() {
    assert!(stretch_factor_is_positive(0.5f32.to_bits()));
    assert!(stretch_factor_is_positive(f32::MIN_POSITIVE.to_bits()));
    assert!(stretch_factor_is_positive(f32::INFINITY.to_bits()));
    assert!(!stretch_factor_is_positive(0.0f32.to_bits()));
    assert_eq!(validate_transforms(&vec![AudioTransform::Pitch(-12), AudioTransform::Stretch(3.0f32.to_bits())]), Ok(()));
}

#[test]
fn pipeline_stops_at_each_resampling_step_in_order() {
    let ops = vec![
        AudioTransform::Reverse,
        AudioTransform::Pitch(2),
        AudioTransform::Stretch(2.0f32.to_bits()),
        AudioTransform::Reverse,
    ];
    let mut p = TransformPipeline::new(vec![1, 2, 3], 22050, ops).unwrap();
    assert_eq!(p.advance(), Some(AudioTransform::Pitch(2)));
    assert_eq!(p.samples(), &vec![3, 2, 1]);
    p.complete_resample(Some(vec![10, 20, 30, 40]));
    assert_eq!(p.advance(), Some(AudioTransform::Stretch(2.0f32.to_bits())));
    assert_eq!(p.samples(), &vec![10, 20, 30, 40]);
    p.complete_resample(None);
    assert_eq!(p.advance(), None);
    assert_eq!(p.into_samples(), vec![40, 30, 20, 10]);
}

#[test]
fn padded_chunk_pads_with_zeros() {
    let s = vec![1i16, 2, 3, 4, 5];
    assert_eq!(padded_chunk(&s, 0, 3), vec![1, 2, 3]);
    assert_eq!(padded_chunk(&s, 3, 4), vec![4, 5, 0, 0]);
    assert_eq!(padded_chunk(&s, 7, 2), vec![0, 0]);
}
