use live_transcript::assembler::{assemble, Assembler};
use live_transcript::mic::AudioData;

fn batch(samples: Vec<u32>, sample_rate: u32) -> AudioData {
    AudioData { samples, sample_rate }
}

#[test]
fn three_batches_of_4096_at_16000_make_12288_samples() {
    let batches = vec![
        batch(vec![7; 4096], 16000),
        batch(vec![8; 4096], 16000),
        batch(vec![9; 4096], 16000),
    ];
    let stream = assemble(&batches).expect("first batch arrived");
    assert_eq!(stream.sample_rate, 16000);
    assert_eq!(stream.samples.len(), 12288);
    assert!(stream.samples[..4096].iter().all(|s| *s == 7));
    assert!(stream.samples[4096..8192].iter().all(|s| *s == 8));
    assert!(stream.samples[8192..].iter().all(|s| *s == 9));
}

#[test]
fn samples_concatenate_in_arrival_order() {
    let batches = vec![batch(vec![1, 2], 48000), batch(vec![3], 48000), batch(vec![], 48000)];
    let stream = assemble(&batches).unwrap();
    assert_eq!(stream.sample_rate, 48000);
    assert_eq!(stream.samples, vec![1, 2, 3]);
}

#[test]
fn no_batches_means_no_stream() {
    let batches: Vec<AudioData> = vec![];
    assert!(assemble(&batches).is_none());
}

#[test]
fn first_batch_rate_is_authoritative() {
    let batches = vec![batch(vec![1], 16000), batch(vec![2], 44100)];
    let stream = assemble(&batches).unwrap();
    assert_eq!(stream.sample_rate, 16000);
    assert_eq!(stream.samples, vec![1, 2]);
}

#[test]
fn incremental_assembler_adopts_first_rate_and_forwards_samples() {
    let mut acc = Assembler::new();
    assert!(acc.sample_rate.is_none());
    let out = acc.feed(&batch(vec![5, 6], 16000));
    assert_eq!(out, vec![5, 6]);
    assert_eq!(acc.sample_rate, Some(16000));
    let out = acc.feed(&batch(vec![7], 8000));
    assert_eq!(out, vec![7]);
    assert_eq!(acc.sample_rate, Some(16000));
}
