use live_transcript::model::ModelSource;
use live_transcript::pipeline::{
    gate_startup, handle_chunk, PipelineError, Rechunker, DEFAULT_END_THRESHOLD,
};
use live_transcript::store::{TranscriptSegment, TranscriptStore};

#[test]
fn chunk_boundary_is_cut_when_silence_lasts_the_window() {
    // two speech frames, then exactly the trailing window of silence:
    // the chunk must be emitted at that point, not merged with the
    // speech that follows
    let mut rc = Rechunker::new(DEFAULT_END_THRESHOLD, 3);
    assert!(rc.feed(vec![1, 2], 800_000).is_none());
    assert!(rc.feed(vec![3, 4], 700_000).is_none());
    assert!(rc.feed(vec![5], 0).is_none());
    assert!(rc.feed(vec![6], 5_000).is_none());
    let chunk = rc.feed(vec![7], 9_999).expect("third quiet frame ends the chunk");
    assert_eq!(chunk, vec![1, 2, 3, 4, 5, 6, 7]);
    // later speech starts a fresh chunk
    assert!(rc.feed(vec![8], 900_000).is_none());
    assert_eq!(rc.buffered, vec![8]);
}

#[test]
fn speech_resets_the_quiet_run() {
    let mut rc = Rechunker::new(DEFAULT_END_THRESHOLD, 2);
    assert!(rc.feed(vec![1], 0).is_none());
    // a frame at the threshold counts as speech again
    assert!(rc.feed(vec![2], DEFAULT_END_THRESHOLD).is_none());
    assert!(rc.feed(vec![3], 0).is_none());
    let chunk = rc.feed(vec![4], 0).expect("two quiet frames in a row");
    assert_eq!(chunk, vec![1, 2, 3, 4]);
}

#[test]
fn silence_alone_still_forms_chunks() {
    let mut rc = Rechunker::new(DEFAULT_END_THRESHOLD, 2);
    assert!(rc.feed(vec![1], 0).is_none());
    assert_eq!(rc.feed(vec![2], 0), Some(vec![1, 2]));
    assert!(rc.feed(vec![3], 0).is_none());
    assert_eq!(rc.feed(vec![4], 0), Some(vec![3, 4]));
}

#[test]
fn failed_model_initialization_aborts_startup() {
    assert_eq!(gate_startup(false), Err(PipelineError::ModelUnavailable));
    assert_eq!(gate_startup(true), Ok(()));
}

#[test]
fn transcribed_chunk_is_appended_and_skipped_chunk_changes_nothing() {
    let mut store = TranscriptStore::new();
    handle_chunk(&mut store, Some(TranscriptSegment::new("heard".to_string(), 40_000)));
    assert_eq!(store.len(), 1);
    assert_eq!(store.text_at(0), "heard");
    // a transient per-chunk failure: the chunk is skipped, the pipeline
    // (and the store) carries on unchanged
    handle_chunk(&mut store, None);
    assert_eq!(store.len(), 1);
    assert_eq!(store.text_at(0), "heard");
}

#[test]
fn model_presets_map_to_engine_names() {
    assert_eq!(ModelSource::Tiny.source(), "tiny");
    assert_eq!(ModelSource::TinyEn.source(), "tiny-en");
    assert_eq!(ModelSource::Base.source(), "base");
    assert_eq!(ModelSource::BaseEn.source(), "base-en");
    assert_eq!(ModelSource::Medium.source(), "medium");
    assert_eq!(ModelSource::MediumEn.source(), "medium-en");
    assert_eq!(ModelSource::LargeV3.source(), "large-v3");
    assert_eq!(ModelSource::DistilMediumEn.source(), "distil-medium-en");
    assert_eq!(ModelSource::DistilLargeV3_5.source(), "distil-large-v3.5");
    assert_eq!(ModelSource::DistilLargeV3.source(), "distil-large-v3");
    assert_eq!(ModelSource::LargeV3Turbo.source(), "large-v3-turbo");
}

#[test]
fn every_model_is_offered_once() {
    let all = ModelSource::all();
    assert_eq!(all.len(), 11);
    for (i, a) in all.iter().enumerate() {
        for b in all.iter().skip(i + 1) {
            assert_ne!(a, b);
        }
    }
    assert_eq!(all[0], ModelSource::Tiny);
    assert_eq!(all[10], ModelSource::LargeV3Turbo);
}
