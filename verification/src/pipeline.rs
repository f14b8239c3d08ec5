//! The transcription pipeline's own rules: the startup gate on model
//! initialization, the silence-based rechunker that cuts the annotated
//! sample stream into chunks, and the absorption of each chunk's outcome
//! into the transcript store. Denoising, voice-activity scoring and the
//! transcription itself are external transformers; the pipeline only
//! decides where chunks end and what each outcome does to the store.

use crate::store::{wrap, TranscriptSegment, TranscriptStore};
use vstd::prelude::*;

verus! {

/// Errors fatal to starting transcription.
#[derive(Clone, Copy, Debug, PartialEq, Eq, Structural)]
pub enum PipelineError {
    /// The speech model failed to initialize; the session does not
    /// proceed and no segment is ever produced.
    ModelUnavailable,
}

/// The voice-activity level (in millionths) under which a frame counts
/// as silent when no other threshold is chosen: 0.01.
pub const DEFAULT_END_THRESHOLD: u32 = 10_000;

/// The startup gate: the session proceeds exactly when the model
/// initialized; a failed initialization aborts before any segment is
/// produced.
pub fn gate_startup(model_loaded: bool) -> (r: Result<(), PipelineError>)
    ensures
        r is Ok <==> model_loaded,
        !model_loaded ==> r == Err::<(), PipelineError>(PipelineError::ModelUnavailable),
{
    if model_loaded {
        Ok(())
    } else {
        Err(PipelineError::ModelUnavailable)
    }
}

/// Buffers voice-annotated frames and cuts a complete chunk once voice
/// activity has stayed below the end threshold for a sustained trailing
/// window of frames.
pub struct Rechunker {
    /// Samples of the chunk being gathered, in arrival order.
    pub buffered: Vec<u32>,
    /// How many frames in a row, counting back from the newest, scored
    /// below the end threshold; saturates at `window`.
    pub quiet_run: usize,
    /// Voice-activity level (in millionths) under which a frame counts
    /// as silent.
    pub end_threshold: u32,
    /// How many silent frames in a row end a chunk; at least one.
    pub window: usize,
}

/// The quiet-run length after one more frame with voice activity
/// `activity`: a silent frame extends the run (saturating at the
/// window), a speech-bearing frame resets it.
pub open spec fn next_quiet(r: Rechunker, activity: u32) -> int {
    if activity < r.end_threshold {
        if r.quiet_run + 1 <= r.window {
            r.quiet_run + 1
        } else {
            r.window as int
        }
    } else {
        0
    }
}

/// Whether feeding one more frame completes a chunk: the quiet run
/// reaches the window and there is anything buffered to emit.
pub open spec fn emits(r: Rechunker, frame: Seq<u32>, activity: u32) -> bool {
    next_quiet(r, activity) == r.window && r.buffered@.len() + frame.len() > 0
}

impl Rechunker {
    pub open spec fn wf(&self) -> bool {
        1 <= self.window && self.quiet_run <= self.window
    }

    pub fn new(end_threshold: u32, window: usize) -> (r: Self)
        requires
            1 <= window,
        ensures
            r.wf(),
            r.end_threshold == end_threshold,
            r.window == window,
            r.buffered@ == Seq::<u32>::empty(),
            r.quiet_run == 0,
    {
        Rechunker { buffered: Vec::new(), quiet_run: 0, end_threshold, window }
    }

    /// Feed one frame of samples with its voice-activity score. The
    /// frame is buffered; exactly when the quiet run reaches the window,
    /// everything buffered — the chunk, trailing silence included — is
    /// emitted at that point and the gatherer starts over, so the chunk
    /// is never merged with whatever speech follows.
    pub fn feed(&mut self, frame: Vec<u32>, activity: u32) -> (chunk: Option<Vec<u32>>)
        requires
            old(self).wf(),
        ensures
            final(self).wf(),
            final(self).end_threshold == old(self).end_threshold,
            final(self).window == old(self).window,
            chunk is Some <==> emits(*old(self), frame@, activity),
            chunk matches Some(c) ==> c@ == old(self).buffered@ + frame@
                && final(self).buffered@.len() == 0 && final(self).quiet_run == 0,
            chunk is None ==> final(self).buffered@ == old(self).buffered@ + frame@
                && final(self).quiet_run == next_quiet(*old(self), activity),
    {
        let ghost frame_in = frame@;
        let mut frame = frame;
        self.buffered.append(&mut frame);
        if activity < self.end_threshold {
            if self.quiet_run < self.window {
                self.quiet_run = self.quiet_run + 1;
            }
        } else {
            self.quiet_run = 0;
        }
        if self.quiet_run == self.window && self.buffered.len() > 0 {
            let chunk = self.buffered.split_off(0);
            proof {
                assert(self.buffered@ =~= Seq::<u32>::empty());
                assert(chunk@ =~= old(self).buffered@ + frame_in);
            }
            self.quiet_run = 0;
            Some(chunk)
        } else {
            None
        }
    }
}

/// Absorb one chunk's outcome into the store: a transcribed segment is
/// wrapped and appended at the end; a skipped chunk — a transient
/// per-chunk failure, logged at the boundary — leaves the store
/// unchanged and the pipeline running.
pub fn handle_chunk(store: &mut TranscriptStore, outcome: Option<TranscriptSegment>)
    requires
        old(store).wf(),
        outcome matches Some(seg) ==> seg.valid(),
    ensures
        final(store).wf(),
        match outcome {
            Some(seg) => final(store)@ == old(store)@.push(wrap(seg)),
            None => final(store)@ == old(store)@,
        },
{
    match outcome {
        Some(seg) => store.append(seg),
        None => {},
    }
}

} // verus!
