//! Core of a live speech-transcription pipeline.
//!
//! A capture driver pushes batches of raw audio samples through a queue
//! (`bridge`); the batches are flattened into one rate-tagged sample
//! sequence (`assembler`); the pipeline's own rules segment the annotated
//! stream into chunks and absorb each transcribed segment (`pipeline`);
//! the growing transcript is held in an ordered, editable store with a
//! confidence-threshold visibility filter (`store`). The capture device,
//! the user interface and the speech model itself live outside this
//! library and hand it plain values.

pub mod assembler;
pub mod bridge;
pub mod mic;
pub mod model;
pub mod pipeline;
pub mod store;
