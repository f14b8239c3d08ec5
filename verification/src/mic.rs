//! Capture-side data: audio batches as the driver delivers them, and the
//! options a capture session is started with.

use vstd::prelude::*;

verus! {

/// Errors that keep a capture session from starting.
#[derive(Clone, Copy, Debug, PartialEq, Eq, Structural)]
pub enum CaptureError {
    /// The capture device, or the permission for it, could not be acquired.
    /// Only the device layer can decide this; `StreamOptions::validate`
    /// never returns it.
    DeviceUnavailable,
    /// The requested buffer size is not a supported power of two.
    InvalidOptions,
}

/// One delivery of raw audio from the capture driver: an ordered run of
/// mono samples together with the sample rate (Hz) the driver declared.
///
/// A sample is carried as the raw bit pattern of an IEEE 754
/// single-precision number. The pipeline only moves samples along, it
/// never computes with their numeric value, so the bit pattern is the
/// whole story here; the device layer packs and unpacks it.
#[derive(Clone, Debug, PartialEq)]
pub struct AudioData {
    pub samples: Vec<u32>,
    pub sample_rate: u32,
}

/// The buffer size a capture session uses when none is chosen.
pub const DEFAULT_BUFFER_SIZE: u32 = 4096;

/// Whether `n` is a power of two: the only buffer sizes the capture
/// driver supports.
pub open spec fn is_pow2(n: nat) -> bool
    decreases n,
{
    if n == 0 {
        false
    } else if n == 1 {
        true
    } else {
        n % 2 == 0 && is_pow2(n / 2)
    }
}

/// Options for configuring the capture stream. Immutable once capture
/// starts; a new session is needed to change them.
#[derive(Clone, Copy, Debug, PartialEq, Eq, Structural)]
pub struct StreamOptions {
    /// Samples per internal device callback; must be a power of two.
    pub buffer_size: u32,
    /// Capture system/display audio instead of the microphone.
    pub from_display: bool,
}

impl Default for StreamOptions {
    fn default() -> (r: Self)
        ensures
            r.buffer_size == DEFAULT_BUFFER_SIZE,
            !r.from_display,
    {
        StreamOptions { buffer_size: DEFAULT_BUFFER_SIZE, from_display: false }
    }
}

impl StreamOptions {
    pub fn new() -> (r: Self)
        ensures
            r.buffer_size == DEFAULT_BUFFER_SIZE,
            !r.from_display,
    {
        Self::default()
    }

    pub fn with_buffer_size(self, size: u32) -> (r: Self)
        ensures
            r.buffer_size == size,
            r.from_display == self.from_display,
    {
        StreamOptions { buffer_size: size, ..self }
    }

    pub fn with_from_display(self, from_display: bool) -> (r: Self)
        ensures
            r.buffer_size == self.buffer_size,
            r.from_display == from_display,
    {
        StreamOptions { from_display, ..self }
    }

    /// Whether a session may start with these options: the buffer size
    /// must be a supported power of two. Device availability is the
    /// device layer's to decide.
    pub fn validate(&self) -> (r: Result<(), CaptureError>)
        ensures
            r is Ok <==> is_pow2(self.buffer_size as nat),
            r is Err ==> r == Err::<(), CaptureError>(CaptureError::InvalidOptions),
    {
        if buffer_size_supported(self.buffer_size) {
            Ok(())
        } else {
            Err(CaptureError::InvalidOptions)
        }
    }
}

/// Whether `size` is a power of two, decided by repeated halving.
pub fn buffer_size_supported(size: u32) -> (r: bool)
    ensures
        r == is_pow2(size as nat),
{
    if size == 0 {
        return false;
    }
    let mut m: u32 = size;
    while m > 1
        invariant
            1 <= m,
            is_pow2(size as nat) <==> is_pow2(m as nat),
        decreases m,
    {
        if m % 2 == 1 {
            return false;
        }
        m = m / 2;
    }
    true
}

} // verus!
