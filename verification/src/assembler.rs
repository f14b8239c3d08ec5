//! The sample stream assembler: turns a run of audio batches into one
//! rate-tagged sample sequence. The rate observed on the first batch is
//! authoritative for the whole session.

use crate::mic::AudioData;
use vstd::prelude::*;

verus! {

/// The concatenation, in arrival order, of every batch's samples.
pub open spec fn concat_batches(bs: Seq<AudioData>) -> Seq<u32>
    decreases bs.len(),
{
    if bs.len() == 0 {
        Seq::empty()
    } else {
        concat_batches(bs.drop_last()) + bs.last().samples@
    }
}

/// One continuous sample sequence tagged with a single sample rate,
/// derived by concatenating all batches' samples in arrival order.
pub struct SampleStream {
    pub sample_rate: u32,
    pub samples: Vec<u32>,
}

/// The incremental assembler the live session drives: the first batch
/// fixes the rate, every batch's samples are forwarded unchanged.
pub struct Assembler {
    pub sample_rate: Option<u32>,
}

impl Assembler {
    pub fn new() -> (r: Self)
        ensures
            r.sample_rate is None,
    {
        Assembler { sample_rate: None }
    }

    /// Feed one batch: on the first batch the declared rate is adopted;
    /// afterwards the rate stands and later batches' declared rates are
    /// not re-validated. The batch's samples come back unchanged, in
    /// order, for the downstream consumer.
    pub fn feed(&mut self, batch: &AudioData) -> (out: Vec<u32>)
        ensures
            out@ == batch.samples@,
            final(self).sample_rate == (if old(self).sample_rate is None {
                Some(batch.sample_rate)
            } else {
                old(self).sample_rate
            }),
    {
        if self.sample_rate.is_none() {
            self.sample_rate = Some(batch.sample_rate);
        }
        let mut out: Vec<u32> = Vec::new();
        let mut i: usize = 0;
        while i < batch.samples.len()
            invariant
                i <= batch.samples@.len(),
                out@ == batch.samples@.subrange(0, i as int),
            decreases batch.samples@.len() - i,
        {
            out.push(batch.samples[i]);
            proof {
                assert(batch.samples@.subrange(0, i as int + 1) =~= batch.samples@.subrange(
                    0,
                    i as int,
                ).push(batch.samples@[i as int]));
            }
            i = i + 1;
        }
        proof {
            assert(batch.samples@.subrange(0, batch.samples@.len() as int) =~= batch.samples@);
        }
        out
    }
}

/// Flatten a whole run of batches: `None` exactly when no batch ever
/// arrived; otherwise a stream carrying the first batch's rate and the
/// concatenation of all batches' samples in arrival order.
pub fn assemble(batches: &Vec<AudioData>) -> (r: Option<SampleStream>)
    ensures
        r is Some <==> batches@.len() > 0,
        r matches Some(s) ==> s.sample_rate == batches@[0].sample_rate && s.samples@
            == concat_batches(batches@),
{
    if batches.len() == 0 {
        return None;
    }
    let mut acc = Assembler::new();
    let mut samples: Vec<u32> = Vec::new();
    let mut i: usize = 0;
    while i < batches.len()
        invariant
            i <= batches@.len(),
            batches@.len() > 0,
            samples@ == concat_batches(batches@.subrange(0, i as int)),
            acc.sample_rate == (if i == 0 {
                None::<u32>
            } else {
                Some(batches@[0].sample_rate)
            }),
        decreases batches@.len() - i,
    {
        let mut out = acc.feed(&batches[i]);
        samples.append(&mut out);
        proof {
            assert(batches@.subrange(0, i as int + 1).drop_last() =~= batches@.subrange(
                0,
                i as int,
            ));
            assert(batches@.subrange(0, i as int + 1).last() == batches@[i as int]);
        }
        i = i + 1;
    }
    proof {
        assert(batches@.subrange(0, batches@.len() as int) =~= batches@);
    }
    let rate = match acc.sample_rate {
        Some(r) => r,
        None => 0,
    };
    Some(SampleStream { sample_rate: rate, samples })
}

} // verus!
