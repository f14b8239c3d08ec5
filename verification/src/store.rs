//! The transcript store: an ordered, append-only sequence of transcribed
//! segments, each with a separately editable display text and a fixed
//! no-speech score used by the visibility filter.

use vstd::prelude::*;

verus! {

/// One whole unit on the probability scale: probabilities in [0, 1] are
/// carried in millionths, so `PROB_UNIT` stands for 1.0.
pub const PROB_UNIT: u32 = 1_000_000;

/// The atomic output of transcription: a span of recognized text plus the
/// engine's probability, in millionths, that the span holds no speech at
/// all (lower means more confidence that there is speech). Immutable once
/// produced.
#[derive(Clone, Debug, PartialEq)]
pub struct TranscriptSegment {
    pub text: String,
    pub no_speech_ppm: u32,
}

impl TranscriptSegment {
    /// A probability must fit the scale.
    pub open spec fn valid(&self) -> bool {
        self.no_speech_ppm <= PROB_UNIT
    }

    pub fn new(text: String, no_speech_ppm: u32) -> (r: Self)
        requires
            no_speech_ppm <= PROB_UNIT,
        ensures
            r.text == text,
            r.no_speech_ppm == no_speech_ppm,
            r.valid(),
    {
        TranscriptSegment { text, no_speech_ppm }
    }
}

/// A transcript segment together with a display text that the user may
/// edit. The original segment's text and score are kept unchanged for
/// filtering and audit; only the display text diverges.
#[derive(Clone, Debug, PartialEq)]
pub struct EditableSegment {
    pub original: TranscriptSegment,
    pub text: String,
}

/// What wrapping a fresh segment yields: the display text starts out as
/// the segment's own text.
pub open spec fn wrap(seg: TranscriptSegment) -> EditableSegment {
    EditableSegment { text: seg.text, original: seg }
}

impl From<TranscriptSegment> for EditableSegment {
    fn from(seg: TranscriptSegment) -> (r: EditableSegment) {
        EditableSegment { text: seg.text.clone(), original: seg }
    }
}

impl vstd::std_specs::convert::FromSpecImpl<TranscriptSegment> for EditableSegment {
    open spec fn obeys_from_spec() -> bool {
        true
    }

    open spec fn from_spec(seg: TranscriptSegment) -> EditableSegment {
        wrap(seg)
    }
}

impl EditableSegment {
    pub open spec fn valid(&self) -> bool {
        self.original.valid()
    }
}

/// Whether an entry clears the visibility threshold (in millionths):
/// shown when its speech confidence, one minus the no-speech probability,
/// lies strictly above the threshold.
pub open spec fn seg_visible(e: EditableSegment, threshold: int) -> bool {
    PROB_UNIT - e.original.no_speech_ppm > threshold
}

/// The indices of the visible entries among the first `n` of `s`, in
/// store order.
pub open spec fn visible_ix(s: Seq<EditableSegment>, threshold: int, n: int) -> Seq<int>
    decreases n,
{
    if n <= 0 {
        Seq::empty()
    } else if seg_visible(s[n - 1], threshold) {
        visible_ix(s, threshold, n - 1).push(n - 1)
    } else {
        visible_ix(s, threshold, n - 1)
    }
}

/// The indices of all visible entries of `s`, in store order.
pub open spec fn visible_of(s: Seq<EditableSegment>, threshold: int) -> Seq<int> {
    visible_ix(s, threshold, s.len() as int)
}

/// An ordered, growing transcript. Segments are only ever appended at the
/// end; each entry's display text is independently mutable; nothing is
/// reordered or removed.
pub struct TranscriptStore {
    pub entries: Vec<EditableSegment>,
}

impl View for TranscriptStore {
    type V = Seq<EditableSegment>;

    open spec fn view(&self) -> Seq<EditableSegment> {
        self.entries@
    }
}

impl TranscriptStore {
    /// Every stored score fits the probability scale.
    pub open spec fn wf(&self) -> bool {
        forall|i: int| 0 <= i < self@.len() ==> (#[trigger] self@[i]).valid()
    }

    pub fn new() -> (r: Self)
        ensures
            r@ == Seq::<EditableSegment>::empty(),
            r.wf(),
    {
        TranscriptStore { entries: Vec::new() }
    }

    pub fn len(&self) -> (n: usize)
        ensures
            n == self@.len(),
    {
        self.entries.len()
    }

    /// Wraps the segment and appends it at the end. The store only ever
    /// grows: every entry already present keeps its place and its value.
    pub fn append(&mut self, seg: TranscriptSegment)
        requires
            old(self).wf(),
            seg.valid(),
        ensures
            final(self).wf(),
            final(self)@ == old(self)@.push(wrap(seg)),
            final(self)@.len() == old(self)@.len() + 1,
            forall|i: int| 0 <= i < old(self)@.len() ==> final(self)@[i] == old(self)@[i],
    {
        let entry = EditableSegment::from(seg);
        self.entries.push(entry);
    }

    /// Overwrites entry `index`'s display text, and nothing else: every
    /// other entry is untouched, and the edited entry keeps its original
    /// segment. An out-of-range index leaves the store identical.
    pub fn edit(&mut self, index: usize, new_text: String)
        requires
            old(self).wf(),
        ensures
            final(self).wf(),
            final(self)@.len() == old(self)@.len(),
            index < old(self)@.len() ==> final(self)@ == old(self)@.update(
                index as int,
                (EditableSegment {
                    text: new_text,
                    original: old(self)@[index as int].original,
                }),
            ),
            index < old(self)@.len() ==> final(self)@[index as int].text == new_text
                && final(self)@[index as int].original == old(self)@[index as int].original,
            forall|j: int|
                0 <= j < old(self)@.len() && j != index ==> final(self)@[j] == old(self)@[j],
            index >= old(self)@.len() ==> final(self)@ == old(self)@,
    {
        if index < self.entries.len() {
            let entry = &mut self.entries[index];
            entry.text = new_text;
        }
    }

    /// The display text of entry `index`.
    pub fn text_at(&self, index: usize) -> (t: String)
        requires
            index < self@.len(),
        ensures
            t == self@[index as int].text,
    {
        self.entries[index].text.clone()
    }

    /// The stored no-speech probability (in millionths) of entry `index`,
    /// as the engine produced it: edits never change it.
    pub fn score_at(&self, index: usize) -> (p: u32)
        requires
            index < self@.len(),
        ensures
            p == self@[index as int].original.no_speech_ppm,
    {
        self.entries[index].original.no_speech_ppm
    }

    /// Every entry whose speech confidence lies strictly above
    /// `threshold` (in millionths), paired with its index, in store
    /// order; entries at or below the threshold are left out.
    pub fn visible(&self, threshold: u32) -> (r: Vec<(usize, String)>)
        requires
            self.wf(),
        ensures
            r@.len() == visible_of(self@, threshold as int).len(),
            forall|k: int| 0 <= k < r@.len() ==> (#[trigger] r@[k]).0 as int == visible_of(
                self@,
                threshold as int,
            )[k] && r@[k].1 == self@[visible_of(self@, threshold as int)[k]].text,
    {
        let mut out: Vec<(usize, String)> = Vec::new();
        let mut i: usize = 0;
        while i < self.entries.len()
            invariant
                self.wf(),
                i <= self@.len(),
                out@.len() == visible_ix(self@, threshold as int, i as int).len(),
                forall|k: int| 0 <= k < out@.len() ==> (#[trigger] out@[k]).0 as int == visible_ix(
                    self@,
                    threshold as int,
                    i as int,
                )[k] && out@[k].1 == self@[visible_ix(self@, threshold as int, i as int)[k]].text,
            decreases self@.len() - i,
        {
            let entry = &self.entries[i];
            assert(self@[i as int].valid());
            if PROB_UNIT - entry.original.no_speech_ppm > threshold {
                out.push((i, entry.text.clone()));
            }
            i = i + 1;
        }
        out
    }
}

/// Law: the visibility filter is exact. Among the first `n` entries, the
/// chosen indices all point at visible entries, come in strictly
/// increasing store order, cover every visible entry, and skip every
/// entry at or below the threshold.
pub proof fn lemma_visible_ix_exact(s: Seq<EditableSegment>, threshold: int, n: int)
    requires
        0 <= n <= s.len(),
    ensures
        forall|k: int| 0 <= k < visible_ix(s, threshold, n).len() ==> 0 <= #[trigger] visible_ix(
            s,
            threshold,
            n,
        )[k] < n && seg_visible(s[visible_ix(s, threshold, n)[k]], threshold),
        forall|k1: int, k2: int|
            0 <= k1 < k2 < visible_ix(s, threshold, n).len() ==> #[trigger] visible_ix(
                s,
                threshold,
                n,
            )[k1] < #[trigger] visible_ix(s, threshold, n)[k2],
        forall|j: int|
            0 <= j < n && seg_visible(s[j], threshold) ==> visible_ix(s, threshold, n).contains(j),
        forall|j: int|
            0 <= j < n && !seg_visible(s[j], threshold) ==> !visible_ix(s, threshold, n).contains(
                j,
            ),
    decreases n,
{
    if n > 0 {
        lemma_visible_ix_exact(s, threshold, n - 1);
        let prefix = visible_ix(s, threshold, n - 1);
        let cur = visible_ix(s, threshold, n);
        if seg_visible(s[n - 1], threshold) {
            assert(cur == prefix.push(n - 1));
            assert(cur[cur.len() - 1] == n - 1);
            assert forall|j: int| 0 <= j < n && seg_visible(s[j], threshold) implies cur.contains(
                j,
            ) by {
                if j == n - 1 {
                    assert(cur[cur.len() - 1] == j);
                    assert(cur.contains(j));
                } else {
                    assert(prefix.contains(j));
                    let k = choose|k: int| 0 <= k < prefix.len() && prefix[k] == j;
                    assert(cur[k] == j);
                    assert(cur.contains(j));
                }
            }
            assert forall|j: int|
                0 <= j < n && !seg_visible(s[j], threshold) implies !cur.contains(j) by {
                if cur.contains(j) {
                    let k = choose|k: int| 0 <= k < cur.len() && cur[k] == j;
                    if k < prefix.len() {
                        assert(prefix[k] == j);
                        assert(prefix.contains(j));
                    } else {
                        assert(j == n - 1);
                    }
                }
            }
        } else {
            assert(cur == prefix);
            assert forall|j: int| 0 <= j < n && seg_visible(s[j], threshold) implies cur.contains(
                j,
            ) by {
                if j < n - 1 {
                    assert(prefix.contains(j));
                    let k = choose|k: int| 0 <= k < prefix.len() && prefix[k] == j;
                    assert(cur[k] == j);
                    assert(cur.contains(j));
                }
            }
            assert forall|j: int|
                0 <= j < n && !seg_visible(s[j], threshold) implies !cur.contains(j) by {
                if cur.contains(j) {
                    let k = choose|k: int| 0 <= k < cur.len() && cur[k] == j;
                    assert(prefix[k] == j);
                    assert(0 <= prefix[k] < n - 1);
                }
            }
        }
    }
}

/// Law: `visible_of` picks out exactly the entries above the threshold,
/// in store order, none repeated, none missed.
pub proof fn lemma_visible_characterization(s: Seq<EditableSegment>, threshold: int)
    ensures
        forall|k: int| 0 <= k < visible_of(s, threshold).len() ==> 0 <= #[trigger] visible_of(
            s,
            threshold,
        )[k] < s.len() && seg_visible(s[visible_of(s, threshold)[k]], threshold),
        forall|k1: int, k2: int|
            0 <= k1 < k2 < visible_of(s, threshold).len() ==> #[trigger] visible_of(
                s,
                threshold,
            )[k1] < #[trigger] visible_of(s, threshold)[k2],
        forall|j: int|
            0 <= j < s.len() && seg_visible(s[j], threshold) ==> visible_of(s, threshold).contains(
                j,
            ),
        forall|j: int|
            0 <= j < s.len() && !seg_visible(s[j], threshold) ==> !visible_of(
                s,
                threshold,
            ).contains(j),
{
    lemma_visible_ix_exact(s, threshold, s.len() as int);
}

} // verus!
