//! The smoothing layer: turns raw per-frame speech judgments into debounced
//! `Speech` / `Noise` decisions with onset confirmation, hangover and prefill.
use crate::error::VadError;
use crate::pcm::FRAME_SAMPLES;
use vstd::prelude::*;

verus! {

/// A smoothed decision for one frame.
#[derive(Debug, PartialEq, Eq)]
pub enum VadFrame {
    /// Confirmed speech, with the audio that belongs to it (on onset this is
    /// the prefill buffer followed by the current frame).
    Speech(Vec<i16>),
    /// No speech; carries no audio.
    Noise,
}

/// The mathematical value of a [`VadFrame`].
pub enum Decision {
    Speech(Seq<i16>),
    Noise,
}

impl View for VadFrame {
    type V = Decision;

    open spec fn view(&self) -> Decision {
        match self {
            VadFrame::Speech(a) => Decision::Speech(a@),
            VadFrame::Noise => Decision::Noise,
        }
    }
}

/// The abstract state of a smoothing layer.
pub struct SmoothState {
    /// Frames kept for prefill.
    pub prefill_frames: nat,
    /// Consecutive negative frames that end confirmed speech.
    pub hangover_frames: nat,
    /// Consecutive positive frames that confirm speech.
    pub onset_frames: nat,
    /// The most recent frames, oldest first, at most `prefill_frames` of them.
    pub ring: Seq<Seq<i16>>,
    /// Consecutive positive judgments while unconfirmed.
    pub positives: nat,
    /// Consecutive negative judgments while confirmed.
    pub negatives: nat,
    /// Whether speech is confirmed.
    pub in_speech: bool,
}

/// Frames concatenated, oldest first.
pub open spec fn joined(frames: Seq<Seq<i16>>) -> Seq<i16>
    decreases frames.len(),
{
    if frames.len() == 0 {
        Seq::empty()
    } else {
        joined(frames.drop_last()) + frames.last()
    }
}

/// The last `n` elements of `frames` (all of them if there are fewer).
pub open spec fn last_n(frames: Seq<Seq<i16>>, n: nat) -> Seq<Seq<i16>> {
    if frames.len() <= n {
        frames
    } else {
        frames.subrange(frames.len() - n, frames.len() as int)
    }
}

/// The state of a newly built (or reset) smoothing layer.
pub open spec fn fresh_state(prefill: nat, hangover: nat, onset: nat) -> SmoothState {
    SmoothState {
        prefill_frames: prefill,
        hangover_frames: hangover,
        onset_frames: onset,
        ring: Seq::empty(),
        positives: 0,
        negatives: 0,
        in_speech: false,
    }
}

/// The effect of one frame with raw judgment `voice`: the next state and the
/// decision emitted.
pub open spec fn step(s: SmoothState, frame: Seq<i16>, voice: bool) -> (SmoothState, Decision) {
    let ring = last_n(s.ring.push(frame), s.prefill_frames);
    if !s.in_speech {
        if voice && s.positives + 1 >= s.onset_frames {
            (
                SmoothState { ring, positives: 0, negatives: 0, in_speech: true, ..s },
                Decision::Speech(joined(s.ring) + frame),
            )
        } else if voice {
            (SmoothState { ring, positives: s.positives + 1, negatives: 0, ..s }, Decision::Noise)
        } else {
            (SmoothState { ring, positives: 0, negatives: 0, ..s }, Decision::Noise)
        }
    } else if voice {
        (SmoothState { ring, positives: 0, negatives: 0, ..s }, Decision::Speech(frame))
    } else if s.negatives + 1 >= s.hangover_frames {
        (
            SmoothState { ring, positives: 0, negatives: 0, in_speech: false, ..s },
            Decision::Noise,
        )
    } else {
        (SmoothState { ring, positives: 0, negatives: s.negatives + 1, ..s }, Decision::Speech(frame))
    }
}

/// The states a smoothing layer can be in.
pub open spec fn smooth_wf(s: SmoothState) -> bool {
    &&& s.ring.len() <= s.prefill_frames
    &&& (s.positives < s.onset_frames || s.positives == 0)
    &&& (s.negatives < s.hangover_frames || s.negatives == 0)
    &&& (s.in_speech ==> s.positives == 0)
    &&& (!s.in_speech ==> s.negatives == 0)
}

/// Feeds a sequence of (frame, raw judgment) pairs through `step`, returning
/// the final state and the decisions emitted, one per frame.
pub open spec fn run(s: SmoothState, input: Seq<(Seq<i16>, bool)>) -> (SmoothState, Seq<Decision>)
    decreases input.len(),
{
    if input.len() == 0 {
        (s, Seq::empty())
    } else {
        let prev = run(s, input.drop_last());
        let next = step(prev.0, input.last().0, input.last().1);
        (next.0, prev.1.push(next.1))
    }
}

/// Only the frames of an input sequence.
pub open spec fn frames_of(input: Seq<(Seq<i16>, bool)>) -> Seq<Seq<i16>> {
    input.map_values(|p: (Seq<i16>, bool)| p.0)
}

/// Running never changes the configuration, keeps the ring as the last
/// `prefill_frames` frames seen, and emits one decision per frame.
pub proof fn lemma_run_ring(s: SmoothState, input: Seq<(Seq<i16>, bool)>)
    requires
        s.ring.len() <= s.prefill_frames,
    ensures
        run(s, input).0.prefill_frames == s.prefill_frames,
        run(s, input).0.hangover_frames == s.hangover_frames,
        run(s, input).0.onset_frames == s.onset_frames,
        run(s, input).0.ring == last_n(s.ring + frames_of(input), s.prefill_frames),
        run(s, input).1.len() == input.len(),
    decreases input.len(),
{
    if input.len() == 0 {
        assert(s.ring + frames_of(input) =~= s.ring);
    } else {
        let init = input.drop_last();
        lemma_run_ring(s, init);
        let a = s.ring + frames_of(init);
        let x = input.last().0;
        assert(s.ring + frames_of(input) =~= a.push(x));
        let n = s.prefill_frames;
        let l = last_n(a, n);
        assert(last_n(l.push(x), n) =~= last_n(a.push(x), n));
    }
}

/// Onset debounce: from an unconfirmed state with no pending positive
/// judgments, fewer than `onset_frames` positive frames followed by a negative
/// one emit only `Noise`, and leave the layer unconfirmed with no pending
/// positives.
pub proof fn lemma_onset_debounce(s: SmoothState, input: Seq<(Seq<i16>, bool)>)
    requires
        smooth_wf(s),
        !s.in_speech,
        s.positives == 0,
        1 <= input.len() <= s.onset_frames,
        forall|i: int| 0 <= i < input.len() - 1 ==> #[trigger] input[i].1,
        !input.last().1,
    ensures
        forall|i: int| 0 <= i < input.len() ==> #[trigger] run(s, input).1[i] == Decision::Noise,
        !run(s, input).0.in_speech,
        run(s, input).0.positives == 0,
{
    let init = input.drop_last();
    lemma_positive_prefix(s, init);
    lemma_run_ring(s, input);
}

/// While unconfirmed, `j < onset_frames` positive frames emit `Noise` and
/// count `j` pending positives.
pub proof fn lemma_positive_prefix(s: SmoothState, input: Seq<(Seq<i16>, bool)>)
    requires
        smooth_wf(s),
        !s.in_speech,
        s.positives == 0,
        input.len() < s.onset_frames,
        forall|i: int| 0 <= i < input.len() ==> #[trigger] input[i].1,
    ensures
        forall|i: int| 0 <= i < input.len() ==> #[trigger] run(s, input).1[i] == Decision::Noise,
        !run(s, input).0.in_speech,
        run(s, input).0.positives == input.len(),
        run(s, input).0.negatives == 0,
        run(s, input).0.onset_frames == s.onset_frames,
        run(s, input).1.len() == input.len(),
    decreases input.len(),
{
    lemma_run_ring(s, input);
    if input.len() > 0 {
        let init = input.drop_last();
        assert forall|i: int| 0 <= i < init.len() implies #[trigger] init[i].1 by {
            assert(init[i] == input[i]);
        }
        lemma_positive_prefix(s, init);
        assert(input.last().1 == input[input.len() - 1].1);
        assert forall|i: int| 0 <= i < input.len() implies #[trigger] run(s, input).1[i]
            == Decision::Noise by {
            if i < input.len() - 1 {
                assert(run(s, input).1[i] == run(s, init).1[i]);
            }
        }
    }
}

/// Onset confirmation: from an unconfirmed state with no pending positive
/// judgments, `onset_frames` positive frames emit `Noise` for all but the
/// last, and for the last, `Speech` carrying the prefill buffer (the last
/// `prefill_frames` frames before it, oldest first) followed by the frame
/// itself; speech is then confirmed.
pub proof fn lemma_onset_confirms(s: SmoothState, input: Seq<(Seq<i16>, bool)>)
    requires
        smooth_wf(s),
        !s.in_speech,
        s.positives == 0,
        s.onset_frames >= 1,
        input.len() == s.onset_frames,
        forall|i: int| 0 <= i < input.len() ==> #[trigger] input[i].1,
    ensures
        forall|i: int| 0 <= i < input.len() - 1 ==> #[trigger] run(s, input).1[i] == Decision::Noise,
        run(s, input).1.last() == Decision::Speech(
            joined(last_n(s.ring + frames_of(input.drop_last()), s.prefill_frames))
                + input.last().0,
        ),
        run(s, input).0.in_speech,
        run(s, input).0.negatives == 0,
{
    let init = input.drop_last();
    assert forall|i: int| 0 <= i < init.len() implies #[trigger] init[i].1 by {
        assert(init[i] == input[i]);
    }
    lemma_positive_prefix(s, init);
    lemma_run_ring(s, init);
    assert(input.last().1 == input[input.len() - 1].1);
    assert forall|i: int| 0 <= i < input.len() - 1 implies #[trigger] run(s, input).1[i]
        == Decision::Noise by {
        assert(run(s, input).1[i] == run(s, init).1[i]);
    }
}

/// Onset from a fresh layer: when the prefill buffer can hold every frame
/// before the confirming one, the `Speech` emitted on confirmation carries
/// all `onset_frames` frames, in order.
pub proof fn lemma_onset_from_fresh(
    prefill: nat,
    hangover: nat,
    onset: nat,
    input: Seq<(Seq<i16>, bool)>,
)
    requires
        onset >= 1,
        prefill + 1 >= onset,
        input.len() == onset,
        forall|i: int| 0 <= i < input.len() ==> #[trigger] input[i].1,
    ensures
        forall|i: int| 0 <= i < input.len() - 1 ==> #[trigger] run(
            fresh_state(prefill, hangover, onset),
            input,
        ).1[i] == Decision::Noise,
        run(fresh_state(prefill, hangover, onset), input).1.last() == Decision::Speech(
            joined(frames_of(input)),
        ),
        run(fresh_state(prefill, hangover, onset), input).0.in_speech,
{
    let s = fresh_state(prefill, hangover, onset);
    lemma_onset_confirms(s, input);
    let init = input.drop_last();
    assert(s.ring + frames_of(init) =~= frames_of(init));
    assert(last_n(frames_of(init), prefill) == frames_of(init));
    assert(frames_of(input).drop_last() =~= frames_of(init));
    assert(frames_of(input).last() == input.last().0);
}

/// While confirmed with no pending negatives, `j < hangover_frames` negative
/// frames each emit `Speech` with their own audio and keep speech confirmed.
pub proof fn lemma_hangover_holds(s: SmoothState, input: Seq<(Seq<i16>, bool)>)
    requires
        smooth_wf(s),
        s.in_speech,
        s.negatives == 0,
        input.len() < s.hangover_frames,
        forall|i: int| 0 <= i < input.len() ==> !(#[trigger] input[i].1),
    ensures
        forall|i: int| 0 <= i < input.len() ==> #[trigger] run(s, input).1[i] == Decision::Speech(
            input[i].0,
        ),
        run(s, input).0.in_speech,
        run(s, input).0.negatives == input.len(),
        run(s, input).0.hangover_frames == s.hangover_frames,
        run(s, input).1.len() == input.len(),
    decreases input.len(),
{
    lemma_run_ring(s, input);
    if input.len() > 0 {
        let init = input.drop_last();
        assert forall|i: int| 0 <= i < init.len() implies !(#[trigger] init[i].1) by {
            assert(init[i] == input[i]);
        }
        lemma_hangover_holds(s, init);
        assert(input.last() == input[input.len() - 1]);
        assert forall|i: int| 0 <= i < input.len() implies #[trigger] run(s, input).1[i]
            == Decision::Speech(input[i].0) by {
            if i < input.len() - 1 {
                assert(run(s, input).1[i] == run(s, init).1[i]);
                assert(init[i] == input[i]);
            }
        }
    }
}

/// Hangover release: while confirmed with no pending negatives,
/// `hangover_frames` negative frames in a row emit `Speech` for all but the
/// last, and `Noise` for the frame that completes the count, which ends
/// confirmed speech.
pub proof fn lemma_hangover_releases(s: SmoothState, input: Seq<(Seq<i16>, bool)>)
    requires
        smooth_wf(s),
        s.in_speech,
        s.negatives == 0,
        s.hangover_frames >= 1,
        input.len() == s.hangover_frames,
        forall|i: int| 0 <= i < input.len() ==> !(#[trigger] input[i].1),
    ensures
        forall|i: int| 0 <= i < input.len() - 1 ==> #[trigger] run(s, input).1[i] == Decision::Speech(
            input[i].0,
        ),
        run(s, input).1.last() == Decision::Noise,
        !run(s, input).0.in_speech,
{
    let init = input.drop_last();
    assert forall|i: int| 0 <= i < init.len() implies !(#[trigger] init[i].1) by {
        assert(init[i] == input[i]);
    }
    lemma_hangover_holds(s, init);
    assert(input.last() == input[input.len() - 1]);
    assert forall|i: int| 0 <= i < input.len() - 1 implies #[trigger] run(s, input).1[i]
        == Decision::Speech(input[i].0) by {
        assert(run(s, input).1[i] == run(s, init).1[i]);
        assert(init[i] == input[i]);
    }
}

/// Reset idempotence: whatever state a layer was in, after `reset` any frame
/// sequence yields the same decisions (and state) as on a freshly built layer
/// with the same configuration.
pub proof fn lemma_reset_replay(s: SmoothState, input: Seq<(Seq<i16>, bool)>)
    ensures
        run(reset_state(s), input) == run(
            fresh_state(s.prefill_frames, s.hangover_frames, s.onset_frames),
            input,
        ),
{
}

/// The state `reset` leaves behind.
pub open spec fn reset_state(s: SmoothState) -> SmoothState {
    SmoothState { ring: Seq::empty(), positives: 0, negatives: 0, in_speech: false, ..s }
}

/// Debounces a per-frame speech classifier.
pub struct SmoothedVad {
    prefill_frames: usize,
    hangover_frames: usize,
    onset_frames: usize,
    frame_buffer: Vec<Vec<i16>>,
    onset_counter: usize,
    hangover_counter: usize,
    in_speech: bool,
}

impl View for SmoothedVad {
    type V = SmoothState;

    closed spec fn view(&self) -> SmoothState {
        SmoothState {
            prefill_frames: self.prefill_frames as nat,
            hangover_frames: self.hangover_frames as nat,
            onset_frames: self.onset_frames as nat,
            ring: self.frame_buffer@.map_values(|f: Vec<i16>| f@),
            positives: self.onset_counter as nat,
            negatives: self.hangover_counter as nat,
            in_speech: self.in_speech,
        }
    }
}

/// Appends `src` to `dst`.
pub fn append_samples(dst: &mut Vec<i16>, src: &Vec<i16>)
    ensures
        final(dst)@ == old(dst)@ + src@,
{
    let mut i: usize = 0;
    while i < src.len()
        invariant
            i <= src@.len(),
            dst@ =~= old(dst)@ + src@.subrange(0, i as int),
        decreases src.len() - i,
    {
        dst.push(src[i]);
        i = i + 1;
    }
    assert(src@.subrange(0, src@.len() as int) =~= src@);
}

/// A copy of `src`.
pub fn copy_samples(src: &Vec<i16>) -> (r: Vec<i16>)
    ensures
        r@ == src@,
{
    let mut out: Vec<i16> = Vec::with_capacity(src.len());
    append_samples(&mut out, src);
    assert(out@ =~= src@);
    out
}

impl SmoothedVad {
    /// The well-formedness of the state.
    pub closed spec fn wf(&self) -> bool {
        &&& smooth_wf(self@)
        &&& self.frame_buffer@.len() == self@.ring.len()
    }

    /// A smoothing layer with the given prefill, hangover and onset lengths,
    /// in the unconfirmed state.
    pub fn new(prefill_frames: usize, hangover_frames: usize, onset_frames: usize) -> (r: Self)
        ensures
            r.wf(),
            r@ == fresh_state(prefill_frames as nat, hangover_frames as nat, onset_frames as nat),
    {
        let r = SmoothedVad {
            prefill_frames,
            hangover_frames,
            onset_frames,
            frame_buffer: Vec::new(),
            onset_counter: 0,
            hangover_counter: 0,
            in_speech: false,
        };
        assert(r@.ring =~= Seq::<Seq<i16>>::empty());
        r
    }

    /// Classifies one frame, given the raw judgment of the classifier for it.
    /// A frame that does not hold exactly one classifier frame of samples is
    /// rejected and the state is left as it was.
    pub fn push_frame(&mut self, frame: &Vec<i16>, is_voice: bool) -> (r: Result<VadFrame, VadError>)
        requires
            old(self).wf(),
        ensures
            final(self).wf(),
            frame@.len() != FRAME_SAMPLES ==> r == Err::<VadFrame, VadError>(
                VadError::InvalidFrameLength,
            ) && final(self)@ == old(self)@,
            frame@.len() == FRAME_SAMPLES ==> r is Ok && (final(self)@, r->Ok_0@) == step(
                old(self)@,
                frame@,
                is_voice,
            ),
    {
        if frame.len() != FRAME_SAMPLES {
            return Err(VadError::InvalidFrameLength);
        }
        let ghost s0 = self@;
        let decision = if !self.in_speech {
            if is_voice && self.onset_counter + 1 >= self.onset_frames {
                let mut out: Vec<i16> = Vec::new();
                let mut i: usize = 0;
                while i < self.frame_buffer.len()
                    invariant
                        self@ == s0,
                        self.wf(),
                        i <= self.frame_buffer@.len(),
                        out@ == joined(s0.ring.subrange(0, i as int)),
                    decreases self.frame_buffer.len() - i,
                {
                    append_samples(&mut out, &self.frame_buffer[i]);
                    proof {
                        assert(s0.ring.subrange(0, i + 1).drop_last() =~= s0.ring.subrange(
                            0,
                            i as int,
                        ));
                    }
                    i = i + 1;
                }
                assert(s0.ring.subrange(0, s0.ring.len() as int) =~= s0.ring);
                append_samples(&mut out, frame);
                self.in_speech = true;
                self.onset_counter = 0;
                self.hangover_counter = 0;
                VadFrame::Speech(out)
            } else if is_voice {
                self.onset_counter = self.onset_counter + 1;
                self.hangover_counter = 0;
                VadFrame::Noise
            } else {
                self.onset_counter = 0;
                self.hangover_counter = 0;
                VadFrame::Noise
            }
        } else if is_voice {
            self.onset_counter = 0;
            self.hangover_counter = 0;
            VadFrame::Speech(copy_samples(frame))
        } else if self.hangover_counter + 1 >= self.hangover_frames {
            self.onset_counter = 0;
            self.hangover_counter = 0;
            self.in_speech = false;
            VadFrame::Noise
        } else {
            self.onset_counter = 0;
            self.hangover_counter = self.hangover_counter + 1;
            VadFrame::Speech(copy_samples(frame))
        };
        self.remember(frame);
        Ok(decision)
    }

    /// Adds `frame` to the prefill ring, dropping the oldest frame beyond the
    /// prefill length.
    fn remember(&mut self, frame: &Vec<i16>)
        requires
            old(self).frame_buffer@.len() <= old(self).prefill_frames,
        ensures
            final(self)@ == (SmoothState {
                ring: last_n(old(self)@.ring.push(frame@), old(self)@.prefill_frames),
                ..old(self)@
            }),
            final(self).frame_buffer@.len() == final(self)@.ring.len(),
    {
        let ghost r0 = self@.ring;
        if self.prefill_frames == 0 {
            self.frame_buffer = Vec::new();
            assert(self@.ring =~= last_n(r0.push(frame@), 0));
            return;
        }
        self.frame_buffer.push(copy_samples(frame));
        if self.frame_buffer.len() > self.prefill_frames {
            self.frame_buffer.remove(0);
        }
        assert(self@.ring =~= last_n(r0.push(frame@), self@.prefill_frames));
    }

    /// Returns to the unconfirmed state with empty counters and prefill,
    /// keeping the configuration.
    pub fn reset(&mut self)
        ensures
            final(self).wf(),
            final(self)@ == reset_state(old(self)@),
    {
        self.frame_buffer = Vec::new();
        self.onset_counter = 0;
        self.hangover_counter = 0;
        self.in_speech = false;
        assert(self@.ring =~= Seq::<Seq<i16>>::empty());
    }
}

} // verus!
