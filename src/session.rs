//! The segmentation session: buffers confirmed speech and decides when a
//! complete segment is flushed (after enough silence, or at the duration cap).
use crate::error::VadError;
use crate::pcm::{duration_ms, FRAME_SAMPLES, SAMPLE_RATE};
use crate::smoothing::{step, Decision, SmoothState, SmoothedVad, VadFrame};
use vstd::prelude::*;

verus! {

/// Hard cap on the duration of one buffered segment, in milliseconds.
pub const CHUNK_DURATION_MS: u64 = 30000;

/// Default silence after the last speech that ends a segment, in milliseconds.
pub const DEFAULT_SILENCE_DURATION_MS: u64 = 400;

/// Default number of frames kept for prefill (about 300 ms).
pub const PREFILL_FRAMES: usize = 10;

/// Default number of negative frames tolerated while in speech (about 300 ms).
pub const HANGOVER_FRAMES: usize = 10;

/// Default number of positive frames that confirm speech (about 60 ms).
pub const ONSET_FRAMES: usize = 2;

/// The abstract state of a session.
pub struct SessionState {
    pub id: Seq<char>,
    pub vad: SmoothState,
    /// Speech audio buffered since the last flush.
    pub buffer: Seq<i16>,
    /// Time of the last confirmed-speech frame, in milliseconds.
    pub last_speech_ms: nat,
    /// Whether the session is inside an utterance.
    pub recording: bool,
    pub chunk_duration_ms: nat,
    pub silence_duration_ms: nat,
}

/// Milliseconds from `from` to `to`; zero if the clock went backwards.
pub open spec fn elapsed(from: nat, to: nat) -> nat {
    if to >= from {
        (to - from) as nat
    } else {
        0
    }
}

/// The effect of one smoothed decision at time `now`, before the duration cap
/// is checked: speech is buffered; silence longer than the threshold after
/// speech flushes the buffer (if non-empty) and ends the utterance.
pub open spec fn buffer_decision(s: SessionState, d: Decision, now: nat) -> (SessionState, Option<Seq<i16>>) {
    match d {
        Decision::Speech(a) => (
            SessionState { buffer: s.buffer + a, last_speech_ms: now, recording: true, ..s },
            None,
        ),
        Decision::Noise => if s.recording && elapsed(s.last_speech_ms, now) > s.silence_duration_ms {
            (
                SessionState { buffer: Seq::empty(), recording: false, ..s },
                if s.buffer.len() > 0 {
                    Some(s.buffer)
                } else {
                    None
                },
            )
        } else {
            (s, None)
        },
    }
}

/// The duration cap: a non-empty buffer longer than the cap is flushed,
/// leaving the recording flag as it is.
pub open spec fn cap_flush(p: (SessionState, Option<Seq<i16>>)) -> (SessionState, Option<Seq<i16>>) {
    let s = p.0;
    if duration_ms(s.buffer.len()) > s.chunk_duration_ms && s.buffer.len() > 0 {
        (SessionState { buffer: Seq::empty(), ..s }, Some(s.buffer))
    } else {
        p
    }
}

/// The effect of one smoothed decision at time `now`: the next state and the
/// segment flushed, if any.
pub open spec fn apply_decision(s: SessionState, d: Decision, now: nat) -> (SessionState, Option<Seq<i16>>) {
    cap_flush(buffer_decision(s, d, now))
}

/// The effect of one frame with raw judgment `voice` at time `now`.
pub open spec fn session_step(s: SessionState, frame: Seq<i16>, voice: bool, now: nat) -> (
    SessionState,
    Option<Seq<i16>>,
) {
    let (vad, d) = step(s.vad, frame, voice);
    apply_decision(SessionState { vad, ..s }, d, now)
}

/// Feeds a sequence of (decision, time) events through `apply_decision`,
/// returning the final state and what each event flushed.
pub open spec fn apply_run(s: SessionState, events: Seq<(Decision, nat)>) -> (
    SessionState,
    Seq<Option<Seq<i16>>>,
)
    decreases events.len(),
{
    if events.len() == 0 {
        (s, Seq::empty())
    } else {
        let prev = apply_run(s, events.drop_last());
        let next = apply_decision(prev.0, events.last().0, events.last().1);
        (next.0, prev.1.push(next.1))
    }
}

/// `Speech` events with the given audio and times.
pub open spec fn speech_events(speech: Seq<(Seq<i16>, nat)>) -> Seq<(Decision, nat)> {
    speech.map_values(|p: (Seq<i16>, nat)| (Decision::Speech(p.0), p.1))
}

/// `Noise` events at the given times.
pub open spec fn noise_events(times: Seq<nat>) -> Seq<(Decision, nat)> {
    times.map_values(|t: nat| (Decision::Noise, t))
}

/// The audio of a sequence of timed speech events.
pub open spec fn audio_of(speech: Seq<(Seq<i16>, nat)>) -> Seq<Seq<i16>> {
    speech.map_values(|p: (Seq<i16>, nat)| p.0)
}

/// Whether one of the first `j` times lies more than `d` milliseconds after `t`.
pub open spec fn crossed(t: nat, d: nat, times: Seq<nat>, j: int) -> bool
    decreases j,
{
    if j <= 0 {
        false
    } else {
        crossed(t, d, times, j - 1) || elapsed(t, times[j - 1]) > d
    }
}

/// Running over two event sequences in turn is running over their
/// concatenation.
pub proof fn lemma_apply_run_append(s: SessionState, a: Seq<(Decision, nat)>, b: Seq<(Decision, nat)>)
    ensures
        apply_run(s, a + b).0 == apply_run(apply_run(s, a).0, b).0,
        apply_run(s, a + b).1 == apply_run(s, a).1 + apply_run(apply_run(s, a).0, b).1,
    decreases b.len(),
{
    if b.len() == 0 {
        assert(a + b =~= a);
        assert(apply_run(s, a).1 + apply_run(apply_run(s, a).0, b).1 =~= apply_run(s, a).1);
    } else {
        lemma_apply_run_append(s, a, b.drop_last());
        assert((a + b).drop_last() =~= a + b.drop_last());
        assert((a + b).last() == b.last());
        let mid = apply_run(s, a).0;
        assert(apply_run(s, a).1 + apply_run(mid, b).1 =~= (apply_run(s, a).1 + apply_run(
            mid,
            b.drop_last(),
        ).1).push(apply_run(mid, b).1.last()));
    }
}

/// More samples never last fewer milliseconds.
pub proof fn lemma_duration_monotone(n: nat, m: nat)
    requires
        n <= m,
    ensures
        duration_ms(n) <= duration_ms(m),
{
    assert(n * 1000 <= m * 1000) by (nonlinear_arith)
        requires
            n <= m,
    ;
    vstd::arithmetic::div_mod::lemma_div_is_ordered((n * 1000) as int, (m * 1000) as int, 16000);
}

/// Buffering: speech events whose audio, added to the buffer, stays within
/// the duration cap flush nothing; they append their audio to the buffer,
/// start recording and move the last-speech time to the last event's time.
pub proof fn lemma_speech_buffers(s: SessionState, speech: Seq<(Seq<i16>, nat)>)
    requires
        speech.len() >= 1,
        duration_ms((s.buffer + crate::smoothing::joined(audio_of(speech))).len())
            <= s.chunk_duration_ms,
    ensures
        apply_run(s, speech_events(speech)).0 == (SessionState {
            buffer: s.buffer + crate::smoothing::joined(audio_of(speech)),
            last_speech_ms: speech.last().1,
            recording: true,
            ..s
        }),
        forall|i: int| 0 <= i < speech.len() ==> #[trigger] apply_run(s, speech_events(speech)).1[i]
            is None,
        apply_run(s, speech_events(speech)).1.len() == speech.len(),
    decreases speech.len(),
{
    let init = speech.drop_last();
    let x = speech.last();
    assert(speech_events(speech).drop_last() =~= speech_events(init));
    assert(speech_events(speech).last() == (Decision::Speech(x.0), x.1));
    assert(audio_of(speech).drop_last() =~= audio_of(init));
    assert(audio_of(speech).last() == x.0);
    let total = s.buffer + crate::smoothing::joined(audio_of(speech));
    assert(total =~= s.buffer + crate::smoothing::joined(audio_of(init)) + x.0);
    if init.len() == 0 {
        assert(audio_of(init) =~= Seq::<Seq<i16>>::empty());
        assert(s.buffer + crate::smoothing::joined(audio_of(init)) =~= s.buffer);
        assert(apply_run(s, speech_events(init)).0 == s);
    } else {
        lemma_duration_monotone(
            (s.buffer + crate::smoothing::joined(audio_of(init))).len(),
            total.len(),
        );
        lemma_speech_buffers(s, init);
        assert forall|i: int| 0 <= i < speech.len() implies #[trigger] apply_run(
            s,
            speech_events(speech),
        ).1[i] is None by {
            if i < init.len() {
                assert(apply_run(s, speech_events(speech)).1[i] == apply_run(
                    s,
                    speech_events(init),
                ).1[i]);
            }
        }
    }
}

/// Waiting out the silence: `Noise` events on a state within the duration
/// cap leave it unchanged until the first one more than
/// `silence_duration_ms` after the last speech; if the session was recording,
/// that one flushes the buffer (when non-empty) and stops recording, after
/// which nothing more is flushed.
pub proof fn lemma_noise_waits(s: SessionState, times: Seq<nat>)
    requires
        duration_ms(s.buffer.len()) <= s.chunk_duration_ms,
    ensures
        apply_run(s, noise_events(times)).0 == if s.recording && crossed(
            s.last_speech_ms,
            s.silence_duration_ms,
            times,
            times.len() as int,
        ) {
            SessionState { buffer: Seq::empty(), recording: false, ..s }
        } else {
            s
        },
        apply_run(s, noise_events(times)).1.len() == times.len(),
        forall|j: int|
            0 <= j < times.len() ==> #[trigger] apply_run(s, noise_events(times)).1[j] == if s.recording
                && !crossed(s.last_speech_ms, s.silence_duration_ms, times, j) && elapsed(
                s.last_speech_ms,
                times[j],
            ) > s.silence_duration_ms && s.buffer.len() > 0 {
                Some(s.buffer)
            } else {
                None
            },
    decreases times.len(),
{
    if times.len() > 0 {
        let init = times.drop_last();
        lemma_noise_waits(s, init);
        assert(noise_events(times).drop_last() =~= noise_events(init));
        assert(noise_events(times).last() == (Decision::Noise, times.last()));
        let t = s.last_speech_ms;
        let d = s.silence_duration_ms;
        assert forall|j: int| 0 <= j <= init.len() implies crossed(t, d, init, j) == crossed(
            t,
            d,
            times,
            j,
        ) by {
            lemma_crossed_prefix(t, d, init, times, j);
        }
        assert(duration_ms(0) == 0);
        assert forall|j: int| 0 <= j < times.len() implies #[trigger] apply_run(
            s,
            noise_events(times),
        ).1[j] == if s.recording && !crossed(t, d, times, j) && elapsed(t, times[j]) > d
            && s.buffer.len() > 0 {
            Some(s.buffer)
        } else {
            None
        } by {
            if j < init.len() {
                assert(apply_run(s, noise_events(times)).1[j] == apply_run(s, noise_events(init)).1[j]);
                assert(init[j] == times[j]);
            }
        }
    }
}

/// `crossed` looks only at the times before `j`.
pub proof fn lemma_crossed_prefix(t: nat, d: nat, a: Seq<nat>, b: Seq<nat>, j: int)
    requires
        0 <= j <= a.len(),
        a.len() <= b.len(),
        forall|k: int| 0 <= k < a.len() ==> a[k] == b[k],
    ensures
        crossed(t, d, a, j) == crossed(t, d, b, j),
    decreases j,
{
    if j > 0 {
        lemma_crossed_prefix(t, d, a, b, j - 1);
    }
}

/// Silence flush timing: a session with an empty buffer that receives speech
/// (within the duration cap) and then only `Noise` flushes exactly once: at
/// the first `Noise` event more than `silence_duration_ms` after the last
/// speech, with all the speech audio received since the last flush, after
/// which it is no longer recording.
pub proof fn lemma_silence_flush(s: SessionState, speech: Seq<(Seq<i16>, nat)>, times: Seq<nat>)
    requires
        s.buffer.len() == 0,
        speech.len() >= 1,
        crate::smoothing::joined(audio_of(speech)).len() > 0,
        duration_ms(crate::smoothing::joined(audio_of(speech)).len()) <= s.chunk_duration_ms,
    ensures
        ({
            let out = apply_run(s, speech_events(speech) + noise_events(times)).1;
            let t = speech.last().1;
            &&& out.len() == speech.len() + times.len()
            &&& forall|i: int| 0 <= i < speech.len() ==> #[trigger] out[i] is None
            &&& forall|j: int|
                0 <= j < times.len() ==> #[trigger] out[speech.len() + j] == if !crossed(
                    t,
                    s.silence_duration_ms,
                    times,
                    j,
                ) && elapsed(t, times[j]) > s.silence_duration_ms {
                    Some(crate::smoothing::joined(audio_of(speech)))
                } else {
                    None
                }
        }),
        apply_run(s, speech_events(speech) + noise_events(times)).0.recording == !crossed(
            speech.last().1,
            s.silence_duration_ms,
            times,
            times.len() as int,
        ),
{
    let a = speech_events(speech);
    let b = noise_events(times);
    assert(s.buffer + crate::smoothing::joined(audio_of(speech)) =~= crate::smoothing::joined(
        audio_of(speech),
    ));
    lemma_speech_buffers(s, speech);
    lemma_apply_run_append(s, a, b);
    let mid = apply_run(s, a).0;
    lemma_noise_waits(mid, times);
    let out = apply_run(s, a + b).1;
    assert forall|i: int| 0 <= i < speech.len() implies #[trigger] out[i] is None by {
        assert(out[i] == apply_run(s, a).1[i]);
    }
    assert forall|j: int| 0 <= j < times.len() implies #[trigger] out[speech.len() + j] == apply_run(
        mid,
        b,
    ).1[j] by {}
}

/// Forced flush: speech that takes a non-empty buffer past the duration cap
/// flushes all of it at once, silence or not, and the session stays
/// recording with an empty buffer.
pub proof fn lemma_forced_flush(s: SessionState, audio: Seq<i16>, now: nat)
    requires
        duration_ms((s.buffer + audio).len()) > s.chunk_duration_ms,
    ensures
        apply_decision(s, Decision::Speech(audio), now) == (
            SessionState { buffer: Seq::<i16>::empty(), last_speech_ms: now, recording: true, ..s },
            Some(s.buffer + audio),
        ),
{
    if (s.buffer + audio).len() == 0 {
        assert(duration_ms(0) == 0);
    }
}

/// The view of an optional buffer.
pub open spec fn opt_view(o: Option<Vec<i16>>) -> Option<Seq<i16>> {
    match o {
        Some(v) => Some(v@),
        None => None,
    }
}

/// Per-caller segmentation state.
pub struct VadSession {
    vad: SmoothedVad,
    audio_buffer: Vec<i16>,
    session_id: String,
    chunk_duration_ms: u64,
    silence_duration_ms: u64,
    last_speech_ms: u64,
    is_recording: bool,
}

impl View for VadSession {
    type V = SessionState;

    closed spec fn view(&self) -> SessionState {
        SessionState {
            id: self.session_id@,
            vad: self.vad@,
            buffer: self.audio_buffer@,
            last_speech_ms: self.last_speech_ms as nat,
            recording: self.is_recording,
            chunk_duration_ms: self.chunk_duration_ms as nat,
            silence_duration_ms: self.silence_duration_ms as nat,
        }
    }
}

impl VadSession {
    /// The well-formedness of the state.
    pub closed spec fn wf(&self) -> bool {
        self.vad.wf()
    }

    /// A session with an empty buffer, not recording, whose last speech time
    /// is `now_ms`.
    pub fn new(
        vad: SmoothedVad,
        session_id: String,
        chunk_duration_ms: u64,
        silence_duration_ms: u64,
        now_ms: u64,
    ) -> (r: Self)
        requires
            vad.wf(),
        ensures
            r.wf(),
            r@ == (SessionState {
                id: session_id@,
                vad: vad@,
                buffer: Seq::empty(),
                last_speech_ms: now_ms as nat,
                recording: false,
                chunk_duration_ms: chunk_duration_ms as nat,
                silence_duration_ms: silence_duration_ms as nat,
            }),
    {
        let r = VadSession {
            vad,
            audio_buffer: Vec::new(),
            session_id,
            chunk_duration_ms,
            silence_duration_ms,
            last_speech_ms: now_ms,
            is_recording: false,
        };
        assert(r@.buffer =~= Seq::<i16>::empty());
        r
    }

    /// The session's identifier.
    pub fn session_id(&self) -> (r: &String)
        ensures
            r@ == self@.id,
    {
        &self.session_id
    }

    /// Whether the session is inside an utterance.
    pub fn is_recording(&self) -> (r: bool)
        ensures
            r == self@.recording,
    {
        self.is_recording
    }

    /// The number of buffered samples.
    pub fn buffered_len(&self) -> (r: usize)
        ensures
            r == self@.buffer.len(),
    {
        self.audio_buffer.len()
    }

    /// Duration in milliseconds of the buffered audio.
    fn buffer_duration_ms(&self) -> (r: u128)
        ensures
            r == duration_ms(self@.buffer.len()),
    {
        (self.audio_buffer.len() as u128) * 1000 / (SAMPLE_RATE as u128)
    }

    /// Takes the buffered audio out, leaving the buffer empty.
    fn take_buffer(&mut self) -> (r: Vec<i16>)
        ensures
            r@ == old(self)@.buffer,
            final(self)@ == (SessionState { buffer: Seq::empty(), ..old(self)@ }),
            final(self).wf() == old(self).wf(),
    {
        let out = self.audio_buffer.split_off(0);
        assert(self@.buffer =~= Seq::<i16>::empty());
        out
    }

    /// Applies one smoothed decision at time `now_ms`: speech is buffered,
    /// enough silence after speech flushes the buffer and ends the utterance,
    /// and a buffer longer than the duration cap is flushed at once. Returns
    /// the flushed segment, if any.
    pub fn apply(&mut self, decision: VadFrame, now_ms: u64) -> (r: Option<Vec<i16>>)
        ensures
            final(self).wf() == old(self).wf(),
            (final(self)@, opt_view(r)) == apply_decision(old(self)@, decision@, now_ms as nat),
    {
        let ghost s0 = self@;
        let mut flushed: Option<Vec<i16>> = None;
        match decision {
            VadFrame::Speech(audio) => {
                crate::smoothing::append_samples(&mut self.audio_buffer, &audio);
                self.last_speech_ms = now_ms;
                self.is_recording = true;
            },
            VadFrame::Noise => {
                if self.is_recording {
                    let silence: u64 = if now_ms >= self.last_speech_ms {
                        now_ms - self.last_speech_ms
                    } else {
                        0
                    };
                    if silence > self.silence_duration_ms {
                        if self.audio_buffer.len() > 0 {
                            flushed = Some(self.take_buffer());
                        } else {
                            assert(self@.buffer =~= Seq::<i16>::empty());
                        }
                        self.is_recording = false;
                    }
                }
            },
        }
        assert((self@, opt_view(flushed)) == buffer_decision(s0, decision@, now_ms as nat));
        if self.buffer_duration_ms() > self.chunk_duration_ms as u128 && self.audio_buffer.len() > 0 {
            flushed = Some(self.take_buffer());
        }
        flushed
    }

    /// Processes one frame whose raw classifier judgment is `is_voice`, at
    /// time `now_ms`. Returns the flushed segment, if any; a frame that is not
    /// exactly one classifier frame long is rejected and changes nothing.
    pub fn process_frame(&mut self, frame: &Vec<i16>, is_voice: bool, now_ms: u64) -> (r: Result<
        Option<Vec<i16>>,
        VadError,
    >)
        requires
            old(self).wf(),
        ensures
            final(self).wf(),
            frame@.len() != FRAME_SAMPLES ==> r == Err::<Option<Vec<i16>>, VadError>(
                VadError::InvalidFrameLength,
            ) && final(self)@ == old(self)@,
            frame@.len() == FRAME_SAMPLES ==> r is Ok && (final(self)@, opt_view(r->Ok_0))
                == session_step(old(self)@, frame@, is_voice, now_ms as nat),
    {
        match self.vad.push_frame(frame, is_voice) {
            Err(e) => Err(e),
            Ok(decision) => Ok(self.apply(decision, now_ms)),
        }
    }

    /// Ends the current utterance: returns whatever is buffered, resets the
    /// smoothing layer, empties the buffer and stops recording.
    pub fn stop(&mut self) -> (r: Vec<i16>)
        requires
            old(self).wf(),
        ensures
            final(self).wf(),
            r@ == old(self)@.buffer,
            final(self)@ == (SessionState {
                vad: crate::smoothing::reset_state(old(self)@.vad),
                buffer: Seq::empty(),
                recording: false,
                ..old(self)@
            }),
    {
        let out = self.take_buffer();
        self.vad.reset();
        self.is_recording = false;
        out
    }
}

} // verus!
