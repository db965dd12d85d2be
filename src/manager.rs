//! The session manager: a table of segmentation sessions keyed by
//! caller-chosen identifiers, converting wire PCM16 audio to and from samples
//! and collecting the segments that sessions flush.
use crate::error::VadError;
use crate::pcm::{duration_ms, encoded, samples_to_pcm16_bytes, FRAME_SAMPLES, SAMPLE_RATE};
use crate::session::{
    session_step, SessionState, VadSession, CHUNK_DURATION_MS, DEFAULT_SILENCE_DURATION_MS,
    HANGOVER_FRAMES, ONSET_FRAMES, PREFILL_FRAMES,
};
use crate::smoothing::{fresh_state, reset_state, SmoothedVad};
use vstd::prelude::*;

verus! {

/// One classifier frame of samples with the classifier's raw judgment.
pub struct ClassifiedFrame {
    pub samples: Vec<i16>,
    pub is_voice: bool,
}

/// A flushed segment, ready to be announced: the session it came from, its
/// audio as little-endian PCM16 bytes, and its duration.
#[derive(Debug, PartialEq, Eq)]
pub struct Segment {
    pub session_id: String,
    pub audio_data: Vec<u8>,
    pub duration_ms: u64,
}

/// Whether `g` is the segment announced for the buffer `flush` of session `id`.
pub open spec fn is_segment(g: Segment, id: Seq<char>, flush: Seq<i16>) -> bool {
    &&& g.session_id@ == id
    &&& g.audio_data@ == encoded(flush)
    &&& g.duration_ms == duration_ms(flush.len())
}

/// The state of a newly created session.
pub open spec fn new_session_state(id: Seq<char>, silence_ms: nat, now: nat) -> SessionState {
    SessionState {
        id,
        vad: fresh_state(PREFILL_FRAMES as nat, HANGOVER_FRAMES as nat, ONSET_FRAMES as nat),
        buffer: Seq::empty(),
        last_speech_ms: now,
        recording: false,
        chunk_duration_ms: CHUNK_DURATION_MS as nat,
        silence_duration_ms: silence_ms,
    }
}

/// The state of a session after it was stopped.
pub open spec fn stopped_state(s: SessionState) -> SessionState {
    SessionState { vad: reset_state(s.vad), buffer: Seq::empty(), recording: false, ..s }
}

/// Feeds a batch of classified frames, all at time `now`, through a session:
/// frames of the wrong length are skipped. Returns the final state and the
/// buffers flushed, in order.
pub open spec fn feed_frames(s: SessionState, frames: Seq<(Seq<i16>, bool)>, now: nat) -> (
    SessionState,
    Seq<Seq<i16>>,
)
    decreases frames.len(),
{
    if frames.len() == 0 {
        (s, Seq::empty())
    } else {
        let prev = feed_frames(s, frames.drop_last(), now);
        let f = frames.last();
        if f.0.len() != FRAME_SAMPLES {
            prev
        } else {
            let next = session_step(prev.0, f.0, f.1, now);
            (
                next.0,
                match next.1 {
                    Some(b) => prev.1.push(b),
                    None => prev.1,
                },
            )
        }
    }
}

/// The frames of a batch as (samples, judgment) pairs.
pub open spec fn batch_view(frames: Seq<ClassifiedFrame>) -> Seq<(Seq<i16>, bool)> {
    frames.map_values(|f: ClassifiedFrame| (f.samples@, f.is_voice))
}

/// Whether some session in `s` has identifier `k`.
pub open spec fn has_id(s: Seq<SessionState>, k: Seq<char>) -> bool {
    exists|i: int| 0 <= i < s.len() && #[trigger] s[i].id == k
}

/// No two sessions in `s` share an identifier.
pub open spec fn ids_unique(s: Seq<SessionState>) -> bool {
    forall|i: int, j: int|
        0 <= i < s.len() && 0 <= j < s.len() && i != j ==> #[trigger] s[i].id != #[trigger] s[j].id
}

/// The table of sessions held in `s`, by identifier.
pub open spec fn table_of(s: Seq<SessionState>) -> Map<Seq<char>, SessionState> {
    Map::new(
        |k: Seq<char>| has_id(s, k),
        |k: Seq<char>| s[choose|i: int| 0 <= i < s.len() && #[trigger] s[i].id == k],
    )
}

/// Owns every live session; at most one per identifier.
pub struct VadSessionManager {
    sessions: Vec<VadSession>,
}

impl View for VadSessionManager {
    type V = Map<Seq<char>, SessionState>;

    closed spec fn view(&self) -> Map<Seq<char>, SessionState> {
        table_of(self.states())
    }
}

impl VadSessionManager {
    closed spec fn states(&self) -> Seq<SessionState> {
        self.sessions@.map_values(|s: VadSession| s@)
    }

    /// The well-formedness of the table.
    pub closed spec fn wf(&self) -> bool {
        &&& ids_unique(self.states())
        &&& forall|i: int| 0 <= i < self.sessions@.len() ==> #[trigger] self.sessions@[i].wf()
    }

    /// An empty table.
    pub fn new() -> (r: Self)
        ensures
            r.wf(),
            r@ == Map::<Seq<char>, SessionState>::empty(),
    {
        let r = VadSessionManager { sessions: Vec::new() };
        assert(r@ =~= Map::<Seq<char>, SessionState>::empty());
        r
    }

    /// Looks an identifier up.
    fn find(&self, id: &String) -> (r: Option<usize>)
        ensures
            match r {
                Some(i) => i < self.sessions@.len() && self.states()[i as int].id == id@,
                None => !has_id(self.states(), id@),
            },
    {
        let mut i: usize = 0;
        while i < self.sessions.len()
            invariant
                i <= self.sessions@.len(),
                forall|j: int| 0 <= j < i ==> #[trigger] self.states()[j].id != id@,
            decreases self.sessions.len() - i,
        {
            let same: bool = *self.sessions[i].session_id() == *id;
            assert(self.states()[i as int] == self.sessions@[i as int]@);
            if same {
                return Some(i);
            }
            i = i + 1;
        }
        None
    }

    /// Whether a session with identifier `id` is live.
    pub fn has_session(&self, id: &String) -> (r: bool)
        ensures
            r == self@.contains_key(id@),
    {
        self.find(id).is_some()
    }

    /// The number of live sessions.
    pub fn session_count(&self) -> (r: usize)
        requires
            self.wf(),
        ensures
            r == self@.len(),
    {
        proof {
            lemma_table_len(self.states());
        }
        self.sessions.len()
    }

    /// Creates a session under `session_id` with the default smoothing
    /// (10 frames of prefill and of hangover, onset after 2 frames), a 30 s
    /// duration cap and the given silence threshold (400 ms if none), whose
    /// last speech time is `now_ms`. A live session under the same
    /// identifier is replaced.
    pub fn create_session(&mut self, session_id: String, silence_duration_ms: Option<u64>, now_ms: u64)
        requires
            old(self).wf(),
        ensures
            final(self).wf(),
            final(self)@ == old(self)@.insert(
                session_id@,
                new_session_state(
                    session_id@,
                    match silence_duration_ms {
                        Some(ms) => ms as nat,
                        None => DEFAULT_SILENCE_DURATION_MS as nat,
                    },
                    now_ms as nat,
                ),
            ),
    {
        let silence: u64 = match silence_duration_ms {
            Some(ms) => ms,
            None => DEFAULT_SILENCE_DURATION_MS,
        };
        let vad = SmoothedVad::new(PREFILL_FRAMES, HANGOVER_FRAMES, ONSET_FRAMES);
        let found = self.find(&session_id);
        let session = VadSession::new(vad, session_id, CHUNK_DURATION_MS, silence, now_ms);
        let ghost s0 = self.states();
        match found {
            Some(i) => {
                self.replace_at(i, session);
            },
            None => {
                self.sessions.push(session);
                proof {
                    assert(self.states() =~= s0.push(session@));
                    lemma_table_push(s0, session@);
                }
            },
        }
    }

    /// Puts `session`, which has the identifier of the session at `i`, in its
    /// place.
    fn replace_at(&mut self, i: usize, session: VadSession)
        requires
            old(self).wf(),
            session.wf(),
            i < old(self).sessions@.len(),
            session@.id == old(self).states()[i as int].id,
        ensures
            final(self).wf(),
            final(self)@ == old(self)@.insert(session@.id, session@),
            final(self).sessions@.len() == old(self).sessions@.len(),
    {
        let ghost s0 = self.states();
        let _ = self.sessions.remove(i);
        self.sessions.insert(i, session);
        proof {
            assert(self.states() =~= s0.update(i as int, session@));
            lemma_table_update(s0, i as int, session@);
        }
    }

    /// Processes a batch of classified frames for session `session_id`, all
    /// at time `now_ms`, in order; frames that are not exactly one classifier
    /// frame long are skipped. Returns the segments flushed, in order. An
    /// unknown identifier is refused and the table is left as it was.
    pub fn push_frame(&mut self, session_id: String, frames: &Vec<ClassifiedFrame>, now_ms: u64) -> (r:
        Result<Vec<Segment>, VadError>)
        requires
            old(self).wf(),
        ensures
            final(self).wf(),
            !old(self)@.contains_key(session_id@) ==> r == Err::<Vec<Segment>, VadError>(
                VadError::SessionNotFound,
            ) && final(self)@ == old(self)@,
            old(self)@.contains_key(session_id@) ==> r is Ok && ({
                let fed = feed_frames(old(self)@[session_id@], batch_view(frames@), now_ms as nat);
                &&& final(self)@ == old(self)@.insert(session_id@, fed.0)
                &&& r->Ok_0@.len() == fed.1.len()
                &&& forall|k: int|
                    0 <= k < fed.1.len() ==> is_segment(#[trigger] r->Ok_0@[k], session_id@, fed.1[k])
            }),
    {
        proof {
            lemma_table_lookup(self.states());
        }
        let i = match self.find(&session_id) {
            None => return Err(VadError::SessionNotFound),
            Some(i) => i,
        };
        let ghost s0 = self.states();
        let mut session = self.sessions.remove(i);
        assert(session.wf());
        let ghost start = session@;
        let ghost batch = batch_view(frames@);
        let mut segments: Vec<Segment> = Vec::new();
        let mut k: usize = 0;
        while k < frames.len()
            invariant
                session.wf(),
                session@.id == start.id,
                start.id == session_id@,
                batch == batch_view(frames@),
                k <= frames@.len(),
                feed_frames(start, batch.subrange(0, k as int), now_ms as nat).0 == session@,
                segments@.len() == feed_frames(start, batch.subrange(0, k as int), now_ms as nat).1.len(),
                forall|j: int|
                    0 <= j < segments@.len() ==> is_segment(
                        #[trigger] segments@[j],
                        session_id@,
                        feed_frames(start, batch.subrange(0, k as int), now_ms as nat).1[j],
                    ),
            decreases frames.len() - k,
        {
            let frame = &frames[k];
            assert(batch.subrange(0, k + 1).drop_last() =~= batch.subrange(0, k as int));
            assert(batch.subrange(0, k + 1).last() == (frame.samples@, frame.is_voice));
            if frame.samples.len() == FRAME_SAMPLES {
                let flushed = session.process_frame(&frame.samples, frame.is_voice, now_ms);
                match flushed {
                    Ok(Some(buf)) => {
                        let seg = Segment {
                            session_id: session_id.clone(),
                            audio_data: samples_to_pcm16_bytes(&buf),
                            duration_ms: segment_duration_ms(buf.len()),
                        };
                        segments.push(seg);
                    },
                    _ => {},
                }
            }
            k = k + 1;
        }
        assert(batch.subrange(0, frames@.len() as int) =~= batch);
        self.sessions.insert(i, session);
        proof {
            assert(self.states() =~= s0.update(i as int, session@));
            lemma_table_update(s0, i as int, session@);
        }
        Ok(segments)
    }

    /// Ends the utterance of session `session_id`: returns its buffered audio
    /// as PCM16 bytes (empty if nothing is buffered), resets its smoothing
    /// layer, empties its buffer and stops recording. An unknown identifier
    /// is refused and the table is left as it was.
    pub fn stop_session(&mut self, session_id: String) -> (r: Result<Vec<u8>, VadError>)
        requires
            old(self).wf(),
        ensures
            final(self).wf(),
            !old(self)@.contains_key(session_id@) ==> r == Err::<Vec<u8>, VadError>(
                VadError::SessionNotFound,
            ) && final(self)@ == old(self)@,
            old(self)@.contains_key(session_id@) ==> r is Ok && r->Ok_0@ == encoded(
                old(self)@[session_id@].buffer,
            ) && final(self)@ == old(self)@.insert(
                session_id@,
                stopped_state(old(self)@[session_id@]),
            ),
    {
        proof {
            lemma_table_lookup(self.states());
        }
        let i = match self.find(&session_id) {
            None => return Err(VadError::SessionNotFound),
            Some(i) => i,
        };
        let ghost s0 = self.states();
        let mut session = self.sessions.remove(i);
        let buffered = session.stop();
        let bytes = samples_to_pcm16_bytes(&buffered);
        self.sessions.insert(i, session);
        proof {
            assert(self.states() =~= s0.update(i as int, session@));
            lemma_table_update(s0, i as int, session@);
        }
        Ok(bytes)
    }

    /// Removes session `session_id`; removing an unknown identifier is not an
    /// error.
    pub fn destroy_session(&mut self, session_id: String) -> (r: Result<(), VadError>)
        requires
            old(self).wf(),
        ensures
            final(self).wf(),
            r is Ok,
            final(self)@ == old(self)@.remove(session_id@),
    {
        match self.find(&session_id) {
            None => {
                proof {
                    assert(self@ =~= self@.remove(session_id@));
                }
            },
            Some(i) => {
                let ghost s0 = self.states();
                let _ = self.sessions.remove(i);
                proof {
                    assert(self.states() =~= s0.remove(i as int));
                    lemma_table_remove(s0, i as int);
                }
            },
        }
        Ok(())
    }
}

/// Duration in milliseconds of `n` samples.
fn segment_duration_ms(n: usize) -> (r: u64)
    ensures
        r == duration_ms(n as nat),
{
    let d: u128 = (n as u128) * 1000 / (SAMPLE_RATE as u128);
    proof {
        assert((n as int) * 1000 / 16000 <= n as int) by (nonlinear_arith)
            requires
                n >= 0,
        ;
    }
    d as u64
}

/// The session found under each key of the table is the one that holds it.
proof fn lemma_table_lookup(s: Seq<SessionState>)
    requires
        ids_unique(s),
    ensures
        forall|i: int| 0 <= i < s.len() ==> #[trigger] table_of(s)[s[i].id] == s[i],
        forall|i: int| 0 <= i < s.len() ==> table_of(s).contains_key(#[trigger] s[i].id),
{
    assert forall|i: int| 0 <= i < s.len() implies #[trigger] table_of(s)[s[i].id] == s[i] by {
        let k = s[i].id;
        assert(has_id(s, k));
        let j = choose|j: int| 0 <= j < s.len() && #[trigger] s[j].id == k;
        assert(j == i);
    }
}

/// Appending a session with a new identifier adds it to the table.
proof fn lemma_table_push(s: Seq<SessionState>, x: SessionState)
    requires
        ids_unique(s),
        !has_id(s, x.id),
    ensures
        ids_unique(s.push(x)),
        table_of(s.push(x)) == table_of(s).insert(x.id, x),
{
    let t = s.push(x);
    assert forall|i: int, j: int|
        0 <= i < t.len() && 0 <= j < t.len() && i != j implies #[trigger] t[i].id != #[trigger] t[j].id by {
        if i < s.len() && j < s.len() {
            assert(t[i] == s[i] && t[j] == s[j]);
        } else if i < s.len() {
            assert(t[i] == s[i]);
        } else {
            assert(t[j] == s[j]);
        }
    }
    lemma_table_lookup(t);
    lemma_table_lookup(s);
    assert forall|k: Seq<char>| table_of(t).contains_key(k) == table_of(s).insert(x.id, x).contains_key(
        k,
    ) by {
        if has_id(t, k) {
            let j = choose|j: int| 0 <= j < t.len() && #[trigger] t[j].id == k;
            if j < s.len() {
                assert(s[j].id == k);
            }
        }
        if has_id(s, k) {
            let j = choose|j: int| 0 <= j < s.len() && #[trigger] s[j].id == k;
            assert(t[j].id == k);
        }
        if k == x.id {
            assert(t[s.len() as int].id == k);
        }
    }
    assert forall|k: Seq<char>| #[trigger] table_of(t).contains_key(k) implies table_of(t)[k]
        == table_of(s).insert(x.id, x)[k] by {
        let j = choose|j: int| 0 <= j < t.len() && #[trigger] t[j].id == k;
        if j < s.len() {
            assert(t[j] == s[j]);
        }
    }
    assert(table_of(t) =~= table_of(s).insert(x.id, x));
}

/// Replacing a session by one with the same identifier updates its entry.
proof fn lemma_table_update(s: Seq<SessionState>, i: int, x: SessionState)
    requires
        ids_unique(s),
        0 <= i < s.len(),
        x.id == s[i].id,
    ensures
        ids_unique(s.update(i, x)),
        table_of(s.update(i, x)) == table_of(s).insert(x.id, x),
{
    let t = s.update(i, x);
    assert forall|a: int, b: int|
        0 <= a < t.len() && 0 <= b < t.len() && a != b implies #[trigger] t[a].id != #[trigger] t[b].id by {
        assert(t[a].id == s[a].id);
        assert(t[b].id == s[b].id);
    }
    lemma_table_lookup(t);
    lemma_table_lookup(s);
    assert forall|k: Seq<char>| table_of(t).contains_key(k) == table_of(s).insert(x.id, x).contains_key(
        k,
    ) by {
        if has_id(t, k) {
            let j = choose|j: int| 0 <= j < t.len() && #[trigger] t[j].id == k;
            assert(s[j].id == k);
        }
        if has_id(s, k) {
            let j = choose|j: int| 0 <= j < s.len() && #[trigger] s[j].id == k;
            assert(t[j].id == k);
        }
    }
    assert forall|k: Seq<char>| #[trigger] table_of(t).contains_key(k) implies table_of(t)[k]
        == table_of(s).insert(x.id, x)[k] by {
        let j = choose|j: int| 0 <= j < t.len() && #[trigger] t[j].id == k;
        assert(t[j].id == s[j].id);
    }
    assert(table_of(t) =~= table_of(s).insert(x.id, x));
}

/// Removing a session removes its entry.
proof fn lemma_table_remove(s: Seq<SessionState>, i: int)
    requires
        ids_unique(s),
        0 <= i < s.len(),
    ensures
        ids_unique(s.remove(i)),
        table_of(s.remove(i)) == table_of(s).remove(s[i].id),
{
    let t = s.remove(i);
    assert forall|a: int, b: int|
        0 <= a < t.len() && 0 <= b < t.len() && a != b implies #[trigger] t[a].id != #[trigger] t[b].id by {
        let a2 = if a < i { a } else { a + 1 };
        let b2 = if b < i { b } else { b + 1 };
        assert(t[a] == s[a2]);
        assert(t[b] == s[b2]);
    }
    lemma_table_lookup(t);
    lemma_table_lookup(s);
    assert forall|k: Seq<char>| table_of(t).contains_key(k) == table_of(s).remove(s[i].id).contains_key(
        k,
    ) by {
        if has_id(t, k) {
            let j = choose|j: int| 0 <= j < t.len() && #[trigger] t[j].id == k;
            let j2 = if j < i { j } else { j + 1 };
            assert(t[j] == s[j2]);
            assert(s[j2].id == k);
        }
        if has_id(s, k) && k != s[i].id {
            let j = choose|j: int| 0 <= j < s.len() && #[trigger] s[j].id == k;
            assert(j != i);
            let j1 = if j < i { j } else { j - 1 };
            assert(t[j1] == s[j]);
        }
    }
    assert forall|k: Seq<char>| #[trigger] table_of(t).contains_key(k) implies table_of(t)[k]
        == table_of(s).remove(s[i].id)[k] by {
        let j = choose|j: int| 0 <= j < t.len() && #[trigger] t[j].id == k;
        let j2 = if j < i { j } else { j + 1 };
        assert(t[j] == s[j2]);
    }
    assert(table_of(t) =~= table_of(s).remove(s[i].id));
}

/// The table has one entry per session.
proof fn lemma_table_len(s: Seq<SessionState>)
    requires
        ids_unique(s),
    ensures
        table_of(s).len() == s.len(),
    decreases s.len(),
{
    if s.len() == 0 {
        assert(table_of(s) =~= Map::<Seq<char>, SessionState>::empty());
    } else {
        let init = s.drop_last();
        assert(ids_unique(init)) by {
            assert forall|a: int, b: int|
                0 <= a < init.len() && 0 <= b < init.len() && a != b implies #[trigger] init[a].id
                != #[trigger] init[b].id by {
                assert(init[a] == s[a] && init[b] == s[b]);
            }
        }
        lemma_table_len(init);
        assert(!has_id(init, s.last().id)) by {
            if has_id(init, s.last().id) {
                let j = choose|j: int| 0 <= j < init.len() && #[trigger] init[j].id == s.last().id;
                assert(s[j].id == s[s.len() - 1].id);
            }
        }
        assert(init.push(s.last()) =~= s);
        lemma_table_push(init, s.last());
        assert(table_of(init).dom().finite()) by {
            lemma_table_finite(init);
        }
    }
}

/// The table has finitely many entries.
proof fn lemma_table_finite(s: Seq<SessionState>)
    ensures
        table_of(s).dom().finite(),
{
    let f = |i: int| s[i].id;
    let ids = Set::new(|i: int| 0 <= i < s.len()).map(f);
    assert(Set::new(|i: int| 0 <= i < s.len()) =~= vstd::set_lib::set_int_range(0, s.len() as int));
    vstd::set_lib::lemma_int_range(0, s.len() as int);
    Set::new(|i: int| 0 <= i < s.len()).lemma_map_finite(f);
    assert(table_of(s).dom() =~= ids) by {
        assert forall|k: Seq<char>| table_of(s).dom().contains(k) implies ids.contains(k) by {
            let j = choose|j: int| 0 <= j < s.len() && #[trigger] s[j].id == k;
            assert(Set::new(|i: int| 0 <= i < s.len()).contains(j));
        }
    }
}

} // verus!
