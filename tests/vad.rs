use dictation::error::VadError;
use dictation::manager::{ClassifiedFrame, VadSessionManager};
use dictation::pcm::{
    bytes_to_samples, requantize, sample_from_le, samples_to_pcm16_bytes, split_frames,
    FRAME_SAMPLES,
};
use dictation::session::{VadSession, CHUNK_DURATION_MS};
use dictation::smoothing::{SmoothedVad, VadFrame};

fn frame(value: i16) -> Vec<i16> {
    vec![value; FRAME_SAMPLES]
}

fn classified(value: i16, is_voice: bool) -> ClassifiedFrame {
    ClassifiedFrame { samples: frame(value), is_voice }
}

fn classified_n(value: i16, is_voice: bool, n: usize) -> Vec<ClassifiedFrame> {
    (0..n).map(|_| classified(value, is_voice)).collect()
}

fn concat(frames: &[Vec<i16>]) -> Vec<i16> {
    let mut out = Vec::new();
    for f in frames {
        out.extend_from_slice(f);
    }
    out
}

#[test]
fn decodes_little_endian_samples() {
    assert_eq!(sample_from_le(0x34, 0x12), 0x1234);
    assert_eq!(sample_from_le(0xff, 0xff), -1);
    assert_eq!(sample_from_le(0x00, 0x80), -32768);
    assert_eq!(bytes_to_samples(&vec![0x01, 0x00, 0xff, 0x7f]), vec![1, 32767]);
}

#[test]
fn odd_trailing_byte_is_ignored() {
    assert_eq!(bytes_to_samples(&vec![0x02, 0x00, 0x05]), vec![2]);
    assert_eq!(bytes_to_samples(&vec![0x05]), Vec::<i16>::new());
    assert_eq!(bytes_to_samples(&vec![]), Vec::<i16>::new());
}

#[test]
fn requantize_round_trip_within_one_for_every_value() {
    for v in i16::MIN..=i16::MAX {
        let r = requantize(v) as i32;
        assert!((r - v as i32).abs() <= 1, "value {}", v);
    }
}

#[test]
fn requantize_exact_values() {
    assert_eq!(requantize(0), 0);
    assert_eq!(requantize(100), 100);
    assert_eq!(requantize(-100), -100);
    assert_eq!(requantize(16384), 16384);
    assert_eq!(requantize(16385), 16384);
    assert_eq!(requantize(-16384), -16384);
    assert_eq!(requantize(-16385), -16384);
    assert_eq!(requantize(32767), 32766);
    assert_eq!(requantize(-32768), -32767);
}

#[test]
fn samples_encode_as_requantized_little_endian() {
    assert_eq!(samples_to_pcm16_bytes(&vec![1, -1, -32768]), vec![0x01, 0x00, 0xff, 0xff, 0x01, 0x80]);
    assert_eq!(samples_to_pcm16_bytes(&vec![]), Vec::<u8>::new());
}

#[test]
fn split_frames_drops_short_tail() {
    let samples: Vec<i16> = (0..(2 * FRAME_SAMPLES + 7)).map(|i| i as i16).collect();
    let frames = split_frames(&samples);
    assert_eq!(frames.len(), 2);
    assert_eq!(frames[0], samples[..FRAME_SAMPLES].to_vec());
    assert_eq!(frames[1], samples[FRAME_SAMPLES..2 * FRAME_SAMPLES].to_vec());
    assert!(split_frames(&vec![0; FRAME_SAMPLES - 1]).is_empty());
}

#[test]
fn smoothing_rejects_wrong_frame_length() {
    let mut vad = SmoothedVad::new(10, 10, 2);
    assert_eq!(vad.push_frame(&vec![0; FRAME_SAMPLES - 1], true), Err(VadError::InvalidFrameLength));
    assert_eq!(vad.push_frame(&vec![0; FRAME_SAMPLES + 1], true), Err(VadError::InvalidFrameLength));
    // the rejected frames left no trace: onset still needs two positives
    assert_eq!(vad.push_frame(&frame(1), true), Ok(VadFrame::Noise));
}

#[test]
fn onset_short_run_then_negative_never_speaks() {
    let mut vad = SmoothedVad::new(10, 10, 2);
    assert_eq!(vad.push_frame(&frame(1), true), Ok(VadFrame::Noise));
    assert_eq!(vad.push_frame(&frame(2), false), Ok(VadFrame::Noise));
    assert_eq!(vad.push_frame(&frame(3), true), Ok(VadFrame::Noise));
    assert_eq!(vad.push_frame(&frame(4), false), Ok(VadFrame::Noise));
}

#[test]
fn onset_emits_prefill_and_current_frame() {
    let mut vad = SmoothedVad::new(10, 10, 2);
    assert_eq!(vad.push_frame(&frame(1), true), Ok(VadFrame::Noise));
    assert_eq!(vad.push_frame(&frame(2), true), Ok(VadFrame::Speech(concat(&[frame(1), frame(2)]))));
    assert_eq!(vad.push_frame(&frame(3), true), Ok(VadFrame::Speech(frame(3))));
}

#[test]
fn onset_prefill_is_bounded_by_prefill_frames() {
    let mut vad = SmoothedVad::new(3, 10, 2);
    for v in 1..=5 {
        assert_eq!(vad.push_frame(&frame(v), false), Ok(VadFrame::Noise));
    }
    assert_eq!(vad.push_frame(&frame(6), true), Ok(VadFrame::Noise));
    assert_eq!(
        vad.push_frame(&frame(7), true),
        Ok(VadFrame::Speech(concat(&[frame(4), frame(5), frame(6), frame(7)])))
    );
}

#[test]
fn hangover_keeps_speech_then_releases() {
    let mut vad = SmoothedVad::new(10, 10, 2);
    vad.push_frame(&frame(1), true).unwrap();
    assert!(matches!(vad.push_frame(&frame(2), true), Ok(VadFrame::Speech(_))));
    for v in 10..19 {
        assert_eq!(vad.push_frame(&frame(v), false), Ok(VadFrame::Speech(frame(v))));
    }
    assert_eq!(vad.push_frame(&frame(19), false), Ok(VadFrame::Noise));
    assert_eq!(vad.push_frame(&frame(20), false), Ok(VadFrame::Noise));
}

#[test]
fn positive_frame_restarts_hangover_count() {
    let mut vad = SmoothedVad::new(0, 3, 1);
    assert_eq!(vad.push_frame(&frame(1), true), Ok(VadFrame::Speech(frame(1))));
    assert_eq!(vad.push_frame(&frame(2), false), Ok(VadFrame::Speech(frame(2))));
    assert_eq!(vad.push_frame(&frame(3), false), Ok(VadFrame::Speech(frame(3))));
    assert_eq!(vad.push_frame(&frame(4), true), Ok(VadFrame::Speech(frame(4))));
    assert_eq!(vad.push_frame(&frame(5), false), Ok(VadFrame::Speech(frame(5))));
    assert_eq!(vad.push_frame(&frame(6), false), Ok(VadFrame::Speech(frame(6))));
    assert_eq!(vad.push_frame(&frame(7), false), Ok(VadFrame::Noise));
}

#[test]
fn reset_replays_like_a_fresh_layer() {
    let input: Vec<(i16, bool)> = vec![
        (1, true), (2, true), (3, false), (4, true), (5, false), (6, false), (7, true), (8, true),
        (9, false), (10, false), (11, false), (12, false), (13, false), (14, false), (15, false),
        (16, false), (17, false), (18, false), (19, true),
    ];
    let mut used = SmoothedVad::new(10, 10, 2);
    for (v, voice) in &input {
        used.push_frame(&frame(*v), *voice).unwrap();
    }
    used.reset();
    let mut fresh = SmoothedVad::new(10, 10, 2);
    for (v, voice) in &input {
        assert_eq!(used.push_frame(&frame(*v), *voice), fresh.push_frame(&frame(*v), *voice));
    }
}

#[test]
fn silence_flush_happens_once_after_threshold() {
    let mut session = VadSession::new(SmoothedVad::new(10, 10, 2), "s".to_string(), CHUNK_DURATION_MS, 400, 0);
    assert_eq!(session.apply(VadFrame::Speech(frame(1)), 0), None);
    assert_eq!(session.apply(VadFrame::Speech(frame(2)), 10), None);
    assert_eq!(session.apply(VadFrame::Speech(frame(3)), 20), None);
    assert!(session.is_recording());
    assert_eq!(session.apply(VadFrame::Noise, 100), None);
    assert_eq!(session.apply(VadFrame::Noise, 420), None);
    assert_eq!(session.buffered_len(), 3 * FRAME_SAMPLES);
    assert_eq!(session.apply(VadFrame::Noise, 421), Some(concat(&[frame(1), frame(2), frame(3)])));
    assert!(!session.is_recording());
    assert_eq!(session.buffered_len(), 0);
    assert_eq!(session.apply(VadFrame::Noise, 900), None);
    assert_eq!(session.apply(VadFrame::Noise, 5000), None);
}

#[test]
fn noise_before_any_speech_flushes_nothing() {
    let mut session = VadSession::new(SmoothedVad::new(10, 10, 2), "s".to_string(), CHUNK_DURATION_MS, 400, 0);
    assert_eq!(session.apply(VadFrame::Noise, 10_000), None);
    assert!(!session.is_recording());
}

#[test]
fn forced_flush_at_duration_cap_keeps_recording() {
    let mut session = VadSession::new(SmoothedVad::new(10, 10, 2), "s".to_string(), CHUNK_DURATION_MS, 400, 0);
    // 1000 frames of 30 ms make exactly 30 000 ms: not over the cap
    for k in 0..1000u64 {
        assert_eq!(session.apply(VadFrame::Speech(frame(5)), k), None);
    }
    assert_eq!(session.buffered_len(), 1000 * FRAME_SAMPLES);
    let flushed = session.apply(VadFrame::Speech(frame(5)), 1000).expect("forced flush");
    assert_eq!(flushed.len(), 1001 * FRAME_SAMPLES);
    assert!(session.is_recording());
    assert_eq!(session.buffered_len(), 0);
    assert_eq!(session.apply(VadFrame::Speech(frame(6)), 1001), None);
    assert_eq!(session.buffered_len(), FRAME_SAMPLES);
}

#[test]
fn session_processes_raw_frames() {
    let mut session = VadSession::new(SmoothedVad::new(10, 10, 2), "s".to_string(), CHUNK_DURATION_MS, 400, 0);
    assert_eq!(session.process_frame(&frame(1), true, 0), Ok(None));
    assert_eq!(session.process_frame(&frame(2), true, 0), Ok(None));
    assert_eq!(session.buffered_len(), 2 * FRAME_SAMPLES);
    assert_eq!(session.process_frame(&vec![0; 3], true, 0), Err(VadError::InvalidFrameLength));
    let out = session.stop();
    assert_eq!(out, concat(&[frame(1), frame(2)]));
    assert!(!session.is_recording());
    assert_eq!(session.buffered_len(), 0);
}

#[test]
fn manager_create_push_stop_destroy() {
    let mut m = VadSessionManager::new();
    m.create_session("a".to_string(), None, 0);
    assert!(m.has_session(&"a".to_string()));
    let segs = m.push_frame("a".to_string(), &vec![classified(100, true), classified(100, true)], 0).unwrap();
    assert!(segs.is_empty());
    let bytes = m.stop_session("a".to_string()).unwrap();
    assert_eq!(bytes.len(), 2 * 2 * FRAME_SAMPLES);
    assert_eq!(bytes_to_samples(&bytes), vec![100; 2 * FRAME_SAMPLES]);
    assert_eq!(m.stop_session("a".to_string()), Ok(Vec::new()));
    assert_eq!(m.destroy_session("a".to_string()), Ok(()));
    assert!(!m.has_session(&"a".to_string()));
    assert_eq!(m.destroy_session("a".to_string()), Ok(()));
    assert_eq!(m.session_count(), 0);
}

#[test]
fn manager_flushes_after_silence_with_duration() {
    let mut m = VadSessionManager::new();
    m.create_session("a".to_string(), Some(400), 0);
    let speech = classified_n(7, true, 4);
    assert!(m.push_frame("a".to_string(), &speech, 0).unwrap().is_empty());
    // ten negatives: the first nine are hangover speech, the tenth is noise
    let quiet = classified_n(0, false, 10);
    assert!(m.push_frame("a".to_string(), &quiet, 100).unwrap().is_empty());
    let segs = m.push_frame("a".to_string(), &vec![classified(0, false)], 600).unwrap();
    assert_eq!(segs.len(), 1);
    assert_eq!(segs[0].session_id, "a");
    let mut expected = vec![7i16; 4 * FRAME_SAMPLES];
    expected.extend(vec![0i16; 9 * FRAME_SAMPLES]);
    assert_eq!(bytes_to_samples(&segs[0].audio_data), expected);
    assert_eq!(segs[0].duration_ms, (13 * FRAME_SAMPLES as u64 * 1000) / 16000);
    assert_eq!(segs[0].duration_ms, 390);
}

#[test]
fn manager_skips_frames_of_wrong_length() {
    let mut m = VadSessionManager::new();
    m.create_session("a".to_string(), None, 0);
    let batch = vec![
        ClassifiedFrame { samples: vec![1; 10], is_voice: true },
        classified(2, true),
        classified(3, true),
    ];
    assert!(m.push_frame("a".to_string(), &batch, 0).unwrap().is_empty());
    assert_eq!(bytes_to_samples(&m.stop_session("a".to_string()).unwrap()), concat(&[frame(2), frame(3)]));
}

#[test]
fn create_replaces_live_session() {
    let mut m = VadSessionManager::new();
    m.create_session("a".to_string(), None, 0);
    m.push_frame("a".to_string(), &classified_n(9, true, 3), 0).unwrap();
    m.create_session("a".to_string(), None, 0);
    assert_eq!(m.session_count(), 1);
    assert_eq!(m.stop_session("a".to_string()), Ok(Vec::new()));
}

#[test]
fn sessions_are_isolated() {
    let mut m = VadSessionManager::new();
    m.create_session("A".to_string(), None, 0);
    m.create_session("B".to_string(), None, 0);
    m.push_frame("A".to_string(), &classified_n(100, true, 2), 0).unwrap();
    m.push_frame("B".to_string(), &classified_n(-100, true, 3), 0).unwrap();
    m.push_frame("A".to_string(), &vec![classified(100, true)], 10).unwrap();
    m.push_frame("A".to_string(), &classified_n(0, false, 10), 20).unwrap();
    m.push_frame("B".to_string(), &classified_n(0, false, 10), 20).unwrap();
    let a = m.push_frame("A".to_string(), &vec![classified(0, false)], 1000).unwrap();
    let b = m.push_frame("B".to_string(), &vec![classified(0, false)], 1000).unwrap();
    assert_eq!(a.len(), 1);
    assert_eq!(b.len(), 1);
    assert_eq!(a[0].session_id, "A");
    assert_eq!(b[0].session_id, "B");
    let mut a_expected = vec![100i16; 3 * FRAME_SAMPLES];
    a_expected.extend(vec![0i16; 9 * FRAME_SAMPLES]);
    let mut b_expected = vec![-100i16; 3 * FRAME_SAMPLES];
    b_expected.extend(vec![0i16; 9 * FRAME_SAMPLES]);
    assert_eq!(bytes_to_samples(&a[0].audio_data), a_expected);
    assert_eq!(bytes_to_samples(&b[0].audio_data), b_expected);
}

#[test]
fn unknown_session_is_not_found_and_table_unchanged() {
    let mut m = VadSessionManager::new();
    m.create_session("live".to_string(), None, 0);
    m.push_frame("live".to_string(), &classified_n(3, true, 2), 0).unwrap();
    assert_eq!(
        m.push_frame("missing".to_string(), &vec![classified(1, true)], 0),
        Err(VadError::SessionNotFound)
    );
    assert_eq!(m.stop_session("missing".to_string()), Err(VadError::SessionNotFound));
    assert_eq!(m.session_count(), 1);
    assert!(!m.has_session(&"missing".to_string()));
    assert_eq!(bytes_to_samples(&m.stop_session("live".to_string()).unwrap()), vec![3; 2 * FRAME_SAMPLES]);
}

#[test]
fn error_messages() {
    assert_eq!(VadError::SessionNotFound.message(), "Session not found");
    assert_eq!(VadError::InvalidFrameLength.message(), "Frame does not hold 480 samples");
}
