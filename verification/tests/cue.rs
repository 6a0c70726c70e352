use quillspeak::cue::{
    cue_tones, duration_frames, fade_frames_for, fade_segment, playback_frames,
    silence_sample_count, BeepCue, FadeSegment, TonePitch, GAP_DURATION_MS, TONE_DURATION_MS,
};

#[test]
fn cue_tones_match_start_and_stop_order() {
    assert_eq!(cue_tones(BeepCue::Start), [TonePitch::Low, TonePitch::High]);
    assert_eq!(cue_tones(BeepCue::Stop), [TonePitch::High, TonePitch::Low]);
}

#[test]
fn tone_and_gap_lengths_follow_the_sample_rate() {
    assert_eq!(duration_frames(TONE_DURATION_MS, 48_000), 4_320);
    assert_eq!(duration_frames(GAP_DURATION_MS, 1_000), 35);
    assert_eq!(duration_frames(8, 100), 0);
    assert_eq!(duration_frames(60_000, 48_000), 2_880_000);
    assert_eq!(duration_frames(u32::MAX, u32::MAX) as u64, 18_446_744_065_119_617u64 as usize as u64);
    assert_eq!(silence_sample_count(1_000, 2), 70);
    assert_eq!(fade_frames_for(100), 1);
    assert_eq!(fade_frames_for(48_000), 384);
    assert_eq!(playback_frames(70, 2), 35);
}

#[test]
fn fades_cover_both_ends_of_a_tone() {
    assert_eq!(fade_segment(0, 90, 8), FadeSegment::FadeIn { frame: 0 });
    assert_eq!(fade_segment(7, 90, 8), FadeSegment::FadeIn { frame: 7 });
    assert_eq!(fade_segment(8, 90, 8), FadeSegment::Full);
    assert_eq!(fade_segment(82, 90, 8), FadeSegment::FadeOut { remaining: 7 });
    assert_eq!(fade_segment(89, 90, 8), FadeSegment::FadeOut { remaining: 0 });
}
