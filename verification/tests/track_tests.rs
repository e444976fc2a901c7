use rg_audio::time_span::TimeSpan;
use rg_audio::track::{PlaybackFault, TrackInfo};

fn secs(s: u64) -> TimeSpan {
    TimeSpan::new(s, 0)
}

#[test]
fn new_track_is_finished_and_silent() {
    let t = TrackInfo::new();
    assert!(!t.is_playing());
    assert!(t.is_finished());
    assert!(!t.has_start_buffer());
    assert_eq!(t.start_time(), TimeSpan::zero());
    assert_eq!(t.pause_start_time(), TimeSpan::zero());
    assert_eq!(t.pause_end_time(), TimeSpan::zero());
    assert_eq!(t.pause_duration(), TimeSpan::zero());
}

#[test]
fn begin_opens_a_session_on_a_fresh_source() {
    let mut t = TrackInfo::new();
    t.begin_playback_at(secs(100));
    assert!(t.is_playing());
    assert!(!t.is_finished());
    assert!(t.has_start_buffer());
    assert_eq!(t.start_time(), secs(100));
    assert_eq!(t.pause_start_time(), TimeSpan::zero());
    assert_eq!(t.pause_end_time(), TimeSpan::zero());
}

#[test]
fn end_pauses_and_reports_the_play_time() {
    let mut t = TrackInfo::new();
    t.begin_playback_at(secs(100));
    let played = t.end_playback_at(secs(130), secs(131), secs(132));
    // 131 - 100 less a current pause of 132 - 130
    assert_eq!(played, Some(secs(29)));
    assert!(!t.is_playing());
    assert_eq!(t.pause_start_time(), secs(130));
}

#[test]
fn single_session_plays_its_length() {
    let mut t = TrackInfo::new();
    t.begin_playback_at(TimeSpan::new(10, 250_000_000));
    let played = t.end_playback_at(secs(40), secs(40), secs(40));
    assert_eq!(played, Some(TimeSpan::new(29, 750_000_000)));
}

#[test]
fn play_time_out_of_range_is_none() {
    let mut t = TrackInfo::new();
    t.begin_playback_at(secs(100));
    // the clock reads a time before the start
    assert_eq!(t.play_time_at(secs(50), secs(50)), None);
    t.end_playback_at(secs(130), secs(130), secs(130));
    // the pause would end before it started
    assert_eq!(t.play_time_at(secs(140), secs(120)), None);
    // the pause is longer than the time since the start
    assert_eq!(t.play_time_at(secs(101), secs(200)), None);
    assert_eq!(t.play_time_at(secs(140), secs(135)), Some(secs(35)));
}

#[test]
fn samples_left_keep_the_track_open() {
    let mut t = TrackInfo::new();
    t.begin_playback_at(secs(1));
    t.end_playback_at(secs(2), secs(2), secs(2));
    t.record_remaining(true);
    assert!(!t.is_finished());
}

#[test]
fn no_samples_left_finishes_a_paused_track() {
    let mut t = TrackInfo::new();
    t.begin_playback_at(secs(1));
    t.end_playback_at(secs(2), secs(2), secs(2));
    t.record_remaining(false);
    assert!(t.is_finished());
    assert!(!t.is_playing());
}

#[test]
fn a_playing_track_is_not_finished_by_record_remaining() {
    let mut t = TrackInfo::new();
    t.begin_playback_at(secs(1));
    t.record_remaining(false);
    assert!(t.is_playing());
    assert!(!t.is_finished());
}

#[test]
fn resume_of_a_finished_track_changes_nothing() {
    let mut t = TrackInfo::new();
    assert_eq!(t.resume_playback_at(secs(5), secs(5)), None);
    assert!(!t.is_playing());
    assert!(t.is_finished());
    assert_eq!(t.resume_playback(), Ok(None));
    assert_eq!(t.pause_end_time(), TimeSpan::zero());
}

#[test]
fn resume_adds_the_pause_and_skips_the_play_time() {
    let mut t = TrackInfo::new();
    t.begin_playback_at(secs(10));
    t.end_playback_at(secs(15), secs(15), secs(15));
    t.record_remaining(true);
    let expected = t.play_time_at(secs(20), secs(18));
    let skip = t.resume_playback_at(secs(20), secs(18));
    // played 10..15, paused 15..18: skip 20 - 10 - 3
    assert_eq!(skip, Some(secs(7)));
    assert_eq!(skip, expected);
    assert!(t.is_playing());
    assert_eq!(t.pause_duration(), secs(3));
    assert_eq!(t.pause_end_time(), secs(18));
    assert_eq!(t.pause_start_time(), secs(15));
}

#[test]
fn a_second_pause_adds_to_the_first() {
    let mut t = TrackInfo::new();
    t.begin_playback_at(secs(10));
    t.end_playback_at(secs(15), secs(15), secs(15));
    t.resume_playback_at(secs(18), secs(18));
    let played = t.end_playback_at(secs(25), secs(26), secs(26));
    // 26 - 10 less pauses 15..18 and 25..26
    assert_eq!(played, Some(secs(12)));
    t.record_remaining(true);
    assert_eq!(t.resume_playback_at(secs(30), secs(30)), Some(secs(12)));
    assert_eq!(t.pause_duration(), secs(8));
}

#[test]
fn a_fresh_source_keeps_the_pause_total() {
    let mut t = TrackInfo::new();
    t.begin_playback_at(secs(10));
    t.end_playback_at(secs(15), secs(15), secs(15));
    t.resume_playback_at(secs(18), secs(18));
    t.begin_playback_at(secs(40));
    assert_eq!(t.pause_duration(), secs(3));
    // the kept pause is taken off the play time of the new source
    assert_eq!(t.end_playback_at(secs(50), secs(50), secs(50)), Some(secs(7)));
    // and a play time shorter than the kept pause is out of range
    assert_eq!(t.play_time_at(secs(41), secs(50)), None);
}

#[test]
fn clock_operations_take_effect() {
    let mut t = TrackInfo::new();
    assert_eq!(t.begin_playback(), Ok(()));
    assert!(t.is_playing());
    assert!(t.start_time().as_secs() > 1_577_836_800);
    let played = t.end_playback();
    assert!(played.is_ok() || played == Err(PlaybackFault::SpanOutOfRange));
    assert!(!t.is_playing());
    assert!(t.pause_start_time().as_secs() > 1_577_836_800);
    t.record_remaining(true);
    let resumed = t.resume_playback();
    if let Ok(Some(_)) = resumed {
        assert!(t.is_playing());
    } else {
        assert_eq!(resumed, Err(PlaybackFault::SpanOutOfRange));
    }
    let now = t.calculate_play_time();
    assert!(now.is_ok() || now == Err(PlaybackFault::SpanOutOfRange));
}
