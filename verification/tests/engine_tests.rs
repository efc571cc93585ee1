use music_core::command::PlaybackCommand;
use music_core::engine::{CommandEffect, Engine, RetryStep};
use music_core::query::{seek_result, SeekDecision};
use music_core::volume::{volume_gain, GAIN_SCALE, VOLUME_MAX};

#[test]
fn progress_before_any_play() {
    let engine = Engine::new();
    let p = engine.query_progress(0, true);
    assert_eq!(p.duration_ms, 0);
    assert!(!p.is_ended);
    let p = engine.query_progress(0, false);
    assert_eq!(p.duration_ms, 0);
    assert!(!p.is_ended);
}

#[test]
fn progress_after_natural_drain() {
    let mut engine = Engine::new();
    engine.on_command(PlaybackCommand::Play(String::from("song.mp3")));
    engine.resolve_succeeded(180_000);
    // The sink drained with a nonzero prior position: the track ended.
    let p = engine.query_progress(179_990, true);
    assert_eq!(p.duration_ms, 180_000);
    assert!(p.is_ended);
    // Still audible somewhere in the middle: not ended.
    let p = engine.query_progress(90_000, false);
    assert!(!p.is_ended);
}

#[test]
fn second_play_wins() {
    let mut engine = Engine::new();
    engine.on_command(PlaybackCommand::Play(String::from("a.mp3")));
    engine.resolve_succeeded(1000);
    assert_eq!(engine.sink.contents, vec![String::from("a.mp3")]);
    // The next play clears before anything of its own is appended.
    engine.on_command(PlaybackCommand::Play(String::from("b.mp3")));
    assert!(engine.sink.contents.is_empty());
    engine.resolve_succeeded(2000);
    assert_eq!(engine.sink.contents, vec![String::from("b.mp3")]);
    assert_eq!(engine.duration_ms, 2000);
}

#[test]
fn remote_retry_schedule_and_exhaustion() {
    let mut engine = Engine::new();
    let eff = engine.on_command(PlaybackCommand::Play(String::from(
        "https://example.com/missing.mp3",
    )));
    match eff {
        CommandEffect::BeginResolve { remote, delay_ms } => {
            assert!(remote);
            assert_eq!(delay_ms, 1000);
        }
        _ => panic!("expected a resolution to begin"),
    }
    match engine.resolve_failed() {
        RetryStep::Retry { delay_ms } => assert_eq!(delay_ms, 2000),
        RetryStep::GiveUp => panic!("expected a second attempt"),
    }
    match engine.resolve_failed() {
        RetryStep::Retry { delay_ms } => assert_eq!(delay_ms, 3000),
        RetryStep::GiveUp => panic!("expected a third attempt"),
    }
    match engine.resolve_failed() {
        RetryStep::Retry { .. } => panic!("expected the command to fail after three attempts"),
        RetryStep::GiveUp => {}
    }
    // The sink is left idle, with no duration recorded.
    assert!(engine.sink.contents.is_empty());
    assert!(engine.job.is_none());
    assert_eq!(engine.duration_ms, 0);
}

#[test]
fn local_play_is_not_retried() {
    let mut engine = Engine::new();
    let eff = engine.on_command(PlaybackCommand::Play(String::from("/music/track.flac")));
    match eff {
        CommandEffect::BeginResolve { remote, delay_ms } => {
            assert!(!remote);
            assert_eq!(delay_ms, 0);
        }
        _ => panic!("expected a resolution to begin"),
    }
    match engine.resolve_failed() {
        RetryStep::Retry { .. } => panic!("a local source is not retried"),
        RetryStep::GiveUp => {}
    }
    assert!(engine.sink.contents.is_empty());
}

#[test]
fn pause_and_volume_apply_in_either_order() {
    let mut one = Engine::new();
    one.on_command(PlaybackCommand::Pause);
    one.on_command(PlaybackCommand::SetVolume(5000));
    let mut two = Engine::new();
    two.on_command(PlaybackCommand::SetVolume(5000));
    two.on_command(PlaybackCommand::Pause);
    assert!(one.sink.paused && two.sink.paused);
    assert_eq!(one.sink.gain, two.sink.gain);
    assert_eq!(one.sink.gain, volume_gain(5000));
}

#[test]
fn resume_and_stop_effects() {
    let mut engine = Engine::new();
    engine.on_command(PlaybackCommand::Play(String::from("x.ogg")));
    engine.resolve_succeeded(42);
    engine.on_command(PlaybackCommand::Pause);
    assert!(engine.sink.paused);
    let eff = engine.on_command(PlaybackCommand::Resume);
    assert!(matches!(eff, CommandEffect::SinkResume));
    assert!(!engine.sink.paused);
    let eff = engine.on_command(PlaybackCommand::Stop);
    assert!(matches!(eff, CommandEffect::SinkStop));
    assert!(engine.sink.contents.is_empty());
}

#[test]
fn seek_past_known_end_advances() {
    let mut engine = Engine::new();
    engine.on_command(PlaybackCommand::Play(String::from("t.wav")));
    engine.resolve_succeeded(10_000);
    match engine.decide_seek(10_001) {
        SeekDecision::AdvancePastEnd => {}
        SeekDecision::Apply(_) => panic!("a seek past the end is rejected"),
    }
    let r = seek_result(true);
    assert!(!r.success);
    assert!(r.should_play_next);
}

#[test]
fn seek_within_track_applies() {
    let mut engine = Engine::new();
    engine.on_command(PlaybackCommand::Play(String::from("t.wav")));
    engine.resolve_succeeded(10_000);
    match engine.decide_seek(5_000) {
        SeekDecision::Apply(pos) => assert_eq!(pos, 5_000),
        SeekDecision::AdvancePastEnd => panic!("a seek inside the track is applied"),
    }
    let r = seek_result(false);
    assert!(r.success);
    assert!(!r.should_play_next);
}

#[test]
fn seek_with_unknown_duration_applies() {
    let engine = Engine::new();
    assert_eq!(engine.duration_ms, 0);
    match engine.decide_seek(99_999) {
        SeekDecision::Apply(pos) => assert_eq!(pos, 99_999),
        SeekDecision::AdvancePastEnd => panic!("with no known duration a seek is applied"),
    }
}

#[test]
fn volume_curve_exact_values() {
    // gain = (v/100)^2 * 2 over GAIN_SCALE, v in hundredths of a percent.
    assert_eq!(GAIN_SCALE, 100_000_000);
    assert_eq!(volume_gain(0), 0);
    assert_eq!(volume_gain(VOLUME_MAX), 200_000_000); // full volume: gain 2.0
    assert_eq!(volume_gain(5000), 50_000_000); // half volume: gain 0.5
    assert_eq!(volume_gain(2500), 12_500_000); // quarter volume: gain 0.125
    assert_eq!(volume_gain(1), 2);
}

#[test]
fn volume_outside_range_is_clamped() {
    assert_eq!(volume_gain(10_001), volume_gain(VOLUME_MAX));
    assert_eq!(volume_gain(u32::MAX), 200_000_000);
}

#[test]
fn set_volume_effect_carries_gain() {
    let mut engine = Engine::new();
    let eff = engine.on_command(PlaybackCommand::SetVolume(10_000));
    match eff {
        CommandEffect::SinkSetGain(g) => assert_eq!(g, 200_000_000),
        _ => panic!("expected a gain change"),
    }
    assert_eq!(engine.sink.gain, 200_000_000);
}
