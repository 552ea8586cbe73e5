use ups_monitor::sound::{
    clamp_repeats, Playback, PlaybackAction, PlaybackEvent, PlaybackState, SoundPlayer,
};

#[test]
fn stop_then_play_gives_distinct_tokens() {
    let mut player = SoundPlayer::new();
    let mut tokens = Vec::new();
    for _ in 0..200 {
        let before = player.generation;
        player.stop();
        let token = player.play();
        assert_ne!(token, before);
        assert!(player.is_current(token));
        assert!(!tokens.contains(&token));
        tokens.push(token);
    }
    assert_eq!(tokens.len(), 200);
    assert_eq!(tokens[0], 2);
    assert_eq!(tokens[199], 400);
}

#[test]
fn counter_starts_over_behind_the_largest_value() {
    let mut player = SoundPlayer { generation: u64::MAX };
    player.stop();
    assert_eq!(player.generation, 0);
    assert_eq!(player.play(), 1);
}

#[test]
fn play_makes_earlier_tokens_stale() {
    let mut player = SoundPlayer::new();
    let first = player.play();
    let second = player.play();
    assert!(!player.is_current(first));
    assert!(player.is_current(second));
    player.stop();
    assert!(!player.is_current(second));
}

#[test]
fn repeats_are_clamped() {
    assert_eq!(clamp_repeats(0), 1);
    assert_eq!(clamp_repeats(1), 1);
    assert_eq!(clamp_repeats(17), 17);
    assert_eq!(clamp_repeats(30), 30);
    assert_eq!(clamp_repeats(31), 30);
    assert_eq!(Playback::new(7, true, 99).remaining, 30);
    assert_eq!(Playback::new(7, false, 0).remaining, 1);
}

#[test]
fn beep_playback_runs_its_repetitions() {
    let mut p = Playback::new(5, false, 2);
    assert_eq!(p.step(5, PlaybackEvent::Resumed), PlaybackAction::Beep { pause_ms: 260 });
    assert_eq!(p.step(5, PlaybackEvent::Resumed), PlaybackAction::Gap { pause_ms: 140 });
    assert_eq!(p.remaining, 1);
    assert_eq!(p.step(5, PlaybackEvent::Resumed), PlaybackAction::Beep { pause_ms: 260 });
    assert_eq!(p.step(5, PlaybackEvent::Resumed), PlaybackAction::Gap { pause_ms: 140 });
    assert_eq!(p.state, PlaybackState::Done);
    assert_eq!(p.step(5, PlaybackEvent::Resumed), PlaybackAction::Finish);
}

#[test]
fn file_playback_polls_until_the_file_ends() {
    let mut p = Playback::new(9, true, 1);
    assert_eq!(p.step(9, PlaybackEvent::Resumed), PlaybackAction::StartFile);
    assert_eq!(p.step(9, PlaybackEvent::FileStarted), PlaybackAction::Poll { pause_ms: 70 });
    assert_eq!(p.step(9, PlaybackEvent::Resumed), PlaybackAction::Poll { pause_ms: 70 });
    assert_eq!(p.step(9, PlaybackEvent::FileFinished), PlaybackAction::Gap { pause_ms: 140 });
    assert_eq!(p.step(9, PlaybackEvent::Resumed), PlaybackAction::Finish);
}

#[test]
fn unplayable_file_falls_back_to_the_beep() {
    let mut p = Playback::new(9, true, 1);
    assert_eq!(p.step(9, PlaybackEvent::Resumed), PlaybackAction::StartFile);
    assert_eq!(p.step(9, PlaybackEvent::FileUnplayable), PlaybackAction::Beep { pause_ms: 260 });
    assert_eq!(p.step(9, PlaybackEvent::Resumed), PlaybackAction::Gap { pause_ms: 140 });
    assert_eq!(p.state, PlaybackState::Done);
}

#[test]
fn stale_playback_never_starts_a_repetition() {
    let mut p = Playback::new(3, false, 5);
    assert_eq!(p.step(4, PlaybackEvent::Resumed), PlaybackAction::Finish);
    assert_eq!(p.state, PlaybackState::Done);
    assert_eq!(p.step(3, PlaybackEvent::Resumed), PlaybackAction::Finish);

    let mut q = Playback::new(3, false, 5);
    assert_eq!(q.step(3, PlaybackEvent::Resumed), PlaybackAction::Beep { pause_ms: 260 });
    assert_eq!(q.step(4, PlaybackEvent::Resumed), PlaybackAction::Finish);
    assert_eq!(q.remaining, 5);
}

#[test]
fn stale_playback_stops_the_file_that_plays() {
    let mut p = Playback::new(3, true, 5);
    p.step(3, PlaybackEvent::Resumed);
    p.step(3, PlaybackEvent::FileStarted);
    assert_eq!(p.state, PlaybackState::Playing);
    assert_eq!(p.step(8, PlaybackEvent::Resumed), PlaybackAction::Abort);
    assert_eq!(p.state, PlaybackState::Done);
}

#[test]
fn stale_between_repetitions_ends_before_the_gap() {
    let mut p = Playback::new(3, false, 5);
    p.step(3, PlaybackEvent::Resumed);
    assert_eq!(p.step(4, PlaybackEvent::Resumed), PlaybackAction::Finish);
}
