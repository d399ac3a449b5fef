use taupe::engine::{
    AudioEngine, EngineAction, PlaybackState, PlayerCommand, Preparation, Report, SourceRequest,
};
use taupe::timespan::TimeSpan;

fn span(secs: u64, nanos: u32) -> TimeSpan {
    TimeSpan { secs, nanos }
}

fn loaded(path: &str, duration: Option<TimeSpan>) -> AudioEngine<String> {
    let mut e: AudioEngine<String> = AudioEngine::new();
    let _ = e.apply(PlayerCommand::Load(path.to_string()), Some(duration));
    e
}

#[test]
fn time_span_from_millis() {
    assert_eq!(TimeSpan::from_millis(1500), span(1, 500_000_000));
    assert_eq!(TimeSpan::from_millis(0), TimeSpan::zero());
    assert_eq!(TimeSpan::from_millis(999), span(0, 999_000_000));
}

#[test]
fn time_span_order_is_by_seconds_then_nanos() {
    assert!(span(2, 0).ge(&span(1, 999_999_999)));
    assert!(!span(1, 999_999_999).ge(&span(2, 0)));
    assert!(span(1, 5).ge(&span(1, 5)));
    assert!(!span(1, 4).ge(&span(1, 5)));
}

#[test]
fn new_engine_is_stopped_and_empty() {
    let e: AudioEngine<String> = AudioEngine::new();
    assert!(e.state == PlaybackState::Stopped);
    assert!(e.current_path.is_none());
    assert!(e.current_duration.is_none());
    assert!(e.was_empty);
}

#[test]
fn load_prepares_by_clearing_and_opening_the_new_file() {
    let e: AudioEngine<String> = AudioEngine::new();
    let prep = e.prepare(&PlayerCommand::Load("a.flac".to_string()), true);
    assert_eq!(prep, Preparation { reset_sink: true, open: SourceRequest::CommandPath });
}

#[test]
fn successful_load_plays_and_reports_duration() {
    let mut e: AudioEngine<String> = AudioEngine::new();
    let d = span(200, 0);
    let actions = e.apply(PlayerCommand::Load("a.flac".to_string()), Some(Some(d)));
    assert_eq!(
        actions,
        vec![EngineAction::AppendSource, EngineAction::Play, EngineAction::Send(Report::Duration(d))]
    );
    assert!(e.state == PlaybackState::Playing);
    assert_eq!(e.current_path.as_deref(), Some("a.flac"));
    assert_eq!(e.current_duration, Some(d));
    assert!(!e.was_empty);
}

#[test]
fn load_without_known_duration_sends_no_duration() {
    let mut e: AudioEngine<String> = AudioEngine::new();
    let actions = e.apply(PlayerCommand::Load("a.flac".to_string()), Some(None));
    assert_eq!(actions, vec![EngineAction::AppendSource, EngineAction::Play]);
    assert_eq!(e.current_duration, None);
}

#[test]
fn failed_load_changes_nothing() {
    let mut e = loaded("a.flac", Some(span(10, 0)));
    let _ = e.apply(PlayerCommand::Pause, None);
    let actions = e.apply(PlayerCommand::Load("broken.mp3".to_string()), None);
    assert!(actions.is_empty());
    assert!(e.state == PlaybackState::Paused);
    assert_eq!(e.current_path.as_deref(), Some("a.flac"));
    assert_eq!(e.current_duration, Some(span(10, 0)));
}

#[test]
fn play_on_empty_sink_reopens_current_file() {
    let mut e = loaded("a.flac", Some(span(10, 0)));
    let prep = e.prepare(&PlayerCommand::Play, true);
    assert_eq!(prep, Preparation { reset_sink: false, open: SourceRequest::CurrentPath });
    let d = span(11, 0);
    let actions = e.apply(PlayerCommand::Play, Some(Some(d)));
    assert_eq!(
        actions,
        vec![
            EngineAction::AppendSource,
            EngineAction::Send(Report::Position(TimeSpan::zero())),
            EngineAction::Send(Report::Duration(d)),
            EngineAction::Play,
        ]
    );
    assert_eq!(e.current_duration, Some(d));
    assert!(e.state == PlaybackState::Playing);
}

#[test]
fn play_with_queued_audio_just_resumes() {
    let mut e = loaded("a.flac", Some(span(10, 0)));
    assert_eq!(e.prepare(&PlayerCommand::Play, false).open, SourceRequest::NoSource);
    let actions = e.apply(PlayerCommand::Play, None);
    assert_eq!(actions, vec![EngineAction::Play]);
}

#[test]
fn play_with_nothing_loaded_opens_nothing() {
    let mut e: AudioEngine<String> = AudioEngine::new();
    assert_eq!(e.prepare(&PlayerCommand::Play, true).open, SourceRequest::NoSource);
    let actions = e.apply(PlayerCommand::Play, None);
    assert_eq!(actions, vec![EngineAction::Play]);
    assert!(e.state == PlaybackState::Playing);
}

#[test]
fn pause_pauses() {
    let mut e = loaded("a.flac", None);
    assert_eq!(e.prepare(&PlayerCommand::Pause, false), Preparation { reset_sink: false, open: SourceRequest::NoSource });
    assert_eq!(e.apply(PlayerCommand::Pause, None), vec![EngineAction::Pause]);
    assert!(e.state == PlaybackState::Paused);
}

#[test]
fn stop_with_a_track_reloads_it_from_the_start() {
    let mut e = loaded("a.flac", Some(span(10, 0)));
    let prep = e.prepare(&PlayerCommand::Stop, false);
    assert_eq!(prep, Preparation { reset_sink: true, open: SourceRequest::CurrentPath });
    let actions = e.apply(PlayerCommand::Stop, Some(Some(span(10, 0))));
    assert_eq!(
        actions,
        vec![
            EngineAction::AppendSource,
            EngineAction::Send(Report::Position(TimeSpan::zero())),
            EngineAction::Send(Report::Duration(span(10, 0))),
        ]
    );
    assert!(e.state == PlaybackState::Stopped);
    assert!(!e.was_empty);
}

#[test]
fn stop_whose_reload_fails_keeps_state() {
    let mut e = loaded("a.flac", Some(span(10, 0)));
    let actions = e.apply(PlayerCommand::Stop, None);
    assert!(actions.is_empty());
    assert!(e.state == PlaybackState::Playing);
}

#[test]
fn stop_without_a_track_rewinds() {
    let mut e: AudioEngine<String> = AudioEngine::new();
    assert_eq!(e.prepare(&PlayerCommand::Stop, true).open, SourceRequest::NoSource);
    let actions = e.apply(PlayerCommand::Stop, None);
    assert_eq!(
        actions,
        vec![
            EngineAction::Pause,
            EngineAction::SeekTo(TimeSpan::zero()),
            EngineAction::Send(Report::Position(TimeSpan::zero())),
            EngineAction::RecordSinkEmpty,
        ]
    );
    e.record_sink_empty(false);
    assert!(!e.was_empty);
}

#[test]
fn seek_within_the_track_reports_the_target() {
    let mut e = loaded("a.flac", Some(span(100, 0)));
    let actions = e.apply(PlayerCommand::Seek(42_500), None);
    assert_eq!(
        actions,
        vec![
            EngineAction::SeekTo(span(42, 500_000_000)),
            EngineAction::Play,
            EngineAction::Send(Report::Position(span(42, 500_000_000))),
            EngineAction::RecordSinkEmpty,
        ]
    );
}

#[test]
fn seek_past_the_end_reports_the_end() {
    let mut e = loaded("a.flac", Some(span(100, 250)));
    let _ = e.apply(PlayerCommand::Pause, None);
    let actions = e.apply(PlayerCommand::Seek(500_000), None);
    assert_eq!(
        actions,
        vec![
            EngineAction::SeekTo(span(500, 0)),
            EngineAction::Pause,
            EngineAction::Send(Report::Position(span(100, 250))),
            EngineAction::RecordSinkEmpty,
        ]
    );
}

#[test]
fn seek_exactly_at_the_end_reports_the_end() {
    let mut e = loaded("a.flac", Some(span(3, 0)));
    let actions = e.apply(PlayerCommand::Seek(3000), None);
    assert_eq!(actions[2], EngineAction::Send(Report::Position(span(3, 0))));
}

#[test]
fn seek_on_empty_sink_reopens_and_uses_new_duration() {
    let mut e = loaded("a.flac", Some(span(100, 0)));
    let _ = e.observe_sink(true);
    assert_eq!(e.prepare(&PlayerCommand::Seek(5000), true).open, SourceRequest::CurrentPath);
    let actions = e.apply(PlayerCommand::Seek(5000), Some(Some(span(4, 0))));
    assert_eq!(
        actions,
        vec![
            EngineAction::AppendSource,
            EngineAction::Send(Report::Duration(span(4, 0))),
            EngineAction::SeekTo(span(5, 0)),
            EngineAction::Pause,
            EngineAction::Send(Report::Position(span(4, 0))),
            EngineAction::RecordSinkEmpty,
        ]
    );
}

#[test]
fn seek_without_duration_reports_target() {
    let mut e = loaded("a.flac", None);
    let actions = e.apply(PlayerCommand::Seek(1234), None);
    assert_eq!(actions[2], EngineAction::Send(Report::Position(span(1, 234_000_000))));
}

#[test]
fn position_reports_only_while_playing() {
    let mut e = loaded("a.flac", None);
    assert!(e.wants_position_report(true));
    assert!(!e.wants_position_report(false));
    let _ = e.apply(PlayerCommand::Pause, None);
    assert!(!e.wants_position_report(true));
}

#[test]
fn end_of_track_is_reported_once() {
    let mut e = loaded("a.flac", Some(span(30, 0)));
    assert!(e.observe_sink(false).is_empty());
    let reports = e.observe_sink(true);
    assert_eq!(reports, vec![Report::Position(span(30, 0)), Report::PlaybackEnded]);
    assert!(e.state == PlaybackState::Stopped);
    assert!(e.observe_sink(true).is_empty());
    assert!(e.observe_sink(false).is_empty());
}

#[test]
fn end_without_duration_reports_zero() {
    let mut e = loaded("a.flac", None);
    let reports = e.observe_sink(true);
    assert_eq!(reports, vec![Report::Position(TimeSpan::zero()), Report::PlaybackEnded]);
}

#[test]
fn paused_engine_never_reports_an_end() {
    let mut e = loaded("a.flac", Some(span(30, 0)));
    let _ = e.apply(PlayerCommand::Pause, None);
    assert!(e.observe_sink(true).is_empty());
    assert!(e.was_empty);
}

#[test]
fn only_a_decoded_load_changes_the_track() {
    let mut e = loaded("a.flac", Some(span(10, 0)));
    let _ = e.apply(PlayerCommand::Stop, Some(Some(span(10, 0))));
    let _ = e.apply(PlayerCommand::Seek(1000), None);
    let _ = e.apply(PlayerCommand::Play, None);
    let _ = e.apply(PlayerCommand::Pause, None);
    assert_eq!(e.current_path.as_deref(), Some("a.flac"));
    let _ = e.apply(PlayerCommand::Load("b.flac".to_string()), None);
    assert_eq!(e.current_path.as_deref(), Some("a.flac"));
    let _ = e.apply(PlayerCommand::Load("b.flac".to_string()), Some(None));
    assert_eq!(e.current_path.as_deref(), Some("b.flac"));
    assert!(e.state == PlaybackState::Playing);
}

#[test]
fn every_duration_report_matches_the_kept_duration() {
    let mut e = loaded("a.flac", Some(span(10, 0)));
    for action in e.apply(PlayerCommand::Stop, Some(Some(span(12, 5)))) {
        if let EngineAction::Send(Report::Duration(d)) = action {
            assert_eq!(Some(d), e.current_duration);
        }
    }
    assert_eq!(e.current_duration, Some(span(12, 5)));
}
