use taupe::engine::{AudioEngine, PlaybackState, PlayerCommand, Report};
use taupe::metadata::TrackMetadata;
use taupe::player::{Player, PlayButton, PlayerEvent, PlayerRequest, PlayerStatus, RowHighlight};

fn with_playlist(n: usize, index: Option<usize>) -> Player<String, f32> {
    let mut p: Player<String, f32> = Player::new(0.0, 0.5);
    let files: Vec<String> = (0..n).map(|i| format!("{i}.flac")).collect();
    let _ = p.open_file("picked".to_string(), files, index);
    p
}

fn is_load_entry(r: &Option<PlayerRequest<String, f32>>, i: usize) -> bool {
    matches!(r, Some(PlayerRequest::LoadEntry(j)) if *j == i)
}

#[test]
fn new_player_is_stopped_and_empty() {
    let p: Player<String, f32> = Player::new(0.0, 0.5);
    assert!(p.state == PlaybackState::Stopped);
    assert!(p.playlist.is_empty());
    assert_eq!(p.volume, 0.5);
    assert_eq!(p.position, 0.0);
    assert!(!p.can_prev() && !p.can_next());
    assert_eq!(p.play_button(), PlayButton::Play);
}

#[test]
fn open_file_starts_it_from_its_folder() {
    let mut p: Player<String, f32> = Player::new(0.0, 0.5);
    p.seek_position = 3.0;
    p.is_seeking = true;
    let files = vec!["a.flac".to_string(), "b.flac".to_string(), "c.flac".to_string()];
    let r = p.open_file("b.flac".to_string(), files, Some(1));
    assert!(matches!(r, PlayerRequest::LoadPath(ref s) if s == "b.flac"));
    assert_eq!(p.playlist_index, Some(1));
    assert_eq!(p.selected_index, Some(1));
    assert!(p.state == PlaybackState::Playing);
    assert_eq!(p.seek_position, 0.0);
    assert!(!p.is_seeking);
    assert!(p.can_prev() && p.can_next());
}

#[test]
fn open_file_not_in_listing_has_no_index() {
    let mut p: Player<String, f32> = Player::new(0.0, 0.5);
    let r = p.open_file("x.FLAC".to_string(), vec!["a.flac".to_string()], None);
    assert!(matches!(r, PlayerRequest::LoadPath(_)));
    assert_eq!(p.playlist_index, None);
    assert!(!p.can_prev() && !p.can_next());
}

#[test]
fn lone_file_becomes_the_playlist() {
    let mut p: Player<String, f32> = Player::new(0.0, 0.5);
    let r = p.open_lone_file("only.mp3".to_string());
    assert!(matches!(r, PlayerRequest::LoadEntry(0)));
    assert_eq!(p.playlist, vec!["only.mp3".to_string()]);
    assert_eq!(p.playlist_index, Some(0));
}

#[test]
fn empty_folder_changes_nothing() {
    let mut p = with_playlist(2, Some(1));
    let r = p.open_folder(Vec::new());
    assert!(r.is_none());
    assert_eq!(p.playlist.len(), 2);
    assert_eq!(p.playlist_index, Some(1));
}

#[test]
fn folder_starts_its_first_file() {
    let mut p = with_playlist(2, Some(1));
    let r = p.open_folder(vec!["x.ogg".to_string(), "y.ogg".to_string()]);
    assert!(matches!(r, Some(PlayerRequest::LoadEntry(0))));
    assert_eq!(p.playlist_index, Some(0));
    assert_eq!(p.selected_index, Some(0));
    assert_eq!(p.playlist[0], "x.ogg");
}

#[test]
fn next_and_prev_move_by_one_within_bounds() {
    let mut p = with_playlist(3, Some(0));
    assert!(p.update(PlayerEvent::PrevPressed).is_none());
    assert_eq!(p.playlist_index, Some(0));
    let r = p.update(PlayerEvent::NextPressed);
    assert!(is_load_entry(&r, 1));
    let r = p.update(PlayerEvent::NextPressed);
    assert!(is_load_entry(&r, 2));
    assert!(!p.can_next());
    assert!(p.update(PlayerEvent::NextPressed).is_none());
    assert_eq!(p.playlist_index, Some(2));
    let r = p.update(PlayerEvent::PrevPressed);
    assert!(is_load_entry(&r, 1));
    assert_eq!(p.selected_index, Some(1));
}

#[test]
fn next_then_prev_returns() {
    let mut p = with_playlist(5, Some(2));
    let _ = p.update(PlayerEvent::NextPressed);
    let _ = p.update(PlayerEvent::PrevPressed);
    assert_eq!(p.playlist_index, Some(2));
}

#[test]
fn transport_buttons() {
    let mut p = with_playlist(1, Some(0));
    assert_eq!(p.play_button(), PlayButton::Pause);
    assert!(matches!(p.update(PlayerEvent::PausePressed), Some(PlayerRequest::Pause)));
    assert!(p.state == PlaybackState::Paused);
    assert_eq!(p.play_button(), PlayButton::Play);
    assert!(matches!(p.update(PlayerEvent::PlayPressed), Some(PlayerRequest::Play)));
    assert!(p.state == PlaybackState::Playing);
}

#[test]
fn stop_rewinds_the_window() {
    let mut p = with_playlist(1, Some(0));
    let _ = p.apply_status(PlayerStatus::Position(12.5));
    assert_eq!(p.seek_position, 12.5);
    assert!(matches!(p.update(PlayerEvent::StopPressed), Some(PlayerRequest::Stop)));
    assert!(p.state == PlaybackState::Stopped);
    assert_eq!(p.position, 0.0);
    assert_eq!(p.seek_position, 0.0);
}

#[test]
fn volume_is_kept_and_forwarded() {
    let mut p = with_playlist(1, Some(0));
    let r = p.update(PlayerEvent::VolumeChanged(0.8));
    assert!(matches!(r, Some(PlayerRequest::SetVolume(v)) if v == 0.8));
    assert_eq!(p.volume, 0.8);
}

#[test]
fn dragging_the_bar_does_not_seek() {
    let mut p = with_playlist(1, Some(0));
    let _ = p.apply_status(PlayerStatus::Position(10.0));
    assert!(p.update(PlayerEvent::SeekMoved(42.0)).is_none());
    assert!(p.is_seeking);
    assert_eq!(p.position, 10.0);
    assert_eq!(p.display_position(), 42.0);
    let _ = p.apply_status(PlayerStatus::Position(10.25));
    assert_eq!(p.seek_position, 42.0);
    assert_eq!(p.position, 10.25);
    let r = p.update(PlayerEvent::SeekReleased);
    assert!(matches!(r, Some(PlayerRequest::Seek(t)) if t == 42.0));
    assert_eq!(p.position, 42.0);
    assert!(!p.is_seeking);
    assert_eq!(p.display_position(), 42.0);
}

#[test]
fn end_of_playback_settles_the_bar() {
    let mut p = with_playlist(1, Some(0));
    let _ = p.apply_status(PlayerStatus::Position(99.0));
    let _ = p.update(PlayerEvent::SeekMoved(5.0));
    let r = p.apply_status(PlayerStatus::PlaybackEnded);
    assert!(r.is_none());
    assert!(p.state == PlaybackState::Stopped);
    assert!(!p.is_seeking);
    assert_eq!(p.seek_position, 99.0);
}

#[test]
fn duration_status_is_kept() {
    let mut p = with_playlist(1, Some(0));
    assert!(p.apply_status(PlayerStatus::Duration(180.0)).is_none());
    assert_eq!(p.duration, 180.0);
}

#[test]
fn metadata_replaces_what_is_shown() {
    let mut p = with_playlist(1, Some(0));
    let m = TrackMetadata {
        title: Some("Title".to_string()),
        artist: Some("Artist".to_string()),
        album: None,
        track_no: Some(3),
        disc_no: None,
        picture: None,
        sample_rate_hz: Some(44100),
        bitrate_kbps: Some(900),
        channels: Some(2),
        bit_depth: Some(16),
        file_format: Some("flac".to_string()),
    };
    let r = p.apply_status(PlayerStatus::Metadata(m));
    assert!(matches!(r, Some(None)));
    assert_eq!(p.info.title.as_deref(), Some("Title"));
    assert_eq!(p.info.artist.as_deref(), Some("Artist"));
    assert_eq!(p.info.album, None);
    assert_eq!(p.info.track_no, Some(3));
    assert_eq!(p.info.sample_rate_hz, Some(44100));
    assert_eq!(p.info.file_format.as_deref(), Some("flac"));
}

#[test]
fn metadata_with_undecodable_picture_keeps_its_bytes() {
    let mut p = with_playlist(1, Some(0));
    let m = TrackMetadata {
        title: None,
        artist: None,
        album: None,
        track_no: None,
        disc_no: None,
        picture: Some((vec![1, 2, 3], "image/jpeg".to_string())),
        sample_rate_hz: None,
        bitrate_kbps: None,
        channels: None,
        bit_depth: None,
        file_format: None,
    };
    let r = p.apply_status(PlayerStatus::Metadata(m));
    assert_eq!(r, Some(Some(vec![1, 2, 3])));
}

#[test]
fn rows_are_highlighted_playing_first() {
    let mut p = with_playlist(3, Some(1));
    let _ = p.update(PlayerEvent::PlaylistRowClicked(2));
    assert_eq!(p.row_highlight(1), RowHighlight::Playing);
    assert_eq!(p.row_highlight(2), RowHighlight::Selected);
    assert_eq!(p.row_highlight(0), RowHighlight::Plain);
    let _ = p.update(PlayerEvent::PlaylistRowClicked(1));
    assert_eq!(p.row_highlight(1), RowHighlight::Playing);
}

#[test]
fn double_click_plays_the_row() {
    let mut p = with_playlist(4, Some(0));
    let _ = p.apply_status(PlayerStatus::Position(7.0));
    let r = p.update(PlayerEvent::PlaylistRowDoubleClicked(3));
    assert!(is_load_entry(&r, 3));
    assert_eq!(p.playlist_index, Some(3));
    assert_eq!(p.selected_index, Some(3));
    assert_eq!(p.position, 0.0);
    assert!(!p.can_next());
}

#[test]
fn end_report_stops_engine_and_window_together() {
    let mut e: AudioEngine<String> = AudioEngine::new();
    let _ = e.apply(PlayerCommand::Load("a".to_string()), Some(None));
    let reports = e.observe_sink(true);
    assert!(reports.contains(&Report::PlaybackEnded));
    assert!(e.state == PlaybackState::Stopped);
    let mut p = with_playlist(1, Some(0));
    let _ = p.apply_status(PlayerStatus::PlaybackEnded);
    assert!(p.state == PlaybackState::Stopped);
}
