use vstd::prelude::*;

use crate::cover::{cover_art, is_cover_art_of};
use crate::engine::{AudioEngine, PlaybackState, Report};
use crate::metadata::TrackMetadata;

verus! {

/// What the window shows about the loaded file.
pub struct NowPlaying {
    pub title: Option<String>,
    pub artist: Option<String>,
    pub album: Option<String>,
    pub track_no: Option<u16>,
    pub disc_no: Option<u16>,
    pub sample_rate_hz: Option<u32>,
    pub bitrate_kbps: Option<u32>,
    pub channels: Option<u8>,
    pub bit_depth: Option<u8>,
    pub file_format: Option<String>,
}

/// The state of the player window. `P` is a file path and `T` a point in a
/// track or a volume, as the window's sliders give them; the window's logic
/// only stores and moves such values, it never computes with them.
pub struct Player<P, T> {
    pub playlist: Vec<P>,
    pub playlist_index: Option<usize>,
    pub selected_index: Option<usize>,
    pub state: PlaybackState,
    pub volume: T,
    /// The playback position last reported by the audio engine.
    pub position: T,
    /// The seek bar's position; equals `position` unless the user drags it.
    pub seek_position: T,
    /// The user is dragging the seek bar.
    pub is_seeking: bool,
    pub duration: T,
    /// The position at which a track starts.
    pub start: T,
    pub info: NowPlaying,
}

/// A user action in the window that needs no outside work first.
pub enum PlayerEvent<T> {
    PlayPressed,
    PausePressed,
    StopPressed,
    VolumeChanged(T),
    /// The seek bar is being dragged: only the bar moves.
    SeekMoved(T),
    /// The seek bar was let go: playback seeks there.
    SeekReleased,
    PrevPressed,
    NextPressed,
    PlaylistRowClicked(usize),
    PlaylistRowDoubleClicked(usize),
}

/// A message from the audio engine.
pub enum PlayerStatus<T> {
    Position(T),
    Duration(T),
    PlaybackEnded,
    Metadata(TrackMetadata),
}

/// What the window asks of the audio engine. `LoadEntry` names a playlist
/// index; `Seek` carries the seek bar's position.
pub enum PlayerRequest<P, T> {
    LoadPath(P),
    LoadEntry(usize),
    Play,
    Pause,
    Stop,
    SetVolume(T),
    Seek(T),
}

/// Which of play and pause the transport offers.
#[derive(Clone, Copy, Debug, PartialEq, Eq, Structural)]
pub enum PlayButton {
    Play,
    Pause,
}

/// How a playlist row is drawn.
#[derive(Clone, Copy, Debug, PartialEq, Eq, Structural)]
pub enum RowHighlight {
    Playing,
    Selected,
    Plain,
}

/// The cover shown for a file's picture: the 80x80 PNG thumbnail of the
/// picture, or the picture's own bytes when no thumbnail can be made from
/// them, and nothing when the file has no picture.
pub open spec fn is_cover_for(cover: Option<Vec<u8>>, picture: Option<(Vec<u8>, String)>) -> bool {
    match (cover, picture) {
        (Some(v), Some((data, _))) => is_cover_art_of(v@, data@),
        (None, None) => true,
        _ => false,
    }
}

impl<P, T: Copy> Player<P, T> {
    /// The playing index, when there is one, points into the playlist (whose
    /// length, as for any vector, fits a `usize`).
    pub open spec fn wf(self) -> bool {
        &&& self.playlist@.len() <= usize::MAX
        &&& self.playlist_index matches Some(i) ==> i < self.playlist@.len()
    }

    /// The window right after it asked for a track: playing, the seek bar
    /// back at the start, the track both playing and selected.
    pub open spec fn started(self, index: Option<usize>) -> Player<P, T> {
        Player {
            playlist_index: index,
            selected_index: index,
            state: PlaybackState::Playing,
            position: self.start,
            seek_position: self.start,
            is_seeking: false,
            ..self
        }
    }

    pub open spec fn spec_can_prev(self) -> bool {
        self.playlist_index matches Some(i) && i > 0
    }

    pub open spec fn spec_can_next(self) -> bool {
        self.playlist_index matches Some(i) && i + 1 < self.playlist@.len()
    }

    /// The window after a user action, and what it asks of the engine.
    pub open spec fn after_event(self, ev: PlayerEvent<T>) -> (Player<P, T>, Option<PlayerRequest<P, T>>) {
        match ev {
            PlayerEvent::PlayPressed => (Player { state: PlaybackState::Playing, ..self }, Some(PlayerRequest::Play)),
            PlayerEvent::PausePressed => (Player { state: PlaybackState::Paused, ..self }, Some(PlayerRequest::Pause)),
            PlayerEvent::StopPressed => (
                Player {
                    state: PlaybackState::Stopped,
                    position: self.start,
                    seek_position: self.start,
                    is_seeking: false,
                    ..self
                },
                Some(PlayerRequest::Stop),
            ),
            PlayerEvent::VolumeChanged(v) => (Player { volume: v, ..self }, Some(PlayerRequest::SetVolume(v))),
            PlayerEvent::SeekMoved(t) => (Player { is_seeking: true, seek_position: t, ..self }, None),
            PlayerEvent::SeekReleased => (
                Player { is_seeking: false, position: self.seek_position, ..self },
                Some(PlayerRequest::Seek(self.seek_position)),
            ),
            PlayerEvent::PrevPressed => if self.spec_can_prev() {
                let i = (self.playlist_index.unwrap() - 1) as usize;
                (self.started(Some(i)), Some(PlayerRequest::LoadEntry(i)))
            } else {
                (self, None)
            },
            PlayerEvent::NextPressed => if self.spec_can_next() {
                let i = (self.playlist_index.unwrap() + 1) as usize;
                (self.started(Some(i)), Some(PlayerRequest::LoadEntry(i)))
            } else {
                (self, None)
            },
            PlayerEvent::PlaylistRowClicked(i) => (Player { selected_index: Some(i), ..self }, None),
            PlayerEvent::PlaylistRowDoubleClicked(i) => (self.started(Some(i)), Some(PlayerRequest::LoadEntry(i))),
        }
    }

    /// The window after a message from the engine. A position moves the seek
    /// bar too unless the user is dragging it; the end of playback stops the
    /// window and puts the bar back at the position.
    pub open spec fn after_status(self, s: PlayerStatus<T>) -> Player<P, T> {
        match s {
            PlayerStatus::Position(p) => Player {
                position: p,
                seek_position: if self.is_seeking { self.seek_position } else { p },
                ..self
            },
            PlayerStatus::Duration(d) => Player { duration: d, ..self },
            PlayerStatus::PlaybackEnded => Player {
                state: PlaybackState::Stopped,
                is_seeking: false,
                seek_position: self.position,
                ..self
            },
            PlayerStatus::Metadata(m) => Player {
                info: NowPlaying {
                    title: m.title,
                    artist: m.artist,
                    album: m.album,
                    track_no: m.track_no,
                    disc_no: m.disc_no,
                    sample_rate_hz: m.sample_rate_hz,
                    bitrate_kbps: m.bitrate_kbps,
                    channels: m.channels,
                    bit_depth: m.bit_depth,
                    file_format: m.file_format,
                },
                ..self
            },
        }
    }

    /// A window with an empty playlist, stopped, the bar at `start`.
    pub fn new(start: T, volume: T) -> (r: Player<P, T>)
        ensures
            r.playlist@.len() == 0,
            r.playlist_index is None,
            r.selected_index is None,
            r.state is Stopped,
            r.volume == volume,
            r.position == start,
            r.seek_position == start,
            !r.is_seeking,
            r.duration == start,
            r.start == start,
            r.info.title is None && r.info.artist is None && r.info.album is None,
            r.info.track_no is None && r.info.disc_no is None,
            r.info.sample_rate_hz is None && r.info.bitrate_kbps is None,
            r.info.channels is None && r.info.bit_depth is None && r.info.file_format is None,
            r.wf(),
    {
        Player {
            playlist: Vec::new(),
            playlist_index: None,
            selected_index: None,
            state: PlaybackState::Stopped,
            volume,
            position: start,
            seek_position: start,
            is_seeking: false,
            duration: start,
            start,
            info: NowPlaying {
                title: None,
                artist: None,
                album: None,
                track_no: None,
                disc_no: None,
                sample_rate_hz: None,
                bitrate_kbps: None,
                channels: None,
                bit_depth: None,
                file_format: None,
            },
        }
    }

    fn start_track(&mut self, index: Option<usize>)
        ensures
            *final(self) == old(self).started(index),
    {
        self.playlist_index = index;
        self.selected_index = index;
        self.state = PlaybackState::Playing;
        self.position = self.start;
        self.seek_position = self.start;
        self.is_seeking = false;
    }

    /// Whether the previous track can be played.
    pub fn can_prev(&self) -> (r: bool)
        ensures
            r == self.spec_can_prev(),
    {
        match self.playlist_index {
            Some(i) => i > 0,
            None => false,
        }
    }

    /// Whether the next track can be played.
    pub fn can_next(&self) -> (r: bool)
        ensures
            r == self.spec_can_next(),
    {
        match self.playlist_index {
            Some(i) => i < self.playlist.len() && i + 1 < self.playlist.len(),
            None => false,
        }
    }

    /// Handles a user action that needs no outside work first.
    pub fn update(&mut self, ev: PlayerEvent<T>) -> (r: Option<PlayerRequest<P, T>>)
        requires
            old(self).wf(),
            ev matches PlayerEvent::PlaylistRowDoubleClicked(i) ==> i < old(self).playlist@.len(),
        ensures
            (*final(self), r) == old(self).after_event(ev),
            final(self).wf(),
    {
        match ev {
            PlayerEvent::PlayPressed => {
                self.state = PlaybackState::Playing;
                Some(PlayerRequest::Play)
            },
            PlayerEvent::PausePressed => {
                self.state = PlaybackState::Paused;
                Some(PlayerRequest::Pause)
            },
            PlayerEvent::StopPressed => {
                self.state = PlaybackState::Stopped;
                self.position = self.start;
                self.seek_position = self.start;
                self.is_seeking = false;
                Some(PlayerRequest::Stop)
            },
            PlayerEvent::VolumeChanged(v) => {
                self.volume = v;
                Some(PlayerRequest::SetVolume(v))
            },
            PlayerEvent::SeekMoved(t) => {
                self.is_seeking = true;
                self.seek_position = t;
                None
            },
            PlayerEvent::SeekReleased => {
                self.is_seeking = false;
                self.position = self.seek_position;
                Some(PlayerRequest::Seek(self.seek_position))
            },
            PlayerEvent::PrevPressed => {
                if self.can_prev() {
                    let i = match self.playlist_index {
                        Some(cur) => cur - 1,
                        None => 0,
                    };
                    self.start_track(Some(i));
                    Some(PlayerRequest::LoadEntry(i))
                } else {
                    None
                }
            },
            PlayerEvent::NextPressed => {
                if self.can_next() {
                    let i = match self.playlist_index {
                        Some(cur) => {
                            assert(cur + 1 < self.playlist.len());
                            cur + 1
                        },
                        None => 0,
                    };
                    self.start_track(Some(i));
                    Some(PlayerRequest::LoadEntry(i))
                } else {
                    None
                }
            },
            PlayerEvent::PlaylistRowClicked(i) => {
                self.selected_index = Some(i);
                None
            },
            PlayerEvent::PlaylistRowDoubleClicked(i) => {
                self.start_track(Some(i));
                Some(PlayerRequest::LoadEntry(i))
            },
        }
    }

    /// Handles a message from the audio engine. Metadata replaces what the
    /// window shows and returns the bytes of the new cover: the 80x80 PNG
    /// thumbnail of the file's picture, or the picture itself when none can
    /// be made (`None` inside when the file has no picture); other messages
    /// return `None`.
    pub fn apply_status(&mut self, s: PlayerStatus<T>) -> (r: Option<Option<Vec<u8>>>)
        requires
            old(self).wf(),
        ensures
            *final(self) == old(self).after_status(s),
            final(self).wf(),
            match s {
                PlayerStatus::Metadata(m) => r matches Some(c) && is_cover_for(c, m.picture),
                _ => r is None,
            },
    {
        match s {
            PlayerStatus::Position(p) => {
                self.position = p;
                if !self.is_seeking {
                    self.seek_position = p;
                }
                None
            },
            PlayerStatus::Duration(d) => {
                self.duration = d;
                None
            },
            PlayerStatus::PlaybackEnded => {
                self.state = PlaybackState::Stopped;
                self.is_seeking = false;
                self.seek_position = self.position;
                None
            },
            PlayerStatus::Metadata(m) => {
                let cover = match m.picture {
                    Some((data, _mime)) => Some(cover_art(data)),
                    None => None,
                };
                self.info = NowPlaying {
                    title: m.title,
                    artist: m.artist,
                    album: m.album,
                    track_no: m.track_no,
                    disc_no: m.disc_no,
                    sample_rate_hz: m.sample_rate_hz,
                    bitrate_kbps: m.bitrate_kbps,
                    channels: m.channels,
                    bit_depth: m.bit_depth,
                    file_format: m.file_format,
                };
                Some(cover)
            },
        }
    }

    /// The position the time display shows: the seek bar's while it is
    /// dragged, else the reported one.
    pub fn display_position(&self) -> (r: T)
        ensures
            r == if self.is_seeking { self.seek_position } else { self.position },
    {
        if self.is_seeking { self.seek_position } else { self.position }
    }

    /// The transport offers pause while playing and play otherwise.
    pub fn play_button(&self) -> (r: PlayButton)
        ensures
            r == if self.state is Playing { PlayButton::Pause } else { PlayButton::Play },
    {
        match self.state {
            PlaybackState::Playing => PlayButton::Pause,
            _ => PlayButton::Play,
        }
    }

    /// How the playlist row `idx` is drawn: the playing track first, then
    /// the selected one.
    pub fn row_highlight(&self, idx: usize) -> (r: RowHighlight)
        ensures
            r == if self.playlist_index == Some(idx) {
                RowHighlight::Playing
            } else if self.selected_index == Some(idx) {
                RowHighlight::Selected
            } else {
                RowHighlight::Plain
            },
    {
        if self.playlist_index == Some(idx) {
            RowHighlight::Playing
        } else if self.selected_index == Some(idx) {
            RowHighlight::Selected
        } else {
            RowHighlight::Plain
        }
    }
}

impl<P, T: Copy> Player<P, T> {
    /// Starts a file picked in the open dialog, with the playlist of its
    /// folder and its position there (none when it is not among them).
    pub fn open_file(&mut self, path: P, playlist: Vec<P>, index: Option<usize>) -> (r: PlayerRequest<P, T>)
        requires
            index matches Some(i) ==> i < playlist@.len(),
        ensures
            *final(self) == (Player { playlist, ..*old(self) }).started(index),
            r == PlayerRequest::<P, T>::LoadPath(path),
            final(self).wf(),
    {
        let count = playlist.len();
        assert(playlist@.len() == count);
        self.playlist = playlist;
        self.start_track(index);
        PlayerRequest::LoadPath(path)
    }

    /// Starts a picked file that has no folder to list: it becomes the whole
    /// playlist.
    pub fn open_lone_file(&mut self, path: P) -> (r: PlayerRequest<P, T>)
        ensures
            final(self).playlist@ == seq![path],
            *final(self) == (Player { playlist: final(self).playlist, ..*old(self) }).started(Some(0)),
            r == PlayerRequest::<P, T>::LoadEntry(0),
            final(self).wf(),
    {
        let mut playlist: Vec<P> = Vec::new();
        playlist.push(path);
        self.playlist = playlist;
        self.start_track(Some(0));
        PlayerRequest::LoadEntry(0)
    }

    /// Starts the first file of a picked folder's audio files; a folder with
    /// none changes nothing.
    pub fn open_folder(&mut self, files: Vec<P>) -> (r: Option<PlayerRequest<P, T>>)
        requires
            old(self).wf(),
        ensures
            files@.len() == 0 ==> *final(self) == *old(self) && r is None,
            files@.len() > 0 ==> *final(self) == (Player { playlist: files, ..*old(self) }).started(Some(0))
                && r == Some(PlayerRequest::<P, T>::LoadEntry(0)),
            final(self).wf(),
    {
        let count = files.len();
        if count == 0 {
            return None;
        }
        self.playlist = files;
        self.start_track(Some(0));
        Some(PlayerRequest::LoadEntry(0))
    }
}

/// The previous-track button is enabled exactly when pressing it starts a
/// track, and likewise the next-track button.
pub proof fn law_prev_next_enabled_iff_effective<P, T: Copy>(p: Player<P, T>)
    ensures
        p.after_event(PlayerEvent::PrevPressed).1 is Some <==> p.spec_can_prev(),
        p.after_event(PlayerEvent::NextPressed).1 is Some <==> p.spec_can_next(),
        !p.spec_can_prev() ==> p.after_event(PlayerEvent::PrevPressed).0 == p,
        !p.spec_can_next() ==> p.after_event(PlayerEvent::NextPressed).0 == p,
{
}

/// Going to the next track and back returns to the track one started from.
pub proof fn law_next_then_prev_returns<P, T: Copy>(p: Player<P, T>)
    requires
        p.wf(),
        p.spec_can_next(),
    ensures
        ({
            let q = p.after_event(PlayerEvent::NextPressed).0;
            &&& q.spec_can_prev()
            &&& q.after_event(PlayerEvent::PrevPressed).0.playlist_index == p.playlist_index
            &&& q.after_event(PlayerEvent::PrevPressed).1 matches Some(PlayerRequest::LoadEntry(i))
                && Some(i) == p.playlist_index
        }),
{
    let i = p.playlist_index.unwrap();
    let q = p.after_event(PlayerEvent::NextPressed).0;
    assert(q.playlist_index == Some((i + 1) as usize));
    assert(q.spec_can_prev());
    assert(((q.playlist_index.unwrap() - 1) as usize) == i);
}

/// Whenever a user action asks for a playlist entry, the entry exists, it
/// becomes both the playing and the selected row, and the window plays it
/// from the start with the seek bar released.
pub proof fn law_entry_load_starts_fresh<P, T: Copy>(p: Player<P, T>, ev: PlayerEvent<T>)
    requires
        p.wf(),
        ev matches PlayerEvent::PlaylistRowDoubleClicked(i) ==> i < p.playlist@.len(),
        p.after_event(ev).1 matches Some(PlayerRequest::LoadEntry(_)),
    ensures
        p.after_event(ev).1 matches Some(PlayerRequest::LoadEntry(i)) && ({
            let q = p.after_event(ev).0;
            &&& i < q.playlist@.len()
            &&& q.playlist_index == Some(i)
            &&& q.selected_index == Some(i)
            &&& q.state is Playing
            &&& q.position == p.start
            &&& q.seek_position == p.start
            &&& !q.is_seeking
            &&& q.playlist == p.playlist
        }),
{
}

/// Dragging the seek bar moves only the bar: no seek is asked for, the
/// reported position stays, and positions reported while the bar is held do
/// not move it.
pub proof fn law_drag_moves_only_the_bar<P, T: Copy>(p: Player<P, T>, t: T, reported: T)
    ensures
        ({
            let (q, req) = p.after_event(PlayerEvent::SeekMoved(t));
            let r = q.after_status(PlayerStatus::Position(reported));
            &&& req is None
            &&& q.position == p.position
            &&& q.seek_position == t
            &&& r.seek_position == t
            &&& r.position == reported
        }),
{
}

/// Letting go of the bar seeks to where it was dropped and shows that
/// position.
pub proof fn law_release_seeks_to_bar<P, T: Copy>(p: Player<P, T>, t: T)
    ensures
        ({
            let q = p.after_event(PlayerEvent::SeekMoved(t)).0;
            let (r, req) = q.after_event(PlayerEvent::SeekReleased);
            &&& req == Some(PlayerRequest::<P, T>::Seek(t))
            &&& r.position == t
            &&& !r.is_seeking
        }),
{
}

/// When playback runs out the window stops and the bar rests at the last
/// reported position, even if it was being dragged.
pub proof fn law_end_of_playback_settles_bar<P, T: Copy>(p: Player<P, T>)
    ensures
        p.after_status(PlayerStatus::PlaybackEnded).state is Stopped,
        p.after_status(PlayerStatus::PlaybackEnded).seek_position == p.position,
        !p.after_status(PlayerStatus::PlaybackEnded).is_seeking,
{
}

/// Stopping rewinds the window: the bar and the position go back to the
/// start of the track.
pub proof fn law_stop_rewinds_window<P, T: Copy>(p: Player<P, T>)
    ensures
        p.after_event(PlayerEvent::StopPressed).0.state is Stopped,
        p.after_event(PlayerEvent::StopPressed).0.position == p.start,
        p.after_event(PlayerEvent::StopPressed).0.seek_position == p.start,
        p.after_event(PlayerEvent::StopPressed).1 == Some(PlayerRequest::<P, T>::Stop),
{
}

/// When the engine reports that a track ran out it has stopped, and the
/// window that receives the report stops as well: both sides agree.
pub proof fn law_end_stops_engine_and_window<Q, P, T: Copy>(e: AudioEngine<Q>, is_empty: bool, p: Player<P, T>)
    requires
        e.after_observation(is_empty).1.contains(Report::PlaybackEnded),
    ensures
        e.after_observation(is_empty).0.state is Stopped,
        p.after_status(PlayerStatus::PlaybackEnded).state is Stopped,
{
    if !(e.state is Playing && !e.was_empty && is_empty) {
        assert(e.after_observation(is_empty).1 =~= Seq::<Report>::empty());
    }
}

/// The metadata of a newly loaded file is shown as it came: each field the
/// window shows (title, artist, album, track and disc numbers, sample rate,
/// bit rate, channels, bit depth, format name) is that same field of the
/// metadata, and nothing else about the window changes.
pub proof fn law_metadata_is_shown_field_for_field<P, T: Copy>(p: Player<P, T>, m: TrackMetadata)
    ensures
        ({
            let q = p.after_status(PlayerStatus::Metadata(m));
            &&& q.info.title == m.title
            &&& q.info.artist == m.artist
            &&& q.info.album == m.album
            &&& q.info.track_no == m.track_no
            &&& q.info.disc_no == m.disc_no
            &&& q.info.sample_rate_hz == m.sample_rate_hz
            &&& q.info.bitrate_kbps == m.bitrate_kbps
            &&& q.info.channels == m.channels
            &&& q.info.bit_depth == m.bit_depth
            &&& q.info.file_format == m.file_format
            &&& q.playlist == p.playlist
            &&& q.playlist_index == p.playlist_index
            &&& q.selected_index == p.selected_index
            &&& q.state == p.state
            &&& q.volume == p.volume
            &&& q.position == p.position
            &&& q.seek_position == p.seek_position
            &&& q.is_seeking == p.is_seeking
            &&& q.duration == p.duration
        }),
{
}

/// Pausing changes only the playback state: the window asks the engine to
/// pause and keeps the position, the seek bar, the track and everything
/// else; pressing play afterwards resumes from the very same window.
pub proof fn law_pause_keeps_the_place<P, T: Copy>(p: Player<P, T>)
    ensures
        ({
            let (q, req) = p.after_event(PlayerEvent::PausePressed);
            &&& req == Some(PlayerRequest::<P, T>::Pause)
            &&& q.state is Paused
            &&& q.position == p.position
            &&& q.seek_position == p.seek_position
            &&& q.is_seeking == p.is_seeking
            &&& q.duration == p.duration
            &&& q.volume == p.volume
            &&& q.playlist == p.playlist
            &&& q.playlist_index == p.playlist_index
            &&& q.selected_index == p.selected_index
            &&& q.info == p.info
            &&& q.after_event(PlayerEvent::PlayPressed).0 == p.after_event(PlayerEvent::PlayPressed).0
        }),
{
}

/// Pressing play keeps the place too: it asks the engine to play and only
/// the playback state changes; moving the volume slider changes only the
/// volume and asks for exactly that volume.
pub proof fn law_play_and_volume_keep_the_place<P, T: Copy>(p: Player<P, T>, v: T)
    ensures
        ({
            let (q, req) = p.after_event(PlayerEvent::PlayPressed);
            &&& req == Some(PlayerRequest::<P, T>::Play)
            &&& q == Player { state: PlaybackState::Playing, ..p }
            &&& q.position == p.position
            &&& q.seek_position == p.seek_position
        }),
        ({
            let (q, req) = p.after_event(PlayerEvent::VolumeChanged(v));
            &&& req == Some(PlayerRequest::<P, T>::SetVolume(v))
            &&& q.volume == v
            &&& q.state == p.state
            &&& q.position == p.position
            &&& q.seek_position == p.seek_position
            &&& q.playlist_index == p.playlist_index
            &&& q.selected_index == p.selected_index
        }),
{
}

/// A single click on a playlist row only selects it: nothing is asked of
/// the engine and the playing track, state and position stay.
pub proof fn law_row_click_only_selects<P, T: Copy>(p: Player<P, T>, i: usize)
    ensures
        ({
            let (q, req) = p.after_event(PlayerEvent::PlaylistRowClicked(i));
            &&& req is None
            &&& q.selected_index == Some(i)
            &&& q.playlist_index == p.playlist_index
            &&& q.state == p.state
            &&& q.position == p.position
            &&& q.seek_position == p.seek_position
            &&& q.playlist == p.playlist
        }),
{
}

/// A duration report changes only the duration the window shows.
pub proof fn law_duration_report_sets_only_the_duration<P, T: Copy>(p: Player<P, T>, d: T)
    ensures
        p.after_status(PlayerStatus::Duration(d)).duration == d,
        p.after_status(PlayerStatus::Duration(d)).position == p.position,
        p.after_status(PlayerStatus::Duration(d)).seek_position == p.seek_position,
        p.after_status(PlayerStatus::Duration(d)).state == p.state,
        p.after_status(PlayerStatus::Duration(d)).info == p.info,
{
}

} // verus!
