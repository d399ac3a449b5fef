use vstd::prelude::*;

use crate::timespan::TimeSpan;

verus! {

/// Whether the player is playing, paused or stopped.
#[derive(Clone, Copy, Debug, PartialEq, Eq, Structural)]
pub enum PlaybackState {
    Stopped,
    Playing,
    Paused,
}

/// A request to the audio engine. `Seek` carries the target in whole
/// milliseconds.
pub enum PlayerCommand<P> {
    Load(P),
    Play,
    Pause,
    Stop,
    Seek(u64),
}

/// What the engine tells the window.
#[derive(Clone, Copy, Debug, PartialEq, Eq, Structural)]
pub enum Report {
    Position(TimeSpan),
    Duration(TimeSpan),
    PlaybackEnded,
}

/// Which file, if any, the engine needs decoded before it can carry out a
/// command.
#[derive(Clone, Copy, Debug, PartialEq, Eq, Structural)]
pub enum SourceRequest {
    NoSource,
    CommandPath,
    CurrentPath,
}

/// The work that precedes a command: whether the sink is cleared and the
/// metadata of the file about to be opened is read and sent, and which file
/// is opened.
#[derive(Clone, Copy, Debug, PartialEq, Eq, Structural)]
pub struct Preparation {
    pub reset_sink: bool,
    pub open: SourceRequest,
}

/// One step that the engine asks of the output sink or of the channel to the
/// window, in the order given.
#[derive(Clone, Copy, Debug, PartialEq, Eq, Structural)]
pub enum EngineAction {
    /// Append the source decoded during preparation.
    AppendSource,
    Play,
    Pause,
    SeekTo(TimeSpan),
    Send(Report),
    /// Sample whether the sink is empty and hand it to `record_sink_empty`.
    RecordSinkEmpty,
}

/// The decisions of the audio thread: what is playing and what the sink
/// held at the last look.
pub struct AudioEngine<P> {
    pub state: PlaybackState,
    pub current_path: Option<P>,
    pub current_duration: Option<TimeSpan>,
    pub was_empty: bool,
}

pub open spec fn duration_reports(d: Option<TimeSpan>) -> Seq<EngineAction> {
    match d {
        Some(x) => seq![EngineAction::Send(Report::Duration(x))],
        None => seq![],
    }
}

/// The position reported after a seek: the target, cut down to the track's
/// duration when that is known.
pub open spec fn seek_position(target: TimeSpan, duration: Option<TimeSpan>) -> TimeSpan {
    match duration {
        Some(d) => if target.at_least(d) { d } else { target },
        None => target,
    }
}

/// The position reported when playback runs out: the track's duration, or
/// zero when it is unknown.
pub open spec fn end_position(duration: Option<TimeSpan>) -> TimeSpan {
    match duration {
        Some(d) => d,
        None => TimeSpan::zero_spec(),
    }
}

impl<P> AudioEngine<P> {
    /// A fresh engine: stopped, nothing loaded, the sink empty.
    pub open spec fn initial() -> AudioEngine<P> {
        AudioEngine { state: PlaybackState::Stopped, current_path: None, current_duration: None, was_empty: true }
    }

    pub open spec fn preparation(self, cmd: &PlayerCommand<P>, sink_empty: bool) -> Preparation {
        match cmd {
            PlayerCommand::Load(_) => Preparation { reset_sink: true, open: SourceRequest::CommandPath },
            PlayerCommand::Play | PlayerCommand::Seek(_) => Preparation {
                reset_sink: false,
                open: if sink_empty && self.current_path is Some {
                    SourceRequest::CurrentPath
                } else {
                    SourceRequest::NoSource
                },
            },
            PlayerCommand::Stop => if self.current_path is Some {
                Preparation { reset_sink: true, open: SourceRequest::CurrentPath }
            } else {
                Preparation { reset_sink: false, open: SourceRequest::NoSource }
            },
            PlayerCommand::Pause => Preparation { reset_sink: false, open: SourceRequest::NoSource },
        }
    }

    /// The engine after a command and the actions it asks for. `opened` is
    /// `Some(total)` when the requested file was decoded (`total` being the
    /// decoder's total duration, if it knows it) and `None` when no file was
    /// opened.
    pub open spec fn after_command(self, cmd: PlayerCommand<P>, opened: Option<Option<TimeSpan>>)
        -> (AudioEngine<P>, Seq<EngineAction>)
    {
        let zero = TimeSpan::zero_spec();
        match cmd {
            PlayerCommand::Load(path) => match opened {
                Some(d) => (
                    AudioEngine { state: PlaybackState::Playing, current_path: Some(path), current_duration: d, was_empty: false },
                    seq![EngineAction::AppendSource, EngineAction::Play] + duration_reports(d),
                ),
                None => (self, seq![]),
            },
            PlayerCommand::Play => match opened {
                Some(d) => (
                    AudioEngine { state: PlaybackState::Playing, current_duration: d, was_empty: false, ..self },
                    seq![EngineAction::AppendSource, EngineAction::Send(Report::Position(zero))]
                        + duration_reports(d) + seq![EngineAction::Play],
                ),
                None => (AudioEngine { state: PlaybackState::Playing, ..self }, seq![EngineAction::Play]),
            },
            PlayerCommand::Pause => (AudioEngine { state: PlaybackState::Paused, ..self }, seq![EngineAction::Pause]),
            PlayerCommand::Stop => if self.current_path is Some {
                match opened {
                    Some(d) => (
                        AudioEngine { state: PlaybackState::Stopped, current_duration: d, was_empty: false, ..self },
                        seq![EngineAction::AppendSource, EngineAction::Send(Report::Position(zero))] + duration_reports(d),
                    ),
                    None => (self, seq![]),
                }
            } else {
                (
                    AudioEngine { state: PlaybackState::Stopped, ..self },
                    seq![EngineAction::Pause, EngineAction::SeekTo(zero), EngineAction::Send(Report::Position(zero)),
                        EngineAction::RecordSinkEmpty],
                )
            },
            PlayerCommand::Seek(millis) => {
                let target = TimeSpan::from_millis_spec(millis);
                let duration = match opened { Some(d) => d, None => self.current_duration };
                let appended = match opened {
                    Some(d) => seq![EngineAction::AppendSource] + duration_reports(d),
                    None => seq![],
                };
                let resume = if self.state is Playing { EngineAction::Play } else { EngineAction::Pause };
                (
                    AudioEngine { current_duration: duration, ..self },
                    appended + seq![EngineAction::SeekTo(target), resume,
                        EngineAction::Send(Report::Position(seek_position(target, duration))),
                        EngineAction::RecordSinkEmpty],
                )
            },
        }
    }

    /// The engine after looking at the sink once per loop iteration, and what
    /// it reports: a track that was playing and has run out is reported once,
    /// as its end position followed by `PlaybackEnded`.
    pub open spec fn after_observation(self, is_empty: bool) -> (AudioEngine<P>, Seq<Report>) {
        if self.state is Playing && !self.was_empty && is_empty {
            (
                AudioEngine { state: PlaybackState::Stopped, was_empty: is_empty, ..self },
                seq![Report::Position(end_position(self.current_duration)), Report::PlaybackEnded],
            )
        } else {
            (AudioEngine { was_empty: is_empty, ..self }, seq![])
        }
    }

    /// One loop iteration in which no file is decoded and the sink is found
    /// empty whenever it is looked at: the command, the sink's emptiness when
    /// the actions ask for it, and the look at the end of the iteration.
    pub open spec fn after_idle_step(self, cmd: PlayerCommand<P>) -> AudioEngine<P> {
        let (next, actions) = self.after_command(cmd, None);
        let recorded = if actions.contains(EngineAction::RecordSinkEmpty) {
            AudioEngine { was_empty: true, ..next }
        } else {
            next
        };
        recorded.after_observation(true).0
    }

    /// Several such iterations, one command each.
    pub open spec fn after_idle_steps(self, cmds: Seq<PlayerCommand<P>>) -> AudioEngine<P>
        decreases cmds.len(),
    {
        if cmds.len() == 0 {
            self
        } else {
            self.after_idle_step(cmds[0]).after_idle_steps(cmds.drop_first())
        }
    }

    /// A stopped engine with nothing loaded.
    pub fn new() -> (r: AudioEngine<P>)
        ensures
            r == AudioEngine::<P>::initial(),
    {
        AudioEngine { state: PlaybackState::Stopped, current_path: None, current_duration: None, was_empty: true }
    }

    /// The file the engine plays, if any.
    pub fn current_path(&self) -> (r: &Option<P>)
        ensures
            *r == self.current_path,
    {
        &self.current_path
    }

    /// The work to do before `apply` for a command, given whether the sink is
    /// empty now.
    pub fn prepare(&self, cmd: &PlayerCommand<P>, sink_empty: bool) -> (r: Preparation)
        ensures
            r == self.preparation(cmd, sink_empty),
    {
        match cmd {
            PlayerCommand::Load(_) => Preparation { reset_sink: true, open: SourceRequest::CommandPath },
            PlayerCommand::Play | PlayerCommand::Seek(_) => {
                let open = if sink_empty && self.current_path.is_some() {
                    SourceRequest::CurrentPath
                } else {
                    SourceRequest::NoSource
                };
                Preparation { reset_sink: false, open }
            },
            PlayerCommand::Stop => {
                if self.current_path.is_some() {
                    Preparation { reset_sink: true, open: SourceRequest::CurrentPath }
                } else {
                    Preparation { reset_sink: false, open: SourceRequest::NoSource }
                }
            },
            PlayerCommand::Pause => Preparation { reset_sink: false, open: SourceRequest::NoSource },
        }
    }

    /// Carries out a command once its preparation is done, and lists what the
    /// sink and the channel must do, in order.
    pub fn apply(&mut self, cmd: PlayerCommand<P>, opened: Option<Option<TimeSpan>>) -> (actions: Vec<EngineAction>)
        ensures
            (*final(self), actions@) == old(self).after_command(cmd, opened),
    {
        let ghost before = *self;
        let mut actions: Vec<EngineAction> = Vec::new();
        match cmd {
            PlayerCommand::Load(path) => {
                if let Some(d) = opened {
                    actions.push(EngineAction::AppendSource);
                    actions.push(EngineAction::Play);
                    push_duration_report(&mut actions, d);
                    self.state = PlaybackState::Playing;
                    self.current_path = Some(path);
                    self.current_duration = d;
                    self.was_empty = false;
                }
            },
            PlayerCommand::Play => {
                if let Some(d) = opened {
                    actions.push(EngineAction::AppendSource);
                    actions.push(EngineAction::Send(Report::Position(TimeSpan::zero())));
                    push_duration_report(&mut actions, d);
                    self.current_duration = d;
                    self.was_empty = false;
                }
                actions.push(EngineAction::Play);
                self.state = PlaybackState::Playing;
            },
            PlayerCommand::Pause => {
                actions.push(EngineAction::Pause);
                self.state = PlaybackState::Paused;
            },
            PlayerCommand::Stop => {
                if self.current_path.is_some() {
                    if let Some(d) = opened {
                        actions.push(EngineAction::AppendSource);
                        actions.push(EngineAction::Send(Report::Position(TimeSpan::zero())));
                        push_duration_report(&mut actions, d);
                        self.current_duration = d;
                        self.state = PlaybackState::Stopped;
                        self.was_empty = false;
                    }
                } else {
                    actions.push(EngineAction::Pause);
                    actions.push(EngineAction::SeekTo(TimeSpan::zero()));
                    actions.push(EngineAction::Send(Report::Position(TimeSpan::zero())));
                    actions.push(EngineAction::RecordSinkEmpty);
                    self.state = PlaybackState::Stopped;
                }
            },
            PlayerCommand::Seek(millis) => {
                let target = TimeSpan::from_millis(millis);
                if let Some(d) = opened {
                    actions.push(EngineAction::AppendSource);
                    push_duration_report(&mut actions, d);
                    self.current_duration = d;
                }
                actions.push(EngineAction::SeekTo(target));
                match self.state {
                    PlaybackState::Playing => actions.push(EngineAction::Play),
                    _ => actions.push(EngineAction::Pause),
                }
                let reported = match self.current_duration {
                    Some(d) => if target.ge(&d) { d } else { target },
                    None => target,
                };
                actions.push(EngineAction::Send(Report::Position(reported)));
                actions.push(EngineAction::RecordSinkEmpty);
            },
        }
        proof {
            let expected = before.after_command(cmd, opened);
            assert(actions@ =~= expected.1);
        }
        actions
    }

    /// Records whether the sink was empty when an action list asked for it.
    pub fn record_sink_empty(&mut self, is_empty: bool)
        ensures
            *final(self) == (AudioEngine { was_empty: is_empty, ..*old(self) }),
    {
        self.was_empty = is_empty;
    }

    /// Whether the current position is to be sent: only while playing, and
    /// only once the reporting interval has passed.
    pub fn wants_position_report(&self, interval_elapsed: bool) -> (r: bool)
        ensures
            r == (self.state is Playing && interval_elapsed),
    {
        match self.state {
            PlaybackState::Playing => interval_elapsed,
            _ => false,
        }
    }

    /// Looks at the sink once per loop iteration and reports the end of a
    /// track that ran out while playing.
    pub fn observe_sink(&mut self, is_empty: bool) -> (reports: Vec<Report>)
        ensures
            (*final(self), reports@) == old(self).after_observation(is_empty),
    {
        let ghost before = *self;
        let mut reports: Vec<Report> = Vec::new();
        let playing = match self.state {
            PlaybackState::Playing => true,
            _ => false,
        };
        if playing && !self.was_empty && is_empty {
            self.state = PlaybackState::Stopped;
            let end = match self.current_duration {
                Some(d) => d,
                None => TimeSpan::zero(),
            };
            reports.push(Report::Position(end));
            reports.push(Report::PlaybackEnded);
        }
        self.was_empty = is_empty;
        proof {
            assert(reports@ =~= before.after_observation(is_empty).1);
        }
        reports
    }
}

/// A seek never reports a position past the target, nor past the end of the
/// track when its duration is known; the report is the second-to-last action.
pub proof fn law_seek_report_within_track<P>(e: AudioEngine<P>, millis: u64, opened: Option<Option<TimeSpan>>)
    ensures
        ({
            let (next, actions) = e.after_command(PlayerCommand::Seek(millis), opened);
            let target = TimeSpan::from_millis_spec(millis);
            let reported = seek_position(target, next.current_duration);
            &&& actions.len() >= 4
            &&& actions[actions.len() - 2] == EngineAction::Send(Report::Position(reported))
            &&& target.at_least(reported)
            &&& (next.current_duration matches Some(d) ==> d.at_least(reported))
        }),
{
}

/// The end of a track is reported at most once: right after the engine has
/// reported it, the next look at the sink reports nothing, whatever it sees.
pub proof fn law_end_reported_once<P>(e: AudioEngine<P>, first: bool, second: bool)
    ensures
        e.after_observation(first).1.len() > 0 ==> e.after_observation(first).0.after_observation(second).1.len() == 0,
{
}

/// Only a load whose file could be decoded changes the track the engine
/// plays; every other command keeps it.
pub proof fn law_track_changes_only_by_load<P>(e: AudioEngine<P>, cmd: PlayerCommand<P>, opened: Option<Option<TimeSpan>>)
    ensures
        ({
            let next = e.after_command(cmd, opened).0;
            match cmd {
                PlayerCommand::Load(path) => if opened is Some {
                    next.current_path == Some(path) && next.state is Playing
                } else {
                    next == e
                },
                _ => next.current_path == e.current_path,
            }
        }),
{
}

/// Every duration the engine sends is the duration it keeps for the track.
pub proof fn law_duration_reports_match_state<P>(e: AudioEngine<P>, cmd: PlayerCommand<P>, opened: Option<Option<TimeSpan>>, i: int)
    requires
        0 <= i < e.after_command(cmd, opened).1.len(),
        e.after_command(cmd, opened).1[i] matches EngineAction::Send(Report::Duration(_)),
    ensures
        e.after_command(cmd, opened).1[i] matches EngineAction::Send(Report::Duration(x))
            && e.after_command(cmd, opened).0.current_duration == Some(x),
{
    match cmd {
        PlayerCommand::Load(_) => {},
        PlayerCommand::Play => {},
        PlayerCommand::Pause => {},
        PlayerCommand::Stop => {},
        PlayerCommand::Seek(_) => {},
    }
}

/// Stopping with no track loaded rewinds the sink to the start and reports
/// position zero; the engine ends stopped.
pub proof fn law_stop_without_track_rewinds<P>(e: AudioEngine<P>, opened: Option<Option<TimeSpan>>)
    requires
        e.current_path is None,
    ensures
        e.after_command(PlayerCommand::Stop, opened).0.state is Stopped,
        e.after_command(PlayerCommand::Stop, opened).1.contains(EngineAction::SeekTo(TimeSpan::zero_spec())),
        e.after_command(PlayerCommand::Stop, opened).1.contains(EngineAction::Send(Report::Position(TimeSpan::zero_spec()))),
{
    let actions = e.after_command(PlayerCommand::Stop, opened).1;
    assert(actions[1] == EngineAction::SeekTo(TimeSpan::zero_spec()));
    assert(actions[2] == EngineAction::Send(Report::Position(TimeSpan::zero_spec())));
}

proof fn lemma_idle_steps_see_empty_sink<P>(e: AudioEngine<P>, cmds: Seq<PlayerCommand<P>>)
    requires
        e.was_empty,
    ensures
        e.after_idle_steps(cmds).was_empty,
    decreases cmds.len(),
{
    if cmds.len() > 0 {
        lemma_idle_steps_see_empty_sink(e.after_idle_step(cmds[0]), cmds.drop_first());
    }
}

/// Once the end of a track has been reported, no further end is reported
/// until audio is queued again: whatever commands follow, as long as no file
/// is decoded for them (so the sink stays empty), no look at the sink
/// reports an end, and no command ever reports one itself.
pub proof fn law_no_second_end_without_new_audio<P>(e: AudioEngine<P>, first: bool, cmds: Seq<PlayerCommand<P>>, cmd: PlayerCommand<P>)
    requires
        e.after_observation(first).1.len() > 0,
    ensures
        e.after_observation(first).0.after_idle_steps(cmds).after_observation(true).1.len() == 0,
        !e.after_observation(first).0.after_idle_steps(cmds).after_command(cmd, None).1.contains(
            EngineAction::Send(Report::PlaybackEnded)),
{
    let s = e.after_observation(first).0;
    lemma_idle_steps_see_empty_sink(s, cmds);
    let t = s.after_idle_steps(cmds);
    let actions = t.after_command(cmd, None).1;
    if actions.contains(EngineAction::Send(Report::PlaybackEnded)) {
        let k = choose|k: int| 0 <= k < actions.len() && actions[k] == EngineAction::Send(Report::PlaybackEnded);
        match cmd {
            PlayerCommand::Load(_) => {},
            PlayerCommand::Play => {},
            PlayerCommand::Pause => {},
            PlayerCommand::Stop => {},
            PlayerCommand::Seek(_) => {},
        }
        assert(false);
    }
}

fn push_duration_report(actions: &mut Vec<EngineAction>, d: Option<TimeSpan>)
    ensures
        final(actions)@ == old(actions)@ + duration_reports(d),
{
    if let Some(x) = d {
        actions.push(EngineAction::Send(Report::Duration(x)));
    }
    assert(actions@ =~= old(actions)@ + duration_reports(d));
}

/// Play and seek decode the loaded file again only when the sink has run
/// dry: while the sink still holds the track they act on what is queued
/// (resume it, or seek inside it), so the track is never queued a second
/// time. Neither clears the sink or opens a file other than the loaded one.
pub proof fn law_play_and_seek_reopen_only_a_dry_sink<P>(e: AudioEngine<P>, cmd: PlayerCommand<P>, sink_empty: bool)
    requires
        cmd is Play || cmd is Seek,
    ensures
        !e.preparation(&cmd, sink_empty).reset_sink,
        (e.preparation(&cmd, sink_empty).open == SourceRequest::CurrentPath) <==> (sink_empty
            && e.current_path is Some),
        (e.preparation(&cmd, sink_empty).open == SourceRequest::CurrentPath)
            || (e.preparation(&cmd, sink_empty).open == SourceRequest::NoSource),
        !sink_empty ==> e.preparation(&cmd, sink_empty).open == SourceRequest::NoSource,
        !e.after_command(cmd, None).1.contains(EngineAction::AppendSource),
{
    let actions = e.after_command(cmd, None).1;
    assert forall|i: int| 0 <= i < actions.len() implies actions[i] != EngineAction::AppendSource by {
        match cmd {
            PlayerCommand::Seek(m) => {
                let target = TimeSpan::from_millis_spec(m);
                let resume = if e.state is Playing { EngineAction::Play } else { EngineAction::Pause };
                assert(actions =~= seq![EngineAction::SeekTo(target), resume,
                    EngineAction::Send(Report::Position(seek_position(target, e.current_duration))),
                    EngineAction::RecordSinkEmpty]);
            },
            _ => {
                assert(actions =~= seq![EngineAction::Play]);
            },
        }
    }
}

/// Loading clears the sink and opens the file asked for; pausing neither
/// clears nor opens anything; stopping rebuilds the sink from the loaded
/// file when there is one, and otherwise leaves the sink alone.
pub proof fn law_load_pause_stop_preparation<P>(e: AudioEngine<P>, path: P, sink_empty: bool)
    ensures
        e.preparation(&PlayerCommand::Load(path), sink_empty).reset_sink,
        e.preparation(&PlayerCommand::Load(path), sink_empty).open == SourceRequest::CommandPath,
        !e.preparation(&PlayerCommand::<P>::Pause, sink_empty).reset_sink,
        e.preparation(&PlayerCommand::<P>::Pause, sink_empty).open == SourceRequest::NoSource,
        e.preparation(&PlayerCommand::<P>::Stop, sink_empty).reset_sink <==> e.current_path is Some,
        (e.preparation(&PlayerCommand::<P>::Stop, sink_empty).open == SourceRequest::CurrentPath) <==> e.current_path is Some,
        e.current_path is None ==> e.preparation(&PlayerCommand::<P>::Stop, sink_empty).open == SourceRequest::NoSource,
{
}

} // verus!
