//! The playback worker's state machine.
//!
//! The worker is `Idle` while it has no session and active, paused or
//! playing, while it has one. One step takes the command that is pending,
//! if any, and says what the program that drives the worker has to do next:
//! open a stream, pull the next compressed unit, or wait. The driver reports
//! back how an open went; pulling and decoding are its own business.

use crate::frame::{FrameData, Picture};
use crate::metadata::{metadata_text, metadata_text_of, unit_metadata, unit_records};
use crate::sei::sei_scan_fits;
use vstd::prelude::*;

verus! {

/// What the consumer can ask of the worker.
#[derive(Debug, PartialEq, Eq)]
pub enum VideoCommand {
    /// Open the stream at this path in place of the current one.
    Open(String),
    /// Go on playing.
    Play,
    /// Stop pulling units until told to play.
    Pause,
    /// Give up the session.
    Stop,
}

/// The states of the worker.
#[derive(Clone, Copy, Debug, PartialEq, Eq, Structural)]
pub enum WorkerState {
    /// No session.
    Idle,
    /// A session that is not being played.
    ActivePaused,
    /// A session that is being played.
    ActivePlaying,
}

/// What the driver has to do after a step.
#[derive(Debug, PartialEq, Eq)]
pub enum WorkerAction {
    /// Try to open the stream at this path, then report the outcome with
    /// `install_session` or `open_failed`.
    OpenStream(String),
    /// Pull the next compressed unit of the session and process it.
    PullUnit,
    /// Nothing to pull: look for the next command.
    Wait,
}

/// An open stream: the driver's handles, the stream that was selected, and
/// whether playback is paused. It exists as a whole or not at all.
pub struct Session<S> {
    /// The driver's handles on the demuxer, the decoder and the converter.
    pub backend: S,
    /// The index of the selected stream.
    pub stream_index: usize,
    /// Whether playback is paused.
    pub paused: bool,
}

/// The state that goes with a session, or with none.
pub open spec fn state_of<S>(session: Option<Session<S>>) -> WorkerState {
    match session {
        None => WorkerState::Idle,
        Some(s) => if s.paused {
            WorkerState::ActivePaused
        } else {
            WorkerState::ActivePlaying
        },
    }
}

/// The session after `command` was taken. An `Open` leaves it as it is: the
/// session is replaced when the driver reports the outcome.
pub open spec fn session_after<S>(session: Option<Session<S>>, command: VideoCommand) -> Option<
    Session<S>,
> {
    match command {
        VideoCommand::Open(_) => session,
        VideoCommand::Play => match session {
            Some(s) => Some(Session { paused: false, ..s }),
            None => None,
        },
        VideoCommand::Pause => match session {
            Some(s) => Some(Session { paused: true, ..s }),
            None => None,
        },
        VideoCommand::Stop => None,
    }
}

/// The stream description after `command` was taken.
pub open spec fn description_after(description: Seq<char>, command: VideoCommand) -> Seq<char> {
    match command {
        VideoCommand::Stop => "No file loaded"@,
        _ => description,
    }
}

/// What there is to do in a state when no stream is to be opened.
pub open spec fn pull_or_wait(state: WorkerState) -> WorkerAction {
    if state == WorkerState::ActivePlaying {
        WorkerAction::PullUnit
    } else {
        WorkerAction::Wait
    }
}

/// What the driver has to do after a step that took `pending`.
pub open spec fn action_after<S>(
    session: Option<Session<S>>,
    pending: Option<VideoCommand>,
) -> WorkerAction {
    match pending {
        Some(VideoCommand::Open(path)) => WorkerAction::OpenStream(path),
        Some(command) => pull_or_wait(state_of(session_after(session, command))),
        None => pull_or_wait(state_of(session)),
    }
}

/// The worker: its session, if it has one, and the description of the
/// stream that it plays.
pub struct Worker<S> {
    session: Option<Session<S>>,
    description: String,
}

impl<S> Worker<S> {
    /// The session, if there is one.
    pub closed spec fn session(&self) -> Option<Session<S>> {
        self.session
    }

    /// The description of the stream.
    pub closed spec fn description(&self) -> Seq<char> {
        self.description@
    }

    /// The state of the worker.
    pub open spec fn spec_state(&self) -> WorkerState {
        state_of(self.session())
    }

    /// The state of the worker.
    #[verifier::when_used_as_spec(spec_state)]
    pub fn state(&self) -> (state: WorkerState)
        ensures
            state == self.spec_state(),
    {
        match &self.session {
            None => WorkerState::Idle,
            Some(session) => if session.paused {
                WorkerState::ActivePaused
            } else {
                WorkerState::ActivePlaying
            },
        }
    }

    /// A worker without a session.
    pub fn new() -> (worker: Self)
        ensures
            worker.session() is None,
            worker.state() == WorkerState::Idle,
            worker.description() == "No file loaded"@,
    {
        Worker { session: None, description: "No file loaded".to_owned() }
    }

    /// Takes the pending command, if any, and says what to do next.
    ///
    /// `Play` and `Pause` act on a session and do nothing without one.
    /// `Stop` drops the session and resets the description. `Open` changes
    /// nothing yet and asks the driver to open the stream. Where no stream
    /// is to be opened, a playing worker pulls a unit and any other waits.
    pub fn step(&mut self, pending: Option<VideoCommand>) -> (action: WorkerAction)
        ensures
            final(self).session() == match pending {
                Some(command) => session_after(old(self).session(), command),
                None => old(self).session(),
            },
            final(self).description() == match pending {
                Some(command) => description_after(old(self).description(), command),
                None => old(self).description(),
            },
            action == action_after(old(self).session(), pending),
    {
        match pending {
            Some(VideoCommand::Open(path)) => {
                return WorkerAction::OpenStream(path);
            },
            Some(VideoCommand::Play) => {
                self.set_paused(false);
            },
            Some(VideoCommand::Pause) => {
                self.set_paused(true);
            },
            Some(VideoCommand::Stop) => {
                self.session = None;
                self.description = "No file loaded".to_owned();
            },
            None => {},
        }
        if self.is_playing() {
            WorkerAction::PullUnit
        } else {
            WorkerAction::Wait
        }
    }

    fn set_paused(&mut self, paused: bool)
        ensures
            final(self).session() == match old(self).session() {
                Some(s) => Some(Session { paused, ..s }),
                None => None,
            },
            final(self).description() == old(self).description(),
    {
        match self.session.take() {
            Some(session) => {
                self.session = Some(
                    Session {
                        backend: session.backend,
                        stream_index: session.stream_index,
                        paused,
                    },
                );
            },
            None => {},
        }
    }

    /// Whether the worker has a session and plays it.
    pub fn is_playing(&self) -> (playing: bool)
        ensures
            playing == (self.state() == WorkerState::ActivePlaying),
    {
        match &self.session {
            Some(session) => !session.paused,
            None => false,
        }
    }

    /// Whether the worker has a session.
    pub fn is_active(&self) -> (active: bool)
        ensures
            active == (self.state() != WorkerState::Idle),
            active == (self.session() is Some),
    {
        self.session.is_some()
    }

    /// Installs the session of a stream that was opened, in place of the
    /// current one if there is one, and starts playing it.
    pub fn install_session(&mut self, backend: S, stream_index: usize, description: String)
        ensures
            final(self).session() == Some(Session { backend, stream_index, paused: false }),
            final(self).state() == WorkerState::ActivePlaying,
            final(self).description() == description@,
    {
        self.session = Some(Session { backend, stream_index, paused: false });
        self.description = description;
    }

    /// Records that a stream could not be opened: the worker is left without
    /// a session, whole or partial, and `notice` becomes the description.
    pub fn open_failed(&mut self, notice: String)
        ensures
            final(self).session() is None,
            final(self).state() == WorkerState::Idle,
            final(self).description() == notice@,
    {
        self.session = None;
        self.description = notice;
    }

    /// The driver's handles, for pulling and decoding; `None` without a
    /// session. What the driver does to them changes nothing else.
    pub fn backend_mut(&mut self) -> (backend: Option<&mut S>)
        ensures
            match old(self).session() {
                Some(s) => {
                    &&& backend matches Some(b)
                    &&& *b == s.backend
                    &&& final(self).session() == Some(Session { backend: *final(b), ..s })
                },
                None => backend is None && final(self).session() is None,
            },
            final(self).description() == old(self).description(),
    {
        match &mut self.session {
            Some(session) => Some(&mut session.backend),
            None => None,
        }
    }

    /// Whether there is a session and `stream_index` is its selected stream.
    pub open spec fn selected(&self, stream_index: usize) -> bool {
        self.session() matches Some(s) && s.stream_index == stream_index
    }

    /// Whether a unit of stream `stream_index` belongs to the selected
    /// stream of the session.
    pub fn selects(&self, stream_index: usize) -> (selected: bool)
        ensures
            selected == self.selected(stream_index),
    {
        match &self.session {
            Some(session) => session.stream_index == stream_index,
            None => false,
        }
    }

    /// The metadata text of a pulled unit, given the stream it belongs to
    /// and its side-channel buffers: that of the records found in the
    /// buffers, or the sentinel where there are none. A unit of another
    /// stream than the selected one is passed over with `None`.
    pub fn unit_text(&self, stream_index: usize, side_data: &Vec<Vec<u8>>) -> (text: Option<String>)
        requires
            forall|i: int| 0 <= i < side_data@.len() ==> sei_scan_fits(#[trigger] side_data@[i]@),
        ensures
            text is Some <==> self.selected(stream_index),
            text matches Some(t) ==> t@ == metadata_text_of(unit_records(side_data.deep_view())),
    {
        if self.selects(stream_index) {
            let records = unit_metadata(side_data);
            Some(metadata_text(&records))
        } else {
            None
        }
    }

    /// The description of the stream, as text.
    pub fn description_text(&self) -> (text: &String)
        ensures
            text@ == self.description(),
    {
        &self.description
    }

    /// Bundles a decoded picture with the description of the stream and the
    /// metadata text of the unit that the picture came from.
    pub fn frame(&self, image: Picture, sei_data: String) -> (frame: FrameData)
        ensures
            frame.image == image,
            frame.metadata@ == self.description(),
            frame.sei_data == sei_data,
    {
        FrameData { image, metadata: self.description.clone(), sei_data }
    }
}

/// Without a session no command but `Open` leads anywhere: `Play`, `Pause`
/// and `Stop` leave the worker idle and waiting, and `Play` and `Pause`
/// leave the description alone too.
pub proof fn lemma_idle_ignores_play_pause_stop<S>(command: VideoCommand, description: Seq<char>)
    requires
        !(command is Open),
    ensures
        session_after(None::<Session<S>>, command) is None,
        state_of(session_after(None::<Session<S>>, command)) == WorkerState::Idle,
        action_after(None::<Session<S>>, Some(command)) == WorkerAction::Wait,
        !(command is Stop) ==> description_after(description, command) == description,
        description == "No file loaded"@ ==> description_after(description, command) == description,
{
}

/// An `Open` is the one command that asks the driver for a stream, in every
/// state, and the session stays as it is until the driver answers.
pub proof fn lemma_open_asks_for_the_stream<S>(session: Option<Session<S>>, path: String)
    ensures
        action_after(session, Some(VideoCommand::Open(path))) == WorkerAction::OpenStream(path),
        session_after(session, VideoCommand::Open(path)) == session,
{
}

/// `Stop` leads to `Idle` from every state and leaves no session behind; a
/// second `Stop` changes nothing.
pub proof fn lemma_stop_clears_the_session<S>(session: Option<Session<S>>, description: Seq<char>)
    ensures
        session_after(session, VideoCommand::Stop) is None,
        state_of(session_after(session, VideoCommand::Stop)) == WorkerState::Idle,
        description_after(description, VideoCommand::Stop) == "No file loaded"@,
        session_after(session_after(session, VideoCommand::Stop), VideoCommand::Stop)
            == session_after(session, VideoCommand::Stop),
        description_after(description_after(description, VideoCommand::Stop), VideoCommand::Stop)
            == description_after(description, VideoCommand::Stop),
{
}

/// With a session, `Play` and `Pause` choose between playing and paused
/// and touch nothing else; units are pulled exactly while playing.
pub proof fn lemma_play_and_pause_switch<S>(session: Session<S>)
    ensures
        state_of(session_after(Some(session), VideoCommand::Play)) == WorkerState::ActivePlaying,
        state_of(session_after(Some(session), VideoCommand::Pause)) == WorkerState::ActivePaused,
        session_after(Some(session), VideoCommand::Play) == Some(
            (Session { paused: false, ..session }),
        ),
        session_after(Some(session), VideoCommand::Pause) == Some(
            (Session { paused: true, ..session }),
        ),
        action_after(Some(session), Some(VideoCommand::Play)) == WorkerAction::PullUnit,
        action_after(Some(session), Some(VideoCommand::Pause)) == WorkerAction::Wait,
        action_after(Some(session), None) == pull_or_wait(state_of(Some(session))),
{
}

} // verus!
