//! The consumer's side: what is on display, and which command each press of
//! a button sends to the worker.

use crate::frame::{FrameData, Picture};
use crate::worker::VideoCommand;
use vstd::prelude::*;

verus! {

/// What the play button of the consumer stands at. It follows the
/// consumer's own commands and is not read back from the worker.
#[derive(Clone, Copy, Debug, PartialEq, Eq, Structural)]
pub enum PlaybackState {
    /// Playing was asked for last.
    Playing,
    /// Pausing was asked for last.
    Paused,
    /// Stopping was asked for last, or nothing yet.
    Stopped,
}

/// What the consumer shows: the last picture received, the two texts that
/// came with it, and the state of its buttons.
pub struct Controller {
    image: Option<Picture>,
    metadata: String,
    sei_data: String,
    playback_state: PlaybackState,
    show_open_button: bool,
}

/// What a controller shows, as a mathematical value.
pub struct ControllerView {
    /// The picture on display, if any.
    pub image: Option<Picture>,
    /// The description of the stream.
    pub metadata: Seq<char>,
    /// The metadata text.
    pub sei_data: Seq<char>,
    /// What the play button stands at.
    pub playback_state: PlaybackState,
    /// Whether a button to open a file is offered.
    pub show_open_button: bool,
}

impl View for Controller {
    type V = ControllerView;

    closed spec fn view(&self) -> ControllerView {
        ControllerView {
            image: self.image,
            metadata: self.metadata@,
            sei_data: self.sei_data@,
            playback_state: self.playback_state,
            show_open_button: self.show_open_button,
        }
    }
}

/// What is on display before anything was received and after a stop.
pub open spec fn blank(view: ControllerView) -> bool {
    &&& view.image is None
    &&& view.metadata == "No file loaded"@
    &&& view.sei_data == "No SEI data"@
}

impl Controller {
    /// A controller with nothing on display. With an initial path it asks
    /// the worker to open it, counts as playing and offers no button to open
    /// a file; without one it counts as stopped and offers the button.
    pub fn new(initial_path: Option<String>) -> (made: (Controller, Option<VideoCommand>))
        ensures
            blank(made.0@),
            made.0@.show_open_button == (initial_path is None),
            made.0@.playback_state == if initial_path is None {
                PlaybackState::Stopped
            } else {
                PlaybackState::Playing
            },
            made.1 == match initial_path {
                Some(path) => Some(VideoCommand::Open(path)),
                None => None,
            },
    {
        let show_open_button: bool = initial_path.is_none();
        let command: Option<VideoCommand> = match initial_path {
            Some(path) => Some(VideoCommand::Open(path)),
            None => None,
        };
        let controller = Controller {
            image: None,
            metadata: "No file loaded".to_owned(),
            sei_data: "No SEI data".to_owned(),
            playback_state: if show_open_button {
                PlaybackState::Stopped
            } else {
                PlaybackState::Playing
            },
            show_open_button,
        };
        (controller, command)
    }

    /// Puts a received frame on display in place of what was there.
    pub fn show_frame(&mut self, frame: FrameData)
        ensures
            final(self)@ == (ControllerView {
                image: Some(frame.image),
                metadata: frame.metadata@,
                sei_data: frame.sei_data@,
                ..old(self)@
            }),
    {
        self.image = Some(frame.image);
        self.metadata = frame.metadata;
        self.sei_data = frame.sei_data;
    }

    /// The open button was pressed and the dialog gave `picked`. With a path
    /// picked, and the button on offer, the worker is asked to open it and
    /// the controller counts as playing; else nothing happens.
    pub fn open_pressed(&mut self, picked: Option<String>) -> (command: Option<VideoCommand>)
        ensures
            match picked {
                Some(path) if old(self)@.show_open_button => {
                    &&& command == Some(VideoCommand::Open(path))
                    &&& final(self)@ == (ControllerView {
                        playback_state: PlaybackState::Playing,
                        ..old(self)@
                    })
                },
                _ => command is None && final(self)@ == old(self)@,
            },
    {
        if !self.show_open_button {
            return None;
        }
        match picked {
            Some(path) => {
                self.playback_state = PlaybackState::Playing;
                Some(VideoCommand::Open(path))
            },
            None => None,
        }
    }

    /// Whether the play button currently reads "Pause": it does while the
    /// controller counts as playing, and reads "Play" otherwise.
    pub fn offers_pause(&self) -> (pause: bool)
        ensures
            pause == (self@.playback_state == PlaybackState::Playing),
    {
        self.playback_state == PlaybackState::Playing
    }

    /// The play button was pressed: pause when playing, play otherwise.
    pub fn play_pause_pressed(&mut self) -> (command: VideoCommand)
        ensures
            old(self)@.playback_state == PlaybackState::Playing ==> command == VideoCommand::Pause
                && final(self)@ == (ControllerView {
                playback_state: PlaybackState::Paused,
                ..old(self)@
            }),
            old(self)@.playback_state != PlaybackState::Playing ==> command == VideoCommand::Play
                && final(self)@ == (ControllerView {
                playback_state: PlaybackState::Playing,
                ..old(self)@
            }),
    {
        if self.playback_state == PlaybackState::Playing {
            self.playback_state = PlaybackState::Paused;
            VideoCommand::Pause
        } else {
            self.playback_state = PlaybackState::Playing;
            VideoCommand::Play
        }
    }

    /// The stop button was pressed: the display goes blank and the worker
    /// is told to stop.
    pub fn stop_pressed(&mut self) -> (command: VideoCommand)
        ensures
            command == VideoCommand::Stop,
            blank(final(self)@),
            final(self)@.playback_state == PlaybackState::Stopped,
            final(self)@.show_open_button == old(self)@.show_open_button,
    {
        self.playback_state = PlaybackState::Stopped;
        self.image = None;
        self.metadata = "No file loaded".to_owned();
        self.sei_data = "No SEI data".to_owned();
        VideoCommand::Stop
    }

    /// The picture on display, if any.
    pub fn image(&self) -> (image: Option<&Picture>)
        ensures
            match self@.image {
                Some(shown) => image matches Some(picture) && *picture == shown,
                None => image is None,
            },
    {
        self.image.as_ref()
    }

    /// The description of the stream.
    pub fn metadata(&self) -> (text: &String)
        ensures
            text@ == self@.metadata,
    {
        &self.metadata
    }

    /// The metadata text.
    pub fn sei_data(&self) -> (text: &String)
        ensures
            text@ == self@.sei_data,
    {
        &self.sei_data
    }

    /// What the play button stands at.
    pub fn playback_state(&self) -> (state: PlaybackState)
        ensures
            state == self@.playback_state,
    {
        self.playback_state
    }

    /// Whether a button to open a file is offered.
    pub fn show_open_button(&self) -> (show: bool)
        ensures
            show == self@.show_open_button,
    {
        self.show_open_button
    }
}

} // verus!
