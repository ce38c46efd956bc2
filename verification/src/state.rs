//! The screen's state machine.
//!
//! The viewer is always in exactly one of four states. Every incoming
//! message maps the current state to a next state and a single effect;
//! the surrounding event loop performs the effect (opening the folder
//! dialog, loading a folder, closing the window) and feeds the outcome
//! back in as a new message.

use vstd::prelude::*;
use crate::movies::{Error, MovieFolder};

verus! {

/// The keys the viewer reacts to; every other key is `Other`.
#[derive(Debug, Clone, Copy, PartialEq, Eq, Structural)]
pub enum Key {
    Enter,
    Escape,
    Other,
}

/// An incoming event.
#[derive(Debug)]
pub enum Message {
    KeyPressed { key: Key },
    FolderSelect,
    FolderSelected(Result<String, Error>),
    FolderLoaded(Result<MovieFolder, Error>),
}

/// What the event loop is asked to do after a transition.
#[derive(Debug, Clone, PartialEq)]
pub enum Effect {
    Nothing,
    EnterFullscreen,
    OpenFolderDialog,
    LoadFolder { path: String },
    CloseWindow,
}

/// The screen's state: exactly one of these at a time.
#[derive(Debug, PartialEq)]
pub enum MovieViewer {
    Selecting,
    Loading { path: String },
    Loaded { folder: MovieFolder },
    Errored,
}

/// The transition table: the next state and the effect for a state and a
/// message.
///
/// A key press acts only through the two recognized keys: escape requests
/// a window close in every state, and enter requests the folder dialog
/// while selecting. A selection or load result replaces the state: a
/// failure is terminal (`Errored` has no outgoing transition but the
/// global key handling), a successful selection starts the load of the
/// chosen path, and a successful load shows the folder.
pub open spec fn spec_update(s: MovieViewer, m: Message) -> (MovieViewer, Effect) {
    match m {
        Message::KeyPressed { key } => match key {
            Key::Escape => (s, Effect::CloseWindow),
            Key::Enter => if s is Selecting {
                (s, Effect::OpenFolderDialog)
            } else {
                (s, Effect::Nothing)
            },
            Key::Other => (s, Effect::Nothing),
        },
        Message::FolderSelect => (s, Effect::OpenFolderDialog),
        Message::FolderSelected(r) => match r {
            Ok(path) => (MovieViewer::Loading { path }, Effect::LoadFolder { path }),
            Err(_) => (MovieViewer::Errored, Effect::Nothing),
        },
        Message::FolderLoaded(r) => match r {
            Ok(folder) => (MovieViewer::Loaded { folder }, Effect::Nothing),
            Err(_) => (MovieViewer::Errored, Effect::Nothing),
        },
    }
}

impl MovieViewer {
    /// The initial state, with the request to enter fullscreen.
    pub fn new() -> (r: (MovieViewer, Effect))
        ensures
            r == (MovieViewer::Selecting, Effect::EnterFullscreen),
    {
        (MovieViewer::Selecting, Effect::EnterFullscreen)
    }

    /// The window title.
    pub fn title(&self) -> (t: String)
        ensures
            t@ == "MovieViewer"@,
    {
        String::from_str("MovieViewer")
    }

    /// Applies one message: steps the state as the transition table says
    /// and returns the effect the event loop must perform.
    pub fn update(&mut self, message: Message) -> (e: Effect)
        ensures
            *final(self) == spec_update(*old(self), message).0,
            e == spec_update(*old(self), message).1,
    {
        match message {
            Message::KeyPressed { key } => match key {
                Key::Escape => Effect::CloseWindow,
                Key::Enter => match self {
                    MovieViewer::Selecting => Effect::OpenFolderDialog,
                    _ => Effect::Nothing,
                },
                Key::Other => Effect::Nothing,
            },
            Message::FolderSelect => Effect::OpenFolderDialog,
            Message::FolderSelected(Ok(path)) => {
                *self = MovieViewer::Loading { path: path.clone() };
                Effect::LoadFolder { path }
            },
            Message::FolderSelected(Err(_)) => {
                *self = MovieViewer::Errored;
                Effect::Nothing
            },
            Message::FolderLoaded(Ok(folder)) => {
                *self = MovieViewer::Loaded { folder };
                Effect::Nothing
            },
            Message::FolderLoaded(Err(_)) => {
                *self = MovieViewer::Errored;
                Effect::Nothing
            },
        }
    }
}

/// An error outcome of either the selection or the load collapses the
/// viewer into the terminal errored state, whatever the prior state was,
/// with no further effect.
pub proof fn lemma_error_is_terminal(s: MovieViewer, e: Error)
    ensures
        spec_update(s, Message::FolderSelected(Err(e))) == (MovieViewer::Errored, Effect::Nothing),
        spec_update(s, Message::FolderLoaded(Err(e))) == (MovieViewer::Errored, Effect::Nothing),
{
}

/// Pressing escape in any state issues exactly one effect, the window
/// close request, and leaves the state unchanged.
pub proof fn lemma_escape_closes_window(s: MovieViewer)
    ensures
        spec_update(s, Message::KeyPressed { key: Key::Escape }) == (s, Effect::CloseWindow),
{
}

} // verus!
