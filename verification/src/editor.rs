//! The scene editor's discrete core: its tabs, its errors, and the state
//! machine that reacts to messages. The GUI toolkit, the file dialog and
//! the notifications stay with the caller; each step here returns the
//! action the caller must carry out.

use vstd::prelude::*;

verus! {

/// The tab the editor shows.
#[derive(Debug, Clone, PartialEq, Eq)]
pub enum EditorMode {
    Scene,
    Render,
    Meta,
}

impl EditorMode {
    /// The tab's display title.
    pub fn title(&self) -> (r: &str)
        ensures
            match self {
                EditorMode::Scene => r@ == "Scene explorer"@,
                EditorMode::Render => r@ == "Render"@,
                EditorMode::Meta => r@ == "Meta"@,
            },
    {
        match self {
            EditorMode::Scene => "Scene explorer",
            EditorMode::Render => "Render",
            EditorMode::Meta => "Meta",
        }
    }
}

/// Declares `std::io::ErrorKind` so an opening failure can carry the
/// kind of I/O error the caller saw; the editor core never inspects it.
#[verifier::external_type_specification]
#[verifier::external_body]
pub struct ExIoErrorKind(std::io::ErrorKind);

/// Relies on `std::io::ErrorKind`'s derived `Clone`, which copies the
/// value (the type is `Copy`).
pub assume_specification[ <std::io::ErrorKind as Clone>::clone ](
    kind: &std::io::ErrorKind,
) -> (r: std::io::ErrorKind)
    ensures
        r == *kind,
;

/// Why opening a scene file failed.
#[derive(Debug, Clone)]
pub enum Error {
    DialogClosed,
    IoError(std::io::ErrorKind),
}

/// The editor's state between messages: the tab shown, and whether a
/// scene file dialog is in flight.
pub struct EditorState {
    pub mode: EditorMode,
    pub is_loading: bool,
}

/// A message the editor reacts to. `SceneOpened` reports whether the
/// file dialog yielded a scene; the scene value itself stays with the
/// caller.
pub enum EditorEvent {
    ModeChanged(EditorMode),
    OpenSceneFile,
    SceneOpened(Result<(), Error>),
}

/// What the caller must do after a step: nothing, spawn the file
/// dialog, or show a notification.
pub enum EditorAction {
    Idle,
    OpenFileDialog,
    NotifySuccess,
    NotifyError(Error),
}

impl EditorState {
    /// A fresh editor: scene tab, no dialog in flight.
    pub fn new() -> (state: Self)
        ensures
            state.mode == EditorMode::Scene,
            !state.is_loading,
    {
        EditorState { mode: EditorMode::Scene, is_loading: false }
    }

    /// One step of the editor: switch tab; start loading a scene unless
    /// one is already being opened; or take note of the opening's
    /// outcome, returning to the scene tab on success.
    pub fn update(&mut self, event: EditorEvent) -> (action: EditorAction)
        ensures
            match event {
                EditorEvent::ModeChanged(mode) => final(self).mode == mode
                    && final(self).is_loading == old(self).is_loading
                    && action == EditorAction::Idle,
                EditorEvent::OpenSceneFile => if old(self).is_loading {
                    final(self).mode == old(self).mode && final(self).is_loading && action
                        == EditorAction::Idle
                } else {
                    final(self).mode == old(self).mode && final(self).is_loading && action
                        == EditorAction::OpenFileDialog
                },
                EditorEvent::SceneOpened(outcome) => match outcome {
                    Ok(()) => final(self).mode == EditorMode::Scene && !final(self).is_loading
                        && action == EditorAction::NotifySuccess,
                    Err(error) => final(self).mode == old(self).mode && !final(self).is_loading
                        && action == EditorAction::NotifyError(error),
                },
            },
    {
        match event {
            EditorEvent::ModeChanged(mode) => {
                self.mode = mode;
                EditorAction::Idle
            },
            EditorEvent::OpenSceneFile => {
                if self.is_loading {
                    EditorAction::Idle
                } else {
                    self.is_loading = true;
                    EditorAction::OpenFileDialog
                }
            },
            EditorEvent::SceneOpened(outcome) => {
                match outcome {
                    Ok(()) => {
                        self.is_loading = false;
                        self.mode = EditorMode::Scene;
                        EditorAction::NotifySuccess
                    },
                    Err(error) => {
                        self.is_loading = false;
                        EditorAction::NotifyError(error)
                    },
                }
            },
        }
    }
}

} // verus!
