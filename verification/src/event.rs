use vstd::prelude::*;

use image::DynamicImage;

use crate::error::Error;

verus! {

/// Events that the application sends itself or receives from the tape.
pub enum AppEvent {
    Quit,
    NextFrame,
    PreviousFrame,
    FrameReady(DynamicImage),
    InternalError(Error),
}

/// The keys that the viewer tells apart.
#[derive(Debug, Clone, Copy, PartialEq, Eq, Structural)]
pub enum KeyCode {
    Esc,
    Left,
    Right,
    Char(char),
    Other,
}

/// Whether a key went down, repeats, or went up.
#[derive(Debug, Clone, Copy, PartialEq, Eq, Structural)]
pub enum KeyEventKind {
    Press,
    Repeat,
    Release,
}

/// A key event of the terminal.
#[derive(Debug, Clone, Copy, PartialEq, Eq, Structural)]
pub struct KeyEvent {
    pub code: KeyCode,
    pub kind: KeyEventKind,
}

} // verus!
