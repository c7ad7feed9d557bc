use vstd::prelude::*;
use crate::line_buffer::{LineBuffer, LineView};

verus! {

/// The characters that Shift+Right places at the insertion point: a debug
/// shortcut, distinct from both navigation and ordinary typing.
pub const DEBUG_TOKEN: &'static str = "DEBUG ";

/// The key of a key event, as far as the prompt tells keys apart.
#[derive(Clone, Copy, Debug, PartialEq, Eq, Structural)]
pub enum KeyCode {
    Char(char),
    Backspace,
    Delete,
    Left,
    Right,
    Enter,
    Other,
}

/// The modifiers held during a key event: none, Shift alone, or anything else.
#[derive(Clone, Copy, Debug, PartialEq, Eq, Structural)]
pub enum KeyModifiers {
    NoModifier,
    Shift,
    Other,
}

#[derive(Clone, Copy, Debug, PartialEq, Eq, Structural)]
pub struct KeyEvent {
    pub code: KeyCode,
    pub modifiers: KeyModifiers,
}

/// One input event from the terminal.
#[derive(Clone, Copy, Debug, PartialEq, Eq, Structural)]
pub enum InputEvent {
    Key(KeyEvent),
    Mouse,
    Paste,
    FocusGained,
    FocusLost,
    Resize(u16, u16),
}

/// What the screen needs after an event has been applied to the line.
#[derive(Clone, Copy, Debug, PartialEq, Eq, Structural)]
pub enum Response {
    /// The text changed: repaint it all.
    Redraw,
    /// Only the insertion point moved.
    Reposition,
    /// Nothing changed.
    Ignore,
    /// The line is accepted and the session is complete.
    Accept,
}

/// The fatal conditions that end a prompt session.
#[derive(Clone, Copy, Debug, PartialEq, Eq, Structural)]
pub enum PromptError {
    /// A key without modifiers that the prompt does not handle.
    UnsupportedKey,
    /// A key with modifiers that the prompt does not handle.
    UnsupportedKeyCombination,
    /// A mouse event, though mouse capture is meant to be off.
    MouseCaptureEnabled,
    /// A paste event, though bracketed paste is meant to be off.
    BracketedPasteEnabled,
    /// The terminal was resized, which the prompt cannot reflow.
    ResizeUnsupported,
    /// The insertion point lies where no screen coordinate reaches.
    OffScreen,
}

impl PromptError {
    /// The diagnostic shown when the session ends on this condition.
    pub fn message(&self) -> &'static str {
        match self {
            PromptError::UnsupportedKey => "UNSUPPORTED KEY",
            PromptError::UnsupportedKeyCombination => "UNSUPPORTED KEY COMBINATION",
            PromptError::MouseCaptureEnabled => "MOUSE CAPTURE SHOULD BE DISABLED",
            PromptError::BracketedPasteEnabled => "BRACKETED PASTE SHOULD BE DISABLED",
            PromptError::ResizeUnsupported => "TERMINAL RESIZE IS NOT IMPLEMENTED",
            PromptError::OffScreen => "CURSOR OUTSIDE THE ADDRESSABLE SCREEN",
        }
    }
}

/// The line after `e`, and what follows for the session.
pub open spec fn dispatched(v: LineView, e: InputEvent) -> (LineView, Result<Response, PromptError>) {
    match e {
        InputEvent::Key(k) => match k.modifiers {
            KeyModifiers::NoModifier => match k.code {
                KeyCode::Char(c) => (v.inserted(c), Ok(Response::Redraw)),
                KeyCode::Backspace => (v.backspaced(), Ok(Response::Redraw)),
                KeyCode::Delete => (
                    if v.cursor < v.content.len() {
                        v.deleted()
                    } else {
                        v
                    },
                    Ok(Response::Redraw),
                ),
                KeyCode::Left => (v.moved_left(), Ok(Response::Reposition)),
                KeyCode::Right => (v.moved_right(), Ok(Response::Reposition)),
                KeyCode::Enter => (v, Ok(Response::Accept)),
                KeyCode::Other => (v, Err(PromptError::UnsupportedKey)),
            },
            KeyModifiers::Shift => match k.code {
                KeyCode::Char(c) => (v.inserted(c), Ok(Response::Redraw)),
                KeyCode::Right => (v.inserted_seq(DEBUG_TOKEN@), Ok(Response::Redraw)),
                _ => (v, Err(PromptError::UnsupportedKeyCombination)),
            },
            KeyModifiers::Other => (v, Err(PromptError::UnsupportedKeyCombination)),
        },
        InputEvent::Mouse => (v, Err(PromptError::MouseCaptureEnabled)),
        InputEvent::Paste => (v, Err(PromptError::BracketedPasteEnabled)),
        InputEvent::FocusGained => (v, Ok(Response::Ignore)),
        InputEvent::FocusLost => (v, Ok(Response::Ignore)),
        InputEvent::Resize(_, _) => (v, Err(PromptError::ResizeUnsupported)),
    }
}

/// Applies one input event to the line. Forward-delete at the end of the
/// line leaves it as it is.
pub fn handle(line: &mut LineBuffer, event: InputEvent) -> (r: Result<Response, PromptError>)
    requires
        old(line)@.wf(),
    ensures
        (final(line)@, r) == dispatched(old(line)@, event),
        final(line)@.wf(),
{
    match event {
        InputEvent::Key(k) => match k.modifiers {
            KeyModifiers::NoModifier => match k.code {
                KeyCode::Char(c) => {
                    line.insert(c);
                    Ok(Response::Redraw)
                },
                KeyCode::Backspace => {
                    line.backspace();
                    Ok(Response::Redraw)
                },
                KeyCode::Delete => {
                    if line.cursor_index() < line.chars().len() {
                        line.delete();
                    }
                    Ok(Response::Redraw)
                },
                KeyCode::Left => {
                    line.left();
                    Ok(Response::Reposition)
                },
                KeyCode::Right => {
                    line.right();
                    Ok(Response::Reposition)
                },
                KeyCode::Enter => Ok(Response::Accept),
                KeyCode::Other => Err(PromptError::UnsupportedKey),
            },
            KeyModifiers::Shift => match k.code {
                KeyCode::Char(c) => {
                    line.insert(c);
                    Ok(Response::Redraw)
                },
                KeyCode::Right => {
                    line.insert_str(DEBUG_TOKEN);
                    Ok(Response::Redraw)
                },
                _ => Err(PromptError::UnsupportedKeyCombination),
            },
            KeyModifiers::Other => Err(PromptError::UnsupportedKeyCombination),
        },
        InputEvent::Mouse => Err(PromptError::MouseCaptureEnabled),
        InputEvent::Paste => Err(PromptError::BracketedPasteEnabled),
        InputEvent::FocusGained => Ok(Response::Ignore),
        InputEvent::FocusLost => Ok(Response::Ignore),
        InputEvent::Resize(_, _) => Err(PromptError::ResizeUnsupported),
    }
}

} // verus!
