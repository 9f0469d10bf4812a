//! What the keys of the terminal mean.

use crate::terminal_player::player::PlayerCommand;
use vstd::prelude::*;

verus! {

/// A key as the terminal reports it.
#[derive(Debug, Clone, Copy, PartialEq, Eq, Structural)]
pub enum KeyCode {
    Char(char),
    Esc,
    Other,
}

/// What the terminal reports.
#[derive(Debug, Clone, Copy, PartialEq, Eq, Structural)]
pub enum InputEvent {
    /// A key was pressed. `control_only` says that the control key, and no
    /// other modifier, was held down with it.
    Key { code: KeyCode, control_only: bool },
    /// The terminal now has this many columns and rows.
    Resize(u16, u16),
    Other,
}

/// What is to be done about an input event.
#[derive(Debug, Clone)]
pub enum InputAction {
    /// Send the stop command and end the input loop.
    Quit,
    /// Send this command.
    Send(PlayerCommand),
    /// Send this command and draw the last frame again.
    SendAndRedraw(PlayerCommand),
    /// Send this command and clear the screen.
    SendAndClear(PlayerCommand),
    /// Show the help text.
    ShowHelp,
    Ignore,
}

/// The character is one of the digits 0 to 9.
pub open spec fn is_digit(c: char) -> bool {
    48 <= c as u32 <= 57
}

/// The event ends playback: `q`, `Q`, escape, or `c` with the control key.
pub open spec fn is_quit(event: InputEvent) -> bool {
    event matches InputEvent::Key { code, control_only } && (code == KeyCode::Char('q') || code
        == KeyCode::Char('Q') || code == KeyCode::Esc || (code == KeyCode::Char('c')
        && control_only))
}

/// The event flips between colour and grey: `g` or `G`.
pub open spec fn is_grayscale_toggle(event: InputEvent) -> bool {
    event matches InputEvent::Key { code, control_only } && (code == KeyCode::Char('g') || code
        == KeyCode::Char('G'))
}

/// What an event asks for.
pub open spec fn action_for(event: InputEvent) -> InputAction {
    match event {
        InputEvent::Resize(width, height) => InputAction::SendAndClear(
            PlayerCommand::Resize(width, height),
        ),
        InputEvent::Other => InputAction::Ignore,
        InputEvent::Key { code, control_only } => if is_quit(event) {
            InputAction::Quit
        } else {
            match code {
                KeyCode::Char(c) => if c == ' ' {
                    InputAction::Send(PlayerCommand::TogglePlayPause)
                } else if c == 'm' || c == 'M' {
                    InputAction::Send(PlayerCommand::ToggleMute)
                } else if c == 'g' || c == 'G' {
                    InputAction::SendAndRedraw(PlayerCommand::ToggleGrayscale)
                } else if is_digit(c) {
                    InputAction::Send(PlayerCommand::SetCharMap((c as u32 - 48) as u8))
                } else if c == 'h' || c == 'H' {
                    InputAction::ShowHelp
                } else {
                    InputAction::Ignore
                },
                _ => InputAction::Ignore,
            }
        },
    }
}

/// The input side of the terminal: whether it draws in grey.
pub struct Terminal {
    grayscale_mode: bool,
}

impl View for Terminal {
    type V = bool;

    closed spec fn view(&self) -> bool {
        self.grayscale_mode
    }
}

impl Terminal {
    pub fn new(grayscale_mode: bool) -> (terminal: Self)
        ensures
            terminal@ == grayscale_mode,
    {
        Self { grayscale_mode }
    }

    pub fn grayscale_mode(&self) -> (grayscale: bool)
        ensures
            grayscale == self@,
    {
        self.grayscale_mode
    }

    /// Decides what an input event asks for. `g` flips the terminal between
    /// colour and grey; nothing else changes the terminal.
    pub fn handle_input_event(&mut self, event: InputEvent) -> (action: InputAction)
        ensures
            action == action_for(event),
            final(self)@ == (if !is_quit(event) && is_grayscale_toggle(event) {
                !old(self)@
            } else {
                old(self)@
            }),
    {
        match event {
            InputEvent::Resize(width, height) => InputAction::SendAndClear(
                PlayerCommand::Resize(width, height),
            ),
            InputEvent::Other => InputAction::Ignore,
            InputEvent::Key { code, control_only } => {
                match code {
                    KeyCode::Esc => InputAction::Quit,
                    KeyCode::Other => InputAction::Ignore,
                    KeyCode::Char(c) => {
                        let digit: u32 = c as u32;
                        if c == 'q' || c == 'Q' || (c == 'c' && control_only) {
                            InputAction::Quit
                        } else if c == ' ' {
                            InputAction::Send(PlayerCommand::TogglePlayPause)
                        } else if c == 'm' || c == 'M' {
                            InputAction::Send(PlayerCommand::ToggleMute)
                        } else if c == 'g' || c == 'G' {
                            self.grayscale_mode = !self.grayscale_mode;
                            InputAction::SendAndRedraw(PlayerCommand::ToggleGrayscale)
                        } else if 48 <= digit && digit <= 57 {
                            InputAction::Send(PlayerCommand::SetCharMap((digit - 48) as u8))
                        } else if c == 'h' || c == 'H' {
                            InputAction::ShowHelp
                        } else {
                            InputAction::Ignore
                        }
                    },
                }
            },
        }
    }
}

} // verus!
