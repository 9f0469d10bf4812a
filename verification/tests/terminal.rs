use ascii_term::terminal_player::player::PlayerCommand;
use ascii_term::terminal_player::terminal::{InputAction, InputEvent, KeyCode, Terminal};

fn key(c: char) -> InputEvent {
    InputEvent::Key { code: KeyCode::Char(c), control_only: false }
}

#[test]
fn quit_keys() {
    let mut terminal = Terminal::new(false);
    for event in [
        key('q'),
        key('Q'),
        InputEvent::Key { code: KeyCode::Esc, control_only: false },
        InputEvent::Key { code: KeyCode::Esc, control_only: true },
        InputEvent::Key { code: KeyCode::Char('c'), control_only: true },
        InputEvent::Key { code: KeyCode::Char('q'), control_only: true },
    ] {
        assert!(matches!(terminal.handle_input_event(event), InputAction::Quit));
    }
    assert!(matches!(terminal.handle_input_event(key('c')), InputAction::Ignore));
    assert!(matches!(
        terminal.handle_input_event(InputEvent::Key { code: KeyCode::Char('C'), control_only: true }),
        InputAction::Ignore
    ));
}

#[test]
fn command_keys() {
    let mut terminal = Terminal::new(false);
    assert!(matches!(
        terminal.handle_input_event(key(' ')),
        InputAction::Send(PlayerCommand::TogglePlayPause)
    ));
    for c in ['m', 'M'] {
        assert!(matches!(
            terminal.handle_input_event(key(c)),
            InputAction::Send(PlayerCommand::ToggleMute)
        ));
    }
    for c in ['h', 'H'] {
        assert!(matches!(terminal.handle_input_event(key(c)), InputAction::ShowHelp));
    }
    for (c, index) in [('0', 0u8), ('1', 1), ('5', 5), ('9', 9)] {
        match terminal.handle_input_event(key(c)) {
            InputAction::Send(PlayerCommand::SetCharMap(i)) => assert_eq!(i, index),
            other => panic!("unexpected {:?}", other),
        }
    }
    for c in ['/', ':', 'x', '٣', '\n'] {
        assert!(matches!(terminal.handle_input_event(key(c)), InputAction::Ignore));
    }
    assert!(matches!(
        terminal.handle_input_event(InputEvent::Key { code: KeyCode::Other, control_only: false }),
        InputAction::Ignore
    ));
    assert!(matches!(terminal.handle_input_event(InputEvent::Other), InputAction::Ignore));
    assert!(!terminal.grayscale_mode());
}

#[test]
fn grayscale_and_resize() {
    let mut terminal = Terminal::new(false);
    assert!(matches!(
        terminal.handle_input_event(key('g')),
        InputAction::SendAndRedraw(PlayerCommand::ToggleGrayscale)
    ));
    assert!(terminal.grayscale_mode());
    assert!(matches!(
        terminal.handle_input_event(key('G')),
        InputAction::SendAndRedraw(PlayerCommand::ToggleGrayscale)
    ));
    assert!(!terminal.grayscale_mode());
    match terminal.handle_input_event(InputEvent::Resize(100, 30)) {
        InputAction::SendAndClear(PlayerCommand::Resize(w, h)) => {
            assert_eq!((w, h), (100, 30));
        }
        other => panic!("unexpected {:?}", other),
    }
    assert!(Terminal::new(true).grayscale_mode());
}
