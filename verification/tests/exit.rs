use bevy_headless::exit::{
    exit_system, key_pressed, poll_terminal_input, Key, KeyInput, KeyKind, PollResult, ShouldQuit,
    TerminalInput,
};

fn key(character: char, control: bool, kind: KeyKind) -> KeyInput {
    KeyInput { key: Key::Char(character), control, kind }
}

fn poll(input: Option<TerminalInput>) -> PollResult {
    let mut should_quit = ShouldQuit::new();
    poll_terminal_input(&mut should_quit, input);
    should_quit.result()
}

#[test]
fn starts_out_continuing() {
    let should_quit = ShouldQuit::new();
    assert_eq!(should_quit.result(), PollResult::Continue);
    assert!(!exit_system(&should_quit));
}

#[test]
fn no_input_continues() {
    assert_eq!(poll(None), PollResult::Continue);
}

#[test]
fn input_that_is_no_key_continues() {
    assert_eq!(poll(Some(TerminalInput::Other)), PollResult::Continue);
}

#[test]
fn press_of_q_quits() {
    let input = TerminalInput::Key(key('q', false, KeyKind::Press));
    assert_eq!(poll(Some(input)), PollResult::Quit);
}

#[test]
fn press_of_q_with_control_quits() {
    let input = TerminalInput::Key(key('q', true, KeyKind::Press));
    assert_eq!(poll(Some(input)), PollResult::Quit);
}

#[test]
fn press_of_control_c_quits() {
    let input = TerminalInput::Key(key('c', true, KeyKind::Press));
    assert_eq!(poll(Some(input)), PollResult::Quit);
}

#[test]
fn press_of_c_alone_continues() {
    let input = TerminalInput::Key(key('c', false, KeyKind::Press));
    assert_eq!(poll(Some(input)), PollResult::Continue);
}

#[test]
fn release_and_repeat_continue() {
    for kind in [KeyKind::Release, KeyKind::Repeat] {
        assert_eq!(poll(Some(TerminalInput::Key(key('q', false, kind)))), PollResult::Continue);
        assert_eq!(poll(Some(TerminalInput::Key(key('c', true, kind)))), PollResult::Continue);
    }
}

#[test]
fn other_keys_continue() {
    assert_eq!(poll(Some(TerminalInput::Key(key('Q', false, KeyKind::Press)))), PollResult::Continue);
    assert_eq!(poll(Some(TerminalInput::Key(key('C', true, KeyKind::Press)))), PollResult::Continue);
    assert_eq!(poll(Some(TerminalInput::Key(key('x', true, KeyKind::Press)))), PollResult::Continue);
    let escape = KeyInput { key: Key::Other, control: true, kind: KeyKind::Press };
    assert_eq!(poll(Some(TerminalInput::Key(escape))), PollResult::Continue);
}

#[test]
fn decision_is_made_anew_each_frame() {
    let mut should_quit = ShouldQuit::new();
    poll_terminal_input(&mut should_quit, Some(TerminalInput::Key(key('q', false, KeyKind::Press))));
    assert_eq!(should_quit.result(), PollResult::Quit);
    assert!(exit_system(&should_quit));
    poll_terminal_input(&mut should_quit, None);
    assert_eq!(should_quit.result(), PollResult::Continue);
    assert!(!exit_system(&should_quit));
}

#[test]
fn key_pressed_wants_the_character_and_a_press() {
    assert!(key_pressed(key('q', false, KeyKind::Press), 'q'));
    assert!(key_pressed(key('q', true, KeyKind::Press), 'q'));
    assert!(!key_pressed(key('q', false, KeyKind::Press), 'c'));
    assert!(!key_pressed(key('q', false, KeyKind::Release), 'q'));
    assert!(!key_pressed(key('q', false, KeyKind::Repeat), 'q'));
    let other = KeyInput { key: Key::Other, control: false, kind: KeyKind::Press };
    assert!(!key_pressed(other, 'q'));
}

#[test]
fn should_quit_is_copied_by_value() {
    let mut first = ShouldQuit::new();
    let second = first;
    poll_terminal_input(&mut first, Some(TerminalInput::Key(key('q', false, KeyKind::Press))));
    assert_eq!(first.result(), PollResult::Quit);
    assert_eq!(second.result(), PollResult::Continue);
}
