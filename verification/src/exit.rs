//! Things related to app exit

use vstd::prelude::*;

verus! {

/// Should the application quit?
#[derive(Clone, Copy, Debug, PartialEq, Eq, Structural)]
pub enum PollResult {
    /// Do not quit
    Continue,
    /// Quit
    Quit,
}

/// Holds state on whether we should quit or not
#[derive(Clone, Copy, Debug)]
pub struct ShouldQuit {
    pub(crate) result: PollResult,
}

/// What a key did when the terminal reported it.
#[derive(Clone, Copy, Debug, PartialEq, Eq, Structural)]
pub enum KeyKind {
    /// The key went down
    Press,
    /// The key is held and repeats
    Repeat,
    /// The key went up
    Release,
}

/// Which key the terminal reported, as far as quitting depends on it.
#[derive(Clone, Copy, Debug, PartialEq, Eq, Structural)]
pub enum Key {
    /// A key that stands for a character
    Char(char),
    /// Any other key
    Other,
}

/// One key event read from the terminal.
#[derive(Clone, Copy, Debug, PartialEq, Eq, Structural)]
pub struct KeyInput {
    /// The key itself
    pub key: Key,
    /// Whether the control modifier was held
    pub control: bool,
    /// What the key did
    pub kind: KeyKind,
}

/// One event read from the terminal.
#[derive(Clone, Copy, Debug, PartialEq, Eq, Structural)]
pub enum TerminalInput {
    /// A key event
    Key(KeyInput),
    /// Anything else: the mouse, a resize, a paste
    Other,
}

/// The key event is a press of the key for `character`.
pub open spec fn is_press_of(key: KeyInput, character: char) -> bool {
    key.key == Key::Char(character) && key.kind == KeyKind::Press
}

/// The input asks to quit: a press of `q`, or a press of `c` with control held.
/// No input at all, or any other input, does not.
pub open spec fn asks_to_quit(input: Option<TerminalInput>) -> bool {
    match input {
        Some(TerminalInput::Key(key)) => is_press_of(key, 'q') || (is_press_of(key, 'c')
            && key.control),
        _ => false,
    }
}

impl ShouldQuit {
    /// The decision this state holds.
    pub closed spec fn spec_result(&self) -> PollResult {
        self.result
    }

    /// The state before any input was seen: do not quit.
    pub fn new() -> (state: Self)
        ensures
            state.result() == PollResult::Continue,
    {
        ShouldQuit { result: PollResult::Continue }
    }

    /// Gets the result of whether we should quit or not
    #[must_use]
    #[verifier::when_used_as_spec(spec_result)]
    pub fn result(&self) -> (result: PollResult)
        ensures
            result == self.spec_result(),
    {
        self.result
    }
}

/// Whether the key event is a press of the key for `character`.
pub fn key_pressed(key: KeyInput, character: char) -> (pressed: bool)
    ensures
        pressed == is_press_of(key, character),
{
    match key.key {
        Key::Char(c) => c == character && key.kind == KeyKind::Press,
        Key::Other => false,
    }
}

/// Takes what polling the terminal gave in this frame (`None` when no event was
/// ready) and records whether to quit. The decision is made anew each frame:
/// what was recorded before plays no part.
pub fn poll_terminal_input(should_quit: &mut ShouldQuit, input: Option<TerminalInput>)
    ensures
        final(should_quit).result() == if asks_to_quit(input) {
            PollResult::Quit
        } else {
            PollResult::Continue
        },
{
    if let Some(TerminalInput::Key(key)) = input {
        if key_pressed(key, 'q') {
            should_quit.result = PollResult::Quit;
            return ;
        }
        if key_pressed(key, 'c') && key.control {
            should_quit.result = PollResult::Quit;
            return ;
        }
    }
    should_quit.result = PollResult::Continue;
}

/// Handle app exit: whether the application has to leave now, which is when the
/// recorded decision is to quit.
pub fn exit_system(should_quit: &ShouldQuit) -> (leave: bool)
    ensures
        leave == (should_quit.result() == PollResult::Quit),
{
    should_quit.result() == PollResult::Quit
}

} // verus!
