//! The player's intents, and how key presses turn into them.

use vstd::prelude::*;

verus! {

/// What the player asks for.
#[derive(Debug, Clone, Copy, PartialEq, Eq, Structural)]
pub enum GameInput {
    Up,
    Down,
    Left,
    Right,
    /// Space or Enter: pitch, swing, field or go on, by context.
    Action,
    SelectPitch(usize),
    SelectAwayTeam,
    SelectHomeTeam,
    NumberInput(char),
    Pause,
    Quit,
    /// A keypad digit, 1 to 9, that aims at a cell directly.
    DirectPosition(u8),
}

/// Whether the keys typed next are the digits of a team number.
#[derive(Debug, Clone, Copy, PartialEq, Eq, Structural)]
pub enum TeamSelectionInputMode {
    Idle,
    AwaitingAwayNumber,
    AwaitingHomeNumber,
}

/// A key of the keyboard, as far as the game tells keys apart.
#[derive(Debug, Clone, Copy, PartialEq, Eq, Structural)]
pub enum Key {
    Up,
    Down,
    Left,
    Right,
    Enter,
    Esc,
    Backspace,
    Char(char),
    Other,
}

/// One key press.
#[derive(Debug, Clone, Copy, PartialEq, Eq, Structural)]
pub struct KeyPress {
    pub key: Key,
    pub shift: bool,
}

/// The value of a decimal digit character.
pub open spec fn digit_value(c: char) -> int {
    c as u32 - '0' as u32
}

/// The intent behind a key press while a team number is awaited, and whether
/// the number is still awaited afterwards. Digits are passed on, Enter ends
/// the number, Escape abandons it, and every other key is swallowed.
pub open spec fn awaited_key(press: KeyPress) -> (Option<GameInput>, bool) {
    match press.key {
        Key::Char(c) => {
            if '0' <= c <= '9' {
                (Some(GameInput::NumberInput(c)), true)
            } else if c == '\r' || c == '\n' {
                (Some(GameInput::Action), false)
            } else {
                (None, true)
            }
        },
        Key::Enter => (Some(GameInput::Action), false),
        Key::Esc => (None, false),
        _ => (None, true),
    }
}

/// The intent behind a key press in play.
pub open spec fn plain_key(press: KeyPress) -> Option<GameInput> {
    match press.key {
        Key::Up => Some(GameInput::Up),
        Key::Down => Some(GameInput::Down),
        Key::Left => Some(GameInput::Left),
        Key::Right => Some(GameInput::Right),
        Key::Enter => Some(GameInput::Action),
        Key::Esc => Some(GameInput::Pause),
        Key::Char(c) => {
            if c == ' ' {
                Some(GameInput::Action)
            } else if c == 'q' || c == 'Q' {
                Some(GameInput::Quit)
            } else if '1' <= c <= '4' && !press.shift {
                Some(GameInput::SelectPitch((digit_value(c) - 1) as usize))
            } else if '1' <= c <= '9' && press.shift {
                Some(GameInput::DirectPosition(digit_value(c) as u8))
            } else if c == 'a' || c == 'A' {
                Some(GameInput::SelectAwayTeam)
            } else if c == 'h' || c == 'H' {
                Some(GameInput::SelectHomeTeam)
            } else {
                None
            }
        },
        Key::Backspace | Key::Other => None,
    }
}

/// Turns key presses into intents. It remembers whether a team number is
/// being typed, because digits mean something else then.
pub struct InputPoller {
    pub team_selection_mode: TeamSelectionInputMode,
}

impl InputPoller {
    pub fn new() -> (poller: Self)
        ensures
            poller.team_selection_mode == TeamSelectionInputMode::Idle,
    {
        Self { team_selection_mode: TeamSelectionInputMode::Idle }
    }

    /// Reads one key press.
    pub fn parse_key_input(&mut self, press: KeyPress) -> (input: Option<GameInput>)
        ensures
            old(self).team_selection_mode != TeamSelectionInputMode::Idle ==> {
                &&& input == awaited_key(press).0
                &&& final(self).team_selection_mode == if awaited_key(press).1 {
                    old(self).team_selection_mode
                } else {
                    TeamSelectionInputMode::Idle
                }
            },
            old(self).team_selection_mode == TeamSelectionInputMode::Idle ==> {
                &&& input == plain_key(press)
                &&& final(self).team_selection_mode == match plain_key(press) {
                    Some(GameInput::SelectAwayTeam) => TeamSelectionInputMode::AwaitingAwayNumber,
                    Some(GameInput::SelectHomeTeam) => TeamSelectionInputMode::AwaitingHomeNumber,
                    _ => TeamSelectionInputMode::Idle,
                }
            },
    {
        if self.team_selection_mode != TeamSelectionInputMode::Idle {
            match press.key {
                Key::Char(c) => {
                    if c >= '0' && c <= '9' {
                        return Some(GameInput::NumberInput(c));
                    } else if c == '\r' || c == '\n' {
                        self.team_selection_mode = TeamSelectionInputMode::Idle;
                        return Some(GameInput::Action);
                    }
                },
                Key::Enter => {
                    self.team_selection_mode = TeamSelectionInputMode::Idle;
                    return Some(GameInput::Action);
                },
                Key::Esc => {
                    self.team_selection_mode = TeamSelectionInputMode::Idle;
                    return None;
                },
                _ => {},
            }
            return None;
        }
        match press.key {
            Key::Up => Some(GameInput::Up),
            Key::Down => Some(GameInput::Down),
            Key::Left => Some(GameInput::Left),
            Key::Right => Some(GameInput::Right),
            Key::Enter => Some(GameInput::Action),
            Key::Esc => Some(GameInput::Pause),
            Key::Char(c) => {
                if c == ' ' {
                    Some(GameInput::Action)
                } else if c == 'q' || c == 'Q' {
                    Some(GameInput::Quit)
                } else if c >= '1' && c <= '4' && !press.shift {
                    let num = c as u32 - '0' as u32;
                    Some(GameInput::SelectPitch((num - 1) as usize))
                } else if c >= '1' && c <= '9' && press.shift {
                    let num = c as u32 - '0' as u32;
                    Some(GameInput::DirectPosition(num as u8))
                } else if c == 'a' || c == 'A' {
                    self.team_selection_mode = TeamSelectionInputMode::AwaitingAwayNumber;
                    Some(GameInput::SelectAwayTeam)
                } else if c == 'h' || c == 'H' {
                    self.team_selection_mode = TeamSelectionInputMode::AwaitingHomeNumber;
                    Some(GameInput::SelectHomeTeam)
                } else {
                    None
                }
            },
            Key::Backspace | Key::Other => None,
        }
    }
}

/// The directions held down while aiming.
#[derive(Debug, Clone, Copy, PartialEq, Eq, Structural)]
pub struct InputState {
    pub up: bool,
    pub down: bool,
    pub left: bool,
    pub right: bool,
}

impl InputState {
    /// The directions after one more input: a direction is added, anything
    /// else changes nothing.
    pub open spec fn pressed(self, input: GameInput) -> InputState {
        match input {
            GameInput::Up => InputState { up: true, ..self },
            GameInput::Down => InputState { down: true, ..self },
            GameInput::Left => InputState { left: true, ..self },
            GameInput::Right => InputState { right: true, ..self },
            _ => self,
        }
    }

    pub open spec fn released() -> InputState {
        InputState { up: false, down: false, left: false, right: false }
    }

    pub fn new() -> (state: Self)
        ensures
            state == Self::released(),
    {
        Self { up: false, down: false, left: false, right: false }
    }

    pub fn update(&mut self, input: &GameInput)
        ensures
            *final(self) == old(self).pressed(*input),
    {
        match input {
            GameInput::Up => self.up = true,
            GameInput::Down => self.down = true,
            GameInput::Left => self.left = true,
            GameInput::Right => self.right = true,
            _ => {},
        }
    }

    pub fn reset(&mut self)
        ensures
            *final(self) == Self::released(),
    {
        self.up = false;
        self.down = false;
        self.left = false;
        self.right = false;
    }
}

} // verus!
