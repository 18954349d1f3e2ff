//! Player commands: headings, the opposite-heading rule, and the fixed
//! key-to-command mapping. Key events are handed in as plain values; the
//! non-blocking keyboard polling itself lives outside the library.

use vstd::prelude::*;

verus! {

/// A heading the snake can move in.
#[derive(Clone, Copy, PartialEq, Eq, Structural, Debug)]
pub enum Direction {
    Up,
    Right,
    Down,
    Left,
}

/// The heading pointing the opposite way: the one a running snake must
/// not reverse into.
pub open spec fn opposite(d: Direction) -> Direction {
    match d {
        Direction::Up => Direction::Down,
        Direction::Right => Direction::Left,
        Direction::Down => Direction::Up,
        Direction::Left => Direction::Right,
    }
}

/// Law: each heading is opposite to exactly one other, and that pairing
/// is an involution — the opposite of the opposite is the heading
/// itself.
pub proof fn lemma_opposite_involution(d: Direction)
    ensures
        opposite(opposite(d)) == d,
        opposite(d) != d,
{
}

impl Direction {
    /// Whether `other` points the opposite way from `self`.
    pub fn is_opposite(&mut self, other: &Direction) -> (r: bool)
        ensures
            *final(self) == *old(self),
            r == (*other == opposite(*old(self))),
    {
        match (*self, *other) {
            (Direction::Up, Direction::Down) => true,
            (Direction::Right, Direction::Left) => true,
            (Direction::Down, Direction::Up) => true,
            (Direction::Left, Direction::Right) => true,
            _ => false,
        }
    }

    /// Adopt `other_direction` as the new heading unless it is opposite to
    /// the current one, in which case the current heading is retained.
    pub fn move_to(&mut self, other_direction: Direction)
        ensures
            other_direction == opposite(*old(self)) ==> *final(self) == *old(self),
            other_direction != opposite(*old(self)) ==> *final(self) == other_direction,
    {
        if !self.is_opposite(&other_direction) {
            *self = other_direction;
        }
    }
}

/// A decoded player command.
#[derive(Clone, Copy, PartialEq, Eq, Structural, Debug)]
pub enum Command {
    Move(Direction),
    Quit,
}

/// A key combination outside the fixed command mapping.
#[derive(Clone, Copy, PartialEq, Eq, Structural, Debug)]
pub struct InvalidCommandError;

/// A requested heading the snake cannot take.
#[derive(Clone, Copy, PartialEq, Eq, Structural, Debug)]
pub struct InvalidDirection;

/// The modifier held down with a key press.
#[derive(Clone, Copy, PartialEq, Eq, Structural, Debug)]
pub enum KeyModifier {
    Plain,
    Control,
    OtherModifier,
}

/// What a key press carries once decoded from the input stream: the
/// character typed, if it was a character key, and the modifier.
#[derive(Clone, Copy, PartialEq, Eq, Structural, Debug)]
pub struct KeyStroke {
    pub modifier: KeyModifier,
    pub character: Option<char>,
}

/// The fixed key mapping: `q` quits, `h`/`j`/`k`/`l` steer left, down,
/// up and right, and Ctrl-`c` quits; nothing else is a command.
pub open spec fn command_of_key(key: KeyStroke) -> Option<Command> {
    match (key.modifier, key.character) {
        (KeyModifier::Plain, Some('q')) => Some(Command::Quit),
        (KeyModifier::Plain, Some('j')) => Some(Command::Move(Direction::Down)),
        (KeyModifier::Plain, Some('k')) => Some(Command::Move(Direction::Up)),
        (KeyModifier::Plain, Some('h')) => Some(Command::Move(Direction::Left)),
        (KeyModifier::Plain, Some('l')) => Some(Command::Move(Direction::Right)),
        (KeyModifier::Control, Some('c')) => Some(Command::Quit),
        _ => None,
    }
}

impl Command {
    /// Decode one key press through the fixed mapping; any key outside it
    /// is rejected as `InvalidCommandError`.
    pub fn from_key(key: KeyStroke) -> (r: Result<Command, InvalidCommandError>)
        ensures
            command_of_key(key) matches Some(c) ==> r == Ok::<Command, InvalidCommandError>(c),
            command_of_key(key) is None ==> r == Err::<Command, InvalidCommandError>(
                InvalidCommandError,
            ),
    {
        match key.modifier {
            KeyModifier::Plain => match key.character {
                Some('q') => Ok(Command::Quit),
                Some('j') => Ok(Command::Move(Direction::Down)),
                Some('k') => Ok(Command::Move(Direction::Up)),
                Some('h') => Ok(Command::Move(Direction::Left)),
                Some('l') => Ok(Command::Move(Direction::Right)),
                _ => Err(InvalidCommandError),
            },
            KeyModifier::Control => match key.character {
                Some('c') => Ok(Command::Quit),
                _ => Err(InvalidCommandError),
            },
            KeyModifier::OtherModifier => Err(InvalidCommandError),
        }
    }
}

} // verus!
